//! Notification by HTTP request.
//!
//! The configuration names a URL and headers; each notification is a `POST` to that URL
//! with those headers. Reading the configuration file and sending the request are the
//! caller's.

use vstd::prelude::*;

verus! {

/// An HTTP header: a name and its value.
#[derive(Debug, Clone)]
pub struct Header {
    pub name: String,
    pub value: String,
}

/// What the user configures of a notification: where it goes and its headers.
#[derive(Debug, Clone)]
pub struct HttpNotificationConfig {
    pub url: String,
    pub headers: Vec<Header>,
}

/// Sends notifications as HTTP requests built from a configuration.
pub struct HttpSignalSender {
    pub config: HttpNotificationConfig,
}

impl HttpSignalSender {
    /// A sender that follows `config`.
    pub fn new(config: HttpNotificationConfig) -> (r: Self)
        ensures
            r.config == config,
    {
        Self { config }
    }

    /// The URL the requests go to.
    pub fn url(&self) -> (r: &String)
        ensures
            r@ == self.config.url@,
    {
        &self.config.url
    }

    /// The headers of every request, in the configured order, as name and value pairs.
    pub fn headers(&self) -> (r: Vec<(String, String)>)
        ensures
            r@.len() == self.config.headers@.len(),
            forall|i: int|
                0 <= i < r@.len() ==> (#[trigger] r@[i]).0@ == self.config.headers@[i].name@
                    && r@[i].1@ == self.config.headers@[i].value@,
    {
        let mut out: Vec<(String, String)> = Vec::new();
        let mut i: usize = 0;
        while i < self.config.headers.len()
            invariant
                i <= self.config.headers@.len(),
                out@.len() == i,
                forall|k: int|
                    0 <= k < i ==> (#[trigger] out@[k]).0@ == self.config.headers@[k].name@
                        && out@[k].1@ == self.config.headers@[k].value@,
            decreases self.config.headers@.len() - i,
        {
            let h = &self.config.headers[i];
            out.push((h.name.clone(), h.value.clone()));
            i = i + 1;
        }
        out
    }
}

} // verus!
