//! The user's threshold expressions, and the variables they can read.
//!
//! An expression is evaluated against the figures of a process; a result of `1` or more
//! counts as a match. The variables are `memory_usage` (percent of the limit),
//! `memory_current`, `memory_max`, `oom_score`, `oom_score_adj` and
//! `{resource}_pressure_{severity}_{window}` with the resources `memory`, `io` and `cpu`,
//! the severities `some` and `full`, and the windows `avg10`, `avg60`, `avg300` and
//! `total`.

use crate::arguments::validate_expression;
use crate::arguments::{fasteval_parse_error, parsed_from, ParsedExpression, ParsedExpressionView};
use crate::errors::{Error, ErrorView};
use crate::processes::{
    push_resource_name, push_severity_name, push_window_name, resource_name, severity_name,
    window_name, Resource, StallSeverity, StallWindow,
};
use crate::text::{chars_are, chars_equal, chars_of, concat_str, push_str};
use vstd::prelude::*;

verus! {

/// A variable of the threshold expressions.
#[derive(Debug, Clone, Copy, PartialEq, Eq, Structural)]
pub enum Variable {
    MemoryUsage,
    MemoryCurrent,
    MemoryMax,
    OomScore,
    OomScoreAdj,
    Pressure(Resource, StallSeverity, StallWindow),
}

/// `{resource}_pressure_{severity}_{window}`.
pub open spec fn pressure_variable_name(r: Resource, s: StallSeverity, w: StallWindow) -> Seq<
    char,
> {
    resource_name(r) + seq!['_', 'p', 'r', 'e', 's', 's', 'u', 'r', 'e', '_'] + severity_name(s)
        + seq!['_'] + window_name(w)
}

/// The pressure variable of resource `r` and severity `s` named `n`, if any.
pub open spec fn pressure_window_named(n: Seq<char>, r: Resource, s: StallSeverity) -> Option<
    Variable,
> {
    if n == pressure_variable_name(r, s, StallWindow::Avg10) {
        Some(Variable::Pressure(r, s, StallWindow::Avg10))
    } else if n == pressure_variable_name(r, s, StallWindow::Avg60) {
        Some(Variable::Pressure(r, s, StallWindow::Avg60))
    } else if n == pressure_variable_name(r, s, StallWindow::Avg300) {
        Some(Variable::Pressure(r, s, StallWindow::Avg300))
    } else if n == pressure_variable_name(r, s, StallWindow::Total) {
        Some(Variable::Pressure(r, s, StallWindow::Total))
    } else {
        None
    }
}

/// The pressure variable of resource `r` named `n`, if any.
pub open spec fn pressure_severity_named(n: Seq<char>, r: Resource) -> Option<Variable> {
    match pressure_window_named(n, r, StallSeverity::Partial) {
        Some(v) => Some(v),
        None => pressure_window_named(n, r, StallSeverity::Full),
    }
}

/// The pressure variable named `n`, if any.
pub open spec fn pressure_named(n: Seq<char>) -> Option<Variable> {
    match pressure_severity_named(n, Resource::Memory) {
        Some(v) => Some(v),
        None => match pressure_severity_named(n, Resource::Io) {
            Some(v) => Some(v),
            None => pressure_severity_named(n, Resource::Cpu),
        },
    }
}

/// The variable named `n`, if any.
pub open spec fn variable_named(n: Seq<char>) -> Option<Variable> {
    if n == "memory_usage"@ {
        Some(Variable::MemoryUsage)
    } else if n == "memory_current"@ {
        Some(Variable::MemoryCurrent)
    } else if n == "memory_max"@ {
        Some(Variable::MemoryMax)
    } else if n == "oom_score"@ {
        Some(Variable::OomScore)
    } else if n == "oom_score_adj"@ {
        Some(Variable::OomScoreAdj)
    } else {
        pressure_named(n)
    }
}

fn pressure_name_chars(r: Resource, s: StallSeverity, w: StallWindow) -> (out: Vec<char>)
    ensures
        out@ == pressure_variable_name(r, s, w),
{
    let mut v: Vec<char> = Vec::new();
    push_resource_name(&mut v, r);
    let mid = ['_', 'p', 'r', 'e', 's', 's', 'u', 'r', 'e', '_'];
    let mut i: usize = 0;
    let ghost base = v@;
    while i < 10
        invariant
            i <= 10,
            mid@ == seq!['_', 'p', 'r', 'e', 's', 's', 'u', 'r', 'e', '_'],
            v@ == base + mid@.take(i as int),
        decreases 10 - i,
    {
        v.push(mid[i]);
        assert(base + mid@.take(i as int) + seq![mid@[i as int]] =~= base + mid@.take(i + 1));
        i = i + 1;
    }
    assert(mid@.take(10) =~= mid@);
    push_severity_name(&mut v, s);
    v.push('_');
    push_window_name(&mut v, w);
    assert(v@ =~= pressure_variable_name(r, s, w));
    v
}

fn window_named(n: &[char], r: Resource, s: StallSeverity) -> (out: Option<Variable>)
    ensures
        out == pressure_window_named(n@, r, s),
{
    let a = pressure_name_chars(r, s, StallWindow::Avg10);
    if chars_equal(n, a.as_slice()) {
        return Some(Variable::Pressure(r, s, StallWindow::Avg10));
    }
    let b = pressure_name_chars(r, s, StallWindow::Avg60);
    if chars_equal(n, b.as_slice()) {
        return Some(Variable::Pressure(r, s, StallWindow::Avg60));
    }
    let c = pressure_name_chars(r, s, StallWindow::Avg300);
    if chars_equal(n, c.as_slice()) {
        return Some(Variable::Pressure(r, s, StallWindow::Avg300));
    }
    let d = pressure_name_chars(r, s, StallWindow::Total);
    if chars_equal(n, d.as_slice()) {
        return Some(Variable::Pressure(r, s, StallWindow::Total));
    }
    None
}

fn severity_named(n: &[char], r: Resource) -> (out: Option<Variable>)
    ensures
        out == pressure_severity_named(n@, r),
{
    match window_named(n, r, StallSeverity::Partial) {
        Some(v) => Some(v),
        None => window_named(n, r, StallSeverity::Full),
    }
}

/// The variable that an expression names `name`, if it is one.
pub fn resolve_variable(name: &str) -> (r: Option<Variable>)
    ensures
        r == variable_named(name@),
{
    let n = chars_of(name);
    if chars_are(n.as_slice(), "memory_usage") {
        Some(Variable::MemoryUsage)
    } else if chars_are(n.as_slice(), "memory_current") {
        Some(Variable::MemoryCurrent)
    } else if chars_are(n.as_slice(), "memory_max") {
        Some(Variable::MemoryMax)
    } else if chars_are(n.as_slice(), "oom_score") {
        Some(Variable::OomScore)
    } else if chars_are(n.as_slice(), "oom_score_adj") {
        Some(Variable::OomScoreAdj)
    } else {
        match severity_named(n.as_slice(), Resource::Memory) {
            Some(v) => Some(v),
            None => match severity_named(n.as_slice(), Resource::Io) {
                Some(v) => Some(v),
                None => severity_named(n.as_slice(), Resource::Cpu),
            },
        }
    }
}

/// The parsed warning and critical expressions, each in a slab of its own, for evaluation
/// against the figures of a process (which the caller does, in floating point: a value of
/// `1` or more is a match).
pub struct Checker {
    warning: ParsedExpression,
    critical: ParsedExpression,
}

/// What a checker is: its parsed warning and critical expressions.
pub struct CheckerView {
    pub warning: ParsedExpressionView,
    pub critical: ParsedExpressionView,
}

impl View for Checker {
    type V = CheckerView;

    closed spec fn view(&self) -> CheckerView {
        CheckerView { warning: self.warning@, critical: self.critical@ }
    }
}

impl Checker {
    /// The parsed warning expression.
    pub fn warning(&self) -> (r: &ParsedExpression)
        ensures
            r@ == self@.warning,
    {
        &self.warning
    }

    /// The parsed critical expression.
    pub fn critical(&self) -> (r: &ParsedExpression)
        ensures
            r@ == self@.critical,
    {
        &self.critical
    }
}

/// The warning and critical expressions the user provides.
#[derive(Debug, Clone)]
pub struct Thresholds {
    pub warning: String,
    pub critical: String,
}

impl Thresholds {
    /// Checks that both expressions parse, the warning one first; the error is the
    /// message of [`validate_expression`].
    pub fn validate(&self) -> (r: Result<(), Error>)
        ensures
            match fasteval_parse_error(self.warning@) {
                Some(m) => r matches Err(e) && e@ == ErrorView::Expression(
                    "invalid expression: "@ + m,
                ),
                None => match fasteval_parse_error(self.critical@) {
                    Some(m) => r matches Err(e) && e@ == ErrorView::Expression(
                        "invalid expression: "@ + m,
                    ),
                    None => r is Ok,
                },
            },
    {
        match validate_expression(self.warning.as_str()) {
            Err(m) => return Err(Error::Expression(m)),
            Ok(_) => {},
        }
        match validate_expression(self.critical.as_str()) {
            Err(m) => Err(Error::Expression(m)),
            Ok(_) => Ok(()),
        }
    }

    /// Parses both expressions, each into its own slot and slab; the first that does not
    /// parse, the warning one first, gives its parser's error.
    pub fn checker(&self) -> (r: Result<Checker, Error>)
        ensures
            r is Ok <==> fasteval_parse_error(self.warning@) is None && fasteval_parse_error(
                self.critical@,
            ) is None,
            r is Ok ==> parsed_from(r->Ok_0@.warning, self.warning@) && parsed_from(
                r->Ok_0@.critical,
                self.critical@,
            ),
            fasteval_parse_error(self.warning@) matches Some(m) ==> r matches Err(e) && e@
                == ErrorView::Expression(m),
            fasteval_parse_error(self.warning@) is None ==> (fasteval_parse_error(
                self.critical@,
            ) matches Some(m) ==> r matches Err(e) && e@ == ErrorView::Expression(m)),
    {
        let warning = match ParsedExpression::parse(self.warning.as_str()) {
            Ok(p) => p,
            Err(m) => return Err(Error::Expression(m)),
        };
        let critical = match ParsedExpression::parse(self.critical.as_str()) {
            Ok(p) => p,
            Err(m) => return Err(Error::Expression(m)),
        };
        Ok(Checker { warning, critical })
    }

    /// The thresholds as they are displayed: `w:'{warning}', c:'{critical}' `.
    pub fn describe(&self) -> (r: String)
        ensures
            r@ == "w:'"@ + self.warning@ + "', c:'"@ + self.critical@ + "' "@,
    {
        let mut s = concat_str("w:'", self.warning.as_str());
        push_str(&mut s, "', c:'");
        push_str(&mut s, self.critical.as_str());
        push_str(&mut s, "' ");
        s
    }
}

proof fn lemma_pressure_names_injective(
    r1: Resource,
    s1: StallSeverity,
    w1: StallWindow,
    r2: Resource,
    s2: StallSeverity,
    w2: StallWindow,
)
    requires
        pressure_variable_name(r1, s1, w1) == pressure_variable_name(r2, s2, w2),
    ensures
        r1 == r2 && s1 == s2 && w1 == w2,
{
    let n1 = pressure_variable_name(r1, s1, w1);
    let n2 = pressure_variable_name(r2, s2, w2);
    assert(n1[0] == resource_name(r1)[0]);
    assert(n2[0] == resource_name(r2)[0]);
    assert(r1 == r2);
    let k: int = resource_name(r1).len() as int + 10;
    assert(n1[k] == severity_name(s1)[0]);
    assert(n2[k] == severity_name(s2)[0]);
    assert(s1 == s2);
    let j: int = k + 5;
    assert(n1[j] == window_name(w1)[0]);
    assert(n2[j] == window_name(w2)[0]);
    assert(n1[j + 3] == window_name(w1)[3]);
    assert(n2[j + 3] == window_name(w2)[3]);
}

/// Each `{resource}_pressure_{severity}_{window}` name denotes that pressure figure.
pub proof fn law_pressure_variable_names(r: Resource, s: StallSeverity, w: StallWindow)
    ensures
        variable_named(pressure_variable_name(r, s, w)) == Some(Variable::Pressure(r, s, w)),
{
    reveal_strlit("memory_usage");
    reveal_strlit("memory_current");
    reveal_strlit("memory_max");
    reveal_strlit("oom_score");
    reveal_strlit("oom_score_adj");
    let n = pressure_variable_name(r, s, w);
    assert(n.len() >= 22);
    assert forall|r2: Resource, s2: StallSeverity, w2: StallWindow|
        #[trigger] pressure_variable_name(r2, s2, w2) == n implies r2 == r && s2 == s && w2
        == w by {
        lemma_pressure_names_injective(r2, s2, w2, r, s, w);
    }
}

/// The variables the documentation lists by name resolve to their figures.
pub proof fn law_scalar_variable_names()
    ensures
        variable_named("memory_usage"@) == Some(Variable::MemoryUsage),
        variable_named("memory_current"@) == Some(Variable::MemoryCurrent),
        variable_named("memory_max"@) == Some(Variable::MemoryMax),
        variable_named("oom_score"@) == Some(Variable::OomScore),
        variable_named("oom_score_adj"@) == Some(Variable::OomScoreAdj),
{
    reveal_strlit("memory_usage");
    reveal_strlit("memory_current");
    reveal_strlit("memory_max");
    reveal_strlit("oom_score");
    reveal_strlit("oom_score_adj");
    assert("memory_current"@[7] != "memory_usage"@[7]);
    assert("memory_max"@.len() != "memory_usage"@.len());
    assert("memory_max"@.len() != "memory_current"@.len());
    assert("oom_score_adj"@.len() != "memory_usage"@.len());
    assert("oom_score_adj"@[0] != "memory_current"@[0]);
    assert("oom_score_adj"@.len() != "memory_max"@.len());
    assert("oom_score_adj"@.len() != "oom_score"@.len());
}

} // verus!
