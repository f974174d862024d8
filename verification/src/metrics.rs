//! The Prometheus gauges the monitor exports for each process.
//!
//! Each report names a gauge, its labels and which figure of the process sets it; the
//! caller sets the gauges through the metrics crate.

use crate::processes::{
    push_severity_name, push_window_name, resource_name, severity_name, window_name, Process,
    Resource, StallSeverity, StallWindow,
};
use crate::text::{decimal, decimal_string, string_of};
use vstd::prelude::*;

verus! {

/// The figure of a process that sets a gauge.
#[derive(Debug, Clone, Copy, PartialEq, Eq, Structural)]
pub enum GaugeValue {
    MemoryUsage,
    OomScore,
    Pressure(Resource, StallSeverity, StallWindow),
}

/// One gauge to set: its name, its labels in order, and the figure that sets it.
#[derive(Debug, Clone)]
pub struct GaugeUpdate {
    pub name: String,
    pub labels: Vec<(String, String)>,
    pub value: GaugeValue,
}

/// The mathematical content of a [`GaugeUpdate`].
pub struct GaugeUpdateView {
    pub name: Seq<char>,
    pub labels: Seq<(Seq<char>, Seq<char>)>,
    pub value: GaugeValue,
}

/// The text of a label.
pub open spec fn label_view(l: (String, String)) -> (Seq<char>, Seq<char>) {
    (l.0@, l.1@)
}

impl View for GaugeUpdate {
    type V = GaugeUpdateView;

    open spec fn view(&self) -> GaugeUpdateView {
        GaugeUpdateView {
            name: self.name@,
            labels: self.labels@.map_values(|l: (String, String)| label_view(l)),
            value: self.value,
        }
    }
}

/// The views of a list of updates.
pub open spec fn updates_view(v: Seq<GaugeUpdate>) -> Seq<GaugeUpdateView> {
    v.map_values(|u: GaugeUpdate| u@)
}

/// The labels that identify a process: `pid` and `cmdline`.
pub open spec fn process_labels(p: Process) -> Seq<(Seq<char>, Seq<char>)> {
    seq![("pid"@, decimal(p.pid as int)), ("cmdline"@, p.cmdline@)]
}

/// The name of the gauge of a resource's pressure: `{resource}_pressure`.
pub open spec fn pressure_gauge_name(r: Resource) -> Seq<char> {
    resource_name(r) + seq!['_', 'p', 'r', 'e', 's', 's', 'u', 'r', 'e']
}

/// The gauge of one pressure figure.
pub open spec fn pressure_gauge(p: Process, r: Resource, s: StallSeverity, w: StallWindow) -> GaugeUpdateView {
    GaugeUpdateView {
        name: pressure_gauge_name(r),
        labels: process_labels(p) + seq![
            ("severity_level"@, severity_name(s)),
            ("severity_window"@, window_name(w)),
        ],
        value: GaugeValue::Pressure(r, s, w),
    }
}

/// The gauges of one pressure line, by window: `avg10`, `avg60`, `avg300`, `total`.
pub open spec fn severity_gauges(p: Process, r: Resource, s: StallSeverity) -> Seq<GaugeUpdateView> {
    seq![
        pressure_gauge(p, r, s, StallWindow::Avg10),
        pressure_gauge(p, r, s, StallWindow::Avg60),
        pressure_gauge(p, r, s, StallWindow::Avg300),
        pressure_gauge(p, r, s, StallWindow::Total),
    ]
}

/// The gauges of a resource's pressure: the `some` line, then the `full` line.
pub open spec fn resource_gauges(p: Process, r: Resource) -> Seq<GaugeUpdateView> {
    severity_gauges(p, r, StallSeverity::Partial) + severity_gauges(p, r, StallSeverity::Full)
}

/// The gauges of the pressure of memory, io and cpu, in that order.
pub open spec fn pressure_gauges(p: Process) -> Seq<GaugeUpdateView> {
    resource_gauges(p, Resource::Memory) + resource_gauges(p, Resource::Io) + resource_gauges(
        p,
        Resource::Cpu,
    )
}

/// Every gauge of a process: memory usage, oom score, then pressure.
pub open spec fn process_gauges(p: Process) -> Seq<GaugeUpdateView> {
    seq![
        GaugeUpdateView {
            name: "memory_usage"@,
            labels: process_labels(p),
            value: GaugeValue::MemoryUsage,
        },
        GaugeUpdateView { name: "oom_score"@, labels: process_labels(p), value: GaugeValue::OomScore },
    ] + pressure_gauges(p)
}

fn label(k: &str, v: String) -> (r: (String, String))
    ensures
        r.0@ == k@,
        r.1@ == v@,
{
    (String::from_str(k), v)
}

fn labels_of(p: &Process) -> (r: Vec<(String, String)>)
    ensures
        r@.map_values(|l: (String, String)| label_view(l)) == process_labels(*p),
{
    let mut v: Vec<(String, String)> = Vec::new();
    v.push(label("pid", decimal_string(p.pid)));
    v.push(label("cmdline", p.cmdline.clone()));
    assert(v@.map_values(|l: (String, String)| label_view(l)) =~= process_labels(*p));
    v
}

fn append_updates(out: &mut Vec<GaugeUpdate>, more: Vec<GaugeUpdate>)
    ensures
        updates_view(final(out)@) == updates_view(old(out)@) + updates_view(more@),
{
    let mut more = more;
    let ghost a = out@;
    let ghost b = more@;
    out.append(&mut more);
    assert(updates_view(out@) =~= updates_view(a) + updates_view(b));
}

/// Serves the gauges of the processes it is told about.
#[derive(Debug, Clone, Copy)]
pub struct Server {}

impl Server {
    /// The memory usage gauge of `p`.
    pub fn report_usage(&self, p: &Process) -> (r: GaugeUpdate)
        ensures
            r@ == process_gauges(*p)[0],
    {
        GaugeUpdate {
            name: String::from_str("memory_usage"),
            labels: labels_of(p),
            value: GaugeValue::MemoryUsage,
        }
    }

    /// The oom score gauge of `p`.
    pub fn report_oom_score(&self, p: &Process) -> (r: GaugeUpdate)
        ensures
            r@ == process_gauges(*p)[1],
    {
        GaugeUpdate {
            name: String::from_str("oom_score"),
            labels: labels_of(p),
            value: GaugeValue::OomScore,
        }
    }

    /// The pressure gauges of `p`: memory, io, then cpu.
    pub fn report_pressure(&self, p: &Process) -> (r: Vec<GaugeUpdate>)
        ensures
            updates_view(r@) == pressure_gauges(*p),
    {
        let mut out = self.report_pressure_data(Resource::Memory, p);
        let io = self.report_pressure_data(Resource::Io, p);
        append_updates(&mut out, io);
        let cpu = self.report_pressure_data(Resource::Cpu, p);
        append_updates(&mut out, cpu);
        out
    }

    /// The gauges of the pressure of `resource` for `p`: the `some` line, then `full`.
    pub fn report_pressure_data(&self, resource: Resource, p: &Process) -> (r: Vec<GaugeUpdate>)
        ensures
            updates_view(r@) == resource_gauges(*p, resource),
    {
        let mut out = self.report_pressure_averages(resource, p, StallSeverity::Partial);
        let full = self.report_pressure_averages(resource, p, StallSeverity::Full);
        append_updates(&mut out, full);
        out
    }

    /// The gauges of one pressure line of `resource` for `p`, by window.
    pub fn report_pressure_averages(&self, resource: Resource, p: &Process, sev: StallSeverity) -> (r:
        Vec<GaugeUpdate>)
        ensures
            updates_view(r@) == severity_gauges(*p, resource, sev),
    {
        let mut out: Vec<GaugeUpdate> = Vec::new();
        out.push(pressure_update(resource, p, sev, StallWindow::Avg10));
        out.push(pressure_update(resource, p, sev, StallWindow::Avg60));
        out.push(pressure_update(resource, p, sev, StallWindow::Avg300));
        out.push(pressure_update(resource, p, sev, StallWindow::Total));
        assert(updates_view(out@) =~= severity_gauges(*p, resource, sev));
        out
    }

    /// Every gauge of `p`: memory usage, oom score, then the pressure gauges.
    pub fn report_collected_data(&self, p: &Process) -> (r: Vec<GaugeUpdate>)
        ensures
            updates_view(r@) == process_gauges(*p),
    {
        let mut out: Vec<GaugeUpdate> = Vec::new();
        out.push(self.report_usage(p));
        out.push(self.report_oom_score(p));
        let pressure = self.report_pressure(p);
        let ghost first = out@;
        assert(updates_view(first) =~= seq![process_gauges(*p)[0], process_gauges(*p)[1]]);
        append_updates(&mut out, pressure);
        assert(updates_view(out@) =~= process_gauges(*p));
        out
    }
}

fn pressure_update(resource: Resource, p: &Process, sev: StallSeverity, w: StallWindow) -> (r:
    GaugeUpdate)
    ensures
        r@ == pressure_gauge(*p, resource, sev, w),
{
    let mut name: Vec<char> = Vec::new();
    crate::processes::push_resource_name(&mut name, resource);
    let suffix = ['_', 'p', 'r', 'e', 's', 's', 'u', 'r', 'e'];
    let mut i: usize = 0;
    let ghost base = name@;
    while i < 9
        invariant
            i <= 9,
            suffix@ == seq!['_', 'p', 'r', 'e', 's', 's', 'u', 'r', 'e'],
            name@ == base + suffix@.take(i as int),
        decreases 9 - i,
    {
        name.push(suffix[i]);
        assert(base + suffix@.take(i as int) + seq![suffix@[i as int]] =~= base + suffix@.take(
            i + 1,
        ));
        i = i + 1;
    }
    assert(suffix@.take(9) =~= suffix@);
    let mut labels = labels_of(p);
    let mut sev_name: Vec<char> = Vec::new();
    push_severity_name(&mut sev_name, sev);
    let mut win_name: Vec<char> = Vec::new();
    push_window_name(&mut win_name, w);
    let ghost pre = labels@;
    labels.push(label("severity_level", string_of(sev_name.as_slice())));
    labels.push(label("severity_window", string_of(win_name.as_slice())));
    assert(labels@.map_values(|l: (String, String)| label_view(l)) =~= process_labels(*p) + seq![
        ("severity_level"@, severity_name(sev)),
        ("severity_window"@, window_name(w)),
    ]);
    GaugeUpdate { name: string_of(name.as_slice()), labels, value: GaugeValue::Pressure(resource, sev, w) }
}

// ---------------------------------------------------------------------------------------
// Laws

/// Whether `u` names the figure it carries, as a gauge of process `p`: labelled first with
/// the process, and a pressure gauge named `{resource}_pressure` and labelled with the
/// severity and the window of its figure.
pub open spec fn names_its_figure(p: Process, u: GaugeUpdateView) -> bool {
    &&& u.labels.len() >= 2
    &&& u.labels[0] == ("pid"@, decimal(p.pid as int))
    &&& u.labels[1] == ("cmdline"@, p.cmdline@)
    &&& match u.value {
        GaugeValue::MemoryUsage => u.name == "memory_usage"@ && u.labels.len() == 2,
        GaugeValue::OomScore => u.name == "oom_score"@ && u.labels.len() == 2,
        GaugeValue::Pressure(r, s, w) => {
            &&& u.name == resource_name(r) + "_pressure"@
            &&& u.labels.len() == 4
            &&& u.labels[2] == ("severity_level"@, severity_name(s))
            &&& u.labels[3] == ("severity_window"@, window_name(w))
        },
    }
}

/// The position of a window among the gauges of one pressure line.
pub open spec fn window_index(w: StallWindow) -> int {
    match w {
        StallWindow::Avg10 => 0,
        StallWindow::Avg60 => 1,
        StallWindow::Avg300 => 2,
        StallWindow::Total => 3,
    }
}

/// The position of a resource's gauges among the pressure gauges, in lines of four.
pub open spec fn resource_index(r: Resource) -> int {
    match r {
        Resource::Memory => 0,
        Resource::Io => 1,
        Resource::Cpu => 2,
    }
}

/// The position of a severity's line among a resource's gauges.
pub open spec fn severity_index(s: StallSeverity) -> int {
    match s {
        StallSeverity::Partial => 0,
        StallSeverity::Full => 1,
    }
}

proof fn lemma_severity_gauges(p: Process, r: Resource, s: StallSeverity)
    ensures
        severity_gauges(p, r, s).len() == 4,
        forall|i: int| 0 <= i < 4 ==> names_its_figure(p, #[trigger] severity_gauges(p, r, s)[i]),
        forall|w: StallWindow| #[trigger] severity_gauges(p, r, s)[window_index(w)].value
            == GaugeValue::Pressure(r, s, w),
{
    reveal_strlit("_pressure");
    let g = severity_gauges(p, r, s);
    assert forall|i: int| 0 <= i < 4 implies names_its_figure(p, #[trigger] g[i]) by {
        assert(pressure_gauge_name(r) == resource_name(r) + "_pressure"@);
    }
}

proof fn lemma_resource_gauges(p: Process, r: Resource)
    ensures
        resource_gauges(p, r).len() == 8,
        forall|i: int| 0 <= i < 8 ==> names_its_figure(p, #[trigger] resource_gauges(p, r)[i]),
        forall|s: StallSeverity, w: StallWindow| #[trigger] resource_gauges(p, r)[4 * severity_index(s)
            + window_index(w)].value == GaugeValue::Pressure(r, s, w),
{
    lemma_severity_gauges(p, r, StallSeverity::Partial);
    lemma_severity_gauges(p, r, StallSeverity::Full);
    let a = severity_gauges(p, r, StallSeverity::Partial);
    let b = severity_gauges(p, r, StallSeverity::Full);
    let g = resource_gauges(p, r);
    assert forall|i: int| 0 <= i < 8 implies names_its_figure(p, #[trigger] g[i]) by {
        if i < 4 {
            assert(g[i] == a[i]);
        } else {
            assert(g[i] == b[i - 4]);
        }
    }
    assert forall|s: StallSeverity, w: StallWindow| #[trigger] g[4 * severity_index(s) + window_index(w)].value
        == GaugeValue::Pressure(r, s, w) by {
        let k = window_index(w);
        assert(0 <= k < 4);
        if s == StallSeverity::Partial {
            assert(g[k] == a[k]);
            assert(a[window_index(w)].value == GaugeValue::Pressure(r, s, w));
        } else {
            assert(g[4 + k] == b[k]);
            assert(b[window_index(w)].value == GaugeValue::Pressure(r, s, w));
        }
    }
}

/// Every gauge of a process names the figure it carries: each is labelled first with the
/// process, and a pressure gauge is named after its resource and labelled with the
/// severity (`some` or `full`) and the window (`avg10`, `avg60`, `avg300`, `total`) of the
/// very figure that sets it. Every pressure figure of the process has its gauge.
pub proof fn law_gauges_name_their_figure(p: Process)
    ensures
        process_gauges(p).len() == 26,
        forall|i: int|
            0 <= i < process_gauges(p).len() ==> names_its_figure(p, #[trigger] process_gauges(p)[i]),
        forall|r: Resource, s: StallSeverity, w: StallWindow| #[trigger] process_gauges(p)[2 + 8
            * resource_index(r) + 4 * severity_index(s) + window_index(w)].value
            == GaugeValue::Pressure(r, s, w),
        severity_name(StallSeverity::Partial) == "some"@,
        severity_name(StallSeverity::Full) == "full"@,
        window_name(StallWindow::Avg10) == "avg10"@,
        window_name(StallWindow::Avg60) == "avg60"@,
        window_name(StallWindow::Avg300) == "avg300"@,
        window_name(StallWindow::Total) == "total"@,
        resource_name(Resource::Memory) == "memory"@,
        resource_name(Resource::Io) == "io"@,
        resource_name(Resource::Cpu) == "cpu"@,
{
    reveal_strlit("some");
    reveal_strlit("full");
    reveal_strlit("avg10");
    reveal_strlit("avg60");
    reveal_strlit("avg300");
    reveal_strlit("total");
    reveal_strlit("memory");
    reveal_strlit("io");
    reveal_strlit("cpu");
    reveal_strlit("memory_usage");
    reveal_strlit("oom_score");
    assert(severity_name(StallSeverity::Partial) =~= "some"@);
    assert(severity_name(StallSeverity::Full) =~= "full"@);
    assert(window_name(StallWindow::Avg10) =~= "avg10"@);
    assert(window_name(StallWindow::Avg60) =~= "avg60"@);
    assert(window_name(StallWindow::Avg300) =~= "avg300"@);
    assert(window_name(StallWindow::Total) =~= "total"@);
    assert(resource_name(Resource::Memory) =~= "memory"@);
    assert(resource_name(Resource::Io) =~= "io"@);
    assert(resource_name(Resource::Cpu) =~= "cpu"@);
    lemma_resource_gauges(p, Resource::Memory);
    lemma_resource_gauges(p, Resource::Io);
    lemma_resource_gauges(p, Resource::Cpu);
    let m = resource_gauges(p, Resource::Memory);
    let io = resource_gauges(p, Resource::Io);
    let c = resource_gauges(p, Resource::Cpu);
    let g = process_gauges(p);
    assert forall|i: int| 0 <= i < g.len() implies names_its_figure(p, #[trigger] g[i]) by {
        if i < 2 {
        } else if i < 10 {
            assert(g[i] == m[i - 2]);
        } else if i < 18 {
            assert(g[i] == io[i - 10]);
        } else {
            assert(g[i] == c[i - 18]);
        }
    }
    assert forall|r: Resource, s: StallSeverity, w: StallWindow| #[trigger] g[2 + 8 * resource_index(
        r,
    ) + 4 * severity_index(s) + window_index(w)].value == GaugeValue::Pressure(r, s, w) by {
        let k = 4 * severity_index(s) + window_index(w);
        assert(0 <= k < 8);
        match r {
            Resource::Memory => {
                assert(g[2 + k] == m[k]);
                assert(m[4 * severity_index(s) + window_index(w)].value == GaugeValue::Pressure(r, s, w));
            },
            Resource::Io => {
                assert(g[10 + k] == io[k]);
                assert(io[4 * severity_index(s) + window_index(w)].value == GaugeValue::Pressure(r, s, w));
            },
            Resource::Cpu => {
                assert(g[18 + k] == c[k]);
                assert(c[4 * severity_index(s) + window_index(w)].value == GaugeValue::Pressure(r, s, w));
            },
        }
    }
}

} // verus!
