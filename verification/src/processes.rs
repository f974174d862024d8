//! What is known of a process, and how it is read from procfs and cgroup files.
//!
//! The files themselves are read by the caller; this module turns their contents into
//! figures, with the errors and their order of precedence of a sequential reader: the oom
//! score, its adjustment, the cgroups version (which locates the cgroup files), the memory
//! limit, the memory usage, then the pressure of memory, io and cpu.

use crate::errors::{Error, ErrorView, FloatErrorKind};
use crate::system::{CGroupsVersions, SystemCGroups};
use crate::text::{
    IntErrorKind, parse_i32, parse_i32_spec, parse_u64, parse_u64_spec, trim, trim_chars,
    chars_are, chars_of, concat_str, is_float_literal, is_float_literal_chars, split, split_chars,
    split_from, split_whitespace_chars, string_of, words,
};
use vstd::prelude::*;

verus! {

/// A process running on the system.
#[derive(Debug, Clone)]
pub struct Process {
    pub pid: i32,
    pub cmdline: String,
}

/// The texts of the four figures of one pressure line; `None` where the line did not give
/// the figure. Each text is a literal that `str::parse::<f32>` accepts.
#[derive(Debug, Clone)]
pub struct PressureFields {
    pub avg10: Option<String>,
    pub avg60: Option<String>,
    pub avg300: Option<String>,
    pub total: Option<String>,
}

/// The mathematical content of [`PressureFields`].
pub struct PressureFieldsView {
    pub avg10: Option<Seq<char>>,
    pub avg60: Option<Seq<char>>,
    pub avg300: Option<Seq<char>>,
    pub total: Option<Seq<char>>,
}

/// The text of an optional string.
pub open spec fn opt_view(o: Option<String>) -> Option<Seq<char>> {
    match o {
        Some(s) => Some(s@),
        None => None,
    }
}

impl View for PressureFields {
    type V = PressureFieldsView;

    open spec fn view(&self) -> PressureFieldsView {
        PressureFieldsView {
            avg10: opt_view(self.avg10),
            avg60: opt_view(self.avg60),
            avg300: opt_view(self.avg300),
            total: opt_view(self.total),
        }
    }
}

/// The `some` and `full` lines of a kernel pressure (psi) file.
#[derive(Debug, Clone)]
pub struct PressureReading {
    pub some: PressureFields,
    pub full: PressureFields,
}

/// The mathematical content of [`PressureReading`].
pub struct PressureReadingView {
    pub some: PressureFieldsView,
    pub full: PressureFieldsView,
}

impl View for PressureReading {
    type V = PressureReadingView;

    open spec fn view(&self) -> PressureReadingView {
        PressureReadingView { some: self.some@, full: self.full@ }
    }
}

/// No figure given.
pub open spec fn no_fields() -> PressureFieldsView {
    PressureFieldsView { avg10: None, avg60: None, avg300: None, total: None }
}

/// The error of a failed `str::parse::<f32>` on `v`.
pub open spec fn float_error(v: Seq<char>) -> ErrorView {
    ErrorView::ParseFloatError(
        if v.len() == 0 {
            FloatErrorKind::Empty
        } else {
            FloatErrorKind::Invalid
        },
    )
}

/// One `key=value` token of a pressure line applied to `acc`. A token that does not split
/// into exactly two parts at `=` is ignored; the keys are `avg10`, `avg60`, `avg300` and
/// `total`, any other is an error, and so is a value that is not a float.
pub open spec fn apply_token(tok: Seq<char>, acc: PressureFieldsView) -> Result<
    PressureFieldsView,
    ErrorView,
> {
    let parts = split(tok, '=');
    if parts.len() != 2 {
        Ok(acc)
    } else {
        let key = parts[0];
        let val = parts[1];
        if key == "avg10"@ || key == "avg60"@ || key == "avg300"@ || key == "total"@ {
            if !is_float_literal(val) {
                Err(float_error(val))
            } else if key == "avg10"@ {
                Ok(PressureFieldsView { avg10: Some(val), ..acc })
            } else if key == "avg60"@ {
                Ok(PressureFieldsView { avg60: Some(val), ..acc })
            } else if key == "avg300"@ {
                Ok(PressureFieldsView { avg300: Some(val), ..acc })
            } else {
                Ok(PressureFieldsView { total: Some(val), ..acc })
            }
        } else {
            Err(ErrorView::Message("unknown field "@ + key))
        }
    }
}

/// The tokens of a pressure line applied in order to `acc`, stopping at the first error.
pub open spec fn apply_tokens(toks: Seq<Seq<char>>, acc: PressureFieldsView) -> Result<
    PressureFieldsView,
    ErrorView,
>
    decreases toks.len(),
{
    if toks.len() == 0 {
        Ok(acc)
    } else {
        match apply_token(toks[0], acc) {
            Ok(next) => apply_tokens(toks.drop_first(), next),
            Err(e) => Err(e),
        }
    }
}

/// One line of a pressure file applied to `acc`: blank lines are skipped, a line starts
/// with `some` or `full` (anything else is an error) and its other tokens update that
/// severity's figures.
pub open spec fn apply_line(line: Seq<char>, acc: PressureReadingView) -> Result<
    PressureReadingView,
    ErrorView,
> {
    let toks = words(line);
    if toks.len() == 0 {
        Ok(acc)
    } else if toks[0] == "some"@ {
        match apply_tokens(toks.drop_first(), acc.some) {
            Ok(f) => Ok(PressureReadingView { some: f, ..acc }),
            Err(e) => Err(e),
        }
    } else if toks[0] == "full"@ {
        match apply_tokens(toks.drop_first(), acc.full) {
            Ok(f) => Ok(PressureReadingView { full: f, ..acc }),
            Err(e) => Err(e),
        }
    } else {
        Err(ErrorView::Message("unknown field "@ + toks[0]))
    }
}

/// The lines of a pressure file applied in order to `acc`, stopping at the first error.
pub open spec fn apply_lines(lines: Seq<Seq<char>>, acc: PressureReadingView) -> Result<
    PressureReadingView,
    ErrorView,
>
    decreases lines.len(),
{
    if lines.len() == 0 {
        Ok(acc)
    } else {
        match apply_line(lines[0], acc) {
            Ok(next) => apply_lines(lines.drop_first(), next),
            Err(e) => Err(e),
        }
    }
}

/// What a kernel pressure file holding `content` reads as. The file looks like
///
/// ```text
/// some avg10=0.00 avg60=0.00 avg300=0.00 total=0
/// full avg10=0.00 avg60=0.00 avg300=0.00 total=0
/// ```
pub open spec fn pressure_file(content: Seq<char>) -> Result<PressureReadingView, ErrorView> {
    apply_lines(split(content, '\n'), PressureReadingView { some: no_fields(), full: no_fields() })
}

/// The view of a result whose success is viewed by `view`.
pub open spec fn result_view<T: View>(r: Result<T, Error>) -> Result<T::V, ErrorView> {
    match r {
        Ok(v) => Ok(v@),
        Err(e) => Err(e@),
    }
}

fn no_pressure_fields() -> (r: PressureFields)
    ensures
        r@ == no_fields(),
{
    PressureFields { avg10: None, avg60: None, avg300: None, total: None }
}

fn unknown_field(key: &[char]) -> (e: Error)
    ensures
        e@ == ErrorView::Message("unknown field "@ + key@),
{
    let k = string_of(key);
    Error::Message(concat_str("unknown field ", k.as_str()))
}

fn float_error_of(v: &[char]) -> (e: Error)
    ensures
        e@ == float_error(v@),
{
    if v.len() == 0 {
        Error::ParseFloatError(FloatErrorKind::Empty)
    } else {
        Error::ParseFloatError(FloatErrorKind::Invalid)
    }
}

fn apply_token_exec(tok: &[char], acc: PressureFields) -> (r: Result<PressureFields, Error>)
    ensures
        result_view(r) == apply_token(tok@, acc@),
{
    let parts = split_chars(tok, '=');
    let ghost pv = parts@.map_values(|v: Vec<char>| v@);
    assert(pv.len() == parts@.len());
    if parts.len() != 2 {
        return Ok(acc);
    }
    let key = &parts[0];
    let val = &parts[1];
    assert(pv[0] == key@ && pv[1] == val@);
    let is10 = chars_are(key.as_slice(), "avg10");
    let is60 = chars_are(key.as_slice(), "avg60");
    let is300 = chars_are(key.as_slice(), "avg300");
    let ist = chars_are(key.as_slice(), "total");
    if is10 || is60 || is300 || ist {
        if !is_float_literal_chars(val.as_slice()) {
            return Err(float_error_of(val.as_slice()));
        }
        let v = string_of(val.as_slice());
        let mut out = acc;
        if is10 {
            out.avg10 = Some(v);
        } else if is60 {
            out.avg60 = Some(v);
        } else if is300 {
            out.avg300 = Some(v);
        } else {
            out.total = Some(v);
        }
        Ok(out)
    } else {
        Err(unknown_field(key.as_slice()))
    }
}

fn apply_tokens_exec(toks: &Vec<Vec<char>>, start: usize, acc: PressureFields) -> (r: Result<
    PressureFields,
    Error,
>)
    requires
        start <= toks@.len(),
    ensures
        result_view(r) == apply_tokens(
            toks@.map_values(|v: Vec<char>| v@).skip(start as int),
            acc@,
        ),
{
    let ghost all = toks@.map_values(|v: Vec<char>| v@);
    let mut i: usize = start;
    let mut cur = acc;
    while i < toks.len()
        invariant
            start <= i <= toks@.len(),
            all == toks@.map_values(|v: Vec<char>| v@),
            apply_tokens(all.skip(start as int), acc@) == apply_tokens(
                all.skip(i as int),
                cur@,
            ),
        decreases toks@.len() - i,
    {
        let ghost rest = all.skip(i as int);
        assert(rest[0] == toks@[i as int]@);
        assert(rest.drop_first() =~= all.skip(i + 1));
        match apply_token_exec(toks[i].as_slice(), cur) {
            Ok(next) => {
                cur = next;
            },
            Err(e) => {
                return Err(e);
            },
        }
        i = i + 1;
    }
    assert(all.skip(i as int) =~= Seq::<Seq<char>>::empty());
    Ok(cur)
}

/// Reads the content of a kernel pressure (psi) file.
pub fn parse_pressure_data(content: &str) -> (r: Result<PressureReading, Error>)
    ensures
        result_view(r) == pressure_file(content@),
{
    let cs = chars_of(content);
    let lines = split_chars(cs.as_slice(), '\n');
    let ghost all = lines@.map_values(|v: Vec<char>| v@);
    let ghost init = PressureReadingView { some: no_fields(), full: no_fields() };
    let mut acc = PressureReading { some: no_pressure_fields(), full: no_pressure_fields() };
    let mut i: usize = 0;
    assert(all.skip(0) =~= all);
    while i < lines.len()
        invariant
            i <= lines@.len(),
            all == lines@.map_values(|v: Vec<char>| v@),
            all == split(content@, '\n'),
            pressure_file(content@) == apply_lines(all.skip(i as int), acc@),
        decreases lines@.len() - i,
    {
        let ghost rest = all.skip(i as int);
        assert(rest[0] == lines@[i as int]@);
        assert(rest.drop_first() =~= all.skip(i + 1));
        let toks = split_whitespace_chars(lines[i].as_slice());
        let ghost tv = toks@.map_values(|v: Vec<char>| v@);
        assert(tv.len() == toks@.len());
        if toks.len() > 0 {
            assert(tv[0] == toks@[0]@);
            assert(tv.drop_first() =~= tv.skip(1));
            if chars_are(toks[0].as_slice(), "some") {
                let PressureReading { some, full } = acc;
                match apply_tokens_exec(&toks, 1, some) {
                    Ok(f) => {
                        acc = PressureReading { some: f, full };
                    },
                    Err(e) => {
                        return Err(e);
                    },
                }
            } else if chars_are(toks[0].as_slice(), "full") {
                let PressureReading { some, full } = acc;
                match apply_tokens_exec(&toks, 1, full) {
                    Ok(f) => {
                        acc = PressureReading { some, full: f };
                    },
                    Err(e) => {
                        return Err(e);
                    },
                }
            } else {
                return Err(unknown_field(toks[0].as_slice()));
            }
        }
        i = i + 1;
    }
    assert(all.skip(i as int) =~= Seq::<Seq<char>>::empty());
    Ok(acc)
}

// ---------------------------------------------------------------------------------------
// Collecting the figures of a process

/// The pressure of the three resources.
#[derive(Debug, Clone)]
pub struct PressureSet {
    pub memory: PressureReading,
    pub io: PressureReading,
    pub cpu: PressureReading,
}

/// The mathematical content of [`PressureSet`].
pub struct PressureSetView {
    pub memory: PressureReadingView,
    pub io: PressureReadingView,
    pub cpu: PressureReadingView,
}

impl View for PressureSet {
    type V = PressureSetView;

    open spec fn view(&self) -> PressureSetView {
        PressureSetView { memory: self.memory@, io: self.io@, cpu: self.cpu@ }
    }
}

/// The figures read for a process. `oom_score` is the kernel's score plus its adjustment;
/// the memory figures are `0` for a process without a memory limit; the pressure texts are
/// absent under cgroups v1.
#[derive(Debug, Clone)]
pub struct CollectedFigures {
    pub oom_score: i32,
    pub oom_score_adj: i32,
    pub memory_max: u64,
    pub memory_current: u64,
    pub pressure: PressureSet,
}

/// The mathematical content of [`CollectedFigures`].
pub struct CollectedFiguresView {
    pub oom_score: i32,
    pub oom_score_adj: i32,
    pub memory_max: u64,
    pub memory_current: u64,
    pub pressure: PressureSetView,
}

impl View for CollectedFigures {
    type V = CollectedFiguresView;

    open spec fn view(&self) -> CollectedFiguresView {
        CollectedFiguresView {
            oom_score: self.oom_score,
            oom_score_adj: self.oom_score_adj,
            memory_max: self.memory_max,
            memory_current: self.memory_current,
            pressure: self.pressure@,
        }
    }
}

/// The outcome of reading each file that describes a process, and of reading the cgroups
/// version of the system. A file that the reader does not need may hold anything.
pub struct ProcessFiles {
    pub oom_score: Result<String, Error>,
    pub oom_score_adj: Result<String, Error>,
    pub version: Result<CGroupsVersions, Error>,
    pub memory_max: Result<String, Error>,
    pub memory_current: Result<String, Error>,
    pub memory_pressure: Result<String, Error>,
    pub io_pressure: Result<String, Error>,
    pub cpu_pressure: Result<String, Error>,
}

/// The mathematical content of [`ProcessFiles`].
pub struct ProcessFilesView {
    pub oom_score: Result<Seq<char>, ErrorView>,
    pub oom_score_adj: Result<Seq<char>, ErrorView>,
    pub version: Result<CGroupsVersions, ErrorView>,
    pub memory_max: Result<Seq<char>, ErrorView>,
    pub memory_current: Result<Seq<char>, ErrorView>,
    pub memory_pressure: Result<Seq<char>, ErrorView>,
    pub io_pressure: Result<Seq<char>, ErrorView>,
    pub cpu_pressure: Result<Seq<char>, ErrorView>,
}

/// The text of a read, or its error.
pub open spec fn read_view(r: Result<String, Error>) -> Result<Seq<char>, ErrorView> {
    match r {
        Ok(s) => Ok(s@),
        Err(e) => Err(e@),
    }
}

impl View for ProcessFiles {
    type V = ProcessFilesView;

    open spec fn view(&self) -> ProcessFilesView {
        ProcessFilesView {
            oom_score: read_view(self.oom_score),
            oom_score_adj: read_view(self.oom_score_adj),
            version: match self.version {
                Ok(v) => Ok(v),
                Err(e) => Err(e@),
            },
            memory_max: read_view(self.memory_max),
            memory_current: read_view(self.memory_current),
            memory_pressure: read_view(self.memory_pressure),
            io_pressure: read_view(self.io_pressure),
            cpu_pressure: read_view(self.cpu_pressure),
        }
    }
}

/// The integer a file holds (`content.trim().parse::<i32>()`), or the error of the read or
/// of the parse.
pub open spec fn file_int(r: Result<Seq<char>, ErrorView>) -> Result<i32, ErrorView> {
    match r {
        Err(e) => Err(e),
        Ok(c) => match parse_i32_spec(trim(c)) {
            Ok(v) => Ok(v),
            Err(k) => Err(ErrorView::ParseIntError(k)),
        },
    }
}

/// The byte count a file holds (`content.trim().parse::<u64>()`), or the error of the read
/// or of the parse.
pub open spec fn file_u64(r: Result<Seq<char>, ErrorView>) -> Result<u64, ErrorView> {
    match r {
        Err(e) => Err(e),
        Ok(c) => match parse_u64_spec(trim(c)) {
            Ok(v) => Ok(v),
            Err(k) => Err(ErrorView::ParseIntError(k)),
        },
    }
}

/// The reading of a pressure file, or the error of the read or of the parse.
pub open spec fn file_pressure(r: Result<Seq<char>, ErrorView>) -> Result<
    PressureReadingView,
    ErrorView,
> {
    match r {
        Err(e) => Err(e),
        Ok(c) => pressure_file(c),
    }
}

/// The pressure of the three resources read in order (memory, io, cpu), or the first error.
pub open spec fn pressure_of(f: ProcessFilesView) -> Result<PressureSetView, ErrorView> {
    match file_pressure(f.memory_pressure) {
        Err(e) => Err(e),
        Ok(m) => match file_pressure(f.io_pressure) {
            Err(e) => Err(e),
            Ok(i) => match file_pressure(f.cpu_pressure) {
                Err(e) => Err(e),
                Ok(c) => Ok(PressureSetView { memory: m, io: i, cpu: c }),
            },
        },
    }
}

/// No pressure read.
pub open spec fn no_pressure() -> PressureSetView {
    let r = PressureReadingView { some: no_fields(), full: no_fields() };
    PressureSetView { memory: r, io: r, cpu: r }
}

/// Whether a memory limit file sets a limit: it holds a byte count. The kernel writes `max`
/// where no limit is set.
pub open spec fn has_memory_limit(text: Seq<char>) -> bool {
    parse_u64_spec(trim(text)) is Ok
}

/// What the files of a process read as. In order: the oom score and its adjustment (their
/// sum must be an `i32`), the cgroups version, then the memory limit file. A limit is a
/// byte count; one that is not a number means no limit and memory figures of `0`; with a
/// limit, the current usage in bytes is read too. Under cgroups v2 the pressure of
/// memory, io and cpu follows. The first failed read or parse is the result.
pub open spec fn collect_figures(f: ProcessFilesView) -> Result<CollectedFiguresView, ErrorView> {
    match file_int(f.oom_score) {
        Err(e) => Err(e),
        Ok(score) => match file_int(f.oom_score_adj) {
            Err(e) => Err(e),
            Ok(adj) => if !(i32::MIN <= score + adj <= i32::MAX) {
                Err(ErrorView::Message("oom score out of range"@))
            } else {
                match f.version {
                    Err(e) => Err(e),
                    Ok(version) => match f.memory_max {
                        Err(e) => Err(e),
                        Ok(max_text) => {
                            let memory: Result<(u64, u64), ErrorView> = match parse_u64_spec(
                                trim(max_text),
                            ) {
                                Ok(max) => match file_u64(f.memory_current) {
                                    Err(e) => Err(e),
                                    Ok(cur) => Ok((cur, max)),
                                },
                                Err(_) => Ok((0u64, 0u64)),
                            };
                            match memory {
                                Err(e) => Err(e),
                                Ok((cur, max)) => {
                                    let pressure = match version {
                                        CGroupsVersions::CGroupsV1 => Ok(no_pressure()),
                                        CGroupsVersions::CGroupsV2 => pressure_of(f),
                                    };
                                    match pressure {
                                        Err(e) => Err(e),
                                        Ok(p) => Ok(
                                            CollectedFiguresView {
                                                oom_score: (score + adj) as i32,
                                                oom_score_adj: adj,
                                                memory_max: max,
                                                memory_current: cur,
                                                pressure: p,
                                            },
                                        ),
                                    }
                                },
                            }
                        },
                    },
                }
            },
        },
    }
}

/// The integer in a file's text.
fn file_int_exec(r: &Result<String, Error>) -> (out: Result<i32, Error>)
    ensures
        result_int_view(out) == file_int(read_view(*r)),
{
    match r {
        Err(e) => Err(e.clone_error()),
        Ok(c) => {
            let cs = chars_of(c.as_str());
            let t = trim_chars(cs.as_slice());
            match parse_i32(t.as_slice()) {
                Ok(v) => Ok(v),
                Err(k) => Err(Error::ParseIntError(k)),
            }
        },
    }
}

/// The byte count in a file's text.
fn file_u64_exec(r: &Result<String, Error>) -> (out: Result<u64, Error>)
    ensures
        result_u64_view(out) == file_u64(read_view(*r)),
{
    match r {
        Err(e) => Err(e.clone_error()),
        Ok(c) => {
            let cs = chars_of(c.as_str());
            let t = trim_chars(cs.as_slice());
            match parse_u64(t.as_slice()) {
                Ok(v) => Ok(v),
                Err(k) => Err(Error::ParseIntError(k)),
            }
        },
    }
}

/// The view of a byte count result.
pub open spec fn result_u64_view(r: Result<u64, Error>) -> Result<u64, ErrorView> {
    match r {
        Ok(v) => Ok(v),
        Err(e) => Err(e@),
    }
}

/// The view of an integer result.
pub open spec fn result_int_view(r: Result<i32, Error>) -> Result<i32, ErrorView> {
    match r {
        Ok(v) => Ok(v),
        Err(e) => Err(e@),
    }
}

fn file_pressure_exec(r: &Result<String, Error>) -> (out: Result<PressureReading, Error>)
    ensures
        result_view(out) == file_pressure(read_view(*r)),
{
    match r {
        Err(e) => Err(e.clone_error()),
        Ok(c) => parse_pressure_data(c.as_str()),
    }
}

fn no_pressure_set() -> (r: PressureSet)
    ensures
        r@ == no_pressure(),
{
    PressureSet {
        memory: PressureReading { some: no_pressure_fields(), full: no_pressure_fields() },
        io: PressureReading { some: no_pressure_fields(), full: no_pressure_fields() },
        cpu: PressureReading { some: no_pressure_fields(), full: no_pressure_fields() },
    }
}

fn pressure_exec(f: &ProcessFiles) -> (r: Result<PressureSet, Error>)
    ensures
        result_view(r) == pressure_of(f@),
{
    let m = match file_pressure_exec(&f.memory_pressure) {
        Ok(m) => m,
        Err(e) => return Err(e),
    };
    let i = match file_pressure_exec(&f.io_pressure) {
        Ok(i) => i,
        Err(e) => return Err(e),
    };
    let c = match file_pressure_exec(&f.cpu_pressure) {
        Ok(c) => c,
        Err(e) => return Err(e),
    };
    Ok(PressureSet { memory: m, io: i, cpu: c })
}

/// Reads processes and their figures through the files under a procfs root.
#[derive(Debug, Clone)]
pub struct ProcFsReader {
    pub system: SystemCGroups,
}

impl ProcFsReader {
    /// A reader of the files that `system` locates.
    pub fn new(system: SystemCGroups) -> (r: Self)
        ensures
            r.system == system,
    {
        ProcFsReader { system }
    }

    /// The figures of a process from the outcome of reading its files.
    pub fn collect_process_data(&self, files: &ProcessFiles) -> (r: Result<CollectedFigures, Error>)
        ensures
            result_view(r) == collect_figures(files@),
    {
        let score = match file_int_exec(&files.oom_score) {
            Ok(v) => v,
            Err(e) => return Err(e),
        };
        let adj = match file_int_exec(&files.oom_score_adj) {
            Ok(v) => v,
            Err(e) => return Err(e),
        };
        let total: i64 = score as i64 + adj as i64;
        if total < -2147483648 || total > 2147483647 {
            return Err(Error::Message(String::from_str("oom score out of range")));
        }
        let version = match &files.version {
            Ok(v) => *v,
            Err(e) => return Err(e.clone_error()),
        };
        let max_text = match &files.memory_max {
            Ok(t) => t,
            Err(e) => return Err(e.clone_error()),
        };
        let cs = chars_of(max_text.as_str());
        let t = trim_chars(cs.as_slice());
        let (cur, max) = match parse_u64(t.as_slice()) {
            Ok(max) => match file_u64_exec(&files.memory_current) {
                Ok(cur) => (cur, max),
                Err(e) => return Err(e),
            },
            Err(_) => (0u64, 0u64),
        };
        let pressure = match version {
            CGroupsVersions::CGroupsV1 => no_pressure_set(),
            CGroupsVersions::CGroupsV2 => match pressure_exec(files) {
                Ok(p) => p,
                Err(e) => return Err(e),
            },
        };
        Ok(
            CollectedFigures {
                oom_score: total as i32,
                oom_score_adj: adj,
                memory_max: max,
                memory_current: cur,
                pressure,
            },
        )
    }
}

// ---------------------------------------------------------------------------------------
// Listing processes

/// What is known of one entry of the procfs root: whether it is a directory (`None` when
/// its metadata could not be read) and its file name (`None` when it is not UTF-8).
#[derive(Debug, Clone)]
pub struct DirEntryInfo {
    pub is_dir: Option<bool>,
    pub name: Option<String>,
}

/// The process id an entry stands for: a directory whose name is an `i32`.
pub open spec fn entry_pid(is_dir: Option<bool>, name: Option<Seq<char>>) -> Option<i32> {
    if is_dir == Some(true) && name is Some {
        match parse_i32_spec(name->0) {
            Ok(pid) => Some(pid),
            Err(_) => None,
        }
    } else {
        None
    }
}

/// The process ids that the entries stand for, in order.
pub open spec fn listed_pids(entries: Seq<DirEntryInfo>) -> Seq<i32>
    decreases entries.len(),
{
    if entries.len() == 0 {
        Seq::empty()
    } else {
        let e = entries.last();
        let before = listed_pids(entries.drop_last());
        match entry_pid(e.is_dir, opt_view(e.name)) {
            Some(pid) => before.push(pid),
            None => before,
        }
    }
}

/// The first `NUL`-separated piece of a command line file: the command without its
/// arguments.
pub open spec fn command_of(content: Seq<char>) -> Seq<char> {
    split(content, '\0')[0]
}

impl ProcFsReader {
    /// The process ids among the entries of the procfs root.
    pub fn list_pids(&self, entries: &Vec<DirEntryInfo>) -> (r: Vec<i32>)
        ensures
            r@ == listed_pids(entries@),
    {
        let mut out: Vec<i32> = Vec::new();
        let mut i: usize = 0;
        while i < entries.len()
            invariant
                i <= entries@.len(),
                out@ == listed_pids(entries@.take(i as int)),
            decreases entries@.len() - i,
        {
            let e = &entries[i];
            assert(entries@.take(i + 1).drop_last() =~= entries@.take(i as int));
            assert(entries@.take(i + 1).last() == entries@[i as int]);
            if let Some(true) = e.is_dir {
                if let Some(name) = &e.name {
                    let cs = chars_of(name.as_str());
                    if let Ok(pid) = parse_i32(cs.as_slice()) {
                        out.push(pid);
                    }
                }
            }
            i = i + 1;
        }
        assert(entries@.take(entries@.len() as int) =~= entries@);
        out
    }

    /// The command of a process from the outcome of reading its command line file; an
    /// unreadable file gives an empty command.
    pub fn command(&self, read: &Result<String, Error>) -> (r: String)
        ensures
            r@ == match read_view(*read) {
                Ok(c) => command_of(c),
                Err(_) => Seq::empty(),
            },
    {
        match read {
            Err(_) => String::new(),
            Ok(c) => {
                let cs = chars_of(c.as_str());
                let pieces = split_chars(cs.as_slice(), '\0');
                let ghost pv = pieces@.map_values(|v: Vec<char>| v@);
                proof {
                    lemma_split_nonempty(cs@, '\0', Seq::empty());
                }
                assert(pv[0] == pieces@[0]@);
                string_of(pieces[0].as_slice())
            },
        }
    }

    /// A process with the given id and the command read from its command line file.
    pub fn process(&self, pid: i32, cmdline: &Result<String, Error>) -> (r: Process)
        ensures
            r.pid == pid,
            r.cmdline@ == match read_view(*cmdline) {
                Ok(c) => command_of(c),
                Err(_) => Seq::empty(),
            },
    {
        Process { pid, cmdline: self.command(cmdline) }
    }
}

/// The first piece of `cur + s` split at `sep`, where `cur` holds no `sep`: `cur` followed
/// by the run of `s` before its first `sep`.
proof fn lemma_first_piece(s: Seq<char>, sep: char, cur: Seq<char>)
    ensures
        split_from(s, sep, cur).len() >= 1,
        cur.len() <= split_from(s, sep, cur)[0].len() <= cur.len() + s.len(),
        split_from(s, sep, cur)[0] == cur + s.take(split_from(s, sep, cur)[0].len() - cur.len()),
        forall|i: int|
            0 <= i < split_from(s, sep, cur)[0].len() - cur.len() ==> #[trigger] s[i] != sep,
        split_from(s, sep, cur)[0].len() - cur.len() == s.len() || s[split_from(s, sep, cur)[0].len()
            - cur.len()] == sep,
    decreases s.len(),
{
    lemma_split_nonempty(s, sep, cur);
    if s.len() == 0 {
        assert(cur + s.take(0) =~= cur);
    } else if s[0] == sep {
        lemma_split_nonempty(s.drop_first(), sep, Seq::empty());
        assert(split_from(s, sep, cur)[0] == cur);
        assert(cur + s.take(0) =~= cur);
    } else {
        let t = s.drop_first();
        let c2 = cur.push(s[0]);
        lemma_first_piece(t, sep, c2);
        let f = split_from(t, sep, c2)[0];
        let j = f.len() - c2.len();
        assert(split_from(s, sep, cur)[0] == f);
        assert(c2 + t.take(j) =~= cur + s.take(j + 1));
        assert forall|i: int| 0 <= i < j + 1 implies #[trigger] s[i] != sep by {
            if i > 0 {
                assert(s[i] == t[i - 1]);
            }
        }
        if j < t.len() {
            assert(s[j + 1] == t[j]);
        }
    }
}

proof fn lemma_split_nonempty(s: Seq<char>, sep: char, cur: Seq<char>)
    ensures
        split_from(s, sep, cur).len() >= 1,
    decreases s.len(),
{
    if s.len() > 0 {
        if s[0] == sep {
            lemma_split_nonempty(s.drop_first(), sep, Seq::empty());
        } else {
            lemma_split_nonempty(s.drop_first(), sep, cur.push(s[0]));
        }
    }
}

// ---------------------------------------------------------------------------------------
// Naming the pressure figures

/// A resource whose pressure the kernel reports.
#[derive(Debug, Clone, Copy, PartialEq, Eq, Structural)]
pub enum Resource {
    Memory,
    Io,
    Cpu,
}

/// A pressure line: `some` (some tasks stalled) or `full` (all non-idle tasks stalled).
#[derive(Debug, Clone, Copy, PartialEq, Eq, Structural)]
pub enum StallSeverity {
    Partial,
    Full,
}

/// A figure of a pressure line.
#[derive(Debug, Clone, Copy, PartialEq, Eq, Structural)]
pub enum StallWindow {
    Avg10,
    Avg60,
    Avg300,
    Total,
}

/// `memory`, `io` or `cpu`.
pub open spec fn resource_name(r: Resource) -> Seq<char> {
    match r {
        Resource::Memory => seq!['m', 'e', 'm', 'o', 'r', 'y'],
        Resource::Io => seq!['i', 'o'],
        Resource::Cpu => seq!['c', 'p', 'u'],
    }
}

/// `some` or `full`.
pub open spec fn severity_name(s: StallSeverity) -> Seq<char> {
    match s {
        StallSeverity::Partial => seq!['s', 'o', 'm', 'e'],
        StallSeverity::Full => seq!['f', 'u', 'l', 'l'],
    }
}

/// `avg10`, `avg60`, `avg300` or `total`.
pub open spec fn window_name(w: StallWindow) -> Seq<char> {
    match w {
        StallWindow::Avg10 => seq!['a', 'v', 'g', '1', '0'],
        StallWindow::Avg60 => seq!['a', 'v', 'g', '6', '0'],
        StallWindow::Avg300 => seq!['a', 'v', 'g', '3', '0', '0'],
        StallWindow::Total => seq!['t', 'o', 't', 'a', 'l'],
    }
}

fn push_chars(v: &mut Vec<char>, cs: &[char])
    ensures
        final(v)@ == old(v)@ + cs@,
{
    let mut i: usize = 0;
    while i < cs.len()
        invariant
            i <= cs@.len(),
            v@ == old(v)@ + cs@.take(i as int),
        decreases cs@.len() - i,
    {
        v.push(cs[i]);
        assert(old(v)@ + cs@.take(i as int) + seq![cs@[i as int]] =~= old(v)@ + cs@.take(i + 1));
        i = i + 1;
    }
    assert(cs@.take(cs@.len() as int) =~= cs@);
}

/// Appends the name of `r`.
pub fn push_resource_name(v: &mut Vec<char>, r: Resource)
    ensures
        final(v)@ == old(v)@ + resource_name(r),
{
    match r {
        Resource::Memory => {
            let a = ['m', 'e', 'm', 'o', 'r', 'y'];
            assert(a@ =~= resource_name(r));
            push_chars(v, &a);
        },
        Resource::Io => {
            let a = ['i', 'o'];
            assert(a@ =~= resource_name(r));
            push_chars(v, &a);
        },
        Resource::Cpu => {
            let a = ['c', 'p', 'u'];
            assert(a@ =~= resource_name(r));
            push_chars(v, &a);
        },
    }
}

/// Appends the name of `s`.
pub fn push_severity_name(v: &mut Vec<char>, s: StallSeverity)
    ensures
        final(v)@ == old(v)@ + severity_name(s),
{
    match s {
        StallSeverity::Partial => {
            let a = ['s', 'o', 'm', 'e'];
            assert(a@ =~= severity_name(s));
            push_chars(v, &a);
        },
        StallSeverity::Full => {
            let a = ['f', 'u', 'l', 'l'];
            assert(a@ =~= severity_name(s));
            push_chars(v, &a);
        },
    }
}

/// Appends the name of `w`.
pub fn push_window_name(v: &mut Vec<char>, w: StallWindow)
    ensures
        final(v)@ == old(v)@ + window_name(w),
{
    match w {
        StallWindow::Avg10 => {
            let a = ['a', 'v', 'g', '1', '0'];
            assert(a@ =~= window_name(w));
            push_chars(v, &a);
        },
        StallWindow::Avg60 => {
            let a = ['a', 'v', 'g', '6', '0'];
            assert(a@ =~= window_name(w));
            push_chars(v, &a);
        },
        StallWindow::Avg300 => {
            let a = ['a', 'v', 'g', '3', '0', '0'];
            assert(a@ =~= window_name(w));
            push_chars(v, &a);
        },
        StallWindow::Total => {
            let a = ['t', 'o', 't', 'a', 'l'];
            assert(a@ =~= window_name(w));
            push_chars(v, &a);
        },
    }
}

/// The text of one figure of a pressure reading.
pub open spec fn reading_figure(r: PressureReadingView, s: StallSeverity, w: StallWindow) -> Option<
    Seq<char>,
> {
    let f = match s {
        StallSeverity::Partial => r.some,
        StallSeverity::Full => r.full,
    };
    match w {
        StallWindow::Avg10 => f.avg10,
        StallWindow::Avg60 => f.avg60,
        StallWindow::Avg300 => f.avg300,
        StallWindow::Total => f.total,
    }
}

impl PressureSet {
    /// The text of one figure; `None` where the file did not give it.
    pub fn figure(&self, r: Resource, s: StallSeverity, w: StallWindow) -> (out: Option<String>)
        ensures
            opt_view(out) == reading_figure(
                match r {
                    Resource::Memory => self@.memory,
                    Resource::Io => self@.io,
                    Resource::Cpu => self@.cpu,
                },
                s,
                w,
            ),
    {
        let reading = match r {
            Resource::Memory => &self.memory,
            Resource::Io => &self.io,
            Resource::Cpu => &self.cpu,
        };
        let f = match s {
            StallSeverity::Partial => &reading.some,
            StallSeverity::Full => &reading.full,
        };
        let v = match w {
            StallWindow::Avg10 => &f.avg10,
            StallWindow::Avg60 => &f.avg60,
            StallWindow::Avg300 => &f.avg300,
            StallWindow::Total => &f.total,
        };
        match v {
            Some(t) => Some(t.clone()),
            None => None,
        }
    }
}

// ---------------------------------------------------------------------------------------
// Laws

/// Under cgroups v1 the pressure files are not read: what they hold does not change the
/// figures of a process.
pub proof fn law_pressure_ignored_on_v1(f: ProcessFilesView, g: ProcessFilesView)
    requires
        f.version == Ok::<CGroupsVersions, ErrorView>(CGroupsVersions::CGroupsV1),
        g.oom_score == f.oom_score,
        g.oom_score_adj == f.oom_score_adj,
        g.version == f.version,
        g.memory_max == f.memory_max,
        g.memory_current == f.memory_current,
    ensures
        collect_figures(f) == collect_figures(g),
{
}

/// A process without a memory limit (its limit file holds no byte count) has memory
/// figures of zero, and its usage file is not read.
pub proof fn law_unlimited_memory(f: ProcessFilesView, g: ProcessFilesView)
    requires
        f.memory_max matches Ok(t) && !has_memory_limit(t),
        g == (ProcessFilesView { memory_current: g.memory_current, ..f }),
    ensures
        collect_figures(f) == collect_figures(g),
        collect_figures(f) matches Ok(c) ==> c.memory_max == 0 && c.memory_current == 0,
{
}

/// Any byte count in the limit file is the process's memory limit, however large, and its
/// usage is the byte count in the usage file.
pub proof fn law_memory_limit_read(f: ProcessFilesView)
    requires
        f.memory_max matches Ok(t) && has_memory_limit(t),
    ensures
        collect_figures(f) matches Ok(c) ==> f.memory_max matches Ok(t) && parse_u64_spec(trim(t))
            == Ok::<u64, IntErrorKind>(c.memory_max) && file_u64(f.memory_current) == Ok::<
            u64,
            ErrorView,
        >(c.memory_current),
{
}

/// Under cgroups v2 the pressure of a process is read from its three pressure files,
/// whatever its memory files hold: a collection that succeeds carries exactly the parse of
/// the memory, io and cpu pressure files, and two sets of files that differ only in the
/// memory limit and usage files give the same pressure.
pub proof fn law_pressure_read_on_v2(f: ProcessFilesView, g: ProcessFilesView)
    requires
        f.version == Ok::<CGroupsVersions, ErrorView>(CGroupsVersions::CGroupsV2),
        g == (ProcessFilesView { memory_max: g.memory_max, memory_current: g.memory_current, ..f }),
    ensures
        collect_figures(f) is Ok ==> pressure_of(f) == Ok::<PressureSetView, ErrorView>(
            collect_figures(f)->Ok_0.pressure,
        ),
        collect_figures(f) is Ok && collect_figures(g) is Ok ==> collect_figures(f)->Ok_0.pressure
            == collect_figures(g)->Ok_0.pressure,
{
    assert(pressure_of(f) == pressure_of(g));
}

/// The command of a command line is the whole text before its first `NUL`: it holds no
/// `NUL`, the content starts with it, and the content ends right after it or goes on with
/// a `NUL`. In particular a content without `NUL` is its own command.
pub proof fn law_command_is_first_piece(content: Seq<char>)
    ensures
        command_of(content).len() <= content.len(),
        command_of(content) == content.take(command_of(content).len() as int),
        forall|i: int| 0 <= i < command_of(content).len() ==> #[trigger] command_of(content)[i] != '\0',
        command_of(content).len() == content.len() || content[command_of(content).len() as int]
            == '\0',
{
    lemma_first_piece(content, '\0', Seq::empty());
    assert(Seq::<char>::empty() + content.take(command_of(content).len() as int) =~= content.take(
        command_of(content).len() as int,
    ));
}

/// The oom score of a process is the kernel's score plus its adjustment.
pub proof fn law_oom_score_adjusted(f: ProcessFilesView)
    ensures
        collect_figures(f) matches Ok(c) ==> file_int(f.oom_score) matches Ok(score) && c.oom_score
            == score + c.oom_score_adj && file_int(f.oom_score_adj) == Ok::<i32, ErrorView>(
            c.oom_score_adj,
        ),
{
}

} // verus!
