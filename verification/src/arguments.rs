//! What the user configures: durations, threshold expressions, and the outcome of assessing
//! a process against them.

use crate::errors::{Error, ErrorView};
use fasteval::Compiler;
use crate::text::concat_str;
use vstd::prelude::*;

verus! {

/// The outcome of checking a process against the warning and critical expressions.
#[derive(Debug, Clone, Copy, PartialEq, Eq, Structural)]
pub enum CheckerResult {
    Warning,
    Critical,
    NoMatch,
}

impl CheckerResult {
    /// The outcome for a process that does or does not match each expression: the critical
    /// expression takes precedence over the warning one.
    pub fn from_matches(warning: bool, critical: bool) -> (r: Self)
        ensures
            r == (if critical {
                CheckerResult::Critical
            } else if warning {
                CheckerResult::Warning
            } else {
                CheckerResult::NoMatch
            }),
    {
        if critical {
            CheckerResult::Critical
        } else if warning {
            CheckerResult::Warning
        } else {
            CheckerResult::NoMatch
        }
    }

    /// The outcome's name in an HTTP notification: `None`, `Warning` or `Critical`.
    pub fn variant_name(&self) -> (r: &'static str)
        ensures
            r@ == match self {
                CheckerResult::NoMatch => "None"@,
                CheckerResult::Warning => "Warning"@,
                CheckerResult::Critical => "Critical"@,
            },
    {
        match self {
            CheckerResult::NoMatch => "None",
            CheckerResult::Warning => "Warning",
            CheckerResult::Critical => "Critical",
        }
    }

    /// The outcome's name, as it is displayed: `none`, `warning` or `critical`.
    pub fn as_str(&self) -> (r: &'static str)
        ensures
            r@ == match self {
                CheckerResult::NoMatch => "none"@,
                CheckerResult::Warning => "warning"@,
                CheckerResult::Critical => "critical"@,
            },
    {
        match self {
            CheckerResult::NoMatch => "none",
            CheckerResult::Warning => "warning",
            CheckerResult::Critical => "critical",
        }
    }
}

/// What `duration_str::parse` makes of a text: the duration in nanoseconds, or its error
/// message.
pub uninterp spec fn duration_str_parse(text: Seq<char>) -> Result<u128, Seq<char>>;

/// Calls `duration_str::parse` and gives the duration in nanoseconds.
///
/// The result is named as a function of the text; beside it the contract states what
/// duration-str's source shows for an empty text: the error `Empty input`.
#[verifier::external_body]
fn duration_nanos(s: &str) -> (r: Result<u128, String>)
    ensures
        r is Ok ==> duration_str_parse(s@) == Ok::<u128, Seq<char>>(r->Ok_0),
        r is Err ==> duration_str_parse(s@) == Err::<u128, Seq<char>>(r->Err_0@),
        s@.len() == 0 ==> r is Err && r->Err_0@ == "Empty input"@,
{
    match duration_str::parse(s) {
        Ok(d) => Ok(d.as_nanos()),
        Err(e) => Err(e),
    }
}

/// Reads an interval given on the command line (`100ms`, `30s`, ...) as nanoseconds.
pub fn parse_duration(s: &str) -> (r: Result<u128, String>)
    ensures
        match r {
            Ok(n) => duration_str_parse(s@) == Ok::<u128, Seq<char>>(n),
            Err(m) => duration_str_parse(s@) == Err::<u128, Seq<char>>(m@),
        },
        s@.len() == 0 ==> (r matches Err(m) && m@ == "Empty input"@),
{
    duration_nanos(s)
}

/// What fasteval's parser gives for an expression parsed into a new slab: the slab and the
/// index of the expression's root in it, or the displayed error.
pub uninterp spec fn fasteval_parse(expr: Seq<char>) -> Result<
    (fasteval::Slab, fasteval::ExpressionI),
    Seq<char>,
>;

/// What fasteval's compiler gives for the parsed expression `expr` of `slab`: the slab with
/// the instruction's constants and sub-instructions added, and the instruction.
pub uninterp spec fn fasteval_compile(slab: fasteval::Slab, expr: fasteval::ExpressionI) -> (
    fasteval::Slab,
    fasteval::Instruction,
);

/// What fasteval's parser reports for an expression: `None` when it parses, otherwise the
/// displayed error.
pub open spec fn fasteval_parse_error(expr: Seq<char>) -> Option<Seq<char>> {
    match fasteval_parse(expr) {
        Ok(_) => None,
        Err(m) => Some(m),
    }
}

/// The parser's slab of fasteval.
#[verifier::external_type_specification]
#[verifier::external_body]
pub struct ExSlab(fasteval::Slab);

/// An index of a parsed expression in a fasteval slab.
#[verifier::external_type_specification]
#[verifier::external_body]
pub struct ExExpressionI(fasteval::ExpressionI);

/// A compiled fasteval expression.
#[verifier::external_type_specification]
#[verifier::external_body]
pub struct ExInstruction(fasteval::Instruction);

/// Parses `expr` into a new slab.
///
/// Calls `fasteval::Parser::parse` with a `fasteval::Slab::new()`, and formats an error
/// with `Display`. The outcome is named as a function of the text: `parse` clears the
/// slab first, so it depends on the text and on the fixed capacity of a new slab.
#[verifier::external_body]
pub(crate) fn parse_expression(expr: &str) -> (r: Result<(fasteval::Slab, fasteval::ExpressionI), String>)
    ensures
        r is Ok <==> fasteval_parse(expr@) is Ok,
        r is Ok ==> r->Ok_0 == fasteval_parse(expr@)->Ok_0,
        r is Err ==> r->Err_0@ == fasteval_parse(expr@)->Err_0,
{
    let mut slab = fasteval::Slab::new();
    match fasteval::Parser::new().parse(expr, &mut slab.ps) {
        Ok(e) => Ok((slab, e)),
        Err(err) => Err(format!("{}", err)),
    }
}

/// Compiles the parsed expression `expr` of `slab` into an instruction, whose constants
/// and sub-instructions go to the slab.
///
/// Calls `fasteval::Compiler::compile` on `expr.from(&slab.ps)`, which reads the parse
/// slab and adds to the compile slab. The outcome is named as a function of the slab and
/// the expression.
#[verifier::external_body]
fn compile_expression(slab: &mut fasteval::Slab, expr: fasteval::ExpressionI) -> (r: fasteval::Instruction)
    ensures
        (*final(slab), r) == fasteval_compile(*old(slab), expr),
{
    expr.from(&slab.ps).compile(&slab.ps, &mut slab.cs)
}

/// A threshold expression parsed into a slab of its own, kept beside the text it was parsed
/// from.
pub struct ParsedExpression {
    source: String,
    slab: fasteval::Slab,
    expression: fasteval::ExpressionI,
}

/// What a parsed expression is: its text, its slab and the index of its root in the slab.
pub struct ParsedExpressionView {
    pub source: Seq<char>,
    pub slab: fasteval::Slab,
    pub expression: fasteval::ExpressionI,
}

impl View for ParsedExpression {
    type V = ParsedExpressionView;

    closed spec fn view(&self) -> ParsedExpressionView {
        ParsedExpressionView { source: self.source@, slab: self.slab, expression: self.expression }
    }
}

/// The parse of `text`: `p` holds that text, and the slab and root that fasteval's parser
/// gives for it.
pub open spec fn parsed_from(p: ParsedExpressionView, text: Seq<char>) -> bool {
    &&& p.source == text
    &&& fasteval_parse(text) is Ok
    &&& (p.slab, p.expression) == fasteval_parse(text)->Ok_0
}

impl ParsedExpression {
    /// Parses `expr`; when it does not parse, the parser's error.
    pub fn parse(expr: &str) -> (r: Result<Self, String>)
        ensures
            r is Ok <==> fasteval_parse(expr@) is Ok,
            r is Ok ==> parsed_from(r->Ok_0@, expr@),
            r is Err ==> r->Err_0@ == fasteval_parse(expr@)->Err_0,
    {
        match parse_expression(expr) {
            Ok((slab, expression)) => Ok(ParsedExpression { source: expr.to_owned(), slab, expression }),
            Err(m) => Err(m),
        }
    }

    /// The text the expression was parsed from.
    pub fn source(&self) -> (r: &str)
        ensures
            r@ == self@.source,
    {
        self.source.as_str()
    }

    /// The slab that holds the parsed expression.
    pub fn slab(&self) -> (r: &fasteval::Slab)
        ensures
            *r == self@.slab,
    {
        &self.slab
    }

    /// The index of the expression's root in its slab.
    pub fn expression(&self) -> (r: &fasteval::ExpressionI)
        ensures
            *r == self@.expression,
    {
        &self.expression
    }

    /// The expression compiled for evaluation, beside the same text.
    pub fn compile(self) -> (r: CompiledExpression)
        ensures
            r@.source == self@.source,
            (r@.slab, r@.instruction) == fasteval_compile(self@.slab, self@.expression),
    {
        let ParsedExpression { source, mut slab, expression } = self;
        let instruction = compile_expression(&mut slab, expression);
        CompiledExpression { source, slab, instruction }
    }
}

/// A threshold expression compiled for evaluation, with its slab, kept beside the text it
/// was compiled from.
pub struct CompiledExpression {
    source: String,
    slab: fasteval::Slab,
    instruction: fasteval::Instruction,
}

/// What a compiled expression is: its text, its slab and its instruction.
pub struct CompiledExpressionView {
    pub source: Seq<char>,
    pub slab: fasteval::Slab,
    pub instruction: fasteval::Instruction,
}

impl View for CompiledExpression {
    type V = CompiledExpressionView;

    closed spec fn view(&self) -> CompiledExpressionView {
        CompiledExpressionView {
            source: self.source@,
            slab: self.slab,
            instruction: self.instruction,
        }
    }
}

/// The compilation of `text`: `c` holds that text, and the slab and instruction that
/// fasteval's compiler gives for the parse of it.
pub open spec fn compiled_from(c: CompiledExpressionView, text: Seq<char>) -> bool {
    &&& c.source == text
    &&& fasteval_parse(text) is Ok
    &&& (c.slab, c.instruction) == fasteval_compile(
        fasteval_parse(text)->Ok_0.0,
        fasteval_parse(text)->Ok_0.1,
    )
}

impl CompiledExpression {
    /// The text the expression was compiled from.
    pub fn source(&self) -> (r: &str)
        ensures
            r@ == self@.source,
    {
        self.source.as_str()
    }

    /// The slab that holds the instruction's constants and sub-instructions.
    pub fn slab(&self) -> (r: &fasteval::Slab)
        ensures
            *r == self@.slab,
    {
        &self.slab
    }

    /// The compiled instruction.
    pub fn instruction(&self) -> (r: &fasteval::Instruction)
        ensures
            *r == self@.instruction,
    {
        &self.instruction
    }
}

/// What a thresholds checker is: its compiled warning and critical expressions.
pub struct ThresholdsCheckerView {
    pub warning: CompiledExpressionView,
    pub critical: CompiledExpressionView,
}

/// The warning and critical expressions, compiled for evaluation against the figures of a
/// process (which the caller does, in floating point: a value of `1` or more is a match,
/// and the critical expression is evaluated first).
pub struct ThresholdsChecker {
    warning: CompiledExpression,
    critical: CompiledExpression,
}

impl View for ThresholdsChecker {
    type V = ThresholdsCheckerView;

    closed spec fn view(&self) -> ThresholdsCheckerView {
        ThresholdsCheckerView { warning: self.warning@, critical: self.critical@ }
    }
}

impl ThresholdsChecker {
    /// Compiles each expression into its own slot; the first that does not parse, the
    /// warning one first, gives its parser's error.
    pub fn new_from(warning: &str, critical: &str) -> (r: Result<Self, Error>)
        ensures
            r is Ok <==> fasteval_parse(warning@) is Ok && fasteval_parse(critical@) is Ok,
            r is Ok ==> compiled_from(r->Ok_0@.warning, warning@) && compiled_from(
                r->Ok_0@.critical,
                critical@,
            ),
            fasteval_parse(warning@) matches Err(m) ==> r matches Err(e) && e@
                == ErrorView::Expression(m),
            fasteval_parse(warning@) is Ok ==> (fasteval_parse(critical@) matches Err(m) ==> r matches Err(
                e,
            ) && e@ == ErrorView::Expression(m)),
    {
        let w = match ParsedExpression::parse(warning) {
            Ok(p) => p,
            Err(m) => return Err(Error::Expression(m)),
        };
        let c = match ParsedExpression::parse(critical) {
            Ok(p) => p,
            Err(m) => return Err(Error::Expression(m)),
        };
        Ok(ThresholdsChecker { warning: w.compile(), critical: c.compile() })
    }

    /// The compiled warning expression.
    pub fn warning(&self) -> (r: &CompiledExpression)
        ensures
            r@ == self@.warning,
    {
        &self.warning
    }

    /// The compiled critical expression.
    pub fn critical(&self) -> (r: &CompiledExpression)
        ensures
            r@ == self@.critical,
    {
        &self.critical
    }
}

/// Accepts an expression that parses and gives it back; otherwise the message
/// `invalid expression: ` followed by the parser's error.
pub fn validate_expression(s: &str) -> (r: Result<String, String>)
    ensures
        match fasteval_parse_error(s@) {
            None => r matches Ok(v) && v@ == s@,
            Some(m) => r matches Err(e) && e@ == "invalid expression: "@ + m,
        },
{
    match parse_expression(s) {
        Ok(_) => Ok(s.to_owned()),
        Err(err) => Err(concat_str("invalid expression: ", err.as_str())),
    }
}

} // verus!
