//! Faults of a script run, and the report that shows one in its source.

use crate::client::Client;
use crate::errors::Error;
use crate::request::{is_built, Method, Request};
use crate::text::{
    chars_of, decimal, decimal_text, lemma_final_newline_adds_no_line, push_range, push_repeated,
    push_right_aligned, repeated, right_aligned, source_line_at, source_lines,
};
use std::collections::HashMap;
use vstd::prelude::*;
use vstd::string::StringExecFns;

verus! {

/// Whether a script is to be run, or only checked.
#[derive(Debug, Clone, Copy)]
pub enum HmsRunMode<'request> {
    Execute,
    Lint { module_name: &'request str, is_driver: bool },
}

/// One argument for a script: a name and its value.
#[derive(Debug, Clone, Copy)]
pub struct HomescriptArg<'request> {
    pub key: &'request str,
    pub value: &'request str,
}

/// Asks the server to run, or to check, a script that it holds.
#[derive(Debug)]
pub struct ExecHomescriptbyIdRequest<'request> {
    pub id: &'request str,
    pub args: Vec<HomescriptArg<'request>>,
}

/// Asks the server to check the given code.
#[derive(Debug)]
pub struct LintHomescriptCodeRequest<'request> {
    pub code: &'request str,
    pub args: Vec<HomescriptArg<'request>>,
    pub module_name: &'request str,
    pub is_driver: bool,
}

/// Asks the server to run the given code.
#[derive(Debug)]
pub struct RunHomescriptCodeRequest<'request> {
    pub code: &'request str,
    pub args: Vec<HomescriptArg<'request>>,
}

/// What is sent along with code: a request to run it, or one to check it.
#[derive(Debug)]
pub enum HomescriptCodeRequest<'request> {
    Run(RunHomescriptCodeRequest<'request>),
    Lint(LintHomescriptCodeRequest<'request>),
}

/// What the server reports of a script that it ran or checked.
#[derive(Debug)]
pub struct HomescriptExecResponse {
    pub success: bool,
    pub output: String,
    /// The text of each file that took part, by its name: the source that
    /// a fault's span points into.
    pub file_contents: HashMap<String, String>,
    pub errors: Vec<HomescriptExecError>,
}

/// How grave a finding of the static analysis is.
#[derive(Debug, Clone, Copy, PartialEq, Eq, Structural)]
pub enum DiagnosticLevel {
    Hint,
    Info,
    Warning,
    Error,
}

impl DiagnosticLevel {
    /// The word that names the level in a report.
    pub open spec fn spec_label(self) -> Seq<char> {
        match self {
            DiagnosticLevel::Hint => "Hint"@,
            DiagnosticLevel::Info => "Info"@,
            DiagnosticLevel::Warning => "Warning"@,
            DiagnosticLevel::Error => "Error"@,
        }
    }

    /// The digit that selects the level's colour on a terminal.
    pub open spec fn spec_color(self) -> char {
        match self {
            DiagnosticLevel::Hint => '5',
            DiagnosticLevel::Info => '6',
            DiagnosticLevel::Warning => '3',
            DiagnosticLevel::Error => '1',
        }
    }

    /// The character that underlines the faulty source: a caret for an
    /// error, a tilde for anything milder.
    pub open spec fn spec_marker(self) -> char {
        match self {
            DiagnosticLevel::Error => '^',
            _ => '~',
        }
    }

    /// The level that the server's number stands for.
    pub open spec fn spec_from_code(code: u8) -> Option<DiagnosticLevel> {
        if code == 0 {
            Some(DiagnosticLevel::Hint)
        } else if code == 1 {
            Some(DiagnosticLevel::Info)
        } else if code == 2 {
            Some(DiagnosticLevel::Warning)
        } else if code == 3 {
            Some(DiagnosticLevel::Error)
        } else {
            None
        }
    }

    /// The level that the server's number stands for; `None` for a number
    /// that stands for no level.
    pub fn from_code(code: u8) -> (r: Option<DiagnosticLevel>)
        ensures
            r == Self::spec_from_code(code),
    {
        if code == 0 {
            Some(DiagnosticLevel::Hint)
        } else if code == 1 {
            Some(DiagnosticLevel::Info)
        } else if code == 2 {
            Some(DiagnosticLevel::Warning)
        } else if code == 3 {
            Some(DiagnosticLevel::Error)
        } else {
            None
        }
    }

    pub fn label(self) -> (r: &'static str)
        ensures
            r@ == self.spec_label(),
    {
        match self {
            DiagnosticLevel::Hint => "Hint",
            DiagnosticLevel::Info => "Info",
            DiagnosticLevel::Warning => "Warning",
            DiagnosticLevel::Error => "Error",
        }
    }

    pub fn color(self) -> (r: char)
        ensures
            r == self.spec_color(),
    {
        match self {
            DiagnosticLevel::Hint => '5',
            DiagnosticLevel::Info => '6',
            DiagnosticLevel::Warning => '3',
            DiagnosticLevel::Error => '1',
        }
    }

    pub fn marker(self) -> (r: char)
        ensures
            r == self.spec_marker(),
    {
        match self {
            DiagnosticLevel::Error => '^',
            _ => '~',
        }
    }
}

/// A place in a source text. Line and column count from one; `index`
/// counts characters from zero.
#[derive(Debug, Clone, Copy, PartialEq, Eq, Structural)]
pub struct HomescriptExecErrorLocation {
    pub line: usize,
    pub column: usize,
    pub index: usize,
}

/// The stretch of a source file that a fault points at.
#[derive(Debug, Clone)]
pub struct HomescriptExecErrorSpan {
    pub start: HomescriptExecErrorLocation,
    pub end: HomescriptExecErrorLocation,
    pub filename: String,
}

impl HomescriptExecErrorSpan {
    /// A span that points nowhere: both ends at line 0, column 0.
    pub open spec fn spec_is_degenerate(&self) -> bool {
        self.start.line == 0 && self.start.column == 0 && self.end.line == 0 && self.end.column
            == 0
    }

    /// How many marker characters underline the span: one for each column
    /// from start to end where both lie on one line, and a single one where
    /// the span crosses lines or ends before it starts.
    pub open spec fn spec_marker_width(&self) -> nat {
        if self.start.line == self.end.line && self.start.column <= self.end.column {
            (self.end.column - self.start.column + 1) as nat
        } else {
            1
        }
    }

    pub fn is_degenerate(&self) -> (r: bool)
        ensures
            r == self.spec_is_degenerate(),
    {
        self.start.line == 0 && self.start.column == 0 && self.end.line == 0 && self.end.column
            == 0
    }
}

#[derive(Debug, Clone)]
pub struct SyntaxError {
    pub message: String,
}

#[derive(Debug, Clone)]
pub struct DiagnosticError {
    pub level: DiagnosticLevel,
    pub message: String,
    pub notes: Vec<String>,
}

#[derive(Debug, Clone)]
pub struct RuntimeInterrupt {
    pub kind: String,
    pub message: String,
}

/// What went wrong: exactly one of the three kinds of fault.
#[derive(Debug, Clone)]
pub enum HomescriptErrorKind {
    Syntax(SyntaxError),
    Diagnostic(DiagnosticError),
    Runtime(RuntimeInterrupt),
}

/// One fault of a script run, with the place it points at.
#[derive(Debug, Clone)]
pub struct HomescriptExecError {
    pub kind: HomescriptErrorKind,
    pub span: HomescriptExecErrorSpan,
}

/// The start of the escape sequence that switches a terminal to a bold colour.
pub open spec fn color_on(color: char) -> Seq<char> {
    "\x1b[1;3"@.push(color).push('m')
}

/// The first line of a report: the level in its colour, then file, line and
/// column of the span's start.
pub open spec fn header_row(level: DiagnosticLevel, span: HomescriptExecErrorSpan) -> Seq<char> {
    color_on(level.spec_color()) + level.spec_label() + "\x1b[39m at "@ + span.filename@.push(':')
        + decimal(span.start.line as nat).push(':') + decimal(span.start.column as nat)
        + "\x1b[0m"@
}

/// What stands before a line of source in a report: its number in a field
/// of three, and a bar.
pub open spec fn gutter(number: nat) -> Seq<char> {
    " \x1b[90m"@ + right_aligned(decimal(number), 3) + " | \x1b[0m"@
}

/// Line `number` of the source as the report shows it beside the faulty
/// line: the gutter, the text, and a line break. Nothing at all where the
/// source has no such line; a line that is there is shown, also an empty
/// one.
pub open spec fn context_row(lines: Seq<Seq<char>>, number: int) -> Seq<char> {
    if 1 <= number <= lines.len() {
        gutter(number as nat) + lines[number - 1].push('\n')
    } else {
        Seq::<char>::empty()
    }
}

/// The faulty line as the report shows it: the gutter, the text, and a line
/// break. The row is always there, so that the markers have a line to stand
/// under; where the source has no line of that number, the text is empty.
pub open spec fn start_row(lines: Seq<Seq<char>>, number: nat) -> Seq<char> {
    gutter(number) + (if 1 <= number <= lines.len() {
        lines[number - 1]
    } else {
        Seq::<char>::empty()
    }).push('\n')
}

/// The row under the faulty line: blanks up to the start column, then the
/// markers in the level's colour.
pub open spec fn marker_row(level: DiagnosticLevel, span: HomescriptExecErrorSpan) -> Seq<char> {
    repeated(' ', (span.start.column + 6) as nat) + color_on(level.spec_color()) + repeated(
        level.spec_marker(),
        span.spec_marker_width(),
    ) + "\x1b[0m"@
}

/// The closing rows of a report: the message in the level's colour.
pub open spec fn message_row(level: DiagnosticLevel, message: Seq<char>) -> Seq<char> {
    color_on(level.spec_color()) + message + "\x1b[0m"@.push('\n')
}

/// The report for a span that points nowhere: level, file and message.
pub open spec fn compact_report(
    level: DiagnosticLevel,
    span: HomescriptExecErrorSpan,
    message: Seq<char>,
) -> Seq<char> {
    level.spec_label() + " in "@ + span.filename@.push('\n') + message
}

/// The report for a span that points into `code`: the header, an empty
/// row, the line before the span's first where there is one, that first
/// line with the marker row under it, the line after where there is one, an
/// empty row, and the message.
pub open spec fn excerpt_report(
    level: DiagnosticLevel,
    span: HomescriptExecErrorSpan,
    message: Seq<char>,
    code: Seq<char>,
) -> Seq<char> {
    let lines = source_lines(code);
    header_row(level, span).push('\n').push('\n') + context_row(lines, span.start.line - 1)
        + start_row(lines, span.start.line as nat) + marker_row(level, span).push('\n')
        + context_row(lines, span.start.line + 1) + seq!['\n'] + message_row(level, message)
}

/// Appends the escape sequence that switches to the bold colour `color`.
fn push_color_on(out: &mut String, color: char)
    ensures
        final(out)@ == old(out)@ + color_on(color),
{
    out.append("\x1b[1;3");
    out.push(color);
    out.push('m');
    assert(out@ =~= old(out)@ + color_on(color));
}

/// Appends the decimal numeral of `n`.
fn push_decimal(out: &mut String, n: u128)
    ensures
        final(out)@ == old(out)@ + decimal(n as nat),
{
    let digits = decimal_text(n);
    push_range(out, &digits, 0, digits.len());
    assert(digits@.subrange(0, digits@.len() as int) == digits@);
}

/// Appends the first line of a report.
fn push_header_row(out: &mut String, level: DiagnosticLevel, span: &HomescriptExecErrorSpan)
    ensures
        final(out)@ == old(out)@ + header_row(level, *span),
{
    push_color_on(out, level.color());
    out.append(level.label());
    out.append("\x1b[39m at ");
    out.append(span.filename.as_str());
    out.push(':');
    push_decimal(out, span.start.line as u128);
    out.push(':');
    push_decimal(out, span.start.column as u128);
    out.append("\x1b[0m");
    assert(out@ =~= old(out)@ + header_row(level, *span));
}

/// Appends the gutter for line `number`.
fn push_gutter(out: &mut String, number: u128)
    ensures
        final(out)@ == old(out)@ + gutter(number as nat),
{
    out.append(" \x1b[90m");
    let numeral = decimal_text(number);
    push_right_aligned(out, &numeral, 3);
    out.append(" | \x1b[0m");
    assert(out@ =~= old(out)@ + gutter(number as nat));
}

/// Appends line `index + 1` of the source as the report shows it, where the
/// source has that line.
fn push_context_row(out: &mut String, chars: &Vec<char>, index: usize)
    ensures
        final(out)@ == old(out)@ + context_row(source_lines(chars@), index + 1),
{
    match source_line_at(chars, index) {
        Some((from, to)) => {
            push_gutter(out, index as u128 + 1);
            push_range(out, chars, from, to);
            out.push('\n');
        },
        None => {},
    }
    assert(out@ =~= old(out)@ + context_row(source_lines(chars@), index + 1));
}

/// Appends line `number` of the source as the faulty line of the report.
fn push_start_row(out: &mut String, chars: &Vec<char>, number: usize)
    ensures
        final(out)@ == old(out)@ + start_row(source_lines(chars@), number as nat),
{
    push_gutter(out, number as u128);
    if number >= 1 {
        match source_line_at(chars, number - 1) {
            Some((from, to)) => {
                push_range(out, chars, from, to);
            },
            None => {},
        }
    }
    out.push('\n');
    assert(out@ =~= old(out)@ + start_row(source_lines(chars@), number as nat));
}

/// Appends the row of markers that goes under the faulty line.
fn push_marker_row(out: &mut String, level: DiagnosticLevel, span: &HomescriptExecErrorSpan)
    ensures
        final(out)@ == old(out)@ + marker_row(level, *span),
{
    push_repeated(out, ' ', span.start.column);
    push_repeated(out, ' ', 6);
    push_color_on(out, level.color());
    out.push(level.marker());
    if span.start.line == span.end.line && span.start.column < span.end.column {
        push_repeated(out, level.marker(), span.end.column - span.start.column);
    }
    out.append("\x1b[0m");
    assert(out@ =~= old(out)@ + marker_row(level, *span));
}

/// Appends the message in the level's colour, and the line break that ends
/// the report.
fn push_message_row(out: &mut String, level: DiagnosticLevel, message: &str)
    ensures
        final(out)@ == old(out)@ + message_row(level, message@),
{
    push_color_on(out, level.color());
    out.append(message);
    out.append("\x1b[0m");
    out.push('\n');
    assert(out@ =~= old(out)@ + message_row(level, message@));
}


impl HomescriptExecError {
    /// The level a fault is reported at: a finding has its own, and a
    /// syntax or runtime fault is always an error.
    pub open spec fn spec_level(&self) -> DiagnosticLevel {
        match self.kind {
            HomescriptErrorKind::Diagnostic(d) => d.level,
            _ => DiagnosticLevel::Error,
        }
    }

    /// The fault's message.
    pub open spec fn spec_message(&self) -> Seq<char> {
        match self.kind {
            HomescriptErrorKind::Syntax(s) => s.message@,
            HomescriptErrorKind::Diagnostic(d) => d.message@,
            HomescriptErrorKind::Runtime(r) => r.message@,
        }
    }

    /// The report on this fault in the source text `code`.
    pub open spec fn rendered(&self, code: Seq<char>) -> Seq<char> {
        if self.span.spec_is_degenerate() {
            compact_report(self.spec_level(), self.span, self.spec_message())
        } else {
            excerpt_report(self.spec_level(), self.span, self.spec_message(), code)
        }
    }

    pub fn level(&self) -> (r: DiagnosticLevel)
        ensures
            r == self.spec_level(),
    {
        match &self.kind {
            HomescriptErrorKind::Diagnostic(d) => d.level,
            _ => DiagnosticLevel::Error,
        }
    }

    pub fn message(&self) -> (r: &str)
        ensures
            r@ == self.spec_message(),
    {
        match &self.kind {
            HomescriptErrorKind::Syntax(s) => s.message.as_str(),
            HomescriptErrorKind::Diagnostic(d) => d.message.as_str(),
            HomescriptErrorKind::Runtime(r) => r.message.as_str(),
        }
    }
    /// The word that a short notice opens with: the kind of the fault.
    pub open spec fn spec_title(&self) -> Seq<char> {
        match self.kind {
            HomescriptErrorKind::Syntax(_) => "SyntaxError"@,
            HomescriptErrorKind::Diagnostic(d) => d.level.spec_label(),
            HomescriptErrorKind::Runtime(r) => r.kind@,
        }
    }

    /// The short notice of the fault: its kind, where it starts, and on a
    /// line of its own the message.
    pub open spec fn spec_summary(&self) -> Seq<char> {
        self.spec_title() + " at "@ + decimal(self.span.start.line as nat).push(':') + decimal(
            self.span.start.column as nat,
        ) + "\n  "@ + self.spec_message()
    }

    /// Puts a fault together from the three places in which the server
    /// reports one. Exactly one of the three must be filled.
    pub fn from_parts(
        syntax_error: Option<SyntaxError>,
        diagnostic_error: Option<DiagnosticError>,
        runtime_error: Option<RuntimeInterrupt>,
        span: HomescriptExecErrorSpan,
    ) -> (r: Option<Self>)
        ensures
            match (syntax_error, diagnostic_error, runtime_error) {
                (Some(s), None, None) => r == Some(
                    (HomescriptExecError { kind: HomescriptErrorKind::Syntax(s), span }),
                ),
                (None, Some(d), None) => r == Some(
                    (HomescriptExecError { kind: HomescriptErrorKind::Diagnostic(d), span }),
                ),
                (None, None, Some(i)) => r == Some(
                    (HomescriptExecError { kind: HomescriptErrorKind::Runtime(i), span }),
                ),
                _ => r is None,
            },
    {
        match (syntax_error, diagnostic_error, runtime_error) {
            (Some(s), None, None) => Some(
                HomescriptExecError { kind: HomescriptErrorKind::Syntax(s), span },
            ),
            (None, Some(d), None) => Some(
                HomescriptExecError { kind: HomescriptErrorKind::Diagnostic(d), span },
            ),
            (None, None, Some(i)) => Some(
                HomescriptExecError { kind: HomescriptErrorKind::Runtime(i), span },
            ),
            _ => None,
        }
    }

    /// A short notice of the fault, without source: its kind, where it
    /// starts, and the message.
    pub fn summary(&self) -> (r: String)
        ensures
            r@ == self.spec_summary(),
    {
        let mut out = String::new();
        match &self.kind {
            HomescriptErrorKind::Syntax(_) => out.append("SyntaxError"),
            HomescriptErrorKind::Diagnostic(d) => out.append(d.level.label()),
            HomescriptErrorKind::Runtime(r) => out.append(r.kind.as_str()),
        }
        out.append(" at ");
        push_decimal(&mut out, self.span.start.line as u128);
        out.push(':');
        push_decimal(&mut out, self.span.start.column as u128);
        out.append("\n  ");
        out.append(self.message());
        assert(out@ =~= self.spec_summary());
        out
    }

    /// Renders the fault for a reader: how grave it is, where it lies, the
    /// lines of `code` round that place with the faulty columns underlined,
    /// and the message. The line before and the line after are shown where
    /// the source has them, empty or not. A fault whose span points nowhere
    /// is reported in two lines, without source.
    pub fn display(&self, code: &str) -> (report: String)
        ensures
            report@ == self.rendered(code@),
    {
        let level = self.level();
        let mut out = String::new();
        if self.span.is_degenerate() {
            out.append(level.label());
            out.append(" in ");
            out.append(self.span.filename.as_str());
            out.push('\n');
            out.append(self.message());
            assert(out@ =~= self.rendered(code@));
            return out;
        }
        let chars = chars_of(code);
        let line = self.span.start.line;
        push_header_row(&mut out, level, &self.span);
        out.push('\n');
        out.push('\n');
        if line >= 2 {
            push_context_row(&mut out, &chars, line - 2);
        }
        push_start_row(&mut out, &chars, line);
        push_marker_row(&mut out, level, &self.span);
        out.push('\n');
        push_context_row(&mut out, &chars, line);
        out.push('\n');
        push_message_row(&mut out, level, self.message());
        assert(out@ =~= self.rendered(code@));
        out
    }
}

impl Client {
    /// The request that has the server run, or check, the given code.
    pub fn exec_homescript_code_request<'request>(
        &self,
        code: &'request str,
        args: Vec<HomescriptArg<'request>>,
        run_mode: HmsRunMode<'request>,
    ) -> (r: Result<Request<HomescriptCodeRequest<'request>>, Error>)
        ensures
            match run_mode {
                HmsRunMode::Execute => is_built(
                    r,
                    self.spec_url(),
                    self.spec_auth(),
                    Method::Post,
                    "/api/homescript/run/live"@,
                    Some(HomescriptCodeRequest::Run((RunHomescriptCodeRequest { code, args }))),
                ),
                HmsRunMode::Lint { module_name, is_driver } => is_built(
                    r,
                    self.spec_url(),
                    self.spec_auth(),
                    Method::Post,
                    "/api/homescript/lint/live"@,
                    Some(
                        HomescriptCodeRequest::Lint(
                            (LintHomescriptCodeRequest { code, args, module_name, is_driver }),
                        ),
                    ),
                ),
            },
    {
        match run_mode {
            HmsRunMode::Execute => self.build_request(
                Method::Post,
                "/api/homescript/run/live",
                Some(HomescriptCodeRequest::Run(RunHomescriptCodeRequest { code, args })),
            ),
            HmsRunMode::Lint { module_name, is_driver } => self.build_request(
                Method::Post,
                "/api/homescript/lint/live",
                Some(
                    HomescriptCodeRequest::Lint(
                        LintHomescriptCodeRequest { code, args, module_name, is_driver },
                    ),
                ),
            ),
        }
    }

    /// The request that has the server run, or check, the script that it
    /// holds under `id`.
    pub fn exec_homescript_request<'request>(
        &self,
        id: &'request str,
        args: Vec<HomescriptArg<'request>>,
        lint: bool,
    ) -> (r: Result<Request<ExecHomescriptbyIdRequest<'request>>, Error>)
        ensures
            is_built(
                r,
                self.spec_url(),
                self.spec_auth(),
                Method::Post,
                if lint {
                    "/api/homescript/lint"@
                } else {
                    "/api/homescript/run"@
                },
                Some((ExecHomescriptbyIdRequest { id, args })),
            ),
    {
        let path = if lint {
            "/api/homescript/lint"
        } else {
            "/api/homescript/run"
        };
        self.build_request(Method::Post, path, Some(ExecHomescriptbyIdRequest { id, args }))
    }
}

/// A span that crosses lines is underlined by a single marker, whatever
/// its columns.
pub proof fn lemma_marker_width_across_lines(span: HomescriptExecErrorSpan)
    requires
        span.start.line != span.end.line,
    ensures
        span.spec_marker_width() == 1,
{
}

/// A span within one line is underlined from its first column to its last,
/// both included.
pub proof fn lemma_marker_width_within_line(span: HomescriptExecErrorSpan)
    requires
        span.start.line == span.end.line,
        span.start.column <= span.end.column,
    ensures
        span.spec_marker_width() == span.end.column - span.start.column + 1,
{
}

/// Every span is underlined by at least one marker, also one that ends
/// before it starts.
pub proof fn lemma_marker_width_positive(span: HomescriptExecErrorSpan)
    ensures
        span.spec_marker_width() >= 1,
{
}

/// The report is a function of what the fault says and of the source text,
/// and of nothing else: two faults of one level with one message, whose
/// spans name one file and the same lines and columns, give the same report
/// on the same source. Neither the offsets in the spans nor the notes of a
/// finding nor the kind of a runtime fault show in it.
pub proof fn lemma_report_is_determined(
    a: HomescriptExecError,
    b: HomescriptExecError,
    code: Seq<char>,
)
    requires
        a.spec_level() == b.spec_level(),
        a.spec_message() == b.spec_message(),
        a.span.filename@ == b.span.filename@,
        a.span.start.line == b.span.start.line,
        a.span.start.column == b.span.start.column,
        a.span.end.line == b.span.end.line,
        a.span.end.column == b.span.end.column,
    ensures
        a.rendered(code) == b.rendered(code),
{
}

/// A fault whose span points nowhere is reported without any source: the
/// report is the same whatever the source text.
pub proof fn lemma_degenerate_report_ignores_source(
    fault: HomescriptExecError,
    code: Seq<char>,
    other: Seq<char>,
)
    requires
        fault.span.spec_is_degenerate(),
    ensures
        fault.rendered(code) == fault.rendered(other),
        fault.rendered(code) == fault.spec_level().spec_label() + " in "@
            + fault.span.filename@.push('\n') + fault.spec_message(),
{
}

/// A newline at the end of the source changes no report: the empty text
/// behind it is no line, and is never shown as one.
pub proof fn lemma_final_newline_changes_no_report(fault: HomescriptExecError, code: Seq<char>)
    requires
        code.len() > 0,
        code.last() != '\n',
    ensures
        fault.rendered(code.push('\n')) == fault.rendered(code),
{
    lemma_final_newline_adds_no_line(code);
}

} // verus!
