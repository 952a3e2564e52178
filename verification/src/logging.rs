use vstd::prelude::*;

verus! {

/// Where a piece of console output goes.
#[derive(Debug, Clone, Copy, PartialEq, Eq, Structural)]
pub enum OutputIn {
    Stdout,
    Stderr,
}

/// The kinds of message the compiler writes to the console.
#[derive(Debug, PartialEq, Eq, Clone, Copy, Structural)]
pub enum LoggingType {
    BackendPanic,
    BackendBug,
    FrontEndPanic,
    Error,
    Warning,
    Panic,
    Bug,
    Info,
}

/// A terminal foreground color.
#[derive(Debug, PartialEq, Eq, Clone, Copy, Structural)]
pub enum TermColor {
    BrightRed,
    Yellow,
    Rgb(u8, u8, u8),
}

/// How a piece of text is shown on a terminal.
#[derive(Debug, PartialEq, Eq, Clone, Copy, Structural)]
pub struct Style {
    pub color: TermColor,
    pub bold: bool,
    pub underline: bool,
}

/// A text and the style it is shown in.
#[derive(Debug)]
pub struct StyledText {
    pub text: String,
    pub style: Style,
}

/// A piece of a console message: plain text or styled text.
#[derive(Debug)]
pub enum LogPiece {
    Plain(String),
    Styled(StyledText),
}

/// What a piece of a message stands for: its characters and, if any, its style.
pub open spec fn piece_model(p: LogPiece) -> (Seq<char>, Option<Style>) {
    match p {
        LogPiece::Plain(t) => (t@, None),
        LogPiece::Styled(s) => (s.text@, Some(s.style)),
    }
}

/// What logging a message does: the stream it goes to, the pieces written in
/// order, and whether the process ends (with status 1) afterwards.
#[derive(Debug)]
pub struct LogPlan {
    pub stream: OutputIn,
    pub pieces: Vec<LogPiece>,
    pub exits: bool,
}

/// The address issues are reported to.
pub open spec fn issues_url() -> Seq<char> {
    "https://github.com/thrushlang/thrushc/issues/"@
}

pub open spec fn alarm() -> Style {
    Style { color: TermColor::BrightRed, bold: true, underline: true }
}

pub open spec fn spec_label(t: LoggingType) -> Seq<char> {
    match t {
        LoggingType::BackendPanic => "BACKEND PANIC"@,
        LoggingType::BackendBug => "BACKEND BUG"@,
        LoggingType::FrontEndPanic => "FRONTEND PANIC"@,
        LoggingType::Error => "ERROR"@,
        LoggingType::Warning => "WARN"@,
        LoggingType::Panic => "PANIC"@,
        LoggingType::Bug => "BUG"@,
        LoggingType::Info => "INFO"@,
    }
}

pub open spec fn spec_label_style(t: LoggingType) -> Style {
    match t {
        LoggingType::BackendPanic => Style { color: TermColor::BrightRed, bold: true, underline: false },
        LoggingType::BackendBug => alarm(),
        LoggingType::FrontEndPanic => Style { color: TermColor::BrightRed, bold: true, underline: false },
        LoggingType::Error => Style { color: TermColor::BrightRed, bold: true, underline: false },
        LoggingType::Warning => Style { color: TermColor::Yellow, bold: true, underline: false },
        LoggingType::Panic => alarm(),
        LoggingType::Bug => alarm(),
        LoggingType::Info => Style { color: TermColor::Rgb(141, 141, 142), bold: true, underline: false },
    }
}

pub open spec fn spec_text_style(t: LoggingType) -> Style {
    match t {
        LoggingType::Panic => Style { color: TermColor::BrightRed, bold: false, underline: true },
        _ => spec_label_style(t),
    }
}

/// The pieces a message of kind `t` with text `msg` is written as.
pub open spec fn spec_log_pieces(t: LoggingType, msg: Seq<char>) -> Seq<(Seq<char>, Option<Style>)> {
    let label = (spec_label(t), Some(spec_label_style(t)));
    let url = (issues_url(), Some(alarm()));
    match t {
        LoggingType::Bug | LoggingType::BackendBug => seq![
            label,
            (" "@ + msg + "\n"@, None),
            ("\nThis is a "@, None),
            ("critical issue"@, Some(alarm())),
            (" at code generation time. Report it in: '"@, None),
            url,
            ("'.\n"@, None),
        ],
        LoggingType::Panic | LoggingType::Error => seq![label, (" "@ + msg + "\n"@, None)],
        LoggingType::BackendPanic => seq![
            ("\n"@, None),
            label,
            (" "@ + msg, None),
            ("\n\nMaybe this is a issue... Report it in: '"@, None),
            url,
            ("'.\n"@, None),
            ("\n"@, None),
            ("NOTE"@, Some(alarm())),
            (" It isn't a issue if:\n• Comes from the inline assembler thing.\n\n"@, None),
        ],
        LoggingType::FrontEndPanic => seq![("\n"@, None), label, (" "@ + msg, None)],
        LoggingType::Warning | LoggingType::Info => seq![label, (" "@ + msg, None)],
    }
}

/// Whether a message of kind `t` ends the process.
pub open spec fn spec_log_exits(t: LoggingType) -> bool {
    t is Bug || t is BackendBug || t is Panic || t is FrontEndPanic
}

fn plain(text: String) -> (r: LogPiece)
    ensures
        piece_model(r) == (text@, None::<Style>),
{
    LogPiece::Plain(text)
}

fn styled(text: String, style: Style) -> (r: LogPiece)
    ensures
        piece_model(r) == (text@, Some(style)),
{
    LogPiece::Styled(StyledText { text, style })
}

fn alarm_style() -> (r: Style)
    ensures
        r == alarm(),
{
    Style { color: TermColor::BrightRed, bold: true, underline: true }
}

fn issues_url_text() -> (r: String)
    ensures
        r@ == issues_url(),
{
    proof {
        reveal_strlit("https://github.com/thrushlang/thrushc/issues/");
    }
    String::from_str("https://github.com/thrushlang/thrushc/issues/")
}

fn text(s: &str) -> (r: String)
    ensures
        r@ == s@,
{
    String::from_str(s)
}

fn with_prefix_and_suffix(prefix: &str, msg: &str, suffix: &str) -> (r: String)
    ensures
        r@ == prefix@ + msg@ + suffix@,
{
    crate::issue::concat3(prefix, msg, suffix)
}

/// What writing the message `msg` of kind `ltype` to the console does: the stream,
/// the pieces in order, and whether the process ends afterwards.
pub fn log_plan(ltype: LoggingType, msg: &str) -> (r: LogPlan)
    ensures
        r.stream == OutputIn::Stderr,
        r.pieces@.map_values(|p: LogPiece| piece_model(p)) == spec_log_pieces(ltype, msg@),
        r.exits == spec_log_exits(ltype),
{
    let mut pieces: Vec<LogPiece> = Vec::new();
    let label: StyledText = ltype.as_styled();
    proof {
        reveal_strlit(" ");
        reveal_strlit("\n");
        reveal_strlit("");
        reveal_strlit("\nThis is a ");
        reveal_strlit("critical issue");
        reveal_strlit(" at code generation time. Report it in: '");
        reveal_strlit("'.\n");
        reveal_strlit("\n\nMaybe this is a issue... Report it in: '");
        reveal_strlit("NOTE");
        reveal_strlit(" It isn't a issue if:\n• Comes from the inline assembler thing.\n\n");
    }
    if ltype.is_bug() || ltype.is_backend_bug() {
        pieces.push(LogPiece::Styled(label));
        pieces.push(plain(with_prefix_and_suffix(" ", msg, "\n")));
        pieces.push(plain(text("\nThis is a ")));
        pieces.push(styled(text("critical issue"), alarm_style()));
        pieces.push(plain(text(" at code generation time. Report it in: '")));
        pieces.push(styled(issues_url_text(), alarm_style()));
        pieces.push(plain(text("'.\n")));
        assert(pieces@.map_values(|p: LogPiece| piece_model(p)) =~= spec_log_pieces(ltype, msg@));
        return LogPlan { stream: OutputIn::Stderr, pieces, exits: true };
    }
    if ltype.is_panic() || ltype.is_err() {
        pieces.push(LogPiece::Styled(label));
        pieces.push(plain(with_prefix_and_suffix(" ", msg, "\n")));
        assert(pieces@.map_values(|p: LogPiece| piece_model(p)) =~= spec_log_pieces(ltype, msg@));
        return LogPlan { stream: OutputIn::Stderr, pieces, exits: ltype.is_panic() };
    }
    if ltype.is_backend_panic() {
        pieces.push(plain(text("\n")));
        pieces.push(LogPiece::Styled(label));
        pieces.push(plain(with_prefix_and_suffix(" ", msg, "")));
        pieces.push(plain(text("\n\nMaybe this is a issue... Report it in: '")));
        pieces.push(styled(issues_url_text(), alarm_style()));
        pieces.push(plain(text("'.\n")));
        pieces.push(plain(text("\n")));
        pieces.push(styled(text("NOTE"), alarm_style()));
        pieces.push(plain(text(" It isn't a issue if:\n• Comes from the inline assembler thing.\n\n")));
        assert(pieces@.map_values(|p: LogPiece| piece_model(p)) =~= spec_log_pieces(ltype, msg@));
        return LogPlan { stream: OutputIn::Stderr, pieces, exits: false };
    }
    if ltype.is_frontend_panic() {
        pieces.push(plain(text("\n")));
        pieces.push(LogPiece::Styled(label));
        pieces.push(plain(with_prefix_and_suffix(" ", msg, "")));
        assert(pieces@.map_values(|p: LogPiece| piece_model(p)) =~= spec_log_pieces(ltype, msg@));
        return LogPlan { stream: OutputIn::Stderr, pieces, exits: true };
    }
    pieces.push(LogPiece::Styled(label));
    pieces.push(plain(with_prefix_and_suffix(" ", msg, "")));
    assert(pieces@.map_values(|p: LogPiece| piece_model(p)) =~= spec_log_pieces(ltype, msg@));
    LogPlan { stream: OutputIn::Stderr, pieces, exits: false }
}

impl LoggingType {
    /// The label a message of this kind starts with, in its style.
    pub fn as_styled(&self) -> (r: StyledText)
        ensures
            r.text@ == spec_label(*self),
            r.style == spec_label_style(*self),
    {
        let style: Style = self.label_style();
        let label: &str = match self {
            LoggingType::BackendPanic => "BACKEND PANIC",
            LoggingType::BackendBug => "BACKEND BUG",
            LoggingType::FrontEndPanic => "FRONTEND PANIC",
            LoggingType::Error => "ERROR",
            LoggingType::Warning => "WARN",
            LoggingType::Panic => "PANIC",
            LoggingType::Bug => "BUG",
            LoggingType::Info => "INFO",
        };
        proof {
            reveal_strlit("BACKEND PANIC");
            reveal_strlit("BACKEND BUG");
            reveal_strlit("FRONTEND PANIC");
            reveal_strlit("ERROR");
            reveal_strlit("WARN");
            reveal_strlit("PANIC");
            reveal_strlit("BUG");
            reveal_strlit("INFO");
        }
        StyledText { text: String::from_str(label), style }
    }

    fn label_style(&self) -> (r: Style)
        ensures
            r == spec_label_style(*self),
    {
        match self {
            LoggingType::BackendPanic => Style { color: TermColor::BrightRed, bold: true, underline: false },
            LoggingType::BackendBug => alarm_style(),
            LoggingType::FrontEndPanic => Style { color: TermColor::BrightRed, bold: true, underline: false },
            LoggingType::Error => Style { color: TermColor::BrightRed, bold: true, underline: false },
            LoggingType::Warning => Style { color: TermColor::Yellow, bold: true, underline: false },
            LoggingType::Panic => alarm_style(),
            LoggingType::Bug => alarm_style(),
            LoggingType::Info => Style { color: TermColor::Rgb(141, 141, 142), bold: true, underline: false },
        }
    }

    /// A message text in the style of this kind of message.
    pub fn text_with_color(&self, msg: &str) -> (r: StyledText)
        ensures
            r.text@ == msg@,
            r.style == spec_text_style(*self),
    {
        let style: Style = match self {
            LoggingType::Panic => Style { color: TermColor::BrightRed, bold: false, underline: true },
            _ => self.label_style(),
        };
        StyledText { text: String::from_str(msg), style }
    }

    pub fn is_panic(&self) -> (r: bool)
        ensures
            r == (*self is Panic),
    {
        matches!(self, LoggingType::Panic)
    }

    pub fn is_err(&self) -> (r: bool)
        ensures
            r == (*self is Error),
    {
        matches!(self, LoggingType::Error)
    }

    pub fn is_warn(&self) -> (r: bool)
        ensures
            r == (*self is Warning),
    {
        matches!(self, LoggingType::Warning)
    }

    pub fn is_bug(&self) -> (r: bool)
        ensures
            r == (*self is Bug),
    {
        matches!(self, LoggingType::Bug)
    }

    pub fn is_info(&self) -> (r: bool)
        ensures
            r == (*self is Info),
    {
        matches!(self, LoggingType::Info)
    }

    pub fn is_backend_panic(&self) -> (r: bool)
        ensures
            r == (*self is BackendPanic),
    {
        matches!(self, LoggingType::BackendPanic)
    }

    pub fn is_backend_bug(&self) -> (r: bool)
        ensures
            r == (*self is BackendBug),
    {
        matches!(self, LoggingType::BackendBug)
    }

    pub fn is_frontend_panic(&self) -> (r: bool)
        ensures
            r == (*self is FrontEndPanic),
    {
        matches!(self, LoggingType::FrontEndPanic)
    }
}

} // verus!
