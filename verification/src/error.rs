//! The errors of a hook call.  Every one is fatal to the call and is handed
//! to the caller as it is.
use vstd::prelude::*;

verus! {

/// The five classes of failure.
#[derive(Clone, Copy, Debug, PartialEq, Eq, Structural)]
pub enum ErrorKind {
    /// The configuration is malformed or lacks a required field.
    Config,
    /// The executable could not be started.
    Spawn,
    /// The shared library could not be loaded or lacks an entry point.
    LibraryLoad,
    /// The backend answered with something the protocol does not allow.
    Protocol,
    /// Writing to or reading from the child's pipes failed.
    Io,
}

/// What is wrong with a configuration.
#[derive(Clone, Copy, Debug, PartialEq, Eq, Structural)]
pub enum ConfigFault {
    /// The `kind` tag is absent.
    MissingKind,
    /// The `kind` tag names no backend.
    UnknownKind,
    /// The `path` field is absent.
    MissingPath,
    /// The plugin parameters cannot be written as a TOML document.
    Params,
}

/// How a backend, or its host, broke the protocol.
#[derive(Debug, PartialEq, Eq)]
pub enum ProtocolFault {
    /// The reply line, trimmed, is neither `true` nor `false`.  An empty
    /// text stands for a read that met the end of the stream.
    Reply(String),
    /// The plugin returned a code other than 0 and 1.
    Code(u32),
    /// A step was taken while the backend awaited another one: the protocol
    /// has exactly one request and one reply in flight at a time.
    OutOfTurn,
}

/// A failed hook call, with the backend and the candidate it concerns.
#[derive(Debug, PartialEq, Eq)]
#[allow(inconsistent_fields)]
pub enum HookError {
    /// `detail` is the `kind` tag of the setting (empty where it is
    /// absent), or for [`ConfigFault::Params`] the path of the plugin.
    Config { fault: ConfigFault, detail: String },
    Spawn { path: String },
    LibraryLoad { path: String },
    /// `request` is the JSON text of the candidate, empty where none was
    /// in flight.
    Protocol { path: String, request: String, fault: ProtocolFault },
    Io { path: String, request: String },
}

/// [`ProtocolFault`] with its text as a sequence of characters.
pub enum ProtocolFaultView {
    Reply(Seq<char>),
    Code(u32),
    OutOfTurn,
}

/// [`HookError`] with its texts as sequences of characters.
#[allow(inconsistent_fields)]
pub enum HookErrorView {
    Config { fault: ConfigFault, detail: Seq<char> },
    Spawn { path: Seq<char> },
    LibraryLoad { path: Seq<char> },
    Protocol { path: Seq<char>, request: Seq<char>, fault: ProtocolFaultView },
    Io { path: Seq<char>, request: Seq<char> },
}

impl View for ProtocolFault {
    type V = ProtocolFaultView;

    open spec fn view(&self) -> ProtocolFaultView {
        match *self {
            ProtocolFault::Reply(text) => ProtocolFaultView::Reply(text@),
            ProtocolFault::Code(code) => ProtocolFaultView::Code(code),
            ProtocolFault::OutOfTurn => ProtocolFaultView::OutOfTurn,
        }
    }
}

impl View for HookError {
    type V = HookErrorView;

    open spec fn view(&self) -> HookErrorView {
        match *self {
            HookError::Config { fault, detail } => HookErrorView::Config { fault, detail: detail@ },
            HookError::Spawn { path } => HookErrorView::Spawn { path: path@ },
            HookError::LibraryLoad { path } => HookErrorView::LibraryLoad { path: path@ },
            HookError::Protocol { path, request, fault } => HookErrorView::Protocol {
                path: path@,
                request: request@,
                fault: fault@,
            },
            HookError::Io { path, request } => HookErrorView::Io { path: path@, request: request@ },
        }
    }
}

impl HookErrorView {
    /// The class that the error belongs to.
    pub open spec fn kind(self) -> ErrorKind {
        match self {
            HookErrorView::Config { .. } => ErrorKind::Config,
            HookErrorView::Spawn { .. } => ErrorKind::Spawn,
            HookErrorView::LibraryLoad { .. } => ErrorKind::LibraryLoad,
            HookErrorView::Protocol { .. } => ErrorKind::Protocol,
            HookErrorView::Io { .. } => ErrorKind::Io,
        }
    }
}

/// The ten digits.
pub open spec fn digit(d: nat) -> char {
    seq!['0', '1', '2', '3', '4', '5', '6', '7', '8', '9'][d as int]
}

/// `n` in decimal, without leading zeros.
pub open spec fn decimal(n: nat) -> Seq<char>
    decreases n,
{
    if n < 10 {
        seq![digit(n)]
    } else {
        decimal(n / 10).push(digit(n % 10))
    }
}

/// The candidate that an error concerns, for the end of a message; nothing
/// where no candidate was in flight.
pub open spec fn candidate_note(request: Seq<char>) -> Seq<char> {
    if request.len() == 0 {
        Seq::empty()
    } else {
        " (candidate "@ + request + ")"@
    }
}

impl ProtocolFaultView {
    /// The fault in words.
    pub open spec fn text(self) -> Seq<char> {
        match self {
            ProtocolFaultView::Reply(got) => "expected true or false in hook response. Got: "@ + got,
            ProtocolFaultView::Code(code) => "wrong code "@ + decimal(code as nat),
            ProtocolFaultView::OutOfTurn => "step taken out of turn"@,
        }
    }
}

impl HookErrorView {
    /// The error in words: the backend, what went wrong, and the candidate.
    pub open spec fn message(self) -> Seq<char> {
        match self {
            HookErrorView::Config { fault, detail } => match fault {
                ConfigFault::MissingKind => "hook configuration: kind is missing"@,
                ConfigFault::UnknownKind => "hook configuration: unknown kind "@ + detail,
                ConfigFault::MissingPath => "hook configuration: path is missing for kind "@
                    + detail,
                ConfigFault::Params => "hook "@ + detail + ": parameters cannot be written as TOML"@,
            },
            HookErrorView::Spawn { path } => "hook "@ + path + ": cannot start the process"@,
            HookErrorView::LibraryLoad { path } => "hook "@ + path
                + ": error during library loading"@,
            HookErrorView::Protocol { path, request, fault } => "hook "@ + path + ": "@
                + fault.text() + candidate_note(request),
            HookErrorView::Io { path, request } => "hook "@ + path + ": reading or writing failed"@
                + candidate_note(request),
        }
    }
}

fn digit_text(d: u32) -> (text: &'static str)
    requires
        d < 10,
    ensures
        text@ == seq![digit(d as nat)],
{
    proof {
        reveal_strlit("0");
        reveal_strlit("1");
        reveal_strlit("2");
        reveal_strlit("3");
        reveal_strlit("4");
        reveal_strlit("5");
        reveal_strlit("6");
        reveal_strlit("7");
        reveal_strlit("8");
        reveal_strlit("9");
    }
    let text = match d {
        0 => "0",
        1 => "1",
        2 => "2",
        3 => "3",
        4 => "4",
        5 => "5",
        6 => "6",
        7 => "7",
        8 => "8",
        _ => "9",
    };
    assert(text@ =~= seq![digit(d as nat)]);
    text
}

/// Writes `n` in decimal.
pub fn decimal_text(n: u32) -> (text: String)
    ensures
        text@ == decimal(n as nat),
    decreases n,
{
    if n < 10 {
        digit_text(n).to_owned()
    } else {
        let mut text = decimal_text(n / 10);
        text.append(digit_text(n % 10));
        assert(text@ =~= decimal(n as nat));
        text
    }
}

fn candidate_text(request: &str) -> (text: String)
    ensures
        text@ == candidate_note(request@),
{
    if request.is_empty() {
        String::new()
    } else {
        let mut text = String::from_str(" (candidate ");
        text.append(request);
        text.append(")");
        text
    }
}

impl ProtocolFault {
    /// The fault in words.
    pub fn text(&self) -> (text: String)
        ensures
            text@ == self@.text(),
    {
        match self {
            ProtocolFault::Reply(got) => {
                let mut text = String::from_str("expected true or false in hook response. Got: ");
                text.append(got.as_str());
                text
            },
            ProtocolFault::Code(code) => {
                let mut text = String::from_str("wrong code ");
                let number = decimal_text(*code);
                text.append(number.as_str());
                text
            },
            ProtocolFault::OutOfTurn => String::from_str("step taken out of turn"),
        }
    }
}

impl HookError {
    /// The error in words: the backend, what went wrong, and the candidate.
    pub fn message(&self) -> (text: String)
        ensures
            text@ == self@.message(),
    {
        match self {
            HookError::Config { fault, detail } => match fault {
                ConfigFault::MissingKind => String::from_str("hook configuration: kind is missing"),
                ConfigFault::UnknownKind => {
                    let mut text = String::from_str("hook configuration: unknown kind ");
                    text.append(detail.as_str());
                    text
                },
                ConfigFault::MissingPath => {
                    let mut text = String::from_str("hook configuration: path is missing for kind ");
                    text.append(detail.as_str());
                    text
                },
                ConfigFault::Params => {
                    let mut text = String::from_str("hook ");
                    text.append(detail.as_str());
                    text.append(": parameters cannot be written as TOML");
                    text
                },
            },
            HookError::Spawn { path } => {
                let mut text = String::from_str("hook ");
                text.append(path.as_str());
                text.append(": cannot start the process");
                text
            },
            HookError::LibraryLoad { path } => {
                let mut text = String::from_str("hook ");
                text.append(path.as_str());
                text.append(": error during library loading");
                text
            },
            HookError::Protocol { path, request, fault } => {
                let mut text = String::from_str("hook ");
                text.append(path.as_str());
                text.append(": ");
                let what = fault.text();
                text.append(what.as_str());
                let note = candidate_text(request.as_str());
                text.append(note.as_str());
                text
            },
            HookError::Io { path, request } => {
                let mut text = String::from_str("hook ");
                text.append(path.as_str());
                text.append(": reading or writing failed");
                let note = candidate_text(request.as_str());
                text.append(note.as_str());
                text
            },
        }
    }

    /// The class that the error belongs to.
    pub fn kind(&self) -> (kind: ErrorKind)
        ensures
            kind == self@.kind(),
    {
        match self {
            HookError::Config { .. } => ErrorKind::Config,
            HookError::Spawn { .. } => ErrorKind::Spawn,
            HookError::LibraryLoad { .. } => ErrorKind::LibraryLoad,
            HookError::Protocol { .. } => ErrorKind::Protocol,
            HookError::Io { .. } => ErrorKind::Io,
        }
    }
}

} // verus!
