//! What the state machines ask of their host, and what the host tells them.
use vstd::prelude::*;

verus! {

/// One thing for the host to do.  The host carries it out before it calls
/// the hook again.
#[derive(Debug, PartialEq, Eq)]
#[allow(inconsistent_fields)]
pub enum Action {
    /// Nothing.
    Idle,
    /// Start the executable at `path` with its standard input and output
    /// as pipes, and keep both for the life of the hook.
    Spawn { path: String },
    /// Load the shared library at `path`, resolve its three entry points
    /// and call the initialiser once with the bytes of `params`.  Where any
    /// of this fails, release what was acquired.
    Load { path: String, params: String },
    /// Write `line` to the child's standard input, flush, and read one line
    /// from its standard output.
    Send { line: String },
    /// Call the query entry point with the context and the bytes of
    /// `request`.
    Query { request: String },
    /// Call the destroy entry point with the context.
    Destroy,
    /// Release the shared library.
    Unload,
    /// Drop the pipes to the child.  The child is not killed.
    Hangup,
}

/// [`Action`] with its texts as sequences of characters.
#[allow(inconsistent_fields)]
pub enum ActionView {
    Idle,
    Spawn { path: Seq<char> },
    Load { path: Seq<char>, params: Seq<char> },
    Send { line: Seq<char> },
    Query { request: Seq<char> },
    Destroy,
    Unload,
    Hangup,
}

impl View for Action {
    type V = ActionView;

    open spec fn view(&self) -> ActionView {
        match *self {
            Action::Idle => ActionView::Idle,
            Action::Spawn { path } => ActionView::Spawn { path: path@ },
            Action::Load { path, params } => ActionView::Load { path: path@, params: params@ },
            Action::Send { line } => ActionView::Send { line: line@ },
            Action::Query { request } => ActionView::Query { request: request@ },
            Action::Destroy => ActionView::Destroy,
            Action::Unload => ActionView::Unload,
            Action::Hangup => ActionView::Hangup,
        }
    }
}

/// Where a backend stands in its life.
#[derive(Clone, Copy, Debug, PartialEq, Eq, Structural)]
pub enum Phase {
    /// The host was asked to start the backend and has not reported yet.
    Starting,
    /// The backend is live and no request is in flight.
    Ready,
    /// A request is in flight.
    Waiting,
    /// The plugin's context is destroyed and its library still loaded.
    Destroyed,
    /// Nothing is held any more.
    Closed,
}

/// What a call of the hook comes to at once.
#[derive(Debug, PartialEq, Eq)]
pub enum Step {
    /// The answer is known without asking anybody.
    Answer(bool),
    /// The host has to ask the backend, and to hand over the reply.
    Run(Action),
}

/// [`Step`] over [`ActionView`].
pub enum StepView {
    Answer(bool),
    Run(ActionView),
}

impl View for Step {
    type V = StepView;

    open spec fn view(&self) -> StepView {
        match *self {
            Step::Answer(verdict) => StepView::Answer(verdict),
            Step::Run(action) => StepView::Run(action@),
        }
    }
}

/// What came back from a backend.
#[derive(Debug, PartialEq, Eq)]
pub enum Reply {
    /// The line read from the child's standard output, with its line feed;
    /// empty where the stream had ended.
    Line(String),
    /// Writing, flushing or reading failed.
    Failed,
    /// The code that the plugin's query entry point returned.
    Code(u32),
}

/// [`Reply`] with its text as a sequence of characters.
pub enum ReplyView {
    Line(Seq<char>),
    Failed,
    Code(u32),
}

impl View for Reply {
    type V = ReplyView;

    open spec fn view(&self) -> ReplyView {
        match *self {
            Reply::Line(line) => ReplyView::Line(line@),
            Reply::Failed => ReplyView::Failed,
            Reply::Code(code) => ReplyView::Code(code),
        }
    }
}

} // verus!
