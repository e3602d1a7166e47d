//! The process backend: an executable that is started once, lives as long
//! as the hook, and answers one line per request line.
use vstd::prelude::*;
use crate::action::{Action, ActionView, Phase};
use crate::error::{HookError, HookErrorView, ProtocolFault, ProtocolFaultView};
use crate::package::{one_line, PackageId};
use crate::wire::{accept_token, framed, line_verdict, parse_reply, reject_token, trimmed};

verus! {

/// The state of a process backend.
pub struct ProcessModel {
    pub phase: Phase,
    /// The path of the executable.
    pub path: Seq<char>,
    /// The JSON text of the candidate whose answer is awaited; empty where
    /// none is.
    pub pending: Seq<char>,
    /// Every action that the host was asked for, oldest first.
    pub log: Seq<ActionView>,
}

impl ProcessModel {
    /// The backend for the executable at `path`, as it is created: the
    /// host has been asked to start the child.
    pub open spec fn fresh(path: Seq<char>) -> ProcessModel {
        ProcessModel {
            phase: Phase::Starting,
            path,
            pending: Seq::empty(),
            log: seq![ActionView::Spawn { path }],
        }
    }

    /// The error for a step that the backend did not await.
    pub open spec fn out_of_turn(self, request: Seq<char>) -> HookErrorView {
        HookErrorView::Protocol { path: self.path, request, fault: ProtocolFaultView::OutOfTurn }
    }

    /// The host reports whether the child was started.
    pub open spec fn started(self, ok: bool) -> (ProcessModel, Result<(), HookErrorView>) {
        if self.phase != Phase::Starting {
            (self, Err(self.out_of_turn(Seq::empty())))
        } else if ok {
            (ProcessModel { phase: Phase::Ready, ..self }, Ok(()))
        } else {
            (ProcessModel { phase: Phase::Closed, ..self }, Err(HookErrorView::Spawn { path: self.path }))
        }
    }

    /// The resolver asks about the candidate whose JSON text is `id`.
    pub open spec fn hook(self, id: Seq<char>) -> (ProcessModel, Result<ActionView, HookErrorView>) {
        if self.phase != Phase::Ready {
            (self, Err(self.out_of_turn(id)))
        } else {
            let send = ActionView::Send { line: framed(id) };
            (
                ProcessModel { phase: Phase::Waiting, pending: id, log: self.log.push(send), ..self },
                Ok(send),
            )
        }
    }

    /// The host hands over what it read: a line, or `None` where writing,
    /// flushing or reading failed.
    pub open spec fn reply(self, read: Option<Seq<char>>) -> (ProcessModel, Result<bool, HookErrorView>) {
        if self.phase != Phase::Waiting {
            (self, Err(self.out_of_turn(Seq::empty())))
        } else {
            (
                ProcessModel { phase: Phase::Ready, pending: Seq::empty(), ..self },
                match read {
                    None => Err(HookErrorView::Io { path: self.path, request: self.pending }),
                    Some(line) => match line_verdict(line) {
                        Some(verdict) => Ok(verdict),
                        None => Err(
                            HookErrorView::Protocol {
                                path: self.path,
                                request: self.pending,
                                fault: ProtocolFaultView::Reply(trimmed(line)),
                            },
                        ),
                    },
                },
            )
        }
    }

    /// The hook is dropped.
    pub open spec fn shutdown(self) -> (ProcessModel, ActionView) {
        if self.phase == Phase::Ready || self.phase == Phase::Waiting {
            (
                ProcessModel {
                    phase: Phase::Closed,
                    pending: Seq::empty(),
                    log: self.log.push(ActionView::Hangup),
                    ..self
                },
                ActionView::Hangup,
            )
        } else {
            (ProcessModel { phase: Phase::Closed, pending: Seq::empty(), ..self }, ActionView::Idle)
        }
    }

    /// What holds of every state that a process backend can reach: the
    /// log begins with the one request to start the child, then holds
    /// requests only, and ends with the hang-up once the pipes are dropped.
    pub open spec fn wf(self) -> bool {
        let n = self.log.len() as int;
        &&& n >= 1
        &&& self.log[0] == ActionView::Spawn { path: self.path }
        &&& self.phase != Phase::Destroyed
        &&& self.phase == Phase::Starting ==> n == 1
        &&& self.phase == Phase::Waiting ==> n >= 2 && self.log[n - 1] == ActionView::Send {
            line: framed(self.pending),
        }
        &&& self.phase != Phase::Waiting ==> self.pending.len() == 0
        &&& self.phase != Phase::Closed ==> forall|i: int| 1 <= i < n ==> self.log[i] is Send
        &&& self.phase == Phase::Closed ==> n == 1 || {
            &&& self.log[n - 1] == ActionView::Hangup
            &&& forall|i: int| 1 <= i < n - 1 ==> self.log[i] is Send
        }
    }
}

/// A backend is created in a state that [`ProcessModel::wf`] holds of, and
/// every step leads from such a state to such a state.
pub proof fn law_process_wf_is_kept(
    state: ProcessModel,
    path: Seq<char>,
    ok: bool,
    id: Seq<char>,
    read: Option<Seq<char>>,
)
    requires
        state.wf(),
    ensures
        ProcessModel::fresh(path).wf(),
        state.started(ok).0.wf(),
        state.hook(id).0.wf(),
        state.reply(read).0.wf(),
        state.shutdown().0.wf(),
{
}

/// The child is started exactly once, however many candidates are asked
/// about: the request to start it is the first entry of the log and no
/// later one.
pub proof fn law_spawned_once(state: ProcessModel)
    requires
        state.wf(),
    ensures
        state.log.len() >= 1,
        state.log[0] is Spawn,
        forall|i: int| 1 <= i < state.log.len() ==> !(state.log[i] is Spawn),
{
}

/// Asking about a candidate starts no child: in a live backend the call
/// adds one request to the log and nothing else.
pub proof fn law_hook_sends_only(state: ProcessModel, id: Seq<char>)
    requires
        state.wf(),
        state.phase == Phase::Ready,
    ensures
        state.hook(id).0.log == state.log.push(ActionView::Send { line: framed(id) }),
        state.hook(id).1 == Ok::<ActionView, HookErrorView>(ActionView::Send { line: framed(id) }),
{
}

/// In a live backend the reply alone decides the answer, whatever the
/// candidate: `true` accepts, `false` rejects, any other line is a protocol
/// error and a failed exchange an I/O error, both with the backend and the
/// candidate in them.  After the answer the backend is ready for the next
/// candidate.
pub proof fn law_reply_decides(state: ProcessModel, id: Seq<char>, line: Seq<char>)
    requires
        state.wf(),
        state.phase == Phase::Ready,
    ensures
        state.hook(id).1 is Ok,
        state.hook(id).0.reply(Some(line)).0.phase == Phase::Ready,
        state.hook(id).0.reply(None).0.phase == Phase::Ready,
        trimmed(line) == accept_token() ==> state.hook(id).0.reply(Some(line)).1 == Ok::<
            bool,
            HookErrorView,
        >(true),
        trimmed(line) == reject_token() ==> state.hook(id).0.reply(Some(line)).1 == Ok::<
            bool,
            HookErrorView,
        >(false),
        trimmed(line) != accept_token() && trimmed(line) != reject_token() ==> state.hook(id).0.reply(
            Some(line),
        ).1 == Err::<bool, HookErrorView>(
            HookErrorView::Protocol {
                path: state.path,
                request: id,
                fault: ProtocolFaultView::Reply(trimmed(line)),
            },
        ),
        state.hook(id).0.reply(None).1 == Err::<bool, HookErrorView>(
            HookErrorView::Io { path: state.path, request: id },
        ),
{
    assert(accept_token()[0] != reject_token()[0]);
}

/// One request and one reply are in flight at a time: while an answer is
/// awaited a second request is refused and changes nothing.
pub proof fn law_no_pipelining(state: ProcessModel, id: Seq<char>)
    requires
        state.phase == Phase::Waiting,
    ensures
        state.hook(id).0 == state,
        state.hook(id).1 is Err,
{
}

/// The sans-I/O state machine of a process backend.
pub struct HookProcess {
    path: String,
    phase: Phase,
    pending: String,
    log: Ghost<Seq<ActionView>>,
}

impl View for HookProcess {
    type V = ProcessModel;

    closed spec fn view(&self) -> ProcessModel {
        ProcessModel { phase: self.phase, path: self.path@, pending: self.pending@, log: self.log@ }
    }
}

impl HookProcess {
    /// Creates the backend for the executable at `path`, and asks the host
    /// to start it.
    pub fn new(path: &str) -> (r: (HookProcess, Action))
        ensures
            r.0@ == ProcessModel::fresh(path@),
            r.0@.wf(),
            r.1@ == (ActionView::Spawn { path: path@ }),
    {
        let ghost log = seq![ActionView::Spawn { path: path@ }];
        let backend = HookProcess {
            path: path.to_owned(),
            phase: Phase::Starting,
            pending: String::new(),
            log: Ghost(log),
        };
        (backend, Action::Spawn { path: path.to_owned() })
    }

    /// Where the backend stands.
    pub fn phase(&self) -> (phase: Phase)
        ensures
            phase == self@.phase,
    {
        self.phase
    }

    /// The path of the executable.
    pub fn path(&self) -> (path: &str)
        ensures
            path@ == self@.path,
    {
        self.path.as_str()
    }

    fn out_of_turn(&self, request: String) -> (e: HookError)
        ensures
            e@ == self@.out_of_turn(request@),
    {
        HookError::Protocol { path: self.path.clone(), request, fault: ProtocolFault::OutOfTurn }
    }

    /// The host reports whether the child was started.  A child that could
    /// not be started is a spawn error, and the backend is closed.
    pub fn started(&mut self, ok: bool) -> (r: Result<(), HookError>)
        ensures
            final(self)@ == old(self)@.started(ok).0,
            old(self)@.wf() ==> final(self)@.wf(),
            match old(self)@.started(ok).1 {
                Ok(_) => r is Ok,
                Err(error) => r matches Err(e) && e@ == error,
            },
    {
        match self.phase {
            Phase::Starting => {
                if ok {
                    self.phase = Phase::Ready;
                    Ok(())
                } else {
                    self.phase = Phase::Closed;
                    Err(HookError::Spawn { path: self.path.clone() })
                }
            },
            _ => Err(self.out_of_turn(String::new())),
        }
    }

    /// Asks about a candidate: the host is to send the request line and to
    /// read the reply.  Refused, with nothing changed, unless the backend is
    /// live and idle.
    pub fn hook(&mut self, id: &PackageId) -> (r: Result<Action, HookError>)
        ensures
            final(self)@ == old(self)@.hook(id@).0,
            old(self)@.wf() ==> final(self)@.wf(),
            match old(self)@.hook(id@).1 {
                Ok(action) => r matches Ok(a) && a@ == action,
                Err(error) => r matches Err(e) && e@ == error,
            },
            one_line(framed(id@)),
    {
        let json = id.as_json();
        proof {
            assert(framed(id@).drop_last() =~= id@);
        }
        match self.phase {
            Phase::Ready => {
                let line = id.request_line();
                self.phase = Phase::Waiting;
                self.pending = json.to_owned();
                proof {
                    self.log@ = self.log@.push(ActionView::Send { line: line@ });
                }
                Ok(Action::Send { line })
            },
            _ => Err(self.out_of_turn(json.to_owned())),
        }
    }

    /// Takes what the host read.  The line, trimmed, is `true` or `false`;
    /// any other text is a protocol error, a failed exchange an I/O error.
    /// Either way the backend is idle again.
    pub fn reply(&mut self, read: Option<String>) -> (r: Result<bool, HookError>)
        ensures
            final(self)@ == old(self)@.reply(
                match read {
                    Some(line) => Some(line@),
                    None => None,
                },
            ).0,
            old(self)@.wf() ==> final(self)@.wf(),
            match old(self)@.reply(
                match read {
                    Some(line) => Some(line@),
                    None => None,
                },
            ).1 {
                Ok(verdict) => r == Ok::<bool, HookError>(verdict),
                Err(error) => r matches Err(e) && e@ == error,
            },
    {
        match self.phase {
            Phase::Waiting => {
                let request = self.pending.clone();
                self.phase = Phase::Ready;
                self.pending = String::new();
                match read {
                    None => Err(HookError::Io { path: self.path.clone(), request }),
                    Some(line) => match parse_reply(line.as_str()) {
                        Ok(verdict) => Ok(verdict),
                        Err(got) => Err(
                            HookError::Protocol {
                                path: self.path.clone(),
                                request,
                                fault: ProtocolFault::Reply(got),
                            },
                        ),
                    },
                }
            },
            _ => Err(self.out_of_turn(String::new())),
        }
    }

    /// Ends the backend: a live one has its pipes dropped, once.
    pub fn shutdown(&mut self) -> (action: Action)
        ensures
            final(self)@ == old(self)@.shutdown().0,
            old(self)@.wf() ==> final(self)@.wf(),
            action@ == old(self)@.shutdown().1,
    {
        let live = match self.phase {
            Phase::Ready => true,
            Phase::Waiting => true,
            _ => false,
        };
        self.phase = Phase::Closed;
        self.pending = String::new();
        if live {
            proof {
                self.log@ = self.log@.push(ActionView::Hangup);
            }
            Action::Hangup
        } else {
            Action::Idle
        }
    }
}

} // verus!
