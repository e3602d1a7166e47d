//! The plugin backend: a shared library with three entry points and a
//! context that the library hands out at initialisation and takes back at
//! the end.  The context is destroyed before the library is released, and
//! no entry point is called once that has begun.
use vstd::prelude::*;
use crate::action::{Action, ActionView, Phase};
use crate::config::{init_text, serialize_params};
use crate::error::{HookError, HookErrorView, ProtocolFault, ProtocolFaultView};
use crate::package::{one_line, PackageId};
use crate::wire::{code_verdict, decode_code, framed};

verus! {

/// The symbol of the initialiser: `(params, len) -> context`.
pub const INIT_SYMBOL: &'static str = "plugin_init";

/// The symbol of the query entry point: `(context, request, len) -> code`.
pub const QUERY_SYMBOL: &'static str = "plugin_query";

/// The symbol of the destroy entry point: `(context)`.
pub const DESTROY_SYMBOL: &'static str = "plugin_delete";

/// The state of a plugin backend.
pub struct PluginModel {
    pub phase: Phase,
    /// The path of the shared library.
    pub path: Seq<char>,
    /// The text that the initialiser receives.
    pub params: Seq<char>,
    /// The JSON text of the candidate whose answer is awaited; empty where
    /// none is.
    pub pending: Seq<char>,
    /// Every action that the host was asked for, oldest first.
    pub log: Seq<ActionView>,
}

impl PluginModel {
    /// The backend for the library at `path`, as it is created: the host
    /// has been asked to load and initialise it.
    pub open spec fn fresh(path: Seq<char>, params: Seq<char>) -> PluginModel {
        PluginModel {
            phase: Phase::Starting,
            path,
            params,
            pending: Seq::empty(),
            log: seq![ActionView::Load { path, params }],
        }
    }

    /// The error for a step that the backend did not await.
    pub open spec fn out_of_turn(self, request: Seq<char>) -> HookErrorView {
        HookErrorView::Protocol { path: self.path, request, fault: ProtocolFaultView::OutOfTurn }
    }

    /// The host reports whether the library was loaded and initialised.
    pub open spec fn started(self, ok: bool) -> (PluginModel, Result<(), HookErrorView>) {
        if self.phase != Phase::Starting {
            (self, Err(self.out_of_turn(Seq::empty())))
        } else if ok {
            (PluginModel { phase: Phase::Ready, ..self }, Ok(()))
        } else {
            (
                PluginModel { phase: Phase::Closed, ..self },
                Err(HookErrorView::LibraryLoad { path: self.path }),
            )
        }
    }

    /// The resolver asks about the candidate whose JSON text is `id`.
    pub open spec fn hook(self, id: Seq<char>) -> (PluginModel, Result<ActionView, HookErrorView>) {
        if self.phase != Phase::Ready {
            (self, Err(self.out_of_turn(id)))
        } else {
            let query = ActionView::Query { request: framed(id) };
            (
                PluginModel { phase: Phase::Waiting, pending: id, log: self.log.push(query), ..self },
                Ok(query),
            )
        }
    }

    /// The host hands over the code that the query returned.
    pub open spec fn reply(self, code: u32) -> (PluginModel, Result<bool, HookErrorView>) {
        if self.phase != Phase::Waiting {
            (self, Err(self.out_of_turn(Seq::empty())))
        } else {
            (
                PluginModel { phase: Phase::Ready, pending: Seq::empty(), ..self },
                match code_verdict(code) {
                    Some(verdict) => Ok(verdict),
                    None => Err(
                        HookErrorView::Protocol {
                            path: self.path,
                            request: self.pending,
                            fault: ProtocolFaultView::Code(code),
                        },
                    ),
                },
            )
        }
    }

    /// One step of the teardown: first the context is destroyed, then the
    /// library released, then nothing is left to do.
    pub open spec fn shutdown(self) -> (PluginModel, ActionView) {
        if self.phase == Phase::Ready || self.phase == Phase::Waiting {
            (
                PluginModel {
                    phase: Phase::Destroyed,
                    pending: Seq::empty(),
                    log: self.log.push(ActionView::Destroy),
                    ..self
                },
                ActionView::Destroy,
            )
        } else if self.phase == Phase::Destroyed {
            (
                PluginModel { phase: Phase::Closed, log: self.log.push(ActionView::Unload), ..self },
                ActionView::Unload,
            )
        } else {
            (PluginModel { phase: Phase::Closed, pending: Seq::empty(), ..self }, ActionView::Idle)
        }
    }

    /// What holds of every state that a plugin backend can reach: the log
    /// begins with the one request to load the library, then holds queries
    /// only, then the destroy, then the unload.
    pub open spec fn wf(self) -> bool {
        let n = self.log.len() as int;
        &&& n >= 1
        &&& self.log[0] == ActionView::Load { path: self.path, params: self.params }
        &&& self.phase == Phase::Starting ==> n == 1
        &&& self.phase == Phase::Waiting ==> n >= 2 && self.log[n - 1] == ActionView::Query {
            request: framed(self.pending),
        }
        &&& self.phase != Phase::Waiting ==> self.pending.len() == 0
        &&& self.phase == Phase::Ready || self.phase == Phase::Waiting ==> forall|i: int|
            1 <= i < n ==> self.log[i] is Query
        &&& self.phase == Phase::Destroyed ==> {
            &&& n >= 2
            &&& self.log[n - 1] == ActionView::Destroy
            &&& forall|i: int| 1 <= i < n - 1 ==> self.log[i] is Query
        }
        &&& self.phase == Phase::Closed ==> n == 1 || {
            &&& n >= 3
            &&& self.log[n - 2] == ActionView::Destroy
            &&& self.log[n - 1] == ActionView::Unload
            &&& forall|i: int| 1 <= i < n - 2 ==> self.log[i] is Query
        }
    }
}

/// A backend is created in a state that [`PluginModel::wf`] holds of, and
/// every step leads from such a state to such a state.
pub proof fn law_plugin_wf_is_kept(
    state: PluginModel,
    path: Seq<char>,
    params: Seq<char>,
    ok: bool,
    id: Seq<char>,
    code: u32,
)
    requires
        state.wf(),
    ensures
        PluginModel::fresh(path, params).wf(),
        state.started(ok).0.wf(),
        state.hook(id).0.wf(),
        state.reply(code).0.wf(),
        state.shutdown().0.wf(),
{
}

/// The library is loaded, and so initialised, exactly once: the request is
/// the first entry of the log and no later one.
pub proof fn law_loaded_once(state: PluginModel)
    requires
        state.wf(),
    ensures
        state.log.len() >= 1,
        state.log[0] is Load,
        forall|i: int| 1 <= i < state.log.len() ==> !(state.log[i] is Load),
{
}

/// The context is destroyed at most once, and the library released at most
/// once.
pub proof fn law_destroyed_at_most_once(state: PluginModel)
    requires
        state.wf(),
    ensures
        forall|i: int, j: int|
            0 <= i < state.log.len() && 0 <= j < state.log.len() && state.log[i] is Destroy
                && state.log[j] is Destroy ==> i == j,
        forall|i: int, j: int|
            0 <= i < state.log.len() && 0 <= j < state.log.len() && state.log[i] is Unload
                && state.log[j] is Unload ==> i == j,
{
}

/// The context is never destroyed after the library was released: a
/// release is the last entry of the log, and the entry before it is the
/// destroy.
pub proof fn law_destroy_before_unload(state: PluginModel)
    requires
        state.wf(),
    ensures
        forall|j: int|
            #![trigger state.log[j]]
            0 <= j < state.log.len() && state.log[j] is Unload ==> j == state.log.len() - 1 && j >= 1
                && state.log[j - 1] is Destroy,
        forall|i: int, j: int|
            0 <= i < state.log.len() && 0 <= j < state.log.len() && state.log[i] is Destroy
                && state.log[j] is Unload ==> i < j,
{
}

/// Every query comes after the load and before the destroy.
pub proof fn law_queries_inside_life(state: PluginModel)
    requires
        state.wf(),
    ensures
        forall|i: int| 0 <= i < state.log.len() && state.log[i] is Query ==> i >= 1,
        forall|i: int, j: int|
            0 <= i < state.log.len() && 0 <= j < state.log.len() && state.log[i] is Query && (
            state.log[j] is Destroy || state.log[j] is Unload) ==> i < j,
{
}

/// Tearing down a live backend destroys the context, then releases the
/// library, then asks for nothing more; the log of the closed backend
/// holds the destroy exactly once.
pub proof fn law_teardown_order(state: PluginModel)
    requires
        state.wf(),
        state.phase == Phase::Ready || state.phase == Phase::Waiting,
    ensures
        state.shutdown().1 == ActionView::Destroy,
        state.shutdown().0.shutdown().1 == ActionView::Unload,
        state.shutdown().0.shutdown().0.phase == Phase::Closed,
        state.shutdown().0.shutdown().0.shutdown().1 == ActionView::Idle,
        state.shutdown().0.shutdown().0.shutdown().0 == state.shutdown().0.shutdown().0,
        state.shutdown().0.shutdown().0.log == state.log.push(ActionView::Destroy).push(
            ActionView::Unload,
        ),
{
    let closed = state.shutdown().0.shutdown().0;
    assert(closed.pending =~= Seq::<char>::empty());
}

/// In a live backend the code alone decides the answer, whatever the
/// candidate: 1 accepts, 0 rejects, any other code is a protocol error
/// with the backend, the candidate and the code in it.  After the answer
/// the backend is ready for the next candidate.
pub proof fn law_code_decides(state: PluginModel, id: Seq<char>, code: u32)
    requires
        state.wf(),
        state.phase == Phase::Ready,
    ensures
        state.hook(id).1 is Ok,
        state.hook(id).0.reply(code).0.phase == Phase::Ready,
        code == 1 ==> state.hook(id).0.reply(code).1 == Ok::<bool, HookErrorView>(true),
        code == 0 ==> state.hook(id).0.reply(code).1 == Ok::<bool, HookErrorView>(false),
        code > 1 ==> state.hook(id).0.reply(code).1 == Err::<bool, HookErrorView>(
            HookErrorView::Protocol {
                path: state.path,
                request: id,
                fault: ProtocolFaultView::Code(code),
            },
        ),
{
}

/// Once the teardown has begun no entry point is called again: a query is
/// refused and changes nothing.
pub proof fn law_no_query_after_destroy(state: PluginModel, id: Seq<char>)
    requires
        state.phase == Phase::Destroyed || state.phase == Phase::Closed,
    ensures
        state.hook(id).0 == state,
        state.hook(id).1 is Err,
{
}

/// A library that could not be loaded is neither initialised, nor
/// destroyed, nor released by a later step: the host released what it had
/// acquired, and the teardown asks for nothing.
pub proof fn law_failed_load_owes_nothing(state: PluginModel)
    requires
        state.wf(),
        state.phase == Phase::Starting,
    ensures
        state.started(false).0.phase == Phase::Closed,
        state.started(false).0.shutdown().1 == ActionView::Idle,
        state.started(false).0.shutdown().0.log == state.log,
{
}

/// The sans-I/O state machine of a plugin backend.
pub struct HookPlugin {
    path: String,
    params: String,
    phase: Phase,
    pending: String,
    log: Ghost<Seq<ActionView>>,
}

impl View for HookPlugin {
    type V = PluginModel;

    closed spec fn view(&self) -> PluginModel {
        PluginModel {
            phase: self.phase,
            path: self.path@,
            params: self.params@,
            pending: self.pending@,
            log: self.log@,
        }
    }
}

impl HookPlugin {
    /// Creates the backend for the library at `path`, and asks the host to
    /// load it and to initialise it with the parameters, written as a TOML
    /// document (nothing where there are none).  Parameters that cannot be
    /// written are a configuration error, and the host is asked for
    /// nothing.
    pub fn new(path: &str, params: &Option<toml::Value>) -> (r: Result<(HookPlugin, Action), HookError>)
        ensures
            match init_text(path@, *params) {
                Ok(text) => r matches Ok(pair) && pair.0@ == PluginModel::fresh(path@, text)
                    && pair.0@.wf() && pair.1@ == (ActionView::Load { path: path@, params: text }),
                Err(error) => r matches Err(e) && e@ == error,
            },
    {
        match serialize_params(path, params) {
            Ok(text) => Ok(HookPlugin::with_init_text(path, text)),
            Err(error) => Err(error),
        }
    }

    /// Creates the backend for the library at `path` whose initialiser
    /// receives `text`.
    pub fn with_init_text(path: &str, text: String) -> (r: (HookPlugin, Action))
        ensures
            r.0@ == PluginModel::fresh(path@, text@),
            r.0@.wf(),
            r.1@ == (ActionView::Load { path: path@, params: text@ }),
    {
        let ghost log = seq![ActionView::Load { path: path@, params: text@ }];
        let backend = HookPlugin {
            path: path.to_owned(),
            params: text.clone(),
            phase: Phase::Starting,
            pending: String::new(),
            log: Ghost(log),
        };
        (backend, Action::Load { path: path.to_owned(), params: text })
    }

    /// Where the backend stands.
    pub fn phase(&self) -> (phase: Phase)
        ensures
            phase == self@.phase,
    {
        self.phase
    }

    /// The path of the shared library.
    pub fn path(&self) -> (path: &str)
        ensures
            path@ == self@.path,
    {
        self.path.as_str()
    }

    /// The text that the initialiser receives.
    pub fn params(&self) -> (params: &str)
        ensures
            params@ == self@.params,
    {
        self.params.as_str()
    }

    fn out_of_turn(&self, request: String) -> (e: HookError)
        ensures
            e@ == self@.out_of_turn(request@),
    {
        HookError::Protocol { path: self.path.clone(), request, fault: ProtocolFault::OutOfTurn }
    }

    /// The host reports whether the library was loaded, its entry points
    /// found and its initialiser called.  A failure is a load error, and
    /// the backend is closed.
    pub fn started(&mut self, ok: bool) -> (r: Result<(), HookError>)
        ensures
            final(self)@ == old(self)@.started(ok).0,
            old(self)@.wf() ==> final(self)@.wf(),
            match old(self)@.started(ok).1 {
                Ok(_) => r is Ok,
                Err(error) => r matches Err(e) && e@ == error,
            },
    {
        match self.phase {
            Phase::Starting => {
                if ok {
                    self.phase = Phase::Ready;
                    Ok(())
                } else {
                    self.phase = Phase::Closed;
                    Err(HookError::LibraryLoad { path: self.path.clone() })
                }
            },
            _ => Err(self.out_of_turn(String::new())),
        }
    }

    /// Asks about a candidate: the host is to call the query entry point
    /// with the request.  Refused, with nothing changed, unless the backend
    /// is live and idle.
    pub fn hook(&mut self, id: &PackageId) -> (r: Result<Action, HookError>)
        ensures
            final(self)@ == old(self)@.hook(id@).0,
            old(self)@.wf() ==> final(self)@.wf(),
            match old(self)@.hook(id@).1 {
                Ok(action) => r matches Ok(a) && a@ == action,
                Err(error) => r matches Err(e) && e@ == error,
            },
            one_line(framed(id@)),
    {
        let json = id.as_json();
        proof {
            assert(framed(id@).drop_last() =~= id@);
        }
        match self.phase {
            Phase::Ready => {
                let request = id.request_line();
                self.phase = Phase::Waiting;
                self.pending = json.to_owned();
                proof {
                    self.log@ = self.log@.push(ActionView::Query { request: request@ });
                }
                Ok(Action::Query { request })
            },
            _ => Err(self.out_of_turn(json.to_owned())),
        }
    }

    /// Takes the code that the query returned: 1 accepts, 0 rejects, any
    /// other code is a protocol error.  Either way the backend is idle
    /// again.
    pub fn reply(&mut self, code: u32) -> (r: Result<bool, HookError>)
        ensures
            final(self)@ == old(self)@.reply(code).0,
            old(self)@.wf() ==> final(self)@.wf(),
            match old(self)@.reply(code).1 {
                Ok(verdict) => r == Ok::<bool, HookError>(verdict),
                Err(error) => r matches Err(e) && e@ == error,
            },
    {
        match self.phase {
            Phase::Waiting => {
                let request = self.pending.clone();
                self.phase = Phase::Ready;
                self.pending = String::new();
                match decode_code(code) {
                    Some(verdict) => Ok(verdict),
                    None => Err(
                        HookError::Protocol {
                            path: self.path.clone(),
                            request,
                            fault: ProtocolFault::Code(code),
                        },
                    ),
                }
            },
            _ => Err(self.out_of_turn(String::new())),
        }
    }

    /// Takes one step of the teardown and says what the host is to do:
    /// destroy the context, then release the library, then nothing.  The
    /// host calls this until it answers [`Action::Idle`].
    pub fn shutdown(&mut self) -> (action: Action)
        ensures
            final(self)@ == old(self)@.shutdown().0,
            old(self)@.wf() ==> final(self)@.wf(),
            action@ == old(self)@.shutdown().1,
    {
        match self.phase {
            Phase::Ready | Phase::Waiting => {
                self.phase = Phase::Destroyed;
                self.pending = String::new();
                proof {
                    self.log@ = self.log@.push(ActionView::Destroy);
                }
                Action::Destroy
            },
            Phase::Destroyed => {
                self.phase = Phase::Closed;
                proof {
                    self.log@ = self.log@.push(ActionView::Unload);
                }
                Action::Unload
            },
            _ => {
                self.phase = Phase::Closed;
                self.pending = String::new();
                Action::Idle
            },
        }
    }
}

} // verus!
