//! The dispatcher: the one entry point of the resolver.  It holds exactly
//! one backend, chosen once from the configuration, or none, in which case
//! every candidate is accepted.
use vstd::prelude::*;
use crate::action::{Action, ActionView, Reply, ReplyView, Step, StepView};
use crate::config::{init_text, HookConfig, HookConfigView};
use crate::error::{HookError, HookErrorView, ProtocolFault, ProtocolFaultView};
use crate::package::{one_line, PackageId};
use crate::wire::framed;
use crate::plugin::{HookPlugin, PluginModel};
use crate::process::{HookProcess, ProcessModel};

verus! {

/// The backend that a hook holds.
pub enum HookKind {
    Process(HookProcess),
    Plugin(HookPlugin),
    /// No hook is installed.
    Absent,
}

/// The state of a hook.
pub enum HookModel {
    Process(ProcessModel),
    Plugin(PluginModel),
    Absent,
}

impl View for HookKind {
    type V = HookModel;

    open spec fn view(&self) -> HookModel {
        match *self {
            HookKind::Process(backend) => HookModel::Process(backend@),
            HookKind::Plugin(backend) => HookModel::Plugin(backend@),
            HookKind::Absent => HookModel::Absent,
        }
    }
}

/// The error for a step that a hook without a backend did not await.
pub open spec fn stray() -> HookErrorView {
    HookErrorView::Protocol {
        path: Seq::empty(),
        request: Seq::empty(),
        fault: ProtocolFaultView::OutOfTurn,
    }
}

impl HookModel {
    /// The hook for a configuration, with what the host is to do first.
    /// Without a configuration there is no backend and nothing to do.
    pub open spec fn configured(config: Option<HookConfigView>) -> Result<
        (HookModel, ActionView),
        HookErrorView,
    > {
        match config {
            None => Ok((HookModel::Absent, ActionView::Idle)),
            Some(HookConfigView::Process { path }) => Ok(
                (HookModel::Process(ProcessModel::fresh(path)), ActionView::Spawn { path }),
            ),
            Some(HookConfigView::Plugin { path, params }) => match init_text(path, params) {
                Ok(text) => Ok(
                    (
                        HookModel::Plugin(PluginModel::fresh(path, text)),
                        ActionView::Load { path, params: text },
                    ),
                ),
                Err(error) => Err(error),
            },
        }
    }

    /// Every action that the host was asked for, oldest first.
    pub open spec fn log(self) -> Seq<ActionView> {
        match self {
            HookModel::Process(backend) => backend.log,
            HookModel::Plugin(backend) => backend.log,
            HookModel::Absent => Seq::empty(),
        }
    }

    /// What holds of every state that a hook can reach.
    pub open spec fn wf(self) -> bool {
        match self {
            HookModel::Process(backend) => backend.wf(),
            HookModel::Plugin(backend) => backend.wf(),
            HookModel::Absent => true,
        }
    }

    /// The host reports whether the backend was started.
    pub open spec fn started(self, ok: bool) -> (HookModel, Result<(), HookErrorView>) {
        match self {
            HookModel::Process(backend) => (
                HookModel::Process(backend.started(ok).0),
                backend.started(ok).1,
            ),
            HookModel::Plugin(backend) => (HookModel::Plugin(backend.started(ok).0), backend.started(ok).1),
            HookModel::Absent => (self, Err(stray())),
        }
    }

    /// The resolver asks about the candidate whose JSON text is `id`.
    pub open spec fn hook(self, id: Seq<char>) -> (HookModel, Result<StepView, HookErrorView>) {
        match self {
            HookModel::Process(backend) => (
                HookModel::Process(backend.hook(id).0),
                match backend.hook(id).1 {
                    Ok(action) => Ok(StepView::Run(action)),
                    Err(error) => Err(error),
                },
            ),
            HookModel::Plugin(backend) => (
                HookModel::Plugin(backend.hook(id).0),
                match backend.hook(id).1 {
                    Ok(action) => Ok(StepView::Run(action)),
                    Err(error) => Err(error),
                },
            ),
            HookModel::Absent => (self, Ok(StepView::Answer(true))),
        }
    }

    /// The host hands over what came back.  A reply of the other backend's
    /// kind was not awaited.
    pub open spec fn reply(self, reply: ReplyView) -> (HookModel, Result<bool, HookErrorView>) {
        match (self, reply) {
            (HookModel::Process(backend), ReplyView::Line(line)) => (
                HookModel::Process(backend.reply(Some(line)).0),
                backend.reply(Some(line)).1,
            ),
            (HookModel::Process(backend), ReplyView::Failed) => (
                HookModel::Process(backend.reply(None).0),
                backend.reply(None).1,
            ),
            (HookModel::Process(backend), ReplyView::Code(_)) => (
                self,
                Err(backend.out_of_turn(Seq::empty())),
            ),
            (HookModel::Plugin(backend), ReplyView::Code(code)) => (
                HookModel::Plugin(backend.reply(code).0),
                backend.reply(code).1,
            ),
            (HookModel::Plugin(backend), _) => (self, Err(backend.out_of_turn(Seq::empty()))),
            (HookModel::Absent, _) => (self, Err(stray())),
        }
    }

    /// One step of the teardown.
    pub open spec fn shutdown(self) -> (HookModel, ActionView) {
        match self {
            HookModel::Process(backend) => (
                HookModel::Process(backend.shutdown().0),
                backend.shutdown().1,
            ),
            HookModel::Plugin(backend) => (HookModel::Plugin(backend.shutdown().0), backend.shutdown().1),
            HookModel::Absent => (self, ActionView::Idle),
        }
    }
}

/// A hook is created in a state that [`HookModel::wf`] holds of, and every
/// step leads from such a state to such a state.
pub proof fn law_hook_wf_is_kept(
    state: HookModel,
    config: Option<HookConfigView>,
    ok: bool,
    id: Seq<char>,
    reply: ReplyView,
)
    requires
        state.wf(),
    ensures
        HookModel::configured(config) matches Ok(first) ==> first.0.wf(),
        state.started(ok).0.wf(),
        state.hook(id).0.wf(),
        state.reply(reply).0.wf(),
        state.shutdown().0.wf(),
{
}

/// Without a configured hook every candidate is accepted, at once, and the
/// host is never asked for anything: no child is started and no library
/// loaded, whatever is called and how often.
pub proof fn law_no_hook_accepts_all(id: Seq<char>, ok: bool, reply: ReplyView)
    ensures
        HookModel::configured(None) == Ok::<(HookModel, ActionView), HookErrorView>(
            (HookModel::Absent, ActionView::Idle),
        ),
        HookModel::Absent.log().len() == 0,
        HookModel::Absent.hook(id) == (HookModel::Absent, Ok::<StepView, HookErrorView>(StepView::Answer(true))),
        HookModel::Absent.started(ok).0 == HookModel::Absent,
        HookModel::Absent.reply(reply).0 == HookModel::Absent,
        HookModel::Absent.shutdown() == (HookModel::Absent, ActionView::Idle),
{
}

/// A malformed configuration touches nothing: where the hook cannot be
/// configured there is no hook and no action for the host.  A process
/// backend can always be configured; a plugin backend whenever its
/// parameters are absent.
pub proof fn law_config_error_asks_nothing(config: Option<HookConfigView>)
    ensures
        HookModel::configured(config) is Err ==> config matches Some(
            HookConfigView::Plugin { params: Some(_), .. },
        ),
        HookModel::configured(config) matches Err(error) ==> error matches HookErrorView::Config { .. },
{
}

/// The backend is the one that the configuration names, and the first
/// action starts it: a hook holds exactly one backend, or none.
pub proof fn law_backend_as_configured(config: Option<HookConfigView>)
    ensures
        HookModel::configured(config) matches Ok(first) ==> match config {
            None => first.0 is Absent && first.1 is Idle,
            Some(HookConfigView::Process { path }) => first.0 is Process && first.1
                == (ActionView::Spawn { path }) && first.0.log() == seq![first.1],
            Some(HookConfigView::Plugin { path, .. }) => first.0 is Plugin && first.1 is Load
                && first.1->Load_path == path && first.0.log() == seq![first.1],
        },
{
}

/// The hook that the resolver consults.
pub struct Hook {
    kind: HookKind,
}

impl View for Hook {
    type V = HookModel;

    closed spec fn view(&self) -> HookModel {
        self.kind@
    }
}

/// The configuration as the contracts see it.
pub open spec fn config_view(config: Option<HookConfig>) -> Option<HookConfigView> {
    match config {
        Some(config) => Some(config@),
        None => None,
    }
}

fn stray_error() -> (e: HookError)
    ensures
        e@ == stray(),
{
    HookError::Protocol { path: String::new(), request: String::new(), fault: ProtocolFault::OutOfTurn }
}

impl Hook {
    /// Chooses the backend that `config` names and says what the host is to
    /// do first: start the executable, load the library, or nothing where
    /// no hook is configured.  Fails, with nothing asked of the host, where
    /// the parameters of a plugin cannot be written as a TOML document.
    pub fn from_config(config: Option<HookConfig>) -> (r: Result<(Hook, Action), HookError>)
        ensures
            match HookModel::configured(config_view(config)) {
                Ok(first) => r matches Ok(pair) && pair.0@ == first.0 && pair.0@.wf() && pair.1@
                    == first.1,
                Err(error) => r matches Err(e) && e@ == error,
            },
    {
        match config {
            None => Ok((Hook { kind: HookKind::Absent }, Action::Idle)),
            Some(HookConfig::Process { path }) => {
                let (backend, action) = HookProcess::new(path.as_str());
                Ok((Hook { kind: HookKind::Process(backend) }, action))
            },
            Some(HookConfig::Plugin { path, params }) => {
                match HookPlugin::new(path.as_str(), &params) {
                    Ok((backend, action)) => Ok((Hook { kind: HookKind::Plugin(backend) }, action)),
                    Err(error) => Err(error),
                }
            },
        }
    }

    /// The backend that the hook holds.
    pub fn kind(&self) -> (kind: &HookKind)
        ensures
            kind@ == self@,
    {
        &self.kind
    }

    /// The host reports whether the backend was started.
    pub fn started(&mut self, ok: bool) -> (r: Result<(), HookError>)
        ensures
            final(self)@ == old(self)@.started(ok).0,
            old(self)@.wf() ==> final(self)@.wf(),
            match old(self)@.started(ok).1 {
                Ok(_) => r is Ok,
                Err(error) => r matches Err(e) && e@ == error,
            },
    {
        match &mut self.kind {
            HookKind::Process(backend) => backend.started(ok),
            HookKind::Plugin(backend) => backend.started(ok),
            HookKind::Absent => Err(stray_error()),
        }
    }

    /// Asks whether a candidate is accepted.  Without a backend the answer
    /// is yes, at once; with one, the host is to ask it and to hand the
    /// reply to [`Hook::reply`].  An error of the backend is handed on as it
    /// is.
    pub fn hook(&mut self, id: &PackageId) -> (r: Result<Step, HookError>)
        ensures
            final(self)@ == old(self)@.hook(id@).0,
            old(self)@.wf() ==> final(self)@.wf(),
            match old(self)@.hook(id@).1 {
                Ok(step) => r matches Ok(s) && s@ == step,
                Err(error) => r matches Err(e) && e@ == error,
            },
            r matches Ok(Step::Run(_)) ==> one_line(framed(id@)),
    {
        match &mut self.kind {
            HookKind::Process(backend) => match backend.hook(id) {
                Ok(action) => Ok(Step::Run(action)),
                Err(error) => Err(error),
            },
            HookKind::Plugin(backend) => match backend.hook(id) {
                Ok(action) => Ok(Step::Run(action)),
                Err(error) => Err(error),
            },
            HookKind::Absent => Ok(Step::Answer(true)),
        }
    }

    /// Takes what came back from the backend and gives the answer.
    pub fn reply(&mut self, reply: Reply) -> (r: Result<bool, HookError>)
        ensures
            final(self)@ == old(self)@.reply(reply@).0,
            old(self)@.wf() ==> final(self)@.wf(),
            match old(self)@.reply(reply@).1 {
                Ok(verdict) => r == Ok::<bool, HookError>(verdict),
                Err(error) => r matches Err(e) && e@ == error,
            },
    {
        match &mut self.kind {
            HookKind::Process(backend) => match reply {
                Reply::Line(line) => backend.reply(Some(line)),
                Reply::Failed => backend.reply(None),
                Reply::Code(_) => Err(
                    HookError::Protocol {
                        path: backend.path().to_owned(),
                        request: String::new(),
                        fault: ProtocolFault::OutOfTurn,
                    },
                ),
            },
            HookKind::Plugin(backend) => match reply {
                Reply::Code(code) => backend.reply(code),
                _ => Err(
                    HookError::Protocol {
                        path: backend.path().to_owned(),
                        request: String::new(),
                        fault: ProtocolFault::OutOfTurn,
                    },
                ),
            },
            HookKind::Absent => Err(stray_error()),
        }
    }

    /// Takes one step of the teardown and says what the host is to do.  The
    /// host calls this until it answers [`Action::Idle`].
    pub fn shutdown(&mut self) -> (action: Action)
        ensures
            final(self)@ == old(self)@.shutdown().0,
            old(self)@.wf() ==> final(self)@.wf(),
            action@ == old(self)@.shutdown().1,
    {
        match &mut self.kind {
            HookKind::Process(backend) => backend.shutdown(),
            HookKind::Plugin(backend) => backend.shutdown(),
            HookKind::Absent => Action::Idle,
        }
    }
}

} // verus!
