use vstd::prelude::*;
use crate::action::Action;
use crate::args::{strs, tail};
use crate::catalog::{
    Builtin,
    Catalog,
    TriggerKind,
    HELP_ARGS_ONLY_TRIGGER_TYPE,
    builtin_named,
    reserved,
    trigger_named,
    visible_names,
};
use crate::command::{AppModel, SpinApp};
use crate::error::{DispatchError, ErrorModel};

verus! {

/// A handler that the grammar knows.
#[derive(Clone, Copy, Debug, PartialEq, Eq, Structural)]
pub enum Target {
    Builtin(Builtin),
    Trigger(TriggerKind),
}

impl Target {
    /// The name under which the grammar knows this handler: a built-in's
    /// first name, or a trigger kind's name after `trigger`.
    pub fn name(&self) -> (r: &'static str)
        ensures
            match *self {
                Target::Builtin(b) => builtin_named(r@, true) == Some(b),
                Target::Trigger(k) => trigger_named(r@) == Some(k),
            },
    {
        proof {
            reveal_strlit("templates");
            reveal_strlit("template");
            reveal_strlit("new");
            reveal_strlit("add");
            reveal_strlit("up");
            reveal_strlit("bindle");
            reveal_strlit("oci");
            reveal_strlit("deploy");
            reveal_strlit("build");
            reveal_strlit("login");
            reveal_strlit("plugins");
            reveal_strlit("plugin");
            reveal_strlit("generate-completions");
            reveal_strlit("http");
            reveal_strlit("redis");
            reveal_strlit("provide-help-args-no-app");
            assert("templates"@.len() == 9 && "templates"@[0] == 't');
            assert("template"@.len() == 8 && "template"@[0] == 't');
            assert("new"@.len() == 3 && "new"@[0] == 'n');
            assert("add"@.len() == 3 && "add"@[0] == 'a');
            assert("up"@.len() == 2 && "up"@[0] == 'u');
            assert("bindle"@.len() == 6 && "bindle"@[0] == 'b');
            assert("oci"@.len() == 3 && "oci"@[0] == 'o');
            assert("deploy"@.len() == 6 && "deploy"@[0] == 'd');
            assert("build"@.len() == 5 && "build"@[0] == 'b');
            assert("login"@.len() == 5 && "login"@[0] == 'l');
            assert("plugins"@.len() == 7 && "plugins"@[0] == 'p');
            assert("plugin"@.len() == 6 && "plugin"@[0] == 'p');
            assert("generate-completions"@.len() == 20 && "generate-completions"@[0] == 'g');
            assert("http"@.len() == 4 && "http"@[0] == 'h');
            assert("redis"@.len() == 5 && "redis"@[0] == 'r');
            assert("provide-help-args-no-app"@.len() == 24 && "provide-help-args-no-app"@[0] == 'p');
        }
        let r: &'static str = match *self {
            Target::Builtin(Builtin::Templates) => "templates",
            Target::Builtin(Builtin::New) => "new",
            Target::Builtin(Builtin::Add) => "add",
            Target::Builtin(Builtin::Up) => "up",
            Target::Builtin(Builtin::Bindle) => "bindle",
            Target::Builtin(Builtin::Oci) => "oci",
            Target::Builtin(Builtin::Deploy) => "deploy",
            Target::Builtin(Builtin::Build) => "build",
            Target::Builtin(Builtin::Login) => "login",
            Target::Builtin(Builtin::Plugins) => "plugins",
            Target::Builtin(Builtin::GenerateCompletions) => "generate-completions",
            Target::Trigger(TriggerKind::Http) => "http",
            Target::Trigger(TriggerKind::Redis) => "redis",
            Target::Trigger(TriggerKind::HelpArgsOnly) => HELP_ARGS_ONLY_TRIGGER_TYPE,
        };
        r
    }
}

/// What the caller of a dispatch must do next.
#[derive(Debug)]
pub enum Step {
    /// Dispatch this handler on these arguments with this action; then
    /// report its `Event::Outcome`.
    Invoke(Target, Vec<String>, Action),
    /// Look for an external handler under this name; then report
    /// `Event::Resolved`.
    Lookup(String),
    /// Dispatch the external handler found under this name on these
    /// arguments, passed as they are, with this action; then report its
    /// `Event::Outcome`.
    InvokeExternal(String, Vec<String>, Action),
    /// The dispatch is over, with this result.
    Done(Result<(), DispatchError>),
}

pub enum StepModel {
    Invoke(Target, Seq<Seq<char>>, Action),
    Lookup(Seq<char>),
    InvokeExternal(Seq<char>, Seq<Seq<char>>, Action),
    Done(Result<(), ErrorModel>),
}

pub open spec fn result_model(r: Result<(), DispatchError>) -> Result<(), ErrorModel> {
    match r {
        Ok(()) => Ok(()),
        Err(e) => Err(e@),
    }
}

impl View for Step {
    type V = StepModel;

    open spec fn view(&self) -> StepModel {
        match self {
            Step::Invoke(t, a, act) => StepModel::Invoke(*t, strs(a@), *act),
            Step::Lookup(n) => StepModel::Lookup(n@),
            Step::InvokeExternal(n, a, act) => StepModel::InvokeExternal(n@, strs(a@), *act),
            Step::Done(r) => StepModel::Done(result_model(*r)),
        }
    }
}

/// What the caller reports after doing a step.
#[derive(Debug)]
pub enum Event {
    /// Whether an external handler was found.
    Resolved(bool),
    /// What the handler returned: success, or its diagnostic.
    Outcome(Result<(), String>),
}

pub enum EventModel {
    Resolved(bool),
    Outcome(Result<(), Seq<char>>),
}

impl View for Event {
    type V = EventModel;

    open spec fn view(&self) -> EventModel {
        match self {
            Event::Resolved(b) => EventModel::Resolved(*b),
            Event::Outcome(Ok(())) => EventModel::Outcome(Ok(())),
            Event::Outcome(Err(m)) => EventModel::Outcome(Err(m@)),
        }
    }
}

#[derive(Debug)]
enum Phase {
    Running,
    Resolving(String, Vec<String>, Action),
    Finished(Result<(), DispatchError>),
}

pub enum PhaseModel {
    /// Waiting for the one handler that received control.
    Running,
    /// Waiting for the lookup of an external name; the arguments and the
    /// action to pass on.
    Resolving(Seq<char>, Seq<Seq<char>>, Action),
    /// Over, with this result.
    Finished(Result<(), ErrorModel>),
}

pub struct SessionModel {
    pub phase: PhaseModel,
    pub completions: bool,
}

/// One dispatch of one parsed command line. The caller performs each step
/// that the session hands out and reports what happened; the session decides
/// everything else.
#[derive(Debug)]
pub struct Session {
    phase: Phase,
    catalog: Catalog,
}

impl View for Session {
    type V = SessionModel;

    closed spec fn view(&self) -> SessionModel {
        SessionModel {
            phase: match self.phase {
                Phase::Running => PhaseModel::Running,
                Phase::Resolving(n, a, act) => PhaseModel::Resolving(n@, strs(a@), act),
                Phase::Finished(r) => PhaseModel::Finished(result_model(r)),
            },
            completions: self.catalog.completions,
        }
    }
}

pub open spec fn finish(completions: bool, r: Result<(), ErrorModel>) -> (SessionModel, StepModel) {
    (SessionModel { phase: PhaseModel::Finished(r), completions }, StepModel::Done(r))
}

/// The first step for a handler the grammar knows: it is dispatched with the
/// caller's action, whichever that is.
pub open spec fn forward_model(t: Target, args: Seq<Seq<char>>, action: Action, completions: bool) -> (
    SessionModel,
    StepModel,
) {
    (SessionModel { phase: PhaseModel::Running, completions }, StepModel::Invoke(t, args, action))
}

/// The first step of a dispatch.
pub open spec fn begin_model(app: AppModel, action: Action, completions: bool) -> (
    SessionModel,
    StepModel,
) {
    match app {
        AppModel::Builtin(b, args) => forward_model(Target::Builtin(b), args, action, completions),
        AppModel::Trigger(k, args) => forward_model(Target::Trigger(k), args, action, completions),
        AppModel::External(args) => if args.len() == 0 {
            finish(completions, Err(ErrorModel::MissingSubcommand))
        } else if reserved(args[0], completions) {
            finish(completions, Err(ErrorModel::ReservedName(args[0])))
        } else {
            (
                SessionModel {
                    phase: PhaseModel::Resolving(args[0], args.drop_first(), action),
                    completions,
                },
                StepModel::Lookup(args[0]),
            )
        },
    }
}

/// Which event each phase waits for. A finished session takes any event.
pub open spec fn accepts(p: PhaseModel, e: EventModel) -> bool {
    match p {
        PhaseModel::Running => e is Outcome,
        PhaseModel::Resolving(_, _, _) => e is Resolved,
        PhaseModel::Finished(_) => true,
    }
}

/// The step after an event.
pub open spec fn resume_model(s: SessionModel, e: EventModel) -> (SessionModel, StepModel) {
    match s.phase {
        PhaseModel::Finished(r) => finish(s.completions, r),
        PhaseModel::Running => match e {
            EventModel::Outcome(Err(m)) => finish(s.completions, Err(ErrorModel::HandlerFailure(m))),
            _ => finish(s.completions, Ok(())),
        },
        PhaseModel::Resolving(name, args, action) => match e {
            EventModel::Resolved(true) => (
                SessionModel { phase: PhaseModel::Running, completions: s.completions },
                StepModel::InvokeExternal(name, args, action),
            ),
            _ => finish(
                s.completions,
                Err(ErrorModel::CommandNotFound(name, visible_names())),
            ),
        },
    }
}

impl DispatchError {
    /// An equal error.
    pub fn duplicate(&self) -> (r: DispatchError)
        ensures
            r@ == self@,
    {
        match self {
            DispatchError::HandlerFailure(m) => DispatchError::HandlerFailure(m.clone()),
            DispatchError::CommandNotFound { name, known } => DispatchError::CommandNotFound {
                name: name.clone(),
                known: crate::args::copy_args(known),
            },
            DispatchError::ReservedName(n) => DispatchError::ReservedName(n.clone()),
            DispatchError::MissingSubcommand => DispatchError::MissingSubcommand,
        }
    }
}

fn duplicate_result(r: &Result<(), DispatchError>) -> (d: Result<(), DispatchError>)
    ensures
        result_model(d) == result_model(*r),
{
    match r {
        Ok(()) => Ok(()),
        Err(e) => Err(e.duplicate()),
    }
}

impl Session {
    fn finished(catalog: Catalog, r: Result<(), DispatchError>) -> (s: (Session, Step))
        ensures
            (s.0@, s.1@) == finish(catalog.completions, result_model(r)),
    {
        let d = duplicate_result(&r);
        (Session { phase: Phase::Finished(r), catalog }, Step::Done(d))
    }

    /// Hands control to the one handler that the parsed command line selects.
    /// A name the grammar does not know is first checked against the reserved
    /// names and then looked up as an external handler.
    pub fn begin(app: SpinApp, action: Action, catalog: &Catalog) -> (r: (Session, Step))
        ensures
            (r.0@, r.1@) == begin_model(app@, action, catalog.completions),
    {
        let catalog = *catalog;
        let (t, args) = match app {
            SpinApp::Builtin(b, args) => (Target::Builtin(b), args),
            SpinApp::Trigger(k, args) => (Target::Trigger(k), args),
            SpinApp::External(args) => {
                if args.len() == 0 {
                    return Session::finished(catalog, Err(DispatchError::MissingSubcommand));
                }
                if catalog.is_reserved(&args[0]) {
                    return Session::finished(
                        catalog,
                        Err(DispatchError::ReservedName(args[0].clone())),
                    );
                }
                let rest = tail(&args, 1);
                assert(strs(rest@) =~= strs(args@).drop_first());
                let step = Step::Lookup(args[0].clone());
                return (
                    Session { phase: Phase::Resolving(args[0].clone(), rest, action), catalog },
                    step,
                );
            },
        };
        (Session { phase: Phase::Running, catalog }, Step::Invoke(t, args, action))
    }

    /// Whether the session is waiting for this kind of event.
    pub fn accepts(&self, e: &Event) -> (r: bool)
        ensures
            r == accepts(self@.phase, e@),
    {
        match (&self.phase, e) {
            (Phase::Running, Event::Outcome(_)) => true,
            (Phase::Resolving(_, _, _), Event::Resolved(_)) => true,
            (Phase::Finished(_), _) => true,
            _ => false,
        }
    }

    /// Takes what came of the last step and hands out the next. A failing
    /// handler ends the dispatch with its diagnostic; nothing runs after it.
    pub fn resume(&mut self, e: Event) -> (r: Step)
        requires
            accepts(old(self)@.phase, e@),
        ensures
            (final(self)@, r@) == resume_model(old(self)@, e@),
    {
        let catalog = self.catalog;
        let (s, step) = match &self.phase {
            Phase::Finished(r) => Session::finished(catalog, duplicate_result(r)),
            Phase::Running => match e {
                Event::Outcome(Err(m)) => Session::finished(
                    catalog,
                    Err(DispatchError::HandlerFailure(m)),
                ),
                _ => Session::finished(catalog, Ok(())),
            },
            Phase::Resolving(name, args, action) => match e {
                Event::Resolved(true) => {
                    let step = Step::InvokeExternal(
                        name.clone(),
                        crate::args::copy_args(args),
                        *action,
                    );
                    (Session { phase: Phase::Running, catalog }, step)
                },
                _ => Session::finished(
                    catalog,
                    Err(
                        DispatchError::CommandNotFound {
                            name: name.clone(),
                            known: catalog.visible_names(),
                        },
                    ),
                ),
            },
        };
        *self = s;
        step
    }

    /// The result, once the session is over.
    pub fn result(&self) -> (r: Option<Result<(), DispatchError>>)
        ensures
            match self@.phase {
                PhaseModel::Finished(res) => r is Some && result_model(r->Some_0) == res,
                _ => r is None,
            },
    {
        match &self.phase {
            Phase::Finished(res) => Some(duplicate_result(res)),
            _ => None,
        }
    }
}

} // verus!
