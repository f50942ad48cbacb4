use vstd::prelude::*;
use crate::action::Action;
use crate::catalog::{TriggerKind, named, reserved, visible_names};
use crate::command::{AppModel, ParseErrorModel, parse_model};
use crate::error::{ErrorModel, contains, lemma_not_found_names_command, message_model};
use crate::session::{
    EventModel,
    PhaseModel,
    SessionModel,
    StepModel,
    Target,
    begin_model,
    finish,
    resume_model,
};

verus! {

/// Asking any command that the grammar knows for help hands control to that
/// command's own handler, with the help action and its arguments, and to no
/// other; the dispatch succeeds exactly when that handler does.
pub proof fn lemma_help_is_forwarded(
    args: Seq<Seq<char>>,
    outcome: Result<(), Seq<char>>,
    completions: bool,
)
    requires
        args.len() > 0,
        named(args[0], completions) is Some,
        parse_model(args, completions) is Ok,
    ensures
        ({
            let (s, step) = begin_model(
                parse_model(args, completions)->Ok_0,
                Action::Help,
                completions,
            );
            &&& step is Invoke
            &&& step->Invoke_2 == Action::Help
            &&& s.phase is Running
            &&& (resume_model(s, EventModel::Outcome(outcome)).1 == StepModel::Done(Ok(())))
                == (outcome is Ok)
        }),
{
}

/// Every command that the grammar knows is dispatched to its own handler,
/// with the caller's action and the arguments that the parse kept for it.
pub proof fn lemma_known_command_forwarded(app: AppModel, action: Action, completions: bool)
    requires
        !(app is External),
    ensures
        ({
            let (s, step) = begin_model(app, action, completions);
            &&& s.phase is Running
            &&& app is Builtin ==> step == StepModel::Invoke(
                Target::Builtin(app->Builtin_0),
                app->Builtin_1,
                action,
            )
            &&& app is Trigger ==> step == StepModel::Invoke(
                Target::Trigger(app->Trigger_0),
                app->Trigger_1,
                action,
            )
        }),
{
}

/// A first token that names no built-in makes the whole argument vector the
/// external command, and the resolver is asked for exactly that name, with
/// the rest of the vector kept to pass on; a reserved name is refused.
pub proof fn lemma_unknown_name_goes_external(
    args: Seq<Seq<char>>,
    action: Action,
    completions: bool,
)
    requires
        args.len() > 0,
        named(args[0], completions) is None,
    ensures
        parse_model(args, completions) == Ok::<AppModel, ParseErrorModel>(AppModel::External(args)),
        !reserved(args[0], completions) ==> begin_model(AppModel::External(args), action, completions)
            == (SessionModel {
            phase: PhaseModel::Resolving(args[0], args.drop_first(), action),
            completions,
        }, StepModel::Lookup(args[0])),
        reserved(args[0], completions) ==> begin_model(AppModel::External(args), action, completions)
            == finish(completions, Err(ErrorModel::ReservedName(args[0]))),
{
}

/// When an external handler is found under the first token, it is
/// dispatched with the caller's action on the arguments that follow it, in
/// order and unchanged, and the dispatch returns what it returned.
pub proof fn lemma_found_handler_gets_rest(
    name: Seq<char>,
    rest: Seq<Seq<char>>,
    action: Action,
    outcome: Result<(), Seq<char>>,
    completions: bool,
)
    requires
        !reserved(name, completions),
    ensures
        ({
            let args = seq![name] + rest;
            let (s, step) = begin_model(parse_model(args, completions)->Ok_0, action, completions);
            &&& parse_model(args, completions) is Ok
            &&& step == StepModel::Lookup(name)
            &&& resume_model(s, EventModel::Resolved(true)).1 == StepModel::InvokeExternal(
                name,
                rest,
                action,
            )
            &&& resume_model(resume_model(s, EventModel::Resolved(true)).0, EventModel::Outcome(outcome))
                == finish(
                completions,
                match outcome {
                    Ok(()) => Ok(()),
                    Err(m) => Err(ErrorModel::HandlerFailure(m)),
                },
            )
        }),
{
    let args = seq![name] + rest;
    assert(args[0] == name);
    assert(args.drop_first() =~= rest);
}

/// When no external handler is found under the first token, the dispatch
/// fails with a not-found error whose diagnostic names it.
pub proof fn lemma_missing_handler_not_found(
    name: Seq<char>,
    rest: Seq<Seq<char>>,
    action: Action,
    completions: bool,
)
    requires
        !reserved(name, completions),
    ensures
        ({
            let args = seq![name] + rest;
            let (s, _) = begin_model(parse_model(args, completions)->Ok_0, action, completions);
            let e = ErrorModel::CommandNotFound(name, visible_names());
            &&& resume_model(s, EventModel::Resolved(false)) == finish(completions, Err(e))
            &&& contains(message_model(e), name)
        }),
{
    let args = seq![name] + rest;
    assert(args[0] == name);
    assert(args.drop_first() =~= rest);
    lemma_not_found_names_command(name, visible_names());
}

/// Dispatching a trigger hands control to that trigger kind's handler, with
/// the caller's action and the trigger's arguments, and the dispatch returns
/// what the handler returned.
pub proof fn lemma_trigger_forwards(
    kind: TriggerKind,
    args: Seq<Seq<char>>,
    action: Action,
    outcome: Result<(), Seq<char>>,
    completions: bool,
)
    ensures
        ({
            let (s, step) = begin_model(AppModel::Trigger(kind, args), action, completions);
            &&& step == StepModel::Invoke(Target::Trigger(kind), args, action)
            &&& resume_model(s, EventModel::Outcome(outcome)) == finish(
                completions,
                match outcome {
                    Ok(()) => Ok(()),
                    Err(m) => Err(ErrorModel::HandlerFailure(m)),
                },
            )
        }),
{
}

/// The steps handed out for a run of events.
pub open spec fn steps(s: SessionModel, events: Seq<EventModel>) -> Seq<StepModel>
    decreases events.len(),
{
    if events.len() == 0 {
        seq![]
    } else {
        let (next, step) = resume_model(s, events[0]);
        seq![step] + steps(next, events.drop_first())
    }
}

/// Once a handler fails, the dispatch is over with its diagnostic: whatever
/// is reported afterwards, every step is that same result, and no handler
/// receives control again.
pub proof fn lemma_failure_ends_dispatch(
    s: SessionModel,
    m: Seq<char>,
    events: Seq<EventModel>,
)
    requires
        s.phase is Running,
    ensures
        ({
            let (after, step) = resume_model(s, EventModel::Outcome(Err(m)));
            let r = Err(ErrorModel::HandlerFailure(m));
            &&& step == StepModel::Done(r)
            &&& forall|i: int|
                0 <= i < events.len() ==> #[trigger] steps(after, events)[i] == StepModel::Done(r)
        }),
{
    let r = Err(ErrorModel::HandlerFailure(m));
    lemma_finished_stays(s.completions, r, events);
}

/// A finished session hands out its result and nothing else.
pub proof fn lemma_finished_stays(
    completions: bool,
    r: Result<(), ErrorModel>,
    events: Seq<EventModel>,
)
    ensures
        steps(finish(completions, r).0, events).len() == events.len(),
        forall|i: int|
            0 <= i < events.len() ==> #[trigger] steps(finish(completions, r).0, events)[i]
                == StepModel::Done(r),
    decreases events.len(),
{
    if events.len() > 0 {
        lemma_finished_stays(completions, r, events.drop_first());
        let s = finish(completions, r).0;
        let tail = steps(s, events.drop_first());
        assert(steps(s, events) =~= seq![StepModel::Done(r)] + tail);
    }
}

} // verus!
