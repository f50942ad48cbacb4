use spin::action::Action;
use spin::catalog::{Builtin, Catalog, Named, TriggerKind, HELP_ARGS_ONLY_TRIGGER_TYPE};
use spin::command::{ParseError, SpinApp};
use spin::error::DispatchError;
use spin::session::{Event, Session, Step, Target};
use spin::version::build_info;

fn argv(words: &[&str]) -> Vec<String> {
    words.iter().map(|w| w.to_string()).collect()
}

fn parse(words: &[&str]) -> Result<SpinApp, ParseError> {
    SpinApp::parse(&argv(words), &Catalog::new(false))
}

fn begin(words: &[&str], action: Action) -> (Session, Step) {
    let app = parse(words).expect("parses");
    Session::begin(app, action, &Catalog::new(false))
}

fn done_err(step: Step) -> DispatchError {
    match step {
        Step::Done(Err(e)) => e,
        other => panic!("expected a failed end, got {:?}", other),
    }
}

const BUILTINS: [(&str, Builtin); 12] = [
    ("templates", Builtin::Templates),
    ("template", Builtin::Templates),
    ("new", Builtin::New),
    ("add", Builtin::Add),
    ("up", Builtin::Up),
    ("bindle", Builtin::Bindle),
    ("oci", Builtin::Oci),
    ("deploy", Builtin::Deploy),
    ("build", Builtin::Build),
    ("login", Builtin::Login),
    ("plugins", Builtin::Plugins),
    ("plugin", Builtin::Plugins),
];

#[test]
fn builtin_names_and_aliases_parse() {
    for (name, b) in BUILTINS {
        match parse(&[name, "x", "--y"]) {
            Ok(SpinApp::Builtin(got, rest)) => {
                assert_eq!(got, b);
                assert_eq!(rest, argv(&["x", "--y"]));
            }
            other => panic!("{} parsed as {:?}", name, other),
        }
    }
}

#[test]
fn generate_completions_only_with_flag() {
    let on = SpinApp::parse(&argv(&["generate-completions", "bash"]), &Catalog::new(true));
    assert!(matches!(on, Ok(SpinApp::Builtin(Builtin::GenerateCompletions, _))));
    let off = parse(&["generate-completions", "bash"]);
    match off {
        Ok(SpinApp::External(all)) => assert_eq!(all, argv(&["generate-completions", "bash"])),
        other => panic!("got {:?}", other),
    }
}

#[test]
fn trigger_parses_kind_and_rest() {
    match parse(&["trigger", "http", "--listen", "127.0.0.1:3000"]) {
        Ok(SpinApp::Trigger(k, rest)) => {
            assert_eq!(k, TriggerKind::Http);
            assert_eq!(rest, argv(&["--listen", "127.0.0.1:3000"]));
        }
        other => panic!("got {:?}", other),
    }
    assert!(matches!(parse(&["trigger", "redis"]), Ok(SpinApp::Trigger(TriggerKind::Redis, _))));
    assert!(matches!(
        parse(&["trigger", HELP_ARGS_ONLY_TRIGGER_TYPE]),
        Ok(SpinApp::Trigger(TriggerKind::HelpArgsOnly, _))
    ));
}

#[test]
fn parse_errors() {
    assert!(matches!(parse(&[]), Err(ParseError::MissingSubcommand)));
    assert!(matches!(parse(&["trigger"]), Err(ParseError::MissingTriggerKind)));
    match parse(&["trigger", "mqtt"]) {
        Err(ParseError::UnknownTriggerKind(k)) => assert_eq!(k, "mqtt"),
        other => panic!("got {:?}", other),
    }
}

#[test]
fn catalog_lookup() {
    let c = Catalog::new(false);
    assert_eq!(c.lookup(&"trigger".to_string()), Some(Named::Trigger));
    assert_eq!(c.lookup(&"up".to_string()), Some(Named::Builtin(Builtin::Up)));
    assert_eq!(c.lookup(&"Up".to_string()), None);
    assert!(c.is_reserved(&HELP_ARGS_ONLY_TRIGGER_TYPE.to_string()));
    assert!(c.is_reserved(&"build".to_string()));
    assert!(!c.is_reserved(&"cloud".to_string()));
    assert_eq!(
        c.visible_names(),
        argv(&["templates", "new", "add", "up", "bindle", "oci", "deploy", "build", "login", "plugins"])
    );
}

#[test]
fn help_is_forwarded_to_every_builtin() {
    for (name, b) in BUILTINS {
        let (mut s, step) = begin(&[name, "--force"], Action::Help);
        match step {
            Step::Invoke(Target::Builtin(got), rest, act) => {
                assert_eq!(got, b);
                assert_eq!(rest, argv(&["--force"]));
                assert_eq!(act, Action::Help);
            }
            other => panic!("{} gave {:?}", name, other),
        }
        assert!(s.result().is_none());
        assert!(matches!(s.resume(Event::Outcome(Ok(()))), Step::Done(Ok(()))));
        assert!(matches!(s.result(), Some(Ok(()))));
    }
    let (mut s, step) = begin(&["plugins", "list"], Action::Help);
    assert!(matches!(step, Step::Invoke(Target::Builtin(Builtin::Plugins), _, Action::Help)));
    let e = done_err(s.resume(Event::Outcome(Err("help failed".to_string()))));
    assert_eq!(e.message(), "help failed");
}

#[test]
fn help_is_forwarded_to_trigger() {
    let (mut s, step) = begin(&["trigger", "http"], Action::Help);
    assert!(matches!(step, Step::Invoke(Target::Trigger(TriggerKind::Http), _, Action::Help)));
    assert!(matches!(s.resume(Event::Outcome(Ok(()))), Step::Done(Ok(()))));
}

#[test]
fn help_is_passed_to_external_handler() {
    let (mut s, _) = begin(&["cloud", "--help"], Action::Help);
    match s.resume(Event::Resolved(true)) {
        Step::InvokeExternal(n, rest, act) => {
            assert_eq!(n, "cloud");
            assert_eq!(rest, argv(&["--help"]));
            assert_eq!(act, Action::Help);
        }
        other => panic!("got {:?}", other),
    }
}

#[test]
fn target_names_round_trip() {
    let c = Catalog::new(true);
    for (_, b) in BUILTINS {
        let n = Target::Builtin(b).name().to_string();
        assert_eq!(c.builtin(&n), Some(b));
    }
    assert_eq!(Target::Builtin(Builtin::GenerateCompletions).name(), "generate-completions");
    for k in [TriggerKind::Http, TriggerKind::Redis, TriggerKind::HelpArgsOnly] {
        let n = Target::Trigger(k).name().to_string();
        assert_eq!(c.trigger_kind(&n), Some(k));
    }
    assert_eq!(Target::Trigger(TriggerKind::HelpArgsOnly).name(), HELP_ARGS_ONLY_TRIGGER_TYPE);
}

#[test]
fn build_info_composes_version() {
    assert_eq!(build_info("0.1.0", "2be4034", "2022-03-31"), "0.1.0 (2be4034 2022-03-31)");
    assert_eq!(build_info("", "", ""), " ( )");
}

#[test]
fn execute_builtin_invokes_with_rest() {
    let (mut s, step) = begin(&["build", "--up"], Action::Execute);
    match step {
        Step::Invoke(Target::Builtin(Builtin::Build), rest, Action::Execute) => {
            assert_eq!(rest, argv(&["--up"]))
        }
        other => panic!("got {:?}", other),
    }
    assert!(matches!(s.resume(Event::Outcome(Ok(()))), Step::Done(Ok(()))));
}

#[test]
fn unknown_first_token_is_external_unmodified() {
    let words = ["cloud", "deploy", "--x", "up"];
    match parse(&words) {
        Ok(SpinApp::External(all)) => assert_eq!(all, argv(&words)),
        other => panic!("got {:?}", other),
    }
    let (mut s, step) = begin(&words, Action::Execute);
    match step {
        Step::Lookup(n) => assert_eq!(n, "cloud"),
        other => panic!("got {:?}", other),
    }
    match s.resume(Event::Resolved(true)) {
        Step::InvokeExternal(n, rest, act) => {
            assert_eq!(n, "cloud");
            assert_eq!(rest, argv(&["deploy", "--x", "up"]));
            assert_eq!(act, Action::Execute);
        }
        other => panic!("got {:?}", other),
    }
}

#[test]
fn found_external_handler_gets_exact_args() {
    let (mut s, step) = begin(&["foo", "a", "b"], Action::Execute);
    assert!(matches!(step, Step::Lookup(ref n) if n == "foo"));
    assert!(s.accepts(&Event::Resolved(true)));
    assert!(!s.accepts(&Event::Outcome(Ok(()))));
    match s.resume(Event::Resolved(true)) {
        Step::InvokeExternal(n, rest, act) => {
            assert_eq!(act, Action::Execute);
            assert_eq!(n, "foo");
            assert_eq!(rest, argv(&["a", "b"]));
        }
        other => panic!("got {:?}", other),
    }
    match s.resume(Event::Outcome(Err("exit status 3".to_string()))) {
        Step::Done(Err(DispatchError::HandlerFailure(m))) => assert_eq!(m, "exit status 3"),
        other => panic!("got {:?}", other),
    }
}

#[test]
fn missing_external_handler_is_not_found() {
    let (mut s, _) = begin(&["bogus"], Action::Execute);
    let e = done_err(s.resume(Event::Resolved(false)));
    match &e {
        DispatchError::CommandNotFound { name, known } => {
            assert_eq!(name, "bogus");
            assert_eq!(known.len(), 10);
        }
        other => panic!("got {:?}", other),
    }
    assert!(e.message().contains("bogus"));
    assert_eq!(e.message(), "no such command 'bogus'");
}

#[test]
fn reserved_name_is_refused() {
    let (mut s, step) = begin(&[HELP_ARGS_ONLY_TRIGGER_TYPE, "x"], Action::Execute);
    let e = done_err(step);
    match &e {
        DispatchError::ReservedName(n) => assert_eq!(n, HELP_ARGS_ONLY_TRIGGER_TYPE),
        other => panic!("got {:?}", other),
    }
    assert_eq!(e.message(), format!("'{}' is reserved for internal use", HELP_ARGS_ONLY_TRIGGER_TYPE));
    assert!(matches!(s.resume(Event::Resolved(true)), Step::Done(Err(DispatchError::ReservedName(_)))));
}

#[test]
fn external_built_by_hand() {
    let c = Catalog::new(false);
    let (_, step) = Session::begin(SpinApp::External(vec![]), Action::Execute, &c);
    let e = done_err(step);
    assert!(matches!(e, DispatchError::MissingSubcommand));
    assert_eq!(e.message(), "a subcommand is required");
    let (_, step) = Session::begin(SpinApp::External(argv(&["up"])), Action::Execute, &c);
    assert!(matches!(done_err(step), DispatchError::ReservedName(_)));
}

#[test]
fn http_trigger_forwards_and_returns_result_unchanged() {
    let (mut s, step) = begin(&["trigger", "http", "--from", "spin.toml"], Action::Execute);
    match step {
        Step::Invoke(Target::Trigger(TriggerKind::Http), rest, Action::Execute) => {
            assert_eq!(rest, argv(&["--from", "spin.toml"]))
        }
        other => panic!("got {:?}", other),
    }
    let e = done_err(s.resume(Event::Outcome(Err("sentinel".to_string()))));
    assert_eq!(e.message(), "sentinel");
    let (mut s, _) = begin(&["trigger", "http"], Action::Execute);
    assert!(matches!(s.resume(Event::Outcome(Ok(()))), Step::Done(Ok(()))));
}

#[test]
fn failure_stops_the_dispatch() {
    let (mut s, step) = begin(&["deploy"], Action::Execute);
    assert!(matches!(step, Step::Invoke(Target::Builtin(Builtin::Deploy), _, Action::Execute)));
    let first = done_err(s.resume(Event::Outcome(Err("deploy failed".to_string()))));
    assert_eq!(first.message(), "deploy failed");
    for e in [Event::Outcome(Ok(())), Event::Resolved(true), Event::Resolved(false)] {
        match s.resume(e) {
            Step::Done(Err(DispatchError::HandlerFailure(m))) => assert_eq!(m, "deploy failed"),
            other => panic!("a handler got control again: {:?}", other),
        }
    }
    assert!(matches!(s.result(), Some(Err(DispatchError::HandlerFailure(_)))));
}
