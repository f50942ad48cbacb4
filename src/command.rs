use vstd::prelude::*;
use crate::args::{strs, tail, copy_args};
use crate::catalog::{Builtin, Catalog, Named, TriggerKind, named, trigger_named};

verus! {

/// One parsed command line: exactly one matched command and the arguments
/// that belong to it.
#[derive(Debug)]
pub enum SpinApp {
    /// A built-in command and the arguments after its name.
    Builtin(Builtin, Vec<String>),
    /// `trigger <kind>` and the arguments after the kind.
    Trigger(TriggerKind, Vec<String>),
    /// A name the grammar does not know, followed by its arguments: the whole
    /// leftover vector, name first.
    External(Vec<String>),
}

/// The parsed command line as values.
pub enum AppModel {
    Builtin(Builtin, Seq<Seq<char>>),
    Trigger(TriggerKind, Seq<Seq<char>>),
    External(Seq<Seq<char>>),
}

impl View for SpinApp {
    type V = AppModel;

    open spec fn view(&self) -> AppModel {
        match self {
            SpinApp::Builtin(b, a) => AppModel::Builtin(*b, strs(a@)),
            SpinApp::Trigger(k, a) => AppModel::Trigger(*k, strs(a@)),
            SpinApp::External(a) => AppModel::External(strs(a@)),
        }
    }
}

/// Why a command line matches no command.
#[derive(Debug)]
pub enum ParseError {
    /// No subcommand was given.
    MissingSubcommand,
    /// `trigger` was given without a kind.
    MissingTriggerKind,
    /// `trigger` was given a kind it does not know.
    UnknownTriggerKind(String),
}

pub enum ParseErrorModel {
    MissingSubcommand,
    MissingTriggerKind,
    UnknownTriggerKind(Seq<char>),
}

impl View for ParseError {
    type V = ParseErrorModel;

    open spec fn view(&self) -> ParseErrorModel {
        match self {
            ParseError::MissingSubcommand => ParseErrorModel::MissingSubcommand,
            ParseError::MissingTriggerKind => ParseErrorModel::MissingTriggerKind,
            ParseError::UnknownTriggerKind(s) => ParseErrorModel::UnknownTriggerKind(s@),
        }
    }
}

/// The command that the arguments after the program name select.
pub open spec fn parse_model(args: Seq<Seq<char>>, completions: bool) -> Result<
    AppModel,
    ParseErrorModel,
> {
    if args.len() == 0 {
        Err(ParseErrorModel::MissingSubcommand)
    } else {
        match named(args[0], completions) {
            Some(Named::Builtin(b)) => Ok(AppModel::Builtin(b, args.drop_first())),
            Some(Named::Trigger) => if args.len() < 2 {
                Err(ParseErrorModel::MissingTriggerKind)
            } else {
                match trigger_named(args[1]) {
                    Some(k) => Ok(AppModel::Trigger(k, args.subrange(2, args.len() as int))),
                    None => Err(ParseErrorModel::UnknownTriggerKind(args[1])),
                }
            },
            None => Ok(AppModel::External(args)),
        }
    }
}

pub open spec fn parse_result_model(r: Result<SpinApp, ParseError>) -> Result<
    AppModel,
    ParseErrorModel,
> {
    match r {
        Ok(a) => Ok(a@),
        Err(e) => Err(e@),
    }
}

impl SpinApp {
    /// Matches the arguments after the program name against the grammar of
    /// `catalog`. A first token that names no built-in makes the whole vector
    /// an external command.
    pub fn parse(args: &Vec<String>, catalog: &Catalog) -> (r: Result<SpinApp, ParseError>)
        ensures
            parse_result_model(r) == parse_model(strs(args@), catalog.completions),
    {
        let ghost a = strs(args@);
        if args.len() == 0 {
            return Err(ParseError::MissingSubcommand);
        }
        assert(a[0] == args@[0]@);
        match catalog.lookup(&args[0]) {
            Some(Named::Builtin(b)) => {
                let rest = tail(args, 1);
                assert(a.subrange(1, a.len() as int) =~= a.drop_first());
                Ok(SpinApp::Builtin(b, rest))
            },
            Some(Named::Trigger) => {
                if args.len() < 2 {
                    return Err(ParseError::MissingTriggerKind);
                }
                assert(a[1] == args@[1]@);
                match catalog.trigger_kind(&args[1]) {
                    Some(k) => Ok(SpinApp::Trigger(k, tail(args, 2))),
                    None => Err(ParseError::UnknownTriggerKind(args[1].clone())),
                }
            },
            None => Ok(SpinApp::External(copy_args(args))),
        }
    }
}

} // verus!
