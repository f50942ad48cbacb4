use vstd::prelude::*;
use crate::args::strs;

verus! {

/// How a dispatch fails.
#[derive(Debug)]
pub enum DispatchError {
    /// The handler that received control failed; its diagnostic, verbatim.
    HandlerFailure(String),
    /// No external handler goes by this name. `known` lists the built-in
    /// commands, to help the user.
    CommandNotFound { name: String, known: Vec<String> },
    /// The name belongs to the grammar or is reserved for internal use, so it
    /// cannot be routed to an external handler.
    ReservedName(String),
    /// There was no command name to resolve.
    MissingSubcommand,
}

pub enum ErrorModel {
    HandlerFailure(Seq<char>),
    CommandNotFound(Seq<char>, Seq<Seq<char>>),
    ReservedName(Seq<char>),
    MissingSubcommand,
}

impl View for DispatchError {
    type V = ErrorModel;

    open spec fn view(&self) -> ErrorModel {
        match self {
            DispatchError::HandlerFailure(m) => ErrorModel::HandlerFailure(m@),
            DispatchError::CommandNotFound { name, known } => ErrorModel::CommandNotFound(
                name@,
                strs(known@),
            ),
            DispatchError::ReservedName(n) => ErrorModel::ReservedName(n@),
            DispatchError::MissingSubcommand => ErrorModel::MissingSubcommand,
        }
    }
}

/// The diagnostic shown for an error.
pub open spec fn message_model(e: ErrorModel) -> Seq<char> {
    match e {
        ErrorModel::HandlerFailure(m) => m,
        ErrorModel::CommandNotFound(n, _) => "no such command '"@ + n + "'"@,
        ErrorModel::ReservedName(n) => "'"@ + n + "' is reserved for internal use"@,
        ErrorModel::MissingSubcommand => "a subcommand is required"@,
    }
}

/// Whether `part` occurs in `whole` as a contiguous run.
pub open spec fn contains(whole: Seq<char>, part: Seq<char>) -> bool {
    exists|i: int|
        0 <= i && i + part.len() <= whole.len() && #[trigger] whole.subrange(i, i + part.len())
            == part
}

impl DispatchError {
    /// The diagnostic shown for this error.
    pub fn message(&self) -> (r: String)
        ensures
            r@ == message_model(self@),
    {
        match self {
            DispatchError::HandlerFailure(m) => m.clone(),
            DispatchError::CommandNotFound { name, .. } => {
                let mut r = String::from_str("no such command '");
                r.append(name.as_str());
                r.append("'");
                r
            },
            DispatchError::ReservedName(n) => {
                let mut r = String::from_str("'");
                r.append(n.as_str());
                r.append("' is reserved for internal use");
                r
            },
            DispatchError::MissingSubcommand => String::from_str("a subcommand is required"),
        }
    }
}

/// The diagnostic of a failed external lookup names the command that was
/// asked for.
pub proof fn lemma_not_found_names_command(name: Seq<char>, known: Seq<Seq<char>>)
    ensures
        contains(message_model(ErrorModel::CommandNotFound(name, known)), name),
{
    reveal_strlit("no such command '");
    let m = message_model(ErrorModel::CommandNotFound(name, known));
    let p = "no such command '"@;
    assert(m.subrange(p.len() as int, p.len() as int + name.len()) == name);
}

} // verus!
