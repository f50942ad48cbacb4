use vstd::prelude::*;

verus! {

/// The built-in commands of the static grammar, trigger execution aside.
#[derive(Clone, Copy, Debug, PartialEq, Eq, Structural)]
pub enum Builtin {
    Templates,
    New,
    Add,
    Up,
    Bindle,
    Oci,
    Deploy,
    Build,
    Login,
    Plugins,
    GenerateCompletions,
}

/// The kinds of trigger that `trigger` can run.
#[derive(Clone, Copy, Debug, PartialEq, Eq, Structural)]
pub enum TriggerKind {
    /// Requests over the network.
    Http,
    /// Messages from a queue.
    Redis,
    /// Renders the trigger arguments' help only; reserved for internal use.
    HelpArgsOnly,
}

/// What a first token names in the static grammar.
#[derive(Clone, Copy, Debug, PartialEq, Eq, Structural)]
pub enum Named {
    Builtin(Builtin),
    Trigger,
}

/// The name of the hidden trigger kind that only renders help.
pub const HELP_ARGS_ONLY_TRIGGER_TYPE: &'static str = "provide-help-args-no-app";

/// The static grammar. Whether shell-completion generation is part of it is
/// chosen when the catalog is made.
#[derive(Clone, Copy, Debug, PartialEq, Eq, Structural)]
pub struct Catalog {
    pub completions: bool,
}

/// The built-in a token names, aliases included.
pub open spec fn builtin_named(s: Seq<char>, completions: bool) -> Option<Builtin> {
    if s == "templates"@ || s == "template"@ {
        Some(Builtin::Templates)
    } else if s == "new"@ {
        Some(Builtin::New)
    } else if s == "add"@ {
        Some(Builtin::Add)
    } else if s == "up"@ {
        Some(Builtin::Up)
    } else if s == "bindle"@ {
        Some(Builtin::Bindle)
    } else if s == "oci"@ {
        Some(Builtin::Oci)
    } else if s == "deploy"@ {
        Some(Builtin::Deploy)
    } else if s == "build"@ {
        Some(Builtin::Build)
    } else if s == "login"@ {
        Some(Builtin::Login)
    } else if s == "plugins"@ || s == "plugin"@ {
        Some(Builtin::Plugins)
    } else if completions && s == "generate-completions"@ {
        Some(Builtin::GenerateCompletions)
    } else {
        None
    }
}

/// What a first token names: a built-in, `trigger`, or nothing.
pub open spec fn named(s: Seq<char>, completions: bool) -> Option<Named> {
    match builtin_named(s, completions) {
        Some(b) => Some(Named::Builtin(b)),
        None => if s == "trigger"@ {
            Some(Named::Trigger)
        } else {
            None
        },
    }
}

/// The trigger kind a token names.
pub open spec fn trigger_named(s: Seq<char>) -> Option<TriggerKind> {
    if s == "http"@ {
        Some(TriggerKind::Http)
    } else if s == "redis"@ {
        Some(TriggerKind::Redis)
    } else if s == HELP_ARGS_ONLY_TRIGGER_TYPE@ {
        Some(TriggerKind::HelpArgsOnly)
    } else {
        None
    }
}

/// A name that no external handler may take: one the grammar knows, or the
/// hidden trigger kind.
pub open spec fn reserved(s: Seq<char>, completions: bool) -> bool {
    named(s, completions).is_some() || s == HELP_ARGS_ONLY_TRIGGER_TYPE@
}

/// The names that user-facing listings show.
pub open spec fn visible_names() -> Seq<Seq<char>> {
    seq![
        "templates"@, "new"@, "add"@, "up"@, "bindle"@, "oci"@,
        "deploy"@, "build"@, "login"@, "plugins"@,
    ]
}

/// Whether `s` holds exactly the characters of `lit`.
fn is_word(s: &String, lit: &str) -> (r: bool)
    ensures
        r == (s@ == lit@),
{
    let w: String = lit.to_owned();
    *s == w
}

impl Catalog {
    pub fn new(completions: bool) -> (r: Catalog)
        ensures
            r.completions == completions,
    {
        Catalog { completions }
    }

    /// The built-in that `tok` names, aliases included.
    pub fn builtin(&self, tok: &String) -> (r: Option<Builtin>)
        ensures
            r == builtin_named(tok@, self.completions),
    {
        if is_word(tok, "templates") || is_word(tok, "template") {
            Some(Builtin::Templates)
        } else if is_word(tok, "new") {
            Some(Builtin::New)
        } else if is_word(tok, "add") {
            Some(Builtin::Add)
        } else if is_word(tok, "up") {
            Some(Builtin::Up)
        } else if is_word(tok, "bindle") {
            Some(Builtin::Bindle)
        } else if is_word(tok, "oci") {
            Some(Builtin::Oci)
        } else if is_word(tok, "deploy") {
            Some(Builtin::Deploy)
        } else if is_word(tok, "build") {
            Some(Builtin::Build)
        } else if is_word(tok, "login") {
            Some(Builtin::Login)
        } else if is_word(tok, "plugins") || is_word(tok, "plugin") {
            Some(Builtin::Plugins)
        } else if self.completions && is_word(tok, "generate-completions") {
            Some(Builtin::GenerateCompletions)
        } else {
            None
        }
    }

    /// What `tok` names as a first token.
    pub fn lookup(&self, tok: &String) -> (r: Option<Named>)
        ensures
            r == named(tok@, self.completions),
    {
        match self.builtin(tok) {
            Some(b) => Some(Named::Builtin(b)),
            None => if is_word(tok, "trigger") {
                Some(Named::Trigger)
            } else {
                None
            },
        }
    }

    /// The trigger kind that `tok` names.
    pub fn trigger_kind(&self, tok: &String) -> (r: Option<TriggerKind>)
        ensures
            r == trigger_named(tok@),
    {
        if is_word(tok, "http") {
            Some(TriggerKind::Http)
        } else if is_word(tok, "redis") {
            Some(TriggerKind::Redis)
        } else if is_word(tok, HELP_ARGS_ONLY_TRIGGER_TYPE) {
            Some(TriggerKind::HelpArgsOnly)
        } else {
            None
        }
    }

    /// Whether no external handler may be found under `tok`.
    pub fn is_reserved(&self, tok: &String) -> (r: bool)
        ensures
            r == reserved(tok@, self.completions),
    {
        self.lookup(tok).is_some() || is_word(tok, HELP_ARGS_ONLY_TRIGGER_TYPE)
    }

    /// The names that user-facing listings show.
    pub fn visible_names(&self) -> (r: Vec<String>)
        ensures
            r@.map_values(|s: String| s@) == visible_names(),
    {
        let mut r: Vec<String> = Vec::new();
        r.push("templates".to_owned());
        r.push("new".to_owned());
        r.push("add".to_owned());
        r.push("up".to_owned());
        r.push("bindle".to_owned());
        r.push("oci".to_owned());
        r.push("deploy".to_owned());
        r.push("build".to_owned());
        r.push("login".to_owned());
        r.push("plugins".to_owned());
        assert(r@.map_values(|s: String| s@) =~= visible_names());
        r
    }
}

} // verus!
