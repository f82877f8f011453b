//! The command dispatcher: a builder that accumulates named, deferred
//! actions, selects one by name (an externally supplied argument, or a
//! configured default) and hands out exactly that one action to be invoked.
//!
//! The dispatcher itself performs no console or process work: `dispatch`
//! consumes the builder and returns what the embedding program must do —
//! run one action, print the help listing, or report a missing or unknown
//! command.

use vstd::prelude::*;
use vstd::string::StringExecFns;

verus! {

/// The requested command name: the external argument when one was supplied,
/// else the configured default, else nothing.
pub open spec fn requested(arg: Option<Seq<char>>, default: Option<Seq<char>>) -> Option<
    Seq<char>,
> {
    if arg is Some {
        arg
    } else {
        default
    }
}

/// A supplied argument always wins over the configured default; with no
/// argument, the configured default — when there is one — is what a dispatch
/// resolves against the registry.
pub proof fn lemma_requested_resolution(arg: Option<Seq<char>>, default: Option<Seq<char>>)
    ensures
        arg matches Some(a) ==> requested(arg, default) == Some(a),
        arg is None ==> requested(arg, default) == default,
{
}

/// The index of the first registered name equal to `t`, if any.
pub open spec fn first_match(names: Seq<Seq<char>>, t: Seq<char>) -> Option<int>
    decreases names.len(),
{
    if names.len() == 0 {
        None
    } else if names[0] == t {
        Some(0int)
    } else {
        match first_match(names.drop_first(), t) {
            Some(i) => Some(i + 1),
            None => None,
        }
    }
}

/// `first_match` finds exactly the first occurrence: when it returns an
/// index, that entry bears the requested name and no earlier one does — so a
/// dispatch can select at most one registered command; when it returns
/// nothing, no entry bears the name.
pub proof fn lemma_first_match_characterizes(names: Seq<Seq<char>>, t: Seq<char>)
    ensures
        match first_match(names, t) {
            Some(i) => 0 <= i < names.len() && names[i] == t && (forall|k: int|
                0 <= k < i ==> names[k] != t),
            None => forall|k: int| 0 <= k < names.len() ==> names[k] != t,
        },
    decreases names.len(),
{
    if names.len() > 0 && names[0] != t {
        let rest = names.drop_first();
        lemma_first_match_characterizes(rest, t);
        assert(forall|k: int| 0 <= k < rest.len() ==> #[trigger] rest[k] == names[k + 1]);
        match first_match(rest, t) {
            Some(i) => {
                assert(names[i + 1] == rest[i]);
                assert(forall|k: int| 1 <= k < i + 1 ==> #[trigger] names[k] == rest[k - 1]);
            },
            None => {
                assert(forall|k: int| 1 <= k < names.len() ==> #[trigger] names[k] == rest[k - 1]);
            },
        }
    }
}

/// The converse: a position that matches and is preceded by no match is the
/// one `first_match` returns. Together with `lemma_first_match_characterizes`
/// this makes the selected entry unique.
pub proof fn lemma_first_match_found(names: Seq<Seq<char>>, t: Seq<char>, i: int)
    requires
        0 <= i < names.len(),
        names[i] == t,
        forall|k: int| 0 <= k < i ==> names[k] != t,
    ensures
        first_match(names, t) == Some(i),
    decreases names.len(),
{
    if i > 0 {
        let rest = names.drop_first();
        assert(forall|k: int| 0 <= k < rest.len() ==> #[trigger] rest[k] == names[k + 1]);
        lemma_first_match_found(rest, t, i - 1);
    }
}

/// What a dispatch asks the embedding program to do.
pub enum Dispatch<A> {
    /// No argument was given and no default is configured.
    NoCommand,
    /// The first registered command bearing the requested name matched:
    /// invoke this action.
    Run(A),
    /// The requested name was "help" and matched no registered command:
    /// list these command names, in registration order.
    Help(Vec<String>),
    /// The requested name matched no registered command: report it.
    Unknown(String),
}

/// The command dispatcher: an ordered registry of named deferred actions
/// plus an optional default command name. Built by chained calls, consumed
/// whole by `dispatch`, so no action can ever be handed out twice.
pub struct Maker<A> {
    commands: Vec<(String, A)>,
    default: Option<String>,
}

impl<A> Maker<A> {
    /// The registered command names, in registration order.
    pub closed spec fn names(self) -> Seq<Seq<char>> {
        Seq::new(self.commands@.len(), |i: int| self.commands@[i].0@)
    }

    /// The registered actions, in registration order.
    pub closed spec fn actions(self) -> Seq<A> {
        Seq::new(self.commands@.len(), |i: int| self.commands@[i].1)
    }

    /// The configured default command name, if any.
    pub closed spec fn default_name(self) -> Option<Seq<char>> {
        match self.default {
            Some(d) => Some(d@),
            None => None,
        }
    }

    /// An empty registry with no default.
    pub fn with() -> (r: Maker<A>)
        ensures
            r.names() =~= Seq::<Seq<char>>::empty(),
            r.actions() =~= Seq::<A>::empty(),
            r.default_name() is None,
    {
        Maker { commands: Vec::new(), default: None }
    }

    /// Records `name` as the fallback command, overwriting any earlier
    /// default; it need not match a registered name.
    pub fn default(self, name: &str) -> (r: Self)
        ensures
            r.names() =~= self.names(),
            r.actions() =~= self.actions(),
            r.default_name() == Some(name@),
    {
        let mut m = self;
        m.default = Some(name.to_owned());
        m
    }

    /// Appends a named action to the registry. Duplicate names are kept;
    /// on dispatch the first registered match wins.
    pub fn cmd(self, name: &str, action: A) -> (r: Self)
        ensures
            r.names() =~= self.names().push(name@),
            r.actions() =~= self.actions().push(action),
            r.default_name() == self.default_name(),
    {
        let mut m = self;
        m.commands.push((name.to_owned(), action));
        m
    }

    /// Resolves the requested command name — `arg` if supplied, else the
    /// configured default — against the registry and consumes the builder:
    /// the first registered entry with that name is removed and its action
    /// handed out; with no match, the literal name "help" yields the listing
    /// of all registered names, any other name is reported unknown, and with
    /// no requested name at all there is nothing to do. At most one action
    /// is ever handed out.
    #[verifier::loop_isolation(false)]
    pub fn dispatch(self, arg: Option<String>) -> (r: Dispatch<A>)
        ensures
            ({
                let req = requested(arg.deep_view(), self.default_name());
                match req {
                    None => r is NoCommand,
                    Some(t) => match first_match(self.names(), t) {
                        Some(i) => r matches Dispatch::Run(a) && a == self.actions()[i],
                        None => if t == "help"@ {
                            r matches Dispatch::Help(listing) && listing.deep_view()
                                == self.names()
                        } else {
                            r matches Dispatch::Unknown(n) && n@ == t
                        },
                    },
                }
            }),
    {
        let Maker { mut commands, default } = self;
        let target: String = match arg {
            Some(a) => a,
            None => match default {
                Some(d) => d,
                None => {
                    return Dispatch::NoCommand;
                },
            },
        };
        let ghost names = self.names();
        let ghost t = target@;
        assert(forall|k: int| 0 <= k < names.len() ==> names[k] == #[trigger] commands@[k].0@);
        let mut i: usize = 0;
        while i < commands.len()
            invariant
                commands@ == self.commands@,
                i <= commands.len(),
                names == self.names(),
                t == target@,
                forall|k: int| 0 <= k < i ==> names[k] != t,
                forall|k: int| 0 <= k < names.len() ==> names[k] == #[trigger] commands@[k].0@,
            decreases commands.len() - i,
        {
            if commands[i].0 == target {
                proof {
                    lemma_first_match_found(names, t, i as int);
                    assert(first_match(names, t) == Some(i as int));
                    assert(self.actions()[i as int] == self.commands@[i as int].1);
                }
                let entry = commands.remove(i);
                assert(entry == self.commands@[i as int]);
                return Dispatch::Run(entry.1);
            }
            i += 1;
        }
        proof {
            lemma_first_match_characterizes(names, t);
        }
        let help: String = String::from_str("help");
        if target == help {
            let mut listing: Vec<String> = Vec::new();
            let mut j: usize = 0;
            while j < commands.len()
                invariant
                    j <= commands.len(),
                    listing@.len() == j,
                    forall|k: int| 0 <= k < j ==> #[trigger] listing@[k]@ == names[k],
                decreases commands.len() - j,
            {
                let name = commands[j].0.clone();
                assert(name@ == names[j as int]);
                listing.push(name);
                j += 1;
            }
            assert(listing.deep_view() =~= names);
            Dispatch::Help(listing)
        } else {
            Dispatch::Unknown(target)
        }
    }
}

} // verus!
