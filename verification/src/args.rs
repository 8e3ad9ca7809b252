//! The arguments that a command line may carry, and those that one did carry.

use crate::text;
use vstd::prelude::*;

verus! {

/// The arguments that the program knows of.
#[derive(Clone, Copy, Debug, PartialEq, Eq, Structural)]
pub enum Arg {
    Application,
    AutoUpdate,
    Bind,
    BldrUrl,
    Channel,
    ConfigDir,
    Environment,
    Events,
    Force,
    Group,
    ListenCtl,
    ListenGossip,
    ListenHttp,
    Name,
    NoColor,
    Organization,
    Password,
    Peer,
    PeerWatchFile,
    PermanentPeer,
    PkgIdent,
    PkgIdentOrArtifact,
    Ring,
    Strategy,
    Topology,
    Verbose,
}

/// What a command line carries: for each argument that occurs in it, the values it was given.
pub type Given = Map<Arg, Seq<Seq<char>>>;

/// The first value that was given for `arg`, if any was.
pub open spec fn value(given: Given, arg: Arg) -> Option<Seq<char>> {
    if given.contains_key(arg) && given[arg].len() > 0 {
        Some(given[arg][0])
    } else {
        None
    }
}

/// All values that were given for `arg`, in their order.
pub open spec fn values(given: Given, arg: Arg) -> Seq<Seq<char>> {
    if given.contains_key(arg) {
        given[arg]
    } else {
        Seq::empty()
    }
}

/// One argument that occurred, with its values.
#[derive(Debug)]
pub struct ArgEntry {
    arg: Arg,
    values: Vec<String>,
}

/// The arguments that occurred in a command line.
#[derive(Debug)]
pub struct ArgMatches {
    entries: Vec<ArgEntry>,
}

/// What the entries say, a later one overriding an earlier one.
spec fn carried(entries: Seq<ArgEntry>) -> Given
    decreases entries.len(),
{
    if entries.len() == 0 {
        Map::empty()
    } else {
        carried(entries.drop_last()).insert(entries.last().arg, text::texts(entries.last().values@))
    }
}

impl View for ArgMatches {
    type V = Given;

    closed spec fn view(&self) -> Given {
        carried(self.entries@)
    }
}

impl ArgMatches {
    /// A command line that carries nothing.
    pub fn new() -> (m: ArgMatches)
        ensures
            m@ == Map::<Arg, Seq<Seq<char>>>::empty(),
    {
        ArgMatches { entries: Vec::new() }
    }

    /// Records that `arg` occurred with `values`.
    pub fn insert(&mut self, arg: Arg, values: Vec<String>)
        ensures
            final(self)@ == old(self)@.insert(arg, text::texts(values@)),
    {
        self.entries.push(ArgEntry { arg, values });
        proof {
            assert(self.entries@.drop_last() == old(self).entries@);
        }
    }

    /// The values that were given for `arg`, where it occurred.
    pub fn values_of(&self, arg: Arg) -> (r: Option<&Vec<String>>)
        ensures
            match r {
                Some(list) => self@.contains_key(arg) && text::texts(list@) == self@[arg],
                None => !self@.contains_key(arg),
            },
    {
        let mut n: usize = self.entries.len();
        proof {
            assert(self.entries@.take(n as int) == self.entries@);
        }
        while n > 0
            invariant
                n <= self.entries@.len(),
                carried(self.entries@.take(n as int)).contains_key(arg) == self@.contains_key(arg),
                carried(self.entries@.take(n as int))[arg] == self@[arg],
            decreases n,
        {
            proof {
                assert(self.entries@.take(n as int).drop_last() == self.entries@.take(n - 1));
            }
            n = n - 1;
            if self.entries[n].arg == arg {
                return Some(&self.entries[n].values);
            }
        }
        None
    }

    /// Whether `arg` occurred.
    pub fn is_present(&self, arg: Arg) -> (r: bool)
        ensures
            r == self@.contains_key(arg),
    {
        self.values_of(arg).is_some()
    }

    /// The first value that was given for `arg`.
    pub fn value_of(&self, arg: Arg) -> (r: Option<String>)
        ensures
            text::opt_text(r) == value(self@, arg),
    {
        match self.values_of(arg) {
            Some(list) => {
                if list.len() > 0 {
                    Some(list[0].clone())
                } else {
                    None
                }
            },
            None => None,
        }
    }
}

} // verus!
