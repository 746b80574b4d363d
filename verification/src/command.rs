use vstd::prelude::*;
use vstd::string::StringExecFns;

use crate::path_str::str_eq;
use crate::project_path::{AbsoluteDir, AsPath};

verus! {

/// The arguments handed to an external command, joined with single spaces
/// when displayed.
pub open spec fn spec_joined(args: Seq<Seq<char>>) -> Seq<char>
    decreases args.len(),
{
    if args.len() == 0 {
        Seq::empty()
    } else if args.len() == 1 {
        args[0]
    } else {
        args[0] + seq![' '] + spec_joined(args.drop_first())
    }
}

proof fn lemma_joined_push(args: Seq<Seq<char>>, next: Seq<char>)
    ensures
        spec_joined(args.push(next)) == if args.len() == 0 {
            next
        } else {
            spec_joined(args) + seq![' '] + next
        },
    decreases args.len(),
{
    if args.len() == 0 {
        assert(args.push(next) =~= seq![next]);
        assert(spec_joined(seq![next]) == next);
    } else {
        assert(args.push(next).drop_first() =~= args.drop_first().push(next));
        lemma_joined_push(args.drop_first(), next);
        if args.len() == 1 {
            assert(spec_joined(args.push(next)) == args[0] + seq![' '] + next);
        } else {
            assert(spec_joined(args) + seq![' '] + next =~= args[0] + seq![' '] + (spec_joined(
                args.drop_first(),
            ) + seq![' '] + next));
        }
    }
}

/// An ordered list of command-line arguments.
#[derive(Debug, Clone, PartialEq, Eq)]
pub struct Args {
    inner: Vec<String>,
}

impl View for Args {
    type V = Seq<Seq<char>>;

    closed spec fn view(&self) -> Seq<Seq<char>> {
        Seq::new(self.inner@.len(), |i: int| self.inner@[i]@)
    }
}

impl Default for Args {
    fn default() -> (arguments: Self)
        ensures
            arguments@ == Seq::<Seq<char>>::empty(),
    {
        let arguments = Args { inner: Vec::new() };
        proof {
            assert(arguments@ =~= Seq::<Seq<char>>::empty());
        }
        arguments
    }
}

impl Args {
    /// Append one argument.
    pub fn add(self, arg: String) -> (extended: Args)
        ensures
            extended@ == self@.push(arg@),
    {
        let mut inner = self.inner;
        inner.push(arg);
        let extended = Args { inner };
        proof {
            assert(extended@ =~= self@.push(arg@));
        }
        extended
    }

    /// The arguments, in order.
    pub fn iter(&self) -> (arguments: &Vec<String>)
        ensures
            arguments@.len() == self@.len(),
            forall|i: int| 0 <= i < self@.len() ==> arguments@[i]@ == self@[i],
    {
        &self.inner
    }

    /// The arguments joined with single spaces.
    pub fn display(&self) -> (text: String)
        ensures
            text@ == spec_joined(self@),
    {
        let count = self.inner.len();
        let mut text = String::new();
        let mut at: usize = 0;
        proof {
            assert(self@.take(0) =~= Seq::<Seq<char>>::empty());
        }
        while at < count
            invariant
                count == self.inner@.len(),
                count == self@.len(),
                at <= count,
                text@ == spec_joined(self@.take(at as int)),
                forall|i: int| 0 <= i < self@.len() ==> self@[i] == self.inner@[i]@,
            decreases count - at,
        {
            if at > 0 {
                text.append(" ");
                proof {
                    reveal_strlit(" ");
                    assert(" "@ =~= seq![' ']);
                }
            }
            text.append(self.inner[at].as_str());
            proof {
                lemma_joined_push(self@.take(at as int), self@[at as int]);
                assert(self@.take(at as int).push(self@[at as int]) =~= self@.take(at + 1));
                assert(text@ =~= spec_joined(self@.take(at + 1)));
            }
            at = at + 1;
        }
        proof {
            assert(self@.take(count as int) =~= self@);
        }
        text
    }
}

/// Applying an override to a recorded list: when the key is already present
/// its value is replaced in place (the key keeps its position); otherwise the
/// pair is appended.
pub open spec fn spec_env_update(
    overrides: Seq<(Seq<char>, Seq<char>)>,
    key: Seq<char>,
    value: Seq<char>,
) -> Seq<(Seq<char>, Seq<char>)>
    decreases overrides.len(),
{
    if overrides.len() == 0 {
        seq![(key, value)]
    } else if overrides.first().0 == key {
        seq![(key, value)] + overrides.drop_first()
    } else {
        seq![overrides.first()] + spec_env_update(overrides.drop_first(), key, value)
    }
}

proof fn lemma_env_update_at(
    overrides: Seq<(Seq<char>, Seq<char>)>,
    key: Seq<char>,
    value: Seq<char>,
    at: int,
)
    requires
        0 <= at < overrides.len(),
        overrides[at].0 == key,
        forall|j: int| 0 <= j < at ==> overrides[j].0 != key,
    ensures
        spec_env_update(overrides, key, value) == overrides.update(at, (key, value)),
    decreases overrides.len(),
{
    if at == 0 {
        assert(seq![(key, value)] + overrides.drop_first() =~= overrides.update(0, (key, value)));
    } else {
        assert(forall|j: int| 0 <= j < at - 1 ==> overrides.drop_first()[j].0 != key);
        lemma_env_update_at(overrides.drop_first(), key, value, at - 1);
        assert(seq![overrides.first()] + overrides.drop_first().update(at - 1, (key, value))
            =~= overrides.update(at, (key, value)));
    }
}

proof fn lemma_env_update_absent(
    overrides: Seq<(Seq<char>, Seq<char>)>,
    key: Seq<char>,
    value: Seq<char>,
)
    requires
        forall|j: int| 0 <= j < overrides.len() ==> overrides[j].0 != key,
    ensures
        spec_env_update(overrides, key, value) == overrides.push((key, value)),
    decreases overrides.len(),
{
    if overrides.len() == 0 {
        assert(seq![(key, value)] =~= overrides.push((key, value)));
    } else {
        assert(forall|j: int|
            0 <= j < overrides.drop_first().len() ==> overrides.drop_first()[j].0 != key);
        lemma_env_update_absent(overrides.drop_first(), key, value);
        assert(seq![overrides.first()] + overrides.drop_first().push((key, value))
            =~= overrides.push((key, value)));
    }
}

/// One override displayed as `key=value`.
pub open spec fn spec_env_pair(pair: (Seq<char>, Seq<char>)) -> Seq<char> {
    pair.0 + seq!['='] + pair.1
}

/// Each override displayed as `key=value`, in order.
pub open spec fn spec_env_pairs(overrides: Seq<(Seq<char>, Seq<char>)>) -> Seq<Seq<char>> {
    Seq::new(overrides.len(), |i: int| spec_env_pair(overrides[i]))
}

/// Environment-variable overrides for an external command: an ordered list
/// of settings with one entry per key.
#[derive(Debug, Clone, PartialEq, Eq)]
pub struct Envs {
    inner: Vec<(String, String)>,
}

impl View for Envs {
    type V = Seq<(Seq<char>, Seq<char>)>;

    closed spec fn view(&self) -> Seq<(Seq<char>, Seq<char>)> {
        Seq::new(self.inner@.len(), |i: int| (self.inner@[i].0@, self.inner@[i].1@))
    }
}

impl Default for Envs {
    fn default() -> (overrides: Self)
        ensures
            overrides@ == Seq::<(Seq<char>, Seq<char>)>::empty(),
    {
        let overrides = Envs { inner: Vec::new() };
        proof {
            assert(overrides@ =~= Seq::<(Seq<char>, Seq<char>)>::empty());
        }
        overrides
    }
}

impl Envs {
    /// Record that `key` should be set to `value`: an already-recorded key
    /// keeps its position and has its value replaced, a new key is appended.
    pub fn env(self, key: String, value: String) -> (extended: Self)
        ensures
            extended@ == spec_env_update(self@, key@, value@),
    {
        let ghost before = self@;
        let ghost key_view = key@;
        let ghost value_view = value@;
        let mut inner = self.inner;
        let ghost entries = inner@;
        let count = inner.len();
        let mut at: usize = 0;
        while at < count
            invariant
                count == inner@.len(),
                at <= count,
                inner@ == entries,
                before.len() == entries.len(),
                forall|j: int|
                    0 <= j < before.len() ==> before[j] == (entries[j].0@, entries[j].1@),
                forall|j: int| 0 <= j < at ==> before[j].0 != key_view,
                key_view == key@,
            ensures
                at <= count,
                count == inner@.len(),
                inner@ == entries,
                at < count ==> before[at as int].0 == key_view,
                forall|j: int| 0 <= j < at ==> before[j].0 != key_view,
            decreases count - at,
        {
            if str_eq(inner[at].0.as_str(), key.as_str()) {
                break;
            }
            at = at + 1;
        }
        if at < count {
            proof {
                lemma_env_update_at(before, key_view, value_view, at as int);
            }
            inner[at] = (key, value);
            let extended = Envs { inner };
            proof {
                assert(extended@ =~= before.update(at as int, (key_view, value_view)));
            }
            extended
        } else {
            proof {
                assert(forall|j: int| 0 <= j < before.len() ==> before[j].0 != key_view);
                lemma_env_update_absent(before, key_view, value_view);
            }
            inner.push((key, value));
            let extended = Envs { inner };
            proof {
                assert(extended@ =~= before.push((key_view, value_view)));
            }
            extended
        }
    }

    /// The overrides joined with single spaces, each displayed as
    /// `key=value`.
    pub fn display(&self) -> (text: String)
        ensures
            text@ == spec_joined(spec_env_pairs(self@)),
    {
        let ghost target = spec_env_pairs(self@);
        let count = self.inner.len();
        let mut text = String::new();
        let mut at: usize = 0;
        proof {
            assert(target.take(0) =~= Seq::<Seq<char>>::empty());
        }
        while at < count
            invariant
                count == self.inner@.len(),
                count == self@.len(),
                count == target.len(),
                at <= count,
                target == spec_env_pairs(self@),
                text@ == spec_joined(target.take(at as int)),
                forall|i: int|
                    0 <= i < count ==> self@[i] == (self.inner@[i].0@, self.inner@[i].1@),
                forall|i: int| 0 <= i < count ==> target[i] == spec_env_pair(self@[i]),
            decreases count - at,
        {
            if at > 0 {
                text.append(" ");
                proof {
                    reveal_strlit(" ");
                    assert(" "@ =~= seq![' ']);
                }
            }
            text.append(self.inner[at].0.as_str());
            text.append("=");
            proof {
                reveal_strlit("=");
                assert("="@ =~= seq!['=']);
            }
            text.append(self.inner[at].1.as_str());
            proof {
                lemma_joined_push(target.take(at as int), target[at as int]);
                assert(target.take(at as int).push(target[at as int]) =~= target.take(at + 1));
                assert(text@ =~= spec_joined(target.take(at + 1)));
            }
            at = at + 1;
        }
        proof {
            assert(target.take(count as int) =~= target);
        }
        text
    }

    /// The recorded overrides, in order.
    pub fn entries(&self) -> (overrides: &Vec<(String, String)>)
        ensures
            overrides@.len() == self@.len(),
            forall|i: int|
                0 <= i < self@.len() ==> (overrides@[i].0@, overrides@[i].1@) == self@[i],
    {
        &self.inner
    }
}

/// Which standard stream of a child process a pipe setting applies to.
#[derive(Debug, Clone, Copy, PartialEq, Eq, Structural)]
pub enum StdPipe {
    Stdin,
    Stdout,
    Stderr,
}

/// Where an external command should run: the calling process's working
/// directory, or an explicit directory.
#[derive(Debug, Clone)]
pub enum WorkingDirectory {
    ProcessWorkingDirectory,
    Path(AbsoluteDir),
}

impl WorkingDirectory {
    /// The displayed form: a fixed phrase for the process default, the path
    /// itself otherwise.
    pub open spec fn describe_view(self) -> Seq<char> {
        match self {
            WorkingDirectory::ProcessWorkingDirectory => "process working directory"@,
            WorkingDirectory::Path(directory) => directory.path_view(),
        }
    }

    pub fn describe(&self) -> (text: String)
        ensures
            text@ == self.describe_view(),
    {
        match self {
            WorkingDirectory::ProcessWorkingDirectory => "process working directory".to_owned(),
            WorkingDirectory::Path(directory) => directory.as_path().to_owned(),
        }
    }
}

} // verus!
