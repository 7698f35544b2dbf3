//! Registries: which handler a command name or a key stands for.

use crate::key::Key;
use vstd::prelude::*;
use vstd::string::*;

verus! {

/// What a command or a key can set off.
#[derive(Debug, Clone, Copy, PartialEq, Eq, Structural)]
pub enum Handler {
    /// Ends the session.
    Quit,
    /// Writes the active buffer to its file, or to the path given as the
    /// first argument.
    Write,
    /// Ends the session and then writes the active buffer to its file,
    /// without saying how the write went.
    WriteQuit,
    /// Enters command-line mode.
    CommandMode,
    /// Enters normal mode.
    NormalMode,
    /// Enters insert mode.
    InsertMode,
    /// Moves the cursor one column to the left.
    Left,
    /// Moves the cursor one column to the right.
    Right,
    /// Moves the cursor one row up.
    Up,
    /// Moves the cursor one row down.
    Down,
}

/// What a registry can be keyed by: a value that stands for a mathematical
/// name and can be compared by it.
pub trait Lookup: Sized {
    /// The mathematical names.
    type Name;

    /// The name that a key stands for.
    spec fn name(&self) -> Self::Name;

    /// Whether two keys stand for the same name.
    fn same(&self, other: &Self) -> (r: bool)
        ensures
            r == (self.name() == other.name()),
    ;
}

impl Lookup for String {
    type Name = Seq<char>;

    open spec fn name(&self) -> Seq<char> {
        self@
    }

    fn same(&self, other: &Self) -> (r: bool) {
        *self == *other
    }
}

impl Lookup for Key {
    type Name = Key;

    open spec fn name(&self) -> Key {
        *self
    }

    fn same(&self, other: &Self) -> (r: bool) {
        *self == *other
    }
}

/// A mapping from keys to handlers. A key is bound to at most one handler:
/// binding it again replaces the handler.
pub struct Registry<K: Lookup> {
    entries: Vec<(K, Handler)>,
}

/// Whether `name` is the name of the entry at `i`.
pub open spec fn names<K: Lookup>(entries: Seq<(K, Handler)>, i: int, name: K::Name) -> bool {
    0 <= i < entries.len() && entries[i].0.name() == name
}

/// Whether some entry has the name `name`.
pub open spec fn bound<K: Lookup>(entries: Seq<(K, Handler)>, name: K::Name) -> bool {
    exists|i: int| names(entries, i, name)
}

/// The handler of an entry with the name `name`.
pub open spec fn handler_of<K: Lookup>(entries: Seq<(K, Handler)>, name: K::Name) -> Handler {
    entries[choose|i: int| names(entries, i, name)].1
}

impl<K: Lookup> View for Registry<K> {
    type V = Map<K::Name, Handler>;

    closed spec fn view(&self) -> Map<K::Name, Handler> {
        Map::new(
            |name: K::Name| bound(self.entries@, name),
            |name: K::Name| handler_of(self.entries@, name),
        )
    }
}

impl<K: Lookup> Registry<K> {
    /// No name occurs twice among the entries.
    pub closed spec fn wf(&self) -> bool {
        forall|i: int, j: int|
            0 <= i < j < self.entries@.len() ==> #[trigger] self.entries@[i].0.name()
                != #[trigger] self.entries@[j].0.name()
    }

    /// A registry that binds nothing.
    pub fn new() -> (r: Self)
        ensures
            r@ == Map::<K::Name, Handler>::empty(),
            r.wf(),
    {
        let r = Registry { entries: Vec::new() };
        assert(r@ =~= Map::<K::Name, Handler>::empty());
        r
    }

    /// The position of the entry for `key`, where there is one.
    fn position(&self, key: &K) -> (r: Option<usize>)
        ensures
            match r {
                Some(i) => names(self.entries@, i as int, key.name()),
                None => forall|i: int| !names(self.entries@, i, key.name()),
            },
    {
        let mut i: usize = 0;
        while i < self.entries.len()
            invariant
                i <= self.entries.len(),
                forall|j: int| 0 <= j < i ==> !names(self.entries@, j, key.name()),
            decreases self.entries.len() - i,
        {
            if self.entries[i].0.same(key) {
                return Some(i);
            }
            i += 1;
        }
        None
    }

    /// The handler that `key` is bound to.
    pub fn get(&self, key: &K) -> (r: Option<Handler>)
        requires
            self.wf(),
        ensures
            r == if self@.contains_key(key.name()) {
                Some(self@[key.name()])
            } else {
                None
            },
    {
        match self.position(key) {
            Some(i) => Some(self.entries[i].1),
            None => None,
        }
    }

    /// Binds `key` to `handler`, in place of any handler it was bound to.
    pub fn insert(&mut self, key: K, handler: Handler)
        requires
            old(self).wf(),
        ensures
            final(self)@ == old(self)@.insert(key.name(), handler),
            final(self).wf(),
    {
        let ghost name = key.name();
        let ghost at: int;
        match self.position(&key) {
            Some(i) => {
                self.entries[i] = (key, handler);
                proof {
                    at = i as int;
                }
            },
            None => {
                self.entries.push((key, handler));
                proof {
                    at = self.entries@.len() - 1;
                }
            },
        }
        proof {
            let before = old(self).entries@;
            let after = self.entries@;
            assert(names(after, at, name));
            assert forall|i: int| 0 <= i < after.len() && i != at implies after[i] == before[i]
                && names(before, i, after[i].0.name()) by {}
            assert forall|i: int, j: int| 0 <= i < j < after.len() implies #[trigger] after[i].0.name()
                != #[trigger] after[j].0.name() by {
                if i != at && j != at {
                    assert(before[i].0.name() != before[j].0.name());
                } else if i == at {
                    assert(names(before, j, after[j].0.name()));
                } else {
                    assert(names(before, i, after[i].0.name()));
                }
            }
            assert forall|other: K::Name| #[trigger]
                bound(after, other) == (other == name || bound(before, other)) by {
                if bound(after, other) && other != name {
                    let i = choose|i: int| names(after, i, other);
                    assert(names(before, i, other));
                }
                if bound(before, other) {
                    let i = choose|i: int| names(before, i, other);
                    assert(names(after, i, other));
                }
            }
            assert forall|other: K::Name| bound(after, other) implies #[trigger] handler_of(
                after,
                other,
            ) == if other == name {
                handler
            } else {
                handler_of(before, other)
            } by {
                let i = choose|i: int| names(after, i, other);
                if other != name {
                    let j = choose|j: int| names(before, j, other);
                    assert(names(before, i, other));
                    assert(i == j);
                }
            }
            assert(self@ =~= old(self)@.insert(name, handler));
        }
    }
}

} // verus!
