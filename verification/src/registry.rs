//! Named listeners, each owning the buffer that the active stream feeds.

use crate::buffer::{fit, PollingBuffer};
use vstd::prelude::*;

verus! {

/// Why a registration or a removal was refused.
#[derive(Clone, Copy, PartialEq, Eq, Structural, Debug)]
pub enum RegistryError {
    /// The name is registered already.
    DuplicateName,
    /// No listener has the name.
    NotFound,
}

/// A registered consumer: its name and the buffer it polls.
#[derive(Debug)]
struct Listener {
    name: String,
    buffer: PollingBuffer,
}

/// A listener as contracts see it: its name and the frame in its buffer.
pub type Entry = (Seq<char>, Seq<u32>);

/// Some entry of `entries` has the name.
pub open spec fn has_name(entries: Seq<Entry>, name: Seq<char>) -> bool {
    exists|i: int| 0 <= i < entries.len() && (#[trigger] entries[i]).0 == name
}

/// The place of an entry with the name, where there is one.
pub open spec fn position(entries: Seq<Entry>, name: Seq<char>) -> int {
    choose|i: int| 0 <= i < entries.len() && (#[trigger] entries[i]).0 == name
}

/// No two entries share a name.
pub open spec fn distinct_names(entries: Seq<Entry>) -> bool {
    forall|i: int, j: int|
        0 <= i < j < entries.len() ==> (#[trigger] entries[i]).0 != (#[trigger] entries[j]).0
}

/// The entries after `frame` was written to every buffer.
pub open spec fn fed(entries: Seq<Entry>, frame: Seq<u32>) -> Seq<Entry> {
    Seq::new(entries.len(), |i: int| (entries[i].0, fit(frame, entries[i].1.len())))
}

/// The entries after a registration under `name` was asked for.
pub open spec fn after_insert(entries: Seq<Entry>, name: Seq<char>, frame: Seq<u32>) -> Seq<
    Entry,
> {
    if has_name(entries, name) {
        entries
    } else {
        entries.push((name, frame))
    }
}

/// The entries after the removal of `name` was asked for.
pub open spec fn after_remove(entries: Seq<Entry>, name: Seq<char>) -> Seq<Entry> {
    if has_name(entries, name) {
        entries.remove(position(entries, name))
    } else {
        entries
    }
}

/// What a registration under `name` answers.
pub open spec fn insert_answer(entries: Seq<Entry>, name: Seq<char>) -> Result<
    (),
    RegistryError,
> {
    if has_name(entries, name) {
        Err(RegistryError::DuplicateName)
    } else {
        Ok(())
    }
}

/// What the removal of `name` answers.
pub open spec fn remove_answer(entries: Seq<Entry>, name: Seq<char>) -> Result<
    (),
    RegistryError,
> {
    if has_name(entries, name) {
        Ok(())
    } else {
        Err(RegistryError::NotFound)
    }
}

/// The listeners of a host, in the order of their registration, and the
/// stream that feeds them.
///
/// All listeners hang on one source, so a rebind moves them together: none
/// is ever left on a stream that the others have left.
#[derive(Debug)]
pub struct ListenerRegistry {
    entries: Vec<Listener>,
    source: Option<u64>,
}

impl View for ListenerRegistry {
    type V = Seq<Entry>;

    closed spec fn view(&self) -> Seq<Entry> {
        Seq::new(self.entries@.len(), |i: int| (self.entries@[i].name@, self.entries@[i].buffer@))
    }
}

impl ListenerRegistry {
    /// The stream whose frames the listeners take, if any.
    pub closed spec fn source(&self) -> Option<u64> {
        self.source
    }

    /// Names are unique.
    pub open spec fn wf(&self) -> bool {
        distinct_names(self@)
    }

    /// A registry without listeners, fed by no stream.
    pub fn new() -> (registry: ListenerRegistry)
        ensures
            registry@ == Seq::<Entry>::empty(),
            registry.source() == None::<u64>,
            registry.wf(),
    {
        let registry = ListenerRegistry { entries: Vec::new(), source: None };
        assert(registry@ =~= Seq::<Entry>::empty());
        registry
    }

    /// The number of listeners.
    pub fn len(&self) -> (n: usize)
        ensures
            n == self@.len(),
    {
        self.entries.len()
    }

    /// The stream that feeds the listeners, if any.
    pub fn bound_to(&self) -> (stream: Option<u64>)
        ensures
            stream == self.source(),
    {
        self.source
    }

    /// The place of the listener called `name`.
    pub fn find(&self, name: &String) -> (place: Option<usize>)
        ensures
            place is Some <==> has_name(self@, name@),
            place is Some ==> place.unwrap() < self@.len() && self@[place.unwrap() as int].0
                == name@,
            place is Some && self.wf() ==> place.unwrap() == position(self@, name@),
    {
        let mut i: usize = 0;
        while i < self.entries.len()
            invariant
                i <= self.entries@.len(),
                self@.len() == self.entries@.len(),
                forall|k: int| 0 <= k < i ==> (#[trigger] self@[k]).0 != name@,
            decreases self.entries@.len() - i,
        {
            if self.entries[i].name == *name {
                assert(self@[i as int].0 == name@);
                return Some(i);
            }
            i += 1;
        }
        None
    }

    /// Registers `buffer` under `name`, as the last listener. A name that is
    /// taken is refused and nothing changes.
    pub fn insert(&mut self, name: String, buffer: PollingBuffer) -> (answer: Result<
        (),
        RegistryError,
    >)
        requires
            old(self).wf(),
        ensures
            answer == insert_answer(old(self)@, name@),
            final(self)@ == after_insert(old(self)@, name@, buffer@),
            has_name(final(self)@, name@),
            final(self).source() == old(self).source(),
            final(self).wf(),
    {
        proof {
            lemma_insert_twice(self@, name@, buffer@, buffer@);
            lemma_names_stay_distinct(self@, name@, buffer@);
        }
        match self.find(&name) {
            Some(_) => Err(RegistryError::DuplicateName),
            None => {
                self.entries.push(Listener { name, buffer });
                assert(self@ =~= old(self)@.push((name@, buffer@)));
                Ok(())
            },
        }
    }

    /// Takes the listener called `name` out; the others keep their order. An
    /// unknown name is refused and nothing changes.
    pub fn remove(&mut self, name: &str) -> (answer: Result<(), RegistryError>)
        requires
            old(self).wf(),
        ensures
            answer == remove_answer(old(self)@, name@),
            final(self)@ == after_remove(old(self)@, name@),
            !has_name(final(self)@, name@),
            final(self).source() == old(self).source(),
            final(self).wf(),
    {
        proof {
            lemma_remove_twice(self@, name@);
            lemma_names_stay_distinct(self@, name@, Seq::empty());
        }
        let wanted: String = name.to_owned();
        match self.find(&wanted) {
            None => Err(RegistryError::NotFound),
            Some(place) => {
                let _gone = self.entries.remove(place);
                assert(self@ =~= old(self)@.remove(place as int));
                Ok(())
            },
        }
    }

    /// A copy of the frame that the listener called `name` holds.
    pub fn poll(&self, name: &str) -> (frame: Option<Vec<u32>>)
        requires
            self.wf(),
        ensures
            frame is Some <==> has_name(self@, name@),
            frame is Some ==> frame.unwrap()@ == self@[position(self@, name@)].1,
    {
        let wanted: String = name.to_owned();
        match self.find(&wanted) {
            None => None,
            Some(place) => Some(self.entries[place].buffer.poll()),
        }
    }

    /// Moves every listener to `stream` in one step.
    pub fn rebind(&mut self, stream: u64)
        ensures
            final(self).source() == Some(stream),
            final(self)@ == old(self)@,
    {
        self.source = Some(stream);
    }

    /// Takes every listener off its stream in one step.
    pub fn unbind(&mut self)
        ensures
            final(self).source() == None::<u64>,
            final(self)@ == old(self)@,
    {
        self.source = None;
    }

    /// Hands a frame that `stream` produced to every listener. A frame of
    /// any other stream than the source is dropped, so no buffer ever takes
    /// frames from two streams in turn.
    pub fn deliver(&mut self, stream: u64, frame: &[u32]) -> (taken: bool)
        ensures
            taken == (old(self).source() == Some(stream)),
            final(self)@ == if taken {
                fed(old(self)@, frame@)
            } else {
                old(self)@
            },
            final(self).source() == old(self).source(),
            old(self).wf() ==> final(self).wf(),
    {
        match self.source {
            Some(bound) => {
                if bound != stream {
                    return false;
                }
            },
            None => {
                return false;
            },
        }
        let count: usize = self.entries.len();
        let mut i: usize = 0;
        while i < count
            invariant
                i <= count,
                count == old(self)@.len(),
                self@.len() == count,
                self.source == old(self).source,
                self.entries@.len() == count,
                old(self).entries@.len() == count,
                forall|k: int|
                    0 <= k < i ==> (#[trigger] self.entries@[k]).name@ == old(
                        self,
                    ).entries@[k].name@ && self.entries@[k].buffer@ == fit(
                        frame@,
                        old(self).entries@[k].buffer@.len(),
                    ),
                forall|k: int|
                    i <= k < count ==> #[trigger] self.entries@[k] == old(self).entries@[k],
            decreases count - i,
        {
            self.entries[i].buffer.write(frame);
            i += 1;
        }
        assert(self@ =~= fed(old(self)@, frame@));
        true
    }
}

/// Registering a name twice in a row fails the second time with
/// `DuplicateName`, whatever the first attempt answered.
pub proof fn lemma_insert_twice(
    entries: Seq<Entry>,
    name: Seq<char>,
    first: Seq<u32>,
    second: Seq<u32>,
)
    ensures
        insert_answer(after_insert(entries, name, first), name) == Err::<(), RegistryError>(
            RegistryError::DuplicateName,
        ),
        after_insert(after_insert(entries, name, first), name, second) == after_insert(
            entries,
            name,
            first,
        ),
{
    let once = after_insert(entries, name, first);
    if !has_name(entries, name) {
        assert(once[entries.len() as int].0 == name);
    }
    assert(has_name(once, name));
}

/// Removing a name twice in a row fails the second time with `NotFound`,
/// whatever the first attempt answered.
pub proof fn lemma_remove_twice(entries: Seq<Entry>, name: Seq<char>)
    requires
        distinct_names(entries),
    ensures
        remove_answer(after_remove(entries, name), name) == Err::<(), RegistryError>(
            RegistryError::NotFound,
        ),
        after_remove(after_remove(entries, name), name) == after_remove(entries, name),
{
    let once = after_remove(entries, name);
    if has_name(entries, name) {
        let p = position(entries, name);
        assert forall|i: int| 0 <= i < once.len() implies (#[trigger] once[i]).0 != name by {
            if i < p {
                assert(once[i] == entries[i]);
            } else {
                assert(once[i] == entries[i + 1]);
            }
        }
    }
    assert(!has_name(once, name));
}

/// A name that was registered is known until it is removed, and a removal
/// gives the name free again.
pub proof fn lemma_insert_then_remove(entries: Seq<Entry>, name: Seq<char>, frame: Seq<u32>)
    requires
        distinct_names(entries),
        !has_name(entries, name),
    ensures
        remove_answer(after_insert(entries, name, frame), name) == Ok::<(), RegistryError>(()),
        after_remove(after_insert(entries, name, frame), name) == entries,
{
    let once = after_insert(entries, name, frame);
    assert(once[entries.len() as int].0 == name);
    assert(has_name(once, name));
    let p = position(once, name);
    assert(p == entries.len()) by {
        if p < entries.len() {
            assert(once[p] == entries[p]);
            assert(has_name(entries, name));
        }
    }
    assert(once.remove(p) =~= entries);
}

/// A frame that is handed out reaches the listener of every name: each
/// keeps its name and its place, and holds the frame cut or padded to its
/// own capacity.
pub proof fn lemma_fed_reaches(entries: Seq<Entry>, name: Seq<char>, frame: Seq<u32>)
    requires
        distinct_names(entries),
        has_name(entries, name),
    ensures
        has_name(fed(entries, frame), name),
        position(fed(entries, frame), name) == position(entries, name),
        fed(entries, frame)[position(entries, name)].1 == fit(
            frame,
            entries[position(entries, name)].1.len(),
        ),
{
    let after = fed(entries, frame);
    let p = position(entries, name);
    assert(after[p].0 == name);
    let q = position(after, name);
    assert(after[q].0 == entries[q].0);
    if p != q {
        assert(entries[p].0 != entries[q].0);
    }
}

/// All three operations keep the names unique.
pub proof fn lemma_names_stay_distinct(entries: Seq<Entry>, name: Seq<char>, frame: Seq<u32>)
    requires
        distinct_names(entries),
    ensures
        distinct_names(after_insert(entries, name, frame)),
        distinct_names(after_remove(entries, name)),
        distinct_names(fed(entries, frame)),
{
    let grown = after_insert(entries, name, frame);
    assert forall|i: int, j: int| 0 <= i < j < grown.len() implies (#[trigger] grown[i]).0 != (
    #[trigger] grown[j]).0 by {
        if j == entries.len() {
            assert(grown[i] == entries[i]);
        }
    }
    let cut = after_remove(entries, name);
    if has_name(entries, name) {
        let p = position(entries, name);
        assert forall|i: int, j: int| 0 <= i < j < cut.len() implies (#[trigger] cut[i]).0 != (
        #[trigger] cut[j]).0 by {
            let a = if i < p { i } else { i + 1 };
            let b = if j < p { j } else { j + 1 };
            assert(cut[i] == entries[a]);
            assert(cut[j] == entries[b]);
        }
    }
}

} // verus!
