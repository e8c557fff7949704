//! The object placement registry: placed objects keyed by the instance id
//! the registry assigned at insertion. Ids only grow; an id freed by a
//! removal is never issued again within a session.

use vstd::prelude::*;
use crate::hex::HexCoord;
use crate::object::ObjectInstance;

verus! {

/// Whether some entry carries the given id.
pub open spec fn contains_id(s: Seq<(u32, ObjectInstance)>, id: u32) -> bool {
    exists|i: int| 0 <= i < s.len() && s[i].0 == id
}

/// The object stored under `id`, if any.
pub open spec fn get_id_spec(s: Seq<(u32, ObjectInstance)>, id: u32) -> Option<ObjectInstance>
    decreases s.len(),
{
    if s.len() == 0 {
        None
    } else if s.last().0 == id {
        Some(s.last().1)
    } else {
        get_id_spec(s.drop_last(), id)
    }
}

/// The entries with the entry carrying `id` (if any) taken out.
pub open spec fn remove_id_spec(s: Seq<(u32, ObjectInstance)>, id: u32) -> Seq<
    (u32, ObjectInstance),
>
    decreases s.len(),
{
    if s.len() == 0 {
        s
    } else if s.last().0 == id {
        s.drop_last()
    } else {
        remove_id_spec(s.drop_last(), id).push(s.last())
    }
}

/// The ids of the entries whose object occupies `pos`, in entry order.
pub open spec fn ids_at_spec(s: Seq<(u32, ObjectInstance)>, pos: HexCoord) -> Seq<u32>
    decreases s.len(),
{
    if s.len() == 0 {
        Seq::empty()
    } else if s.last().1.spec_occupies(pos) {
        ids_at_spec(s.drop_last(), pos).push(s.last().0)
    } else {
        ids_at_spec(s.drop_last(), pos)
    }
}

pub proof fn lemma_absent_id(s: Seq<(u32, ObjectInstance)>, id: u32)
    requires
        !contains_id(s, id),
    ensures
        get_id_spec(s, id) == None::<ObjectInstance>,
        remove_id_spec(s, id) == s,
    decreases s.len(),
{
    if s.len() == 0 {
    } else {
        assert(s[s.len() - 1].0 != id);
        assert forall|i: int| 0 <= i < s.drop_last().len() implies s.drop_last()[i].0 != id by {
            assert(s[i].0 != id);
        }
        lemma_absent_id(s.drop_last(), id);
        assert(remove_id_spec(s, id) =~= s);
    }
}

proof fn lemma_found_id(s: Seq<(u32, ObjectInstance)>, i: int)
    requires
        0 <= i < s.len(),
        forall|a: int, b: int| 0 <= a < b < s.len() ==> #[trigger] s[a].0 != #[trigger] s[b].0,
    ensures
        get_id_spec(s, s[i].0) == Some(s[i].1),
        remove_id_spec(s, s[i].0) == s.remove(i),
    decreases s.len(),
{
    let id = s[i].0;
    if i == s.len() - 1 {
        assert(s.remove(i) =~= s.drop_last());
    } else {
        assert(s.last().0 != id);
        assert forall|a: int, b: int|
            0 <= a < b < s.drop_last().len() implies #[trigger] s.drop_last()[a].0
            != #[trigger] s.drop_last()[b].0 by {
            assert(s[a].0 != s[b].0);
        }
        assert(s.drop_last()[i] == s[i]);
        lemma_found_id(s.drop_last(), i);
        assert(remove_id_spec(s, id) == s.drop_last().remove(i).push(s.last()));
        assert(s.drop_last().remove(i).push(s.last()) =~= s.remove(i));
    }
}

/// How appending one entry changes an occupancy query: a structure standing
/// on the queried cell becomes visible at the end of the answer, and any
/// other object leaves the answer unchanged.
pub proof fn lemma_ids_at_push(
    s: Seq<(u32, ObjectInstance)>,
    pos: HexCoord,
    id: u32,
    object: ObjectInstance,
)
    ensures
        object.spec_occupies(pos) ==> ids_at_spec(s.push((id, object)), pos) == ids_at_spec(
            s,
            pos,
        ).push(id),
        !object.spec_occupies(pos) ==> ids_at_spec(s.push((id, object)), pos) == ids_at_spec(
            s,
            pos,
        ),
{
    assert(s.push((id, object)).drop_last() =~= s);
    assert(s.push((id, object)).last() == (id, object));
}

/// The registry of placed objects. Entries are kept in increasing id order,
/// and every id ever issued is below the id counter.
pub struct ObjectRegistry {
    entries: Vec<(u32, ObjectInstance)>,
    next_id: u32,
}

impl View for ObjectRegistry {
    type V = Seq<(u32, ObjectInstance)>;

    closed spec fn view(&self) -> Seq<(u32, ObjectInstance)> {
        self.entries@
    }
}

impl ObjectRegistry {
    /// The id the next insertion will be given.
    pub closed spec fn spec_next_id(self) -> u32 {
        self.next_id
    }

    /// Entries stand in strictly increasing id order, and every stored id is
    /// below the id counter.
    pub closed spec fn wf(self) -> bool {
        &&& forall|i: int, j: int|
            0 <= i < j < self.entries@.len() ==> #[trigger] self.entries@[i].0
                < #[trigger] self.entries@[j].0
        &&& forall|i: int|
            0 <= i < self.entries@.len() ==> (#[trigger] self.entries@[i].0) < self.next_id
    }

    /// Issued ids never reach the id counter, so a later insertion can never
    /// collide with any id already in the registry.
    pub proof fn lemma_ids_below_next(&self)
        requires
            self.wf(),
        ensures
            forall|i: int| 0 <= i < self@.len() ==> (#[trigger] self@[i].0) < self.spec_next_id(),
    {
    }

    /// Ids appear in strictly increasing order of insertion.
    pub proof fn lemma_ids_strictly_increasing(&self)
        requires
            self.wf(),
        ensures
            forall|i: int, j: int|
                0 <= i < j < self@.len() ==> #[trigger] self@[i].0 < #[trigger] self@[j].0,
    {
    }

    pub fn new() -> (r: ObjectRegistry)
        ensures
            r@ == Seq::<(u32, ObjectInstance)>::empty(),
            r.spec_next_id() == 0,
            r.wf(),
    {
        ObjectRegistry { entries: Vec::new(), next_id: 0 }
    }

    /// How many objects are currently placed.
    pub fn len(&self) -> (n: usize)
        ensures
            n == self@.len(),
    {
        self.entries.len()
    }

    /// Adds an object and returns the id it was filed under, which is above
    /// every id the registry ever issued before.
    pub fn push(&mut self, object: ObjectInstance) -> (id: u32)
        requires
            old(self).wf(),
            old(self).spec_next_id() < u32::MAX,
        ensures
            final(self).wf(),
            id == old(self).spec_next_id(),
            final(self)@ == old(self)@.push((id, object)),
            final(self).spec_next_id() == id + 1,
            forall|i: int| 0 <= i < old(self)@.len() ==> (#[trigger] old(self)@[i].0) < id,
    {
        let id = self.next_id;
        self.entries.push((id, object));
        self.next_id = id + 1;
        id
    }

    /// The index of the entry carrying `id`, if it is present.
    fn index_of(&self, id: u32) -> (r: Option<usize>)
        ensures
            match r {
                Some(i) => i < self.entries@.len() && self.entries@[i as int].0 == id,
                None => !contains_id(self.entries@, id),
            },
    {
        let n = self.entries.len();
        let mut i: usize = 0;
        while i < n
            invariant
                n == self.entries@.len(),
                i <= n,
                forall|j: int| 0 <= j < i ==> self.entries@[j].0 != id,
            decreases n - i,
        {
            if self.entries[i].0 == id {
                return Some(i);
            }
            i += 1;
        }
        None
    }

    /// A borrow of the object filed under `id`, if it is present.
    pub fn get(&self, id: u32) -> (r: Option<&ObjectInstance>)
        requires
            self.wf(),
        ensures
            match r {
                Some(object) => get_id_spec(self@, id) == Some(*object),
                None => get_id_spec(self@, id) == None::<ObjectInstance> && !contains_id(
                    self@,
                    id,
                ),
            },
    {
        match self.index_of(id) {
            Some(i) => {
                proof {
                    lemma_found_id(self.entries@, i as int);
                }
                Some(&self.entries[i].1)
            },
            None => {
                proof {
                    lemma_absent_id(self.entries@, id);
                }
                None
            },
        }
    }

    /// Takes the object filed under `id` out of the registry. The id counter
    /// is left as it is, so the freed id is never issued again.
    pub fn remove(&mut self, id: u32) -> (r: Option<ObjectInstance>)
        requires
            old(self).wf(),
        ensures
            final(self).wf(),
            final(self).spec_next_id() == old(self).spec_next_id(),
            r == get_id_spec(old(self)@, id),
            final(self)@ == remove_id_spec(old(self)@, id),
            r is Some <==> contains_id(old(self)@, id),
    {
        let ghost s0 = self.entries@;
        match self.index_of(id) {
            Some(i) => {
                proof {
                    lemma_found_id(s0, i as int);
                }
                let (_, object) = self.entries.remove(i);
                Some(object)
            },
            None => {
                proof {
                    lemma_absent_id(s0, id);
                }
                None
            },
        }
    }

    /// The ids of all objects occupying `pos`, in increasing id order.
    pub fn ids_at(&self, pos: HexCoord) -> (r: Vec<u32>)
        ensures
            r@ == ids_at_spec(self@, pos),
    {
        let n = self.entries.len();
        let mut r: Vec<u32> = Vec::new();
        let mut i: usize = 0;
        while i < n
            invariant
                n == self.entries@.len(),
                i <= n,
                r@ == ids_at_spec(self.entries@.take(i as int), pos),
            decreases n - i,
        {
            proof {
                let t = self.entries@.take(i as int + 1);
                assert(t.drop_last() =~= self.entries@.take(i as int));
                assert(t.last() == self.entries@[i as int]);
            }
            let (id, object) = &self.entries[i];
            if object.occupies(pos) {
                r.push(*id);
            }
            i += 1;
        }
        proof {
            assert(self.entries@.take(n as int) =~= self.entries@);
        }
        r
    }
}

} // verus!
