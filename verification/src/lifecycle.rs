//! The runtime model of object lifetimes: an explicit arena of object
//! slots with shared reference counts for reference-counted classes and
//! sole ownership with an explicit free for manually managed classes, plus
//! the capability-based downcast over the class hierarchy.

use vstd::prelude::*;
use crate::api::{GodotClass, class_idx, find_class, spec_is_refcounted};
use crate::strutil::str_eq;

verus! {

/// The mathematical model of one object slot.
pub ghost struct SlotModel {
    pub alive: bool,
    pub refcounted: bool,
    pub refcount: int,
}

/// The mathematical model of the arena: the slots ever constructed and how
/// many deallocations the host performed.
pub ghost struct ArenaModel {
    pub slots: Seq<SlotModel>,
    pub deallocs: int,
}

struct ObjSlot {
    alive: bool,
    refcounted: bool,
    refcount: u64,
}

/// The arena of live objects. Handles are indices; a handle stays valid
/// until its object is deallocated.
pub struct ObjectArena {
    slots: Vec<ObjSlot>,
    deallocs: u64,
}

impl View for ObjectArena {
    type V = ArenaModel;

    closed spec fn view(&self) -> ArenaModel {
        ArenaModel {
            slots: Seq::new(
                self.slots@.len(),
                |i: int|
                    SlotModel {
                        alive: self.slots@[i].alive,
                        refcounted: self.slots@[i].refcounted,
                        refcount: self.slots@[i].refcount as int,
                    },
            ),
            deallocs: self.deallocs as int,
        }
    }
}

/// A handle that may be duplicated and destroyed: it points at a live,
/// reference-counted slot.
pub open spec fn valid_ref(a: ArenaModel, id: int) -> bool {
    &&& 0 <= id < a.slots.len()
    &&& a.slots[id].alive
    &&& a.slots[id].refcounted
}

/// A handle under sole ownership: it points at a live, manually managed
/// slot.
pub open spec fn valid_manual(a: ArenaModel, id: int) -> bool {
    &&& 0 <= id < a.slots.len()
    &&& a.slots[id].alive
    &&& !a.slots[id].refcounted
}

/// Construction: a new slot, with a count of one when reference-counted.
pub open spec fn spec_construct(a: ArenaModel, refcounted: bool) -> ArenaModel {
    ArenaModel {
        slots: a.slots.push(
            SlotModel {
                alive: true,
                refcounted,
                refcount: if refcounted {
                    1
                } else {
                    0
                },
            },
        ),
        deallocs: a.deallocs,
    }
}

/// Duplication: the shared count goes up by one; the handle is an alias of
/// the same underlying object, never a deep copy.
pub open spec fn spec_duplicate(a: ArenaModel, id: int) -> ArenaModel {
    ArenaModel {
        slots: a.slots.update(
            id,
            SlotModel { refcount: a.slots[id].refcount + 1, ..a.slots[id] },
        ),
        deallocs: a.deallocs,
    }
}

/// Destruction of a reference-counted handle: the count goes down by one,
/// and the object is deallocated exactly when it reaches zero.
pub open spec fn spec_destroy(a: ArenaModel, id: int) -> ArenaModel {
    if a.slots[id].refcount > 1 {
        ArenaModel {
            slots: a.slots.update(
                id,
                SlotModel { refcount: a.slots[id].refcount - 1, ..a.slots[id] },
            ),
            deallocs: a.deallocs,
        }
    } else {
        ArenaModel {
            slots: a.slots.update(id, SlotModel { alive: false, refcount: 0, ..a.slots[id] }),
            deallocs: a.deallocs + 1,
        }
    }
}

/// Explicit free of a manually managed handle: the only destruction path
/// for such objects.
pub open spec fn spec_free(a: ArenaModel, id: int) -> ArenaModel {
    ArenaModel {
        slots: a.slots.update(id, SlotModel { alive: false, ..a.slots[id] }),
        deallocs: a.deallocs + 1,
    }
}

impl ObjectArena {
    pub fn new() -> (r: ObjectArena)
        ensures
            r@.slots.len() == 0,
            r@.deallocs == 0,
    {
        let r = ObjectArena { slots: Vec::new(), deallocs: 0 };
        assert(r@.slots =~= Seq::<SlotModel>::empty());
        r
    }

    /// Constructs a reference-counted object with a count of one; the
    /// returned handle shares ownership.
    pub fn construct_refcounted(&mut self) -> (id: usize)
        ensures
            final(self)@ == spec_construct(old(self)@, true),
            id == old(self)@.slots.len(),
            valid_ref(final(self)@, id as int),
            final(self)@.slots[id as int].refcount == 1,
    {
        let id = self.slots.len();
        self.slots.push(ObjSlot { alive: true, refcounted: true, refcount: 1 });
        assert(self@.slots =~= spec_construct(old(self)@, true).slots);
        id
    }

    /// Constructs a manually managed object; the caller takes sole
    /// ownership and must free it explicitly.
    pub fn construct_manual(&mut self) -> (id: usize)
        ensures
            final(self)@ == spec_construct(old(self)@, false),
            id == old(self)@.slots.len(),
            valid_manual(final(self)@, id as int),
    {
        let id = self.slots.len();
        self.slots.push(ObjSlot { alive: true, refcounted: false, refcount: 0 });
        assert(self@.slots =~= spec_construct(old(self)@, false).slots);
        id
    }

    /// The current shared count of a handle.
    pub fn refcount(&self, id: usize) -> (r: u64)
        requires
            id < self@.slots.len(),
        ensures
            r as int == self@.slots[id as int].refcount,
    {
        self.slots[id].refcount
    }

    /// Whether a handle's object is still allocated.
    pub fn is_alive(&self, id: usize) -> (r: bool)
        requires
            id < self@.slots.len(),
        ensures
            r == self@.slots[id as int].alive,
    {
        self.slots[id].alive
    }

    /// How many deallocations the host performed.
    pub fn dealloc_count(&self) -> (r: u64)
        ensures
            r as int == self@.deallocs,
    {
        self.deallocs
    }

    /// Duplicates a reference-counted handle: increments the shared count
    /// and returns an alias to the same underlying object.
    pub fn duplicate(&mut self, id: usize) -> (alias: usize)
        requires
            valid_ref(old(self)@, id as int),
            old(self)@.slots[id as int].refcount < u64::MAX,
        ensures
            final(self)@ == spec_duplicate(old(self)@, id as int),
            alias == id,
    {
        let count = self.slots[id].refcount;
        self.slots[id].refcount = count + 1;
        assert(self@.slots =~= spec_duplicate(old(self)@, id as int).slots);
        id
    }

    /// Destroys a reference-counted handle: decrements the shared count
    /// and deallocates exactly when it reaches zero.
    pub fn destroy(&mut self, id: usize)
        requires
            valid_ref(old(self)@, id as int),
            old(self)@.slots[id as int].refcount >= 1,
            old(self)@.deallocs < u64::MAX,
        ensures
            final(self)@ == spec_destroy(old(self)@, id as int),
    {
        let count = self.slots[id].refcount;
        if count > 1 {
            self.slots[id].refcount = count - 1;
            assert(self@.slots =~= spec_destroy(old(self)@, id as int).slots);
        } else {
            self.slots[id].refcount = 0;
            self.slots[id].alive = false;
            self.deallocs = self.deallocs + 1;
            assert(self@.slots =~= spec_destroy(old(self)@, id as int).slots);
        }
    }

    /// Frees a manually managed handle: the one and only destruction path;
    /// there is no automatic decrement.
    pub fn free(&mut self, id: usize)
        requires
            valid_manual(old(self)@, id as int),
            old(self)@.deallocs < u64::MAX,
        ensures
            final(self)@ == spec_free(old(self)@, id as int),
    {
        self.slots[id].alive = false;
        self.deallocs = self.deallocs + 1;
        assert(self@.slots =~= spec_free(old(self)@, id as int).slots);
    }
}

/// Law: for a reference-counted handle, `duplicate` followed immediately
/// by `destroy` on the duplicate leaves the shared count exactly as it was
/// before the duplication, and triggers no deallocation.
pub proof fn lemma_duplicate_destroy_count_unchanged(a: ArenaModel, id: int)
    requires
        valid_ref(a, id),
        a.slots[id].refcount >= 1,
    ensures
        spec_destroy(spec_duplicate(a, id), id).slots[id].refcount == a.slots[id].refcount,
        spec_destroy(spec_duplicate(a, id), id).slots[id].alive,
        spec_destroy(spec_duplicate(a, id), id).deallocs == a.deallocs,
{
}

/// Law: `construct` followed immediately by `destroy` brings the count to
/// zero and triggers exactly one deallocation.
pub proof fn lemma_construct_destroy_deallocates(a: ArenaModel)
    ensures
        ({
            let a1 = spec_construct(a, true);
            let id = a.slots.len() as int;
            let a2 = spec_destroy(a1, id);
            &&& a2.slots[id].refcount == 0
            &&& !a2.slots[id].alive
            &&& a2.deallocs == a.deallocs + 1
        }),
{
}

/// Whether a class equals the target class or has it among its ancestors,
/// walking up at most `fuel` base links.
pub open spec fn inherits_from(
    cs: Seq<GodotClass>,
    cname: Seq<char>,
    target: Seq<char>,
    fuel: nat,
) -> bool
    decreases fuel,
{
    let ci = class_idx(cs, cname);
    if ci < 0 {
        false
    } else if cname == target {
        true
    } else if cs[ci].base_class@ != Seq::<char>::empty() && fuel > 0 {
        inherits_from(cs, cs[ci].base_class@, target, (fuel - 1) as nat)
    } else {
        false
    }
}

fn downcast_rec(
    classes: &Vec<GodotClass>,
    instance_class: &str,
    target_class: &str,
    handle: u64,
    fuel: usize,
) -> (r: Option<u64>)
    ensures
        (r is Some) == inherits_from(classes@, instance_class@, target_class@, fuel as nat),
        r matches Some(h) ==> h == handle,
    decreases fuel,
{
    match find_class(classes, instance_class) {
        None => None,
        Some(class) => {
            if str_eq(instance_class, target_class) {
                Some(handle)
            } else if class.base_class.as_str().unicode_len() > 0 && fuel > 0 {
                assert(class.base_class@ != Seq::<char>::empty());
                downcast_rec(classes, class.base_class.as_str(), target_class, handle, fuel - 1)
            } else {
                assert(class.base_class@.len() == 0 ==> class.base_class@ =~= Seq::<
                    char,
                >::empty());
                None
            }
        },
    }
}

/// The generic capability-based downcast: the handle is returned under the
/// target type exactly when the instance's class is the target or inherits
/// from it; a failed downcast is an absent result, never fatal.
pub fn try_downcast(
    classes: &Vec<GodotClass>,
    instance_class: &str,
    target_class: &str,
    handle: u64,
) -> (r: Option<u64>)
    ensures
        (r is Some) == inherits_from(
            classes@,
            instance_class@,
            target_class@,
            classes@.len(),
        ),
        r matches Some(h) ==> h == handle,
{
    let fuel = classes.len();
    downcast_rec(classes, instance_class, target_class, handle, fuel)
}

pub proof fn lemma_inherits_target_resolves(
    cs: Seq<GodotClass>,
    cname: Seq<char>,
    target: Seq<char>,
    fuel: nat,
)
    requires
        inherits_from(cs, cname, target, fuel),
    ensures
        class_idx(cs, target) >= 0,
    decreases fuel,
{
    let ci = class_idx(cs, cname);
    if cname == target {
    } else {
        lemma_inherits_target_resolves(cs, cs[ci].base_class@, target, (fuel - 1) as nat);
    }
}

/// The runtime model of an upcast accessor: the same underlying handle
/// aliased under an ancestor's type. When the ancestor is
/// reference-counted, the upcast increments the shared count, mirroring
/// the aliasing — never a copy of the underlying object; otherwise the
/// arena is untouched.
pub fn upcast_handle(
    arena: &mut ObjectArena,
    classes: &Vec<GodotClass>,
    instance_class: &str,
    target_class: &str,
    id: usize,
) -> (r: Option<usize>)
    requires
        ({
            let ti = class_idx(classes@, target_class@);
            (inherits_from(classes@, instance_class@, target_class@, classes@.len()) && ti >= 0
                && spec_is_refcounted(classes@[ti])) ==> (valid_ref(old(arena)@, id as int) && old(
                arena,
            )@.slots[id as int].refcount < u64::MAX)
        }),
    ensures
        ({
            let ti = class_idx(classes@, target_class@);
            let inh = inherits_from(classes@, instance_class@, target_class@, classes@.len());
            let counted = inh && ti >= 0 && spec_is_refcounted(classes@[ti]);
            &&& (r is Some) == inh
            &&& r matches Some(h) ==> h == id
            &&& counted ==> final(arena)@ == spec_duplicate(old(arena)@, id as int)
            &&& !counted ==> final(arena)@ == old(arena)@
        }),
{
    if try_downcast(classes, instance_class, target_class, 0).is_none() {
        return None;
    }
    proof {
        lemma_inherits_target_resolves(
            classes@,
            instance_class@,
            target_class@,
            classes@.len(),
        );
    }
    let target = match find_class(classes, target_class) {
        Some(t) => t,
        None => {
            return None;
        },
    };
    if target.is_refcounted() {
        let alias = arena.duplicate(id);
        Some(alias)
    } else {
        Some(id)
    }
}

} // verus!
