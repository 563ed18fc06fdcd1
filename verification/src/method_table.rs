//! The runtime model of the per-class method tables: a registry object
//! built once from the catalogue and the host's resolver answers, holding
//! for every class one table with a constructor slot and one raw-binding
//! slot per eligible method.

use vstd::prelude::*;
use crate::api::{GodotClass, GodotMethod, spec_method_name};
use crate::methods::spec_method_eligible;
use crate::strutil::str_eq;

verus! {

/// One resolved constructor: a class name and the raw handle the host
/// returned for it.
pub struct CtorBinding {
    pub class_name: String,
    pub handle: u64,
}

/// One resolved method binding: a class name, a method name, and the raw
/// handle the host returned for the pair.
pub struct MethodBinding {
    pub class_name: String,
    pub method_name: String,
    pub handle: u64,
}

/// The host's resolver answers, captured at plugin-load time: what the two
/// string-keyed reflection entry points return for every known name.
pub struct HostBindings {
    pub ctors: Vec<CtorBinding>,
    pub methods: Vec<MethodBinding>,
}

/// First constructor entry for a class name at or after `i`, or -1.
pub open spec fn first_ctor_from(bs: Seq<CtorBinding>, name: Seq<char>, i: int) -> int
    decreases bs.len() - i,
{
    if i < 0 || i >= bs.len() {
        -1
    } else if bs[i].class_name@ == name {
        i
    } else {
        first_ctor_from(bs, name, i + 1)
    }
}

/// The handle the host returns for a class's constructor, if any.
pub open spec fn spec_lookup_ctor(bs: Seq<CtorBinding>, name: Seq<char>) -> Option<u64> {
    let i = first_ctor_from(bs, name, 0);
    if i < 0 {
        None
    } else {
        Some(bs[i].handle)
    }
}

/// First method entry for a class-and-method pair at or after `i`, or -1.
pub open spec fn first_method_from(
    bs: Seq<MethodBinding>,
    class_name: Seq<char>,
    method_name: Seq<char>,
    i: int,
) -> int
    decreases bs.len() - i,
{
    if i < 0 || i >= bs.len() {
        -1
    } else if bs[i].class_name@ == class_name && bs[i].method_name@ == method_name {
        i
    } else {
        first_method_from(bs, class_name, method_name, i + 1)
    }
}

/// The handle the host returns for a class-and-method pair, if any.
pub open spec fn spec_lookup_method(
    bs: Seq<MethodBinding>,
    class_name: Seq<char>,
    method_name: Seq<char>,
) -> Option<u64> {
    let i = first_method_from(bs, class_name, method_name, 0);
    if i < 0 {
        None
    } else {
        Some(bs[i].handle)
    }
}

impl HostBindings {
    /// The "get class constructor by name" capability: a typed, fallible
    /// lookup; a missing handle is an explicit absence, never a null raw
    /// pointer.
    pub fn lookup_ctor(&self, name: &str) -> (r: Option<u64>)
        ensures
            r == spec_lookup_ctor(self.ctors@, name@),
    {
        let n = self.ctors.len();
        let mut i: usize = 0;
        while i < n
            invariant
                n == self.ctors@.len(),
                i <= n,
                first_ctor_from(self.ctors@, name@, 0) == first_ctor_from(
                    self.ctors@,
                    name@,
                    i as int,
                ),
            decreases n - i,
        {
            if str_eq(self.ctors[i].class_name.as_str(), name) {
                return Some(self.ctors[i].handle);
            }
            i += 1;
        }
        None
    }

    /// The "get method binding by class-and-method name" capability.
    pub fn lookup_method(&self, class_name: &str, method_name: &str) -> (r: Option<u64>)
        ensures
            r == spec_lookup_method(self.methods@, class_name@, method_name@),
    {
        let n = self.methods.len();
        let mut i: usize = 0;
        while i < n
            invariant
                n == self.methods@.len(),
                i <= n,
                first_method_from(self.methods@, class_name@, method_name@, 0)
                    == first_method_from(self.methods@, class_name@, method_name@, i as int),
            decreases n - i,
        {
            if str_eq(self.methods[i].class_name.as_str(), class_name) && str_eq(
                self.methods[i].method_name.as_str(),
                method_name,
            ) {
                return Some(self.methods[i].handle);
            }
            i += 1;
        }
        None
    }
}

/// One slot of a method table: the method's name and the resolved raw
/// binding, or `None` when the host did not resolve it. Invoking an
/// unresolved slot is a contract violation at the call site, never detected
/// here.
pub struct TableSlot {
    pub method_name: String,
    pub binding: Option<u64>,
}

/// The method table of one class: a constructor slot plus one slot per
/// eligible method, resolved once at registry construction.
pub struct MethodTable {
    pub class_name: String,
    pub class_constructor: Option<u64>,
    pub slots: Vec<TableSlot>,
}

/// The names of the table slots of a class: exactly its eligible methods,
/// in declaration order. A method skipped as lifecycle or unmappable has no
/// slot at all, not a reachable-but-null gap.
pub open spec fn spec_table_slot_names(ms: Seq<GodotMethod>, i: int) -> Seq<Seq<char>>
    decreases ms.len() - i,
{
    if i < 0 || i >= ms.len() {
        Seq::<Seq<char>>::empty()
    } else {
        (if spec_method_eligible(ms[i]) {
            seq![spec_method_name(ms[i])]
        } else {
            Seq::<Seq<char>>::empty()
        }) + spec_table_slot_names(ms, i + 1)
    }
}

/// The table a class gets: its name, the host's constructor answer, and
/// one resolved slot per eligible method.
pub open spec fn wf_table_for(t: MethodTable, c: GodotClass, host: HostBindings) -> bool {
    &&& t.class_name@ == c.name@
    &&& t.class_constructor == spec_lookup_ctor(host.ctors@, c.name@)
    &&& slot_names(t.slots@) == spec_table_slot_names(c.methods@, 0)
    &&& forall|k: int|
        0 <= k < t.slots@.len() ==> (#[trigger] t.slots@[k]).binding == spec_lookup_method(
            host.methods@,
            c.name@,
            t.slots@[k].method_name@,
        )
}

/// The registry: one method table per catalogue class, constructed once at
/// plugin-load time and threaded explicitly into every accessor; the sole
/// process-wide state of the generated runtime surface.
pub struct TableRegistry {
    pub tables: Vec<MethodTable>,
}

/// The slot names of a table, in slot order.
pub open spec fn slot_names(slots: Seq<TableSlot>) -> Seq<Seq<char>> {
    Seq::new(slots.len(), |k: int| slots[k].method_name@)
}

/// A registry is well-formed for a catalogue and a set of host answers
/// when it holds exactly one table per class, in catalogue order, each
/// fully resolved from the host answers.
pub open spec fn wf_registry(r: TableRegistry, cs: Seq<GodotClass>, host: HostBindings) -> bool {
    &&& r.tables@.len() == cs.len()
    &&& forall|i: int| 0 <= i < cs.len() ==> wf_table_for(#[trigger] r.tables@[i], cs[i], host)
}

fn build_table(class: &GodotClass, host: &HostBindings) -> (t: MethodTable)
    ensures
        wf_table_for(t, *class, *host),
{
    let class_constructor = host.lookup_ctor(class.name.as_str());
    let mut slots: Vec<TableSlot> = Vec::new();
    let n = class.methods.len();
    let mut i: usize = 0;
    while i < n
        invariant
            n == class.methods@.len(),
            i <= n,
            spec_table_slot_names(class.methods@, 0) == slot_names(slots@)
                + spec_table_slot_names(class.methods@, i as int),
            forall|k: int|
                0 <= k < slots@.len() ==> (#[trigger] slots@[k]).binding == spec_lookup_method(
                    host.methods@,
                    class.name@,
                    slots@[k].method_name@,
                ),
        decreases n - i,
    {
        let ghost before = slot_names(slots@);
        let method = &class.methods[i];
        if crate::methods::is_method_eligible(method) {
            let method_name = method.get_name();
            let binding = host.lookup_method(class.name.as_str(), method_name.as_str());
            slots.push(TableSlot { method_name, binding });
            assert(slot_names(slots@) =~= before + seq![spec_method_name(
                class.methods@[i as int],
            )]);
        }
        assert(before + spec_table_slot_names(class.methods@, i as int) =~= slot_names(slots@)
            + spec_table_slot_names(class.methods@, i + 1));
        i += 1;
    }
    assert(slot_names(slots@) + spec_table_slot_names(class.methods@, n as int)
        =~= slot_names(slots@));
    MethodTable { class_name: class.name.clone(), class_constructor, slots }
}

impl TableRegistry {
    /// Builds the registry: resolves every class's table exactly once.
    /// This is the runtime counterpart of the generated one-time
    /// initializers, scoped to an explicit registry instead of ambient
    /// globals.
    pub fn build(classes: &Vec<GodotClass>, host: &HostBindings) -> (r: TableRegistry)
        ensures
            wf_registry(r, classes@, *host),
    {
        let mut tables: Vec<MethodTable> = Vec::new();
        let n = classes.len();
        let mut i: usize = 0;
        while i < n
            invariant
                n == classes@.len(),
                i <= n,
                tables@.len() == i,
                forall|j: int|
                    0 <= j < i ==> wf_table_for(#[trigger] tables@[j], classes@[j], *host),
            decreases n - i,
        {
            let t = build_table(&classes[i], host);
            tables.push(t);
            i += 1;
        }
        TableRegistry { tables }
    }

    /// The accessor of a class's table: a pure lookup of the immutable
    /// registry, returning the one table built for the first class of that
    /// name. Repeated calls return the identical table.
    pub fn get_table(&self, class_name: &str) -> (r: Option<&MethodTable>)
        ensures
            (r is Some) == (exists|i: int|
                0 <= i < self.tables@.len() && (#[trigger] self.tables@[i]).class_name@
                    == class_name@),
            r matches Some(t) ==> exists|i: int|
                {
                    &&& 0 <= i < self.tables@.len()
                    &&& *t == (#[trigger] self.tables@[i])
                    &&& t.class_name@ == class_name@
                    &&& forall|j: int|
                        0 <= j < i ==> (#[trigger] self.tables@[j]).class_name@ != class_name@
                },
    {
        let n = self.tables.len();
        let mut i: usize = 0;
        while i < n
            invariant
                n == self.tables@.len(),
                i <= n,
                forall|j: int|
                    0 <= j < i ==> (#[trigger] self.tables@[j]).class_name@ != class_name@,
            decreases n - i,
        {
            if str_eq(self.tables[i].class_name.as_str(), class_name) {
                return Some(&self.tables[i]);
            }
            i += 1;
        }
        None
    }
}

/// A class's method names are distinct, under the emitted-name mapping.
pub open spec fn wf_class_method_names(c: GodotClass) -> bool {
    forall|j: int, k: int|
        0 <= j < k < c.methods@.len() ==> spec_method_name(#[trigger] c.methods@[j])
            != spec_method_name(#[trigger] c.methods@[k])
}

proof fn lemma_slot_names_from(ms: Seq<GodotMethod>, i: int, nm: Seq<char>)
    requires
        0 <= i <= ms.len(),
        forall|j: int|
            i <= j < ms.len() ==> spec_method_name(#[trigger] ms[j]) != nm,
    ensures
        !spec_table_slot_names(ms, i).contains(nm),
    decreases ms.len() - i,
{
    if i < ms.len() {
        lemma_slot_names_from(ms, i + 1, nm);
        assert forall|k: int|
            0 <= k < spec_table_slot_names(ms, i).len() implies spec_table_slot_names(ms, i)[k]
            != nm by {
            if spec_method_eligible(ms[i]) {
                if k == 0 {
                } else {
                    assert(spec_table_slot_names(ms, i)[k] == spec_table_slot_names(ms, i + 1)[k
                        - 1]);
                }
            } else {
                assert(spec_table_slot_names(ms, i)[k] == spec_table_slot_names(ms, i + 1)[k]);
            }
        }
    }
}

/// Law: a method skipped because it is a lifecycle primitive or because an
/// argument or return type is unmappable gets no wrapper (only a marker or
/// nothing is emitted in its place) and no slot in the class's method
/// table: the slot is excluded from the struct, never left as a
/// reachable-but-null gap.
pub proof fn lemma_skipped_method_excluded(c: GodotClass, k: int)
    requires
        0 <= k < c.methods@.len(),
        !spec_method_eligible(c.methods@[k]),
        wf_class_method_names(c),
    ensures
        !spec_table_slot_names(c.methods@, 0).contains(spec_method_name(c.methods@[k])),
        crate::methods::method_impl_text(c, c.methods@[k]) == Seq::<char>::empty()
            || crate::methods::method_impl_text(c, c.methods@[k]) == crate::methods::todo_marker(
            c.methods@[k],
        ),
{
    let nm = spec_method_name(c.methods@[k]);
    assert forall|j: int|
        0 <= j < c.methods@.len() && spec_method_name(#[trigger] c.methods@[j]) == nm implies j
        == k by {
        if j < k {
            assert(spec_method_name(c.methods@[j]) != spec_method_name(c.methods@[k]));
        } else if j > k {
            assert(spec_method_name(c.methods@[k]) != spec_method_name(c.methods@[j]));
        }
    }
    lemma_slot_names_from_eligible(c.methods@, 0, nm, k);
}

proof fn lemma_slot_names_from_eligible(ms: Seq<GodotMethod>, i: int, nm: Seq<char>, k: int)
    requires
        0 <= i <= ms.len(),
        0 <= k < ms.len(),
        !spec_method_eligible(ms[k]),
        forall|j: int|
            0 <= j < ms.len() && spec_method_name(#[trigger] ms[j]) == nm ==> j == k,
        spec_method_name(ms[k]) == nm,
    ensures
        !spec_table_slot_names(ms, i).contains(nm),
    decreases ms.len() - i,
{
    if i < ms.len() {
        lemma_slot_names_from_eligible(ms, i + 1, nm, k);
        assert forall|p: int|
            0 <= p < spec_table_slot_names(ms, i).len() implies spec_table_slot_names(ms, i)[p]
            != nm by {
            if spec_method_eligible(ms[i]) {
                if p == 0 {
                    assert(spec_table_slot_names(ms, i)[0] == spec_method_name(ms[i]));
                    if spec_method_name(ms[i]) == nm {
                        assert(i == k);
                        assert(false);
                    }
                } else {
                    assert(spec_table_slot_names(ms, i)[p] == spec_table_slot_names(ms, i + 1)[p
                        - 1]);
                }
            } else {
                assert(spec_table_slot_names(ms, i)[p] == spec_table_slot_names(ms, i + 1)[p]);
            }
        }
    }
}

/// Law: for a catalogue with distinct class names, the registry holds
/// exactly one method-table instance per class, and the accessor always
/// resolves a class name to that one instance, so repeated accessor calls
/// return the identical table.
pub proof fn lemma_one_table_per_class(
    r: TableRegistry,
    cs: Seq<GodotClass>,
    host: HostBindings,
    i: int,
)
    requires
        wf_registry(r, cs, host),
        0 <= i < cs.len(),
        forall|j: int, k: int|
            0 <= j < k < cs.len() ==> (#[trigger] cs[j]).name@ != (#[trigger] cs[k]).name@,
    ensures
        r.tables@.len() == cs.len(),
        r.tables@[i].class_name@ == cs[i].name@,
        forall|j: int|
            0 <= j < r.tables@.len() && j != i ==> (#[trigger] r.tables@[j]).class_name@
                != cs[i].name@,
{
    assert forall|j: int|
        0 <= j < r.tables@.len() && j != i implies (#[trigger] r.tables@[j]).class_name@
        != cs[i].name@ by {
        assert(wf_table_for(r.tables@[j], cs[j], host));
        if j < i {
            assert(cs[j].name@ != cs[i].name@);
        } else {
            assert(cs[i].name@ != cs[j].name@);
        }
    }
}

} // verus!
