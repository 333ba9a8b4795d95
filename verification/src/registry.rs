//! The dispatch-table registry.
//!
//! A dispatch table is a fixed, process-lifetime table of entries
//! implementing one abstract interface for one concrete type; here it is
//! modelled by what the wire protocol reads of it: its address, the
//! fingerprints of its interface and concrete type, and the byte layout of
//! the concrete payload.  The registry stands for the set of tables compiled
//! into the binary.  Entry 0 is the anchor table: an arbitrarily chosen,
//! always-present table used purely as the origin of relative addressing.
//!
//! Addresses are synthetic: table `i` lives at `base + i * TABLE_STRIDE`,
//! where `base` is the load address of the invocation.  Two invocations of
//! the same binary hold the same tables in the same order, possibly at a
//! different `base` — exactly the situation relative references exist for.

use vstd::prelude::*;

verus! {

/// Distance between consecutive dispatch tables in a loaded image.
pub const TABLE_STRIDE: u64 = 64;

/// What the wire protocol reads of one dispatch table.
#[derive(Clone, Copy, PartialEq, Eq, Structural, Debug)]
pub struct DispatchTable {
    /// Address of this table in the running invocation.
    pub addr: u64,
    /// Fingerprint of the abstract interface the table implements.
    pub interface: u64,
    /// Fingerprint of the concrete type the table dispatches to.
    pub concrete: u64,
    /// Byte size of the concrete type's payload slot.
    pub layout: usize,
}

/// The dispatch tables of one invocation, anchor first.
pub struct Registry {
    tables: Vec<DispatchTable>,
}

/// First match for `addr` in `tables`, scanning from the front.
pub open spec fn spec_find(tables: Seq<DispatchTable>, addr: u64) -> Option<DispatchTable>
    decreases tables.len(),
{
    if tables.len() == 0 {
        None
    } else if tables[0].addr == addr {
        Some(tables[0])
    } else {
        spec_find(tables.drop_first(), addr)
    }
}

/// Two table sequences describe the same binary: same tables in the same
/// order, up to where the invocation loaded them.
pub open spec fn same_binary_layout(a: Seq<DispatchTable>, b: Seq<DispatchTable>) -> bool {
    &&& a.len() == b.len()
    &&& forall|i: int|
        0 <= i < a.len() ==> {
            &&& (#[trigger] a[i]).interface == b[i].interface
            &&& a[i].concrete == b[i].concrete
            &&& a[i].layout == b[i].layout
        }
}

/// Well-formed table block of one invocation: the anchor is present and
/// table `i` lies at `anchor + i * TABLE_STRIDE`, all within the address
/// space.
pub open spec fn tables_wf(tables: Seq<DispatchTable>) -> bool {
    &&& 1 <= tables.len()
    &&& tables[0].addr + TABLE_STRIDE * (tables.len() - 1) <= u64::MAX
    &&& forall|i: int|
        0 <= i < tables.len() ==> (#[trigger] tables[i]).addr == tables[0].addr + TABLE_STRIDE * i
}

impl View for Registry {
    type V = Seq<DispatchTable>;

    closed spec fn view(&self) -> Seq<DispatchTable> {
        self.tables@
    }
}

impl Registry {
    /// Address of the anchor table of this invocation.
    pub open spec fn anchor_addr(self) -> u64 {
        self@[0].addr
    }

    /// Well-formed: the registry's tables form a well-formed table block.
    pub open spec fn wf(self) -> bool {
        tables_wf(self@)
    }

    /// Creates the registry of an invocation loaded at `base`, holding only
    /// the anchor table.  The anchor implements no interface; it exists as
    /// the fixed point relative references are measured from.
    pub fn new(base: u64) -> (r: Registry)
        ensures
            r.wf(),
            r@.len() == 1,
            r@[0] == (DispatchTable { addr: base, interface: 0, concrete: 0, layout: 0 }),
    {
        let anchor = DispatchTable { addr: base, interface: 0, concrete: 0, layout: 0 };
        let mut tables: Vec<DispatchTable> = Vec::new();
        tables.push(anchor);
        Registry { tables }
    }

    /// Registers the dispatch table of one (concrete type, interface) pair,
    /// returning its address.  Returns `None` exactly when the next table
    /// would fall outside the address space.
    pub fn register(&mut self, interface: u64, concrete: u64, layout: usize) -> (r: Option<u64>)
        requires
            old(self).wf(),
        ensures
            final(self).wf(),
            match r {
                Some(addr) => {
                    &&& addr == old(self).anchor_addr() + TABLE_STRIDE * old(self)@.len()
                    &&& final(self)@ == old(self)@.push(
                        DispatchTable { addr, interface, concrete, layout },
                    )
                },
                None => {
                    &&& final(self)@ == old(self)@
                    &&& old(self).anchor_addr() + TABLE_STRIDE * old(self)@.len() > u64::MAX
                },
            },
    {
        let idx = self.tables.len() as u64;
        let base = self.tables[0].addr;
        match TABLE_STRIDE.checked_mul(idx) {
            None => None,
            Some(delta) => match base.checked_add(delta) {
                None => None,
                Some(addr) => {
                    self.tables.push(DispatchTable { addr, interface, concrete, layout });
                    Some(addr)
                },
            },
        }
    }

    /// Number of tables, the anchor included.
    pub fn len(&self) -> (n: usize)
        ensures
            n == self@.len(),
    {
        self.tables.len()
    }

    /// The anchor table's address in this invocation.
    pub fn anchor(&self) -> (a: u64)
        requires
            self.wf(),
        ensures
            a == self.anchor_addr(),
    {
        self.tables[0].addr
    }

    /// Looks a raw address up among the registered tables.
    ///
    /// `None` means the address belongs to no table of this invocation — a
    /// relative reference from an incompatible source resolves to nothing.
    pub fn resolve(&self, addr: u64) -> (r: Option<DispatchTable>)
        ensures
            r == spec_find(self@, addr),
    {
        let ghost all = self@;
        let mut i: usize = 0;
        proof {
            assert(all.skip(0) =~= all);
        }
        while i < self.tables.len()
            invariant
                i <= all.len(),
                all == self@,
                spec_find(all, addr) == spec_find(all.skip(i as int), addr),
                forall|j: int| 0 <= j < i ==> (#[trigger] all[j]).addr != addr,
            decreases all.len() - i,
        {
            proof {
                assert(all.skip(i as int).drop_first() =~= all.skip(i as int + 1));
            }
            if self.tables[i].addr == addr {
                return Some(self.tables[i]);
            }
            i = i + 1;
        }
        proof {
            assert(all.skip(all.len() as int) =~= Seq::<DispatchTable>::empty());
        }
        None
    }
}

/// In a well-formed table block, every registered address resolves to
/// exactly the table registered at it.
pub proof fn lemma_find_in_registry(tables: Seq<DispatchTable>, i: int)
    requires
        tables_wf(tables),
        0 <= i < tables.len(),
    ensures
        spec_find(tables, tables[i].addr) == Some(tables[i]),
{
    lemma_find_prefix_distinct(tables, tables[0].addr, i);
}

/// Helper for `lemma_find_in_registry`: in a stride-addressed table
/// sequence, scanning finds index `i` by its address.
proof fn lemma_find_prefix_distinct(tables: Seq<DispatchTable>, base: u64, i: int)
    requires
        0 <= i < tables.len(),
        base + TABLE_STRIDE * (tables.len() - 1) <= u64::MAX,
        forall|j: int|
            0 <= j < tables.len() ==> (#[trigger] tables[j]).addr == base + TABLE_STRIDE * j,
    ensures
        spec_find(tables, tables[i].addr) == Some(tables[i]),
    decreases tables.len(),
{
    if i > 0 {
        let rest = tables.drop_first();
        assert(tables[0].addr == base);
        assert(tables[i].addr == base + TABLE_STRIDE * i);
        assert(TABLE_STRIDE * i >= TABLE_STRIDE * 1) by (nonlinear_arith)
            requires
                i >= 1,
        ;
        assert(tables[i].addr != tables[0].addr);
        assert forall|j: int| 0 <= j < rest.len() implies (#[trigger] rest[j]).addr == (base
            + TABLE_STRIDE) + TABLE_STRIDE * j by {
            assert(rest[j] == tables[j + 1]);
            assert(tables[j + 1].addr == base + TABLE_STRIDE * (j + 1));
            assert(TABLE_STRIDE * (j + 1) == TABLE_STRIDE * j + TABLE_STRIDE) by (nonlinear_arith);
        }
        assert((base + TABLE_STRIDE) + TABLE_STRIDE * (rest.len() - 1) <= u64::MAX) by {
            assert(TABLE_STRIDE * (tables.len() - 1) == TABLE_STRIDE * (rest.len() - 1)
                + TABLE_STRIDE) by (nonlinear_arith)
                requires
                    tables.len() == rest.len() + 1,
                    rest.len() >= 1,
            ;
        }
        lemma_find_prefix_distinct(rest, (base + TABLE_STRIDE) as u64, i - 1);
        assert(rest[i - 1] == tables[i]);
    }
}

} // verus!
