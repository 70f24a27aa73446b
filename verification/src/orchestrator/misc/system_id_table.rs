use vstd::prelude::*;

use crate::orchestrator::domain::SystemID;

verus! {

broadcast use vstd::std_specs::hash::group_hash_axioms;

/// `id` is the smallest system id in 1..=255 that `used` does not hold.
pub open spec fn is_lowest_free_id(used: Set<SystemID>, id: SystemID) -> bool {
    &&& 1 <= id
    &&& !used.contains(id)
    &&& forall|k: SystemID| 1 <= k < id ==> used.contains(k)
}

/// Every system id that can be handed to an agent (1..=255) is in use.
pub open spec fn all_ids_used(used: Set<SystemID>) -> bool {
    forall|k: SystemID| 1 <= k ==> used.contains(k)
}

/// Giving back the id that was just handed out restores the table.
pub proof fn lemma_release_undoes_allocate(before: Set<SystemID>, id: SystemID)
    requires
        is_lowest_free_id(before, id),
    ensures
        before.insert(id).remove(id) == before,
{
    assert(before.insert(id).remove(id) =~= before);
}

/// With no release in between, successive allocations hand out strictly
/// increasing, hence distinct, ids.
pub proof fn lemma_allocations_increase(before: Set<SystemID>, first: SystemID, second: SystemID)
    requires
        is_lowest_free_id(before, first),
        is_lowest_free_id(before.insert(first), second),
    ensures
        first < second,
{
    if second < first {
        assert(before.contains(second));
    }
}

/// There is at most one lowest free id.
pub proof fn lemma_lowest_free_id_unique(used: Set<SystemID>, a: SystemID, b: SystemID)
    requires
        is_lowest_free_id(used, a),
        is_lowest_free_id(used, b),
    ensures
        a == b,
{
}

/// A set of system ids that leaves out the ground control station's id 0
/// is finite and holds at most 255 ids.
pub proof fn lemma_ids_in_use_bounded(used: Set<SystemID>)
    requires
        !used.contains(0),
    ensures
        used.finite(),
        used.len() <= 255,
{
    let range = vstd::set_lib::set_int_range(1, 256);
    vstd::set_lib::lemma_int_range(1, 256);
    let to_id = |i: int| i as SystemID;
    let assignable = range.map(to_id);
    vstd::set_lib::lemma_map_size_bound(range, assignable, to_id);
    assert forall|k: SystemID| used.contains(k) implies assignable.contains(k) by {
        assert(range.contains(k as int));
        assert(to_id(k as int) == k);
    }
    assert(used.subset_of(assignable));
    vstd::set_lib::lemma_set_subset_finite(assignable, used);
    vstd::set_lib::lemma_len_subset(used, assignable);
}

/// The MAVLink system ids handed out to connected agents. System id 0 is the
/// ground control station and is never handed out.
pub struct SystemIdTable {
    used_ids: std::collections::HashSet<SystemID>,
}

impl View for SystemIdTable {
    type V = Set<SystemID>;

    closed spec fn view(&self) -> Set<SystemID> {
        self.used_ids@
    }
}

impl SystemIdTable {
    #[verifier::type_invariant]
    closed spec fn never_holds_gcs_id(self) -> bool {
        !self.used_ids@.contains(0)
    }

    pub fn new() -> (table: Self)
        ensures
            table@ == Set::<SystemID>::empty(),
    {
        SystemIdTable { used_ids: std::collections::HashSet::new() }
    }

    /// Number of system ids in use; never more than the 255 assignable ids.
    pub fn count(&self) -> (n: usize)
        ensures
            self@.finite(),
            n == self@.len(),
            n <= 255,
            !self@.contains(0),
    {
        proof {
            use_type_invariant(self);
            lemma_ids_in_use_bounded(self@);
        }
        self.used_ids.len()
    }

    /// Hands out the lowest free system id in 1..=255, or `None` when all of
    /// them are in use.
    pub fn allocate(&mut self) -> (assigned: Option<SystemID>)
        ensures
            match assigned {
                Some(id) => {
                    &&& is_lowest_free_id(old(self)@, id)
                    &&& final(self)@ == old(self)@.insert(id)
                },
                None => {
                    &&& all_ids_used(old(self)@)
                    &&& final(self)@ == old(self)@
                },
            },
    {
        proof {
            use_type_invariant(&*self);
        }
        let mut id: u16 = 1;
        while id <= 255
            invariant
                1 <= id <= 256,
                self@ == old(self)@,
                !self@.contains(0),
                forall|k: SystemID| 1 <= k < id ==> self@.contains(k),
            decreases 256 - id,
        {
            let candidate = id as u8;
            if !self.used_ids.contains(&candidate) {
                let mut used = std::collections::HashSet::new();
                std::mem::swap(&mut used, &mut self.used_ids);
                used.insert(candidate);
                self.used_ids = used;
                return Some(candidate);
            }
            id = id + 1;
        }
        None
    }

    /// Gives a system id back; releasing an id that is not in use changes nothing.
    pub fn release(&mut self, id: SystemID)
        ensures
            final(self)@ == old(self)@.remove(id),
    {
        proof {
            use_type_invariant(&*self);
        }
        let mut used = std::collections::HashSet::new();
        std::mem::swap(&mut used, &mut self.used_ids);
        used.remove(&id);
        self.used_ids = used;
    }
}

impl Default for SystemIdTable {
    fn default() -> (table: Self)
        ensures
            table@ == Set::<SystemID>::empty(),
    {
        Self::new()
    }
}

} // verus!
