//! Per tick cache of the line of sight checks a mob makes, so several goals asking about the
//! same target only pay for one raycast.
use vstd::prelude::*;

use rustc_hash::FxHashSet;

use crate::entity::EntityId;

verus! {

#[verifier::external_type_specification]
#[verifier::external_body]
pub struct ExFxBuildHasher(rustc_hash::FxBuildHasher);

/// `FxHashSet::contains` on an `FxHashSet<i32>`: the std set lookup with rustc-hash's
/// deterministic `FxBuildHasher`, so the answer is whether the set holds `id`.
#[verifier::external_body]
fn fx_contains(set: &FxHashSet<EntityId>, id: EntityId) -> (r: bool)
    ensures
        r == set@.contains(id),
{
    set.contains(&id)
}

/// `FxHashSet::insert` on an `FxHashSet<i32>`: with rustc-hash's deterministic
/// `FxBuildHasher`, the set afterwards holds `id` besides what it held.
#[verifier::external_body]
fn fx_insert(set: &mut FxHashSet<EntityId>, id: EntityId)
    ensures
        final(set)@ == old(set)@.insert(id),
{
    set.insert(id);
}

pub struct Sensing {
    seen: FxHashSet<EntityId>,
    unseen: FxHashSet<EntityId>,
}

/// The ids seen and not seen this tick.
pub struct SensingView {
    pub seen: Set<EntityId>,
    pub unseen: Set<EntityId>,
}

impl SensingView {
    /// The cached answer for `id`, if it was asked about this tick.
    pub open spec fn cached(self, id: EntityId) -> Option<bool> {
        if self.seen.contains(id) {
            Some(true)
        } else if self.unseen.contains(id) {
            Some(false)
        } else {
            None
        }
    }

    /// The cache after a raycast for `id` answered `visible`.
    pub open spec fn record(self, id: EntityId, visible: bool) -> SensingView {
        if visible {
            SensingView { seen: self.seen.insert(id), unseen: self.unseen }
        } else {
            SensingView { seen: self.seen, unseen: self.unseen.insert(id) }
        }
    }
}

impl View for Sensing {
    type V = SensingView;

    closed spec fn view(&self) -> SensingView {
        SensingView { seen: self.seen@, unseen: self.unseen@ }
    }
}

impl Default for Sensing {
    fn default() -> (r: Self)
        ensures
            r@.seen == Set::<EntityId>::empty(),
            r@.unseen == Set::<EntityId>::empty(),
    {
        Sensing { seen: FxHashSet::default(), unseen: FxHashSet::default() }
    }
}

impl Sensing {
    /// No id is cached as both seen and unseen.
    #[verifier::type_invariant]
    spec fn answers_agree(self) -> bool {
        self.seen@.disjoint(self.unseen@)
    }

    /// Forgets this tick's answers.
    pub fn tick(&mut self)
        ensures
            final(self)@.seen == Set::<EntityId>::empty(),
            final(self)@.unseen == Set::<EntityId>::empty(),
    {
        let mut cache = Sensing { seen: FxHashSet::default(), unseen: FxHashSet::default() };
        std::mem::swap(self, &mut cache);
        let Sensing { mut seen, mut unseen } = cache;
        seen.clear();
        unseen.clear();
        *self = Sensing { seen, unseen };
    }

    /// Whether the mob sees `target_id`: the cached answer when there is one, else the answer of
    /// `raycast`, which is then cached.
    pub fn has_line_of_sight<F: FnOnce() -> bool>(&mut self, target_id: EntityId, raycast: F) -> (r: bool)
        requires
            raycast.requires(()),
        ensures
            old(self)@.cached(target_id) is Some ==> r == old(self)@.cached(target_id).unwrap()
                && final(self)@ == old(self)@,
            old(self)@.cached(target_id) is None ==> raycast.ensures((), r) && final(self)@
                == old(self)@.record(target_id, r),
            final(self)@.seen.disjoint(final(self)@.unseen),
    {
        proof {
            use_type_invariant(&*self);
        }
        if fx_contains(&self.seen, target_id) {
            return true;
        }
        if fx_contains(&self.unseen, target_id) {
            return false;
        }
        let visible = raycast();
        let mut cache = Sensing { seen: FxHashSet::default(), unseen: FxHashSet::default() };
        std::mem::swap(self, &mut cache);
        let Sensing { mut seen, mut unseen } = cache;
        if visible {
            fx_insert(&mut seen, target_id);
        } else {
            fx_insert(&mut unseen, target_id);
        }
        *self = Sensing { seen, unseen };
        visible
    }
}

/// Asking again in the same tick gives the same answer, from the cache: after any check of
/// `id`, the cache answers for it with what the check returned.
pub proof fn lemma_answer_is_cached(v: SensingView, id: EntityId, visible: bool)
    requires
        v.cached(id) is None,
    ensures
        v.record(id, visible).cached(id) == Some(visible),
        forall|other: EntityId| other != id ==> v.record(id, visible).cached(other) == v.cached(other),
{
}

} // verus!
