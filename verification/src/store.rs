//! The entity store: assigns identifiers, finds entities by identifier and
//! removes the dead ones at one fixed point of a tick.

use vstd::prelude::*;
use crate::entity::EntityType;
use crate::entity::WebEntity;
use crate::entity::WebHealth;
use crate::entity::WebPhysics;

verus! {

/// Why a lookup gave no entity.
#[derive(Clone, Copy, Debug, PartialEq, Eq, Structural)]
pub enum StoreError {
    /// No entity of the store has the identifier asked for.
    NotFound,
}

/// Entities in order of creation, with the identifier the next one will get.
#[derive(Debug)]
pub struct EntityStore {
    pub entities: Vec<WebEntity>,
    pub next_entity_id: u32,
}

/// Identifiers grow strictly along the sequence.
pub open spec fn ids_increasing(s: Seq<WebEntity>) -> bool {
    forall|i: int, j: int| 0 <= i < j < s.len() ==> s[i].id < s[j].id
}

/// Whether some entity of `s` has identifier `id`.
pub open spec fn has_id(s: Seq<WebEntity>, id: u32) -> bool {
    exists|i: int| 0 <= i < s.len() && #[trigger] s[i].id == id
}

/// The entities of `s` that are alive, in their order.
pub open spec fn survivors(s: Seq<WebEntity>) -> Seq<WebEntity>
    decreases s.len(),
{
    if s.len() == 0 {
        Seq::empty()
    } else if s.last().alive() {
        survivors(s.drop_last()).push(s.last())
    } else {
        survivors(s.drop_last())
    }
}

/// The identifiers of the entities of `s` that are not alive, in their order.
pub open spec fn casualties(s: Seq<WebEntity>) -> Seq<u32>
    decreases s.len(),
{
    if s.len() == 0 {
        Seq::empty()
    } else if s.last().alive() {
        casualties(s.drop_last())
    } else {
        casualties(s.drop_last()).push(s.last().id)
    }
}

/// The identifiers of the active entities of `s`, in their order.
pub open spec fn active_ids_of(s: Seq<WebEntity>) -> Seq<u32>
    decreases s.len(),
{
    if s.len() == 0 {
        Seq::empty()
    } else if s.last().active {
        active_ids_of(s.drop_last()).push(s.last().id)
    } else {
        active_ids_of(s.drop_last())
    }
}

/// Every entity of `s` after `delta_us` microseconds of its own update.
pub open spec fn all_updated(s: Seq<WebEntity>, delta_us: u64) -> Seq<WebEntity> {
    Seq::new(s.len(), |i: int| s[i].updated(delta_us))
}

/// How often `id` occurs in `ids`.
pub open spec fn occurrences(ids: Seq<u32>, id: u32) -> nat
    decreases ids.len(),
{
    if ids.len() == 0 {
        0
    } else {
        occurrences(ids.drop_last(), id) + if ids.last() == id { 1nat } else { 0nat }
    }
}

/// The survivors are exactly the alive members of the sequence given, still
/// in increasing order of identifier.
pub proof fn lemma_survivors(s: Seq<WebEntity>)
    requires
        ids_increasing(s),
    ensures
        survivors(s).len() <= s.len(),
        ids_increasing(survivors(s)),
        forall|j: int|
            0 <= j < survivors(s).len() ==> (#[trigger] survivors(s)[j]).alive() && s.contains(
                survivors(s)[j],
            ),
        forall|i: int| 0 <= i < s.len() && s[i].alive() ==> survivors(s).contains(#[trigger] s[i]),
    decreases s.len(),
{
    if s.len() > 0 {
        let front = s.drop_last();
        lemma_survivors(front);
        let kept = survivors(front);
        assert forall|j: int| 0 <= j < kept.len() implies s.contains(#[trigger] kept[j]) && kept[j].id
            < s.last().id by {
            let k = choose|k: int| 0 <= k < front.len() && front[k] == kept[j];
            assert(s[k] == kept[j]);
        }
        if s.last().alive() {
            let all = survivors(s);
            assert(all == kept.push(s.last()));
            assert(s[s.len() - 1] == s.last());
            assert forall|j: int| 0 <= j < all.len() implies (#[trigger] all[j]).alive()
                && s.contains(all[j]) by {
                if j < kept.len() {
                    assert(all[j] == kept[j]);
                }
            }
            assert forall|i: int| 0 <= i < s.len() && s[i].alive() implies all.contains(
                #[trigger] s[i],
            ) by {
                if i < front.len() {
                    assert(front[i] == s[i]);
                    let k = choose|k: int| 0 <= k < kept.len() && kept[k] == front[i];
                    assert(all[k] == s[i]);
                } else {
                    assert(all[all.len() - 1] == s[i]);
                }
            }
        } else {
            assert forall|i: int| 0 <= i < s.len() && s[i].alive() implies survivors(s).contains(
                #[trigger] s[i],
            ) by {
                assert(front[i] == s[i]);
            }
        }
    }
}

/// A casualty's identifier belongs to an entity of the sequence given that is not alive.
pub proof fn lemma_casualties(s: Seq<WebEntity>)
    ensures
        casualties(s).len() <= s.len(),
        forall|j: int|
            0 <= j < casualties(s).len() ==> exists|i: int|
                0 <= i < s.len() && !s[i].alive() && s[i].id == #[trigger] casualties(s)[j],
    decreases s.len(),
{
    if s.len() > 0 {
        let front = s.drop_last();
        lemma_casualties(front);
        let gone = casualties(front);
        assert forall|j: int| 0 <= j < casualties(s).len() implies exists|i: int|
            0 <= i < s.len() && !s[i].alive() && s[i].id == #[trigger] casualties(s)[j] by {
            if j < gone.len() {
                let i = choose|i: int|
                    0 <= i < front.len() && !front[i].alive() && front[i].id == gone[j];
                assert(s[i] == front[i]);
            } else {
                assert(!s[s.len() - 1].alive());
            }
        }
    }
}

/// An identifier that no entity of `s` carries is not among the casualties.
pub proof fn lemma_absent_id_not_counted(s: Seq<WebEntity>, id: u32)
    requires
        !has_id(s, id),
    ensures
        occurrences(casualties(s), id) == 0,
    decreases s.len(),
{
    if s.len() > 0 {
        let front = s.drop_last();
        assert forall|i: int| 0 <= i < front.len() implies #[trigger] front[i].id != id by {
            assert(s[i].id == front[i].id);
        }
        lemma_absent_id_not_counted(front, id);
        assert(s[s.len() - 1].id != id);
        if !s.last().alive() {
            assert(casualties(s).drop_last() =~= casualties(front));
        }
    }
}

/// An entity that is not alive at cleanup is gone from the store afterwards,
/// and its identifier is reported exactly once among the casualties.
pub proof fn lemma_dead_entity_removed_once(s: Seq<WebEntity>, k: int)
    requires
        ids_increasing(s),
        0 <= k < s.len(),
        !s[k].alive(),
    ensures
        !has_id(survivors(s), s[k].id),
        occurrences(casualties(s), s[k].id) == 1,
    decreases s.len(),
{
    let id = s[k].id;
    lemma_survivors(s);
    assert forall|j: int| 0 <= j < survivors(s).len() implies (#[trigger] survivors(s)[j]).id
        != id by {
        let e = survivors(s)[j];
        let i = choose|i: int| 0 <= i < s.len() && s[i] == e;
        if i < k {
        } else if i > k {
        }
    }
    let front = s.drop_last();
    if k == s.len() - 1 {
        assert forall|i: int| 0 <= i < front.len() implies #[trigger] front[i].id != id by {
            assert(front[i] == s[i]);
        }
        lemma_absent_id_not_counted(front, id);
        assert(casualties(s).drop_last() =~= casualties(front));
    } else {
        assert(front[k] == s[k]);
        assert(ids_increasing(front)) by {
            assert forall|i: int, j: int| 0 <= i < j < front.len() implies front[i].id
                < front[j].id by {
                assert(front[i] == s[i] && front[j] == s[j]);
            }
        }
        lemma_dead_entity_removed_once(front, k);
        assert(s.last().id != id);
        if !s.last().alive() {
            assert(casualties(s).drop_last() =~= casualties(front));
        }
    }
}

/// An entity whose health a change drives to zero or below is inactive and
/// not alive afterwards, with no health left.
pub proof fn lemma_exhausted_entity_dies(e: WebEntity, change: int)
    requires
        e.wf(),
        e.health is Some,
        e.health->0.current + change <= 0,
    ensures
        !e.with_health_change(change).active,
        !e.with_health_change(change).alive(),
        e.with_health_change(change).health->0.current == 0,
        e.with_health_change(change).id == e.id,
{
}

/// Health-driven removal: an entity whose health a change drives to zero or
/// below is inactive from then on, is gone from the store after the tick's
/// update and cleanup, and is reported exactly once among the casualties.
pub proof fn lemma_health_driven_removal(s: Seq<WebEntity>, k: int, change: int, delta_us: u64)
    requires
        ids_increasing(s),
        0 <= k < s.len(),
        s[k].wf(),
        s[k].health is Some,
        s[k].health->0.current + change <= 0,
    ensures
        ({
            let hurt = s.update(k, s[k].with_health_change(change));
            let ticked = all_updated(hurt, delta_us);
            &&& !hurt[k].active
            &&& !ticked[k].active
            &&& !has_id(survivors(ticked), s[k].id)
            &&& occurrences(casualties(ticked), s[k].id) == 1
        }),
{
    let hurt = s.update(k, s[k].with_health_change(change));
    let ticked = all_updated(hurt, delta_us);
    lemma_exhausted_entity_dies(s[k], change);
    assert(ticked[k] == hurt[k].updated(delta_us));
    assert forall|i: int, j: int| 0 <= i < j < ticked.len() implies ticked[i].id
        < ticked[j].id by {
        assert(ticked[i].id == hurt[i].id && ticked[j].id == hurt[j].id);
        assert(hurt[i].id == s[i].id && hurt[j].id == s[j].id);
    }
    lemma_dead_entity_removed_once(ticked, k);
}

/// The health pass changes no identifier.
pub proof fn lemma_update_keeps_ids(s: Seq<WebEntity>, delta_us: u64)
    requires
        ids_increasing(s),
    ensures
        ids_increasing(all_updated(s, delta_us)),
        forall|i: int| 0 <= i < s.len() ==> (#[trigger] all_updated(s, delta_us)[i]).id == s[i].id,
{
    let ticked = all_updated(s, delta_us);
    assert forall|i: int| 0 <= i < s.len() implies (#[trigger] ticked[i]).id == s[i].id by {
        assert(ticked[i] == s[i].updated(delta_us));
    }
    assert forall|i: int, j: int| 0 <= i < j < ticked.len() implies ticked[i].id
        < ticked[j].id by {
        assert(ticked[i].id == s[i].id && ticked[j].id == s[j].id);
    }
}

/// A tick removes the dead: an entity stored with no health left, its active
/// flag still set or not and whatever its regeneration, is gone after the
/// health pass and the cleanup, and reported exactly once; and every entity
/// that is stored afterwards is active with health left where it has health.
pub proof fn lemma_tick_removes_the_dead(s: Seq<WebEntity>, k: int, delta_us: u64)
    requires
        ids_increasing(s),
        0 <= k < s.len(),
        s[k].health is Some,
        s[k].health->0.current <= 0,
    ensures
        !has_id(survivors(all_updated(s, delta_us)), s[k].id),
        occurrences(casualties(all_updated(s, delta_us)), s[k].id) == 1,
        forall|j: int|
            0 <= j < survivors(all_updated(s, delta_us)).len() ==> (#[trigger] survivors(
                all_updated(s, delta_us),
            )[j]).alive(),
{
    let ticked = all_updated(s, delta_us);
    lemma_update_keeps_ids(s, delta_us);
    assert(ticked[k] == s[k].updated(delta_us));
    assert(!ticked[k].alive());
    lemma_dead_entity_removed_once(ticked, k);
    lemma_survivors(ticked);
}

/// A living entity is still in the store after cleanup, unchanged.
pub proof fn lemma_living_entity_kept(s: Seq<WebEntity>, k: int)
    requires
        ids_increasing(s),
        0 <= k < s.len(),
        s[k].alive(),
    ensures
        survivors(s).contains(s[k]),
{
    lemma_survivors(s);
}

impl EntityStore {
    /// Identifiers grow along the store and lie below the next one to be
    /// given, and every entity is well-formed.
    pub open spec fn wf(&self) -> bool {
        &&& self.next_entity_id >= 1
        &&& ids_increasing(self.entities@)
        &&& forall|i: int|
            0 <= i < self.entities.len() ==> (#[trigger] self.entities[i]).wf() && 1
                <= self.entities[i].id < self.next_entity_id
    }

    /// Checks at run time what `wf` states.
    pub fn is_valid(&self) -> (valid: bool)
        ensures
            valid == self.wf(),
    {
        if self.next_entity_id < 1 {
            return false;
        }
        let mut i: usize = 0;
        while i < self.entities.len()
            invariant
                i <= self.entities.len(),
                self.next_entity_id >= 1,
                ids_increasing(self.entities@.take(i as int)),
                forall|k: int|
                    0 <= k < i ==> (#[trigger] self.entities[k]).wf() && 1 <= self.entities[k].id
                        < self.next_entity_id,
            decreases self.entities.len() - i,
        {
            let e = &self.entities[i];
            let health_ok: bool = e.is_valid();
            let follows: bool = i == 0 || self.entities[i - 1].id < e.id;
            if !health_ok || e.id < 1 || e.id >= self.next_entity_id || !follows {
                proof {
                    if !follows {
                        assert(!(self.entities@[i - 1].id < self.entities@[i as int].id));
                    }
                }
                return false;
            }
            proof {
                let grown = self.entities@.take(i + 1);
                let known = self.entities@.take(i as int);
                assert forall|a: int, b: int| 0 <= a < b < grown.len() implies grown[a].id
                    < grown[b].id by {
                    if b < i {
                        assert(known[a].id < known[b].id);
                    } else if a < i - 1 {
                        assert(known[a].id < known[i - 1].id);
                    }
                }
            }
            i = i + 1;
        }
        assert(self.entities@.take(i as int) =~= self.entities@);
        true
    }

    /// An empty store whose first entity will get identifier 1.
    pub fn new() -> (store: Self)
        ensures
            store.wf(),
            store.entities@ == Seq::<WebEntity>::empty(),
            store.next_entity_id == 1,
    {
        EntityStore { entities: Vec::new(), next_entity_id: 1 }
    }

    /// Number of entities stored, active or not.
    pub fn len(&self) -> (n: usize)
        ensures
            n == self.entities.len(),
    {
        self.entities.len()
    }

    /// The factory: adds a fresh entity without capabilities and returns its
    /// identifier, which is greater than any given before. Nothing is added
    /// once the identifiers have run out.
    pub fn create_entity(&mut self, name: String, entity_type: EntityType, texture_id: u32) -> (id:
        Option<u32>)
        requires
            old(self).wf(),
        ensures
            final(self).wf(),
            id is Some <==> old(self).next_entity_id < u32::MAX,
            id matches Some(new_id) ==> {
                &&& new_id == old(self).next_entity_id
                &&& !has_id(old(self).entities@, new_id)
                &&& forall|i: int|
                    0 <= i < old(self).entities.len() ==> (#[trigger] old(self).entities[i]).id
                        < new_id
                &&& final(self).next_entity_id == new_id + 1
                &&& final(self).entities@ == old(self).entities@.push(
                    WebEntity {
                        id: new_id,
                        name,
                        entity_type,
                        texture_id,
                        active: true,
                        physics: None,
                        health: None,
                    },
                )
            },
            id is None ==> *final(self) == *old(self),
    {
        self.spawn(name, entity_type, texture_id, None, None)
    }

    /// Adds a fresh entity with the given capabilities already attached.
    /// Succeeds and fails as `create_entity` does.
    pub fn spawn(
        &mut self,
        name: String,
        entity_type: EntityType,
        texture_id: u32,
        physics: Option<WebPhysics>,
        health: Option<WebHealth>,
    ) -> (id: Option<u32>)
        requires
            old(self).wf(),
            health matches Some(h) ==> h.wf(),
        ensures
            final(self).wf(),
            id is Some <==> old(self).next_entity_id < u32::MAX,
            id matches Some(new_id) ==> {
                &&& new_id == old(self).next_entity_id
                &&& !has_id(old(self).entities@, new_id)
                &&& forall|i: int|
                    0 <= i < old(self).entities.len() ==> (#[trigger] old(self).entities[i]).id
                        < new_id
                &&& final(self).next_entity_id == new_id + 1
                &&& final(self).entities@ == old(self).entities@.push(
                    WebEntity {
                        id: new_id,
                        name,
                        entity_type,
                        texture_id,
                        active: true,
                        physics,
                        health,
                    },
                )
            },
            id is None ==> *final(self) == *old(self),
    {
        if self.next_entity_id == u32::MAX {
            return None;
        }
        let id: u32 = self.next_entity_id;
        self.next_entity_id = id + 1;
        self.entities.push(
            WebEntity { id, name, entity_type, texture_id, active: true, physics, health },
        );
        Some(id)
    }

    /// Position of the entity with identifier `id`, if the store holds it.
    pub fn find(&self, id: u32) -> (at: Option<usize>)
        requires
            self.wf(),
        ensures
            at matches Some(i) ==> i < self.entities.len() && self.entities[i as int].id == id,
            at is None <==> !has_id(self.entities@, id),
    {
        let mut low: usize = 0;
        let mut high: usize = self.entities.len();
        while low < high
            invariant
                low <= high <= self.entities.len(),
                ids_increasing(self.entities@),
                forall|i: int| 0 <= i < low ==> (#[trigger] self.entities[i]).id < id,
                forall|i: int| high <= i < self.entities.len() ==> (#[trigger] self.entities[i]).id > id,
            decreases high - low,
        {
            let mid: usize = low + (high - low) / 2;
            let found: u32 = self.entities[mid].id;
            if found == id {
                return Some(mid);
            } else if found < id {
                low = mid + 1;
            } else {
                high = mid;
            }
        }
        None
    }

    /// The entity with identifier `id`. Absence is an ordinary outcome:
    /// entities are removed while others still refer to them.
    pub fn get(&self, id: u32) -> (entity: Result<&WebEntity, StoreError>)
        requires
            self.wf(),
        ensures
            entity matches Ok(e) ==> e.id == id && self.entities@.contains(*e),
            entity is Err <==> !has_id(self.entities@, id),
            entity matches Err(e) ==> e == StoreError::NotFound,
    {
        match self.find(id) {
            Some(i) => {
                assert(self.entities@[i as int] == self.entities[i as int]);
                Ok(&self.entities[i])
            },
            None => Err(StoreError::NotFound),
        }
    }

    /// The entity with identifier `id`, to be changed in place. Whatever the
    /// caller makes of it takes the entity's place in the store.
    pub fn get_mut(&mut self, id: u32) -> (entity: Result<&mut WebEntity, StoreError>)
        requires
            old(self).wf(),
        ensures
            entity is Err <==> !has_id(old(self).entities@, id),
            entity matches Err(e) ==> e == StoreError::NotFound && *final(self) == *old(self),
            entity matches Ok(e) ==> exists|i: int|
                0 <= i < old(self).entities.len() && old(self).entities[i].id == id && *e
                    == old(self).entities[i] && final(self).entities@ == old(self).entities@.update(i, *final(e))
                    && final(self).next_entity_id == old(self).next_entity_id,
    {
        match self.find(id) {
            Some(i) => Ok(&mut self.entities[i]),
            None => Err(StoreError::NotFound),
        }
    }

    /// Whether an entity with identifier `id` is stored.
    pub fn contains(&self, id: u32) -> (found: bool)
        requires
            self.wf(),
        ensures
            found == has_id(self.entities@, id),
    {
        self.find(id).is_some()
    }

    /// The identifiers of the active entities, in the order of the store.
    pub fn active_ids(&self) -> (ids: Vec<u32>)
        ensures
            ids@ == active_ids_of(self.entities@),
    {
        let mut ids: Vec<u32> = Vec::new();
        let mut i: usize = 0;
        while i < self.entities.len()
            invariant
                i <= self.entities.len(),
                ids@ == active_ids_of(self.entities@.take(i as int)),
            decreases self.entities.len() - i,
        {
            assert(self.entities@.take(i + 1).drop_last() =~= self.entities@.take(i as int));
            if self.entities[i].active {
                ids.push(self.entities[i].id);
            }
            i = i + 1;
        }
        assert(self.entities@.take(i as int) =~= self.entities@);
        ids
    }

    /// Damages the entity with identifier `id`, where the store holds it.
    /// Every other entity stays as it is.
    pub fn take_damage(&mut self, id: u32, damage: i32) -> (outcome: Result<(), StoreError>)
        requires
            old(self).wf(),
        ensures
            final(self).wf(),
            final(self).next_entity_id == old(self).next_entity_id,
            outcome is Ok <==> has_id(old(self).entities@, id),
            outcome matches Err(e) ==> e == StoreError::NotFound && final(self).entities@
                == old(self).entities@,
            outcome is Ok ==> exists|i: int|
                0 <= i < old(self).entities.len() && old(self).entities[i].id == id
                    && final(self).entities@ == old(self).entities@.update(
                    i,
                    old(self).entities[i].with_health_change(-(damage as int)),
                ),
    {
        match self.find(id) {
            Some(i) => {
                self.entities[i].take_damage(damage);
                assert(self.entities@ =~= old(self).entities@.update(
                    i as int,
                    old(self).entities[i as int].with_health_change(-(damage as int)),
                ));
                Ok(())
            },
            None => Err(StoreError::NotFound),
        }
    }

    /// Runs every entity's own update for a step of `delta_us` microseconds.
    pub fn update(&mut self, delta_us: u64)
        requires
            old(self).wf(),
        ensures
            final(self).wf(),
            final(self).next_entity_id == old(self).next_entity_id,
            final(self).entities@ == all_updated(old(self).entities@, delta_us),
    {
        let n: usize = self.entities.len();
        let mut i: usize = 0;
        while i < n
            invariant
                i <= n,
                n == self.entities.len(),
                n == old(self).entities.len(),
                self.next_entity_id == old(self).next_entity_id,
                old(self).wf(),
                forall|k: int| 0 <= k < i ==> self.entities[k] == old(self).entities[k].updated(delta_us),
                forall|k: int| i <= k < n ==> self.entities[k] == old(self).entities[k],
            decreases n - i,
        {
            self.entities[i].update(delta_us);
            i = i + 1;
        }
        assert(self.entities@ =~= all_updated(old(self).entities@, delta_us));
    }

    /// The cleanup pass: drops every entity that is not alive, keeps the others
    /// in their order, and returns the identifiers of those dropped.
    pub fn remove_inactive(&mut self) -> (removed: Vec<u32>)
        requires
            old(self).wf(),
        ensures
            final(self).wf(),
            final(self).next_entity_id == old(self).next_entity_id,
            final(self).entities@ == survivors(old(self).entities@),
            removed@ == casualties(old(self).entities@),
            forall|i: int| 0 <= i < final(self).entities.len() ==> (#[trigger] final(self).entities[i]).alive(),
    {
        let mut removed: Vec<u32> = Vec::new();
        let ghost before = self.entities@;
        let ghost mut seen: int = 0;
        let mut i: usize = 0;
        while i < self.entities.len()
            invariant
                before == old(self).entities@,
                self.next_entity_id == old(self).next_entity_id,
                0 <= seen <= before.len(),
                i == survivors(before.take(seen)).len(),
                self.entities@ == survivors(before.take(seen)) + before.skip(seen),
                removed@ == casualties(before.take(seen)),
            decreases before.len() - seen,
        {
            proof {
                let next = before.take(seen + 1);
                assert(next.drop_last() =~= before.take(seen));
                assert(next.last() == before[seen]);
                assert(self.entities@[i as int] == before.skip(seen)[0]);
            }
            if self.entities[i].is_alive() {
                proof {
                    assert(self.entities@ =~= survivors(before.take(seen + 1)) + before.skip(
                        seen + 1,
                    ));
                    seen = seen + 1;
                }
                i = i + 1;
            } else {
                let gone = self.entities.remove(i);
                removed.push(gone.id);
                proof {
                    assert(self.entities@ =~= survivors(before.take(seen + 1)) + before.skip(
                        seen + 1,
                    ));
                    seen = seen + 1;
                }
            }
        }
        proof {
            assert(seen == before.len());
            assert(before.take(seen) =~= before);
            assert(self.entities@ =~= survivors(before));
            lemma_survivors(before);
            assert forall|k: int| 0 <= k < self.entities.len() implies (#[trigger] self.entities[k]).wf()
                && 1 <= self.entities[k].id < self.next_entity_id by {
                let e = survivors(before)[k];
                let j = choose|j: int| 0 <= j < before.len() && before[j] == e;
                assert(old(self).entities[j].wf());
            }
        }
        removed
    }

    /// Empties the store. The identifiers go on from where they were: none
    /// is given a second time.
    pub fn clear(&mut self)
        ensures
            final(self).entities@ == Seq::<WebEntity>::empty(),
            final(self).next_entity_id == old(self).next_entity_id,
            old(self).next_entity_id >= 1 ==> final(self).wf(),
    {
        self.entities.clear();
    }
}

} // verus!
