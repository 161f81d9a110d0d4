//! What the runtime publishes of the world: the tracked entities and their
//! packet residuals, the stored snapshot, armor and light.

use std::sync::Arc;

use vstd::prelude::*;
use vstd::multiset::Multiset;

use crate::contract::FactSource;
use crate::entity_events::{EntityIdentity, NormalizedEntitySnapshot};
use crate::light::{LightCache, LightView};
use crate::number::{Double, Vec3Value};
use crate::snapshot::MinecraftSnapshotV1;
use crate::text::{
    is_before, lemma_text_before_irreflexive, lemma_text_before_total,
    lemma_text_before_transitive, text_before,
};

verus! {

/// How many entities may have a residual.
pub const ENTITY_OBSERVATION_RESIDUAL_CAPACITY: usize = 1024;

/// What a packet does to an entity's residual velocity.
#[derive(Clone, Copy, Debug, PartialEq, Eq, Structural)]
pub enum EntityResidualAction {
    Clear,
    Retain,
    Update,
}

/// Facts about an entity that only packets carry, kept across refreshes.
#[derive(Clone, Copy, Debug, PartialEq, Eq, Structural)]
pub struct EntityObservationResidual {
    pub entity: EntityIdentity,
    pub head_yaw: Option<Double>,
    pub velocity: Option<Vec3Value>,
}

/// The order in which entities are listed: by the text of their keys.
pub open spec fn listed_before(a: EntityIdentity, b: EntityIdentity) -> bool {
    text_before(a.key_text(), b.key_text())
}

/// The place of a new entity in a list: before the first that comes after it.
pub open spec fn insertion_point(
    list: Seq<Arc<NormalizedEntitySnapshot>>,
    entity: EntityIdentity,
) -> int
    decreases list.len(),
{
    if list.len() == 0 {
        0
    } else if listed_before(entity, list.last().identity) {
        insertion_point(list.drop_last(), entity)
    } else {
        list.len() as int
    }
}

/// A list with one more entity in its place.
pub open spec fn inserted(
    list: Seq<Arc<NormalizedEntitySnapshot>>,
    entity: Arc<NormalizedEntitySnapshot>,
) -> Seq<Arc<NormalizedEntitySnapshot>> {
    list.insert(insertion_point(list, entity.identity), entity)
}

/// A list in listing order; entities with one key keep their order.
pub open spec fn listed(list: Seq<Arc<NormalizedEntitySnapshot>>) -> Seq<
    Arc<NormalizedEntitySnapshot>,
>
    decreases list.len(),
{
    if list.len() == 0 {
        list
    } else {
        inserted(listed(list.drop_last()), list.last())
    }
}

proof fn lemma_insertion_point_range(
    list: Seq<Arc<NormalizedEntitySnapshot>>,
    entity: EntityIdentity,
)
    ensures
        0 <= insertion_point(list, entity) <= list.len(),
    decreases list.len(),
{
    if list.len() > 0 && listed_before(entity, list.last().identity) {
        lemma_insertion_point_range(list.drop_last(), entity);
    }
}

/// Listing keeps every entity: nothing is added, lost or doubled.
pub proof fn law_listing_is_a_permutation(list: Seq<Arc<NormalizedEntitySnapshot>>)
    ensures
        listed(list).to_multiset() == list.to_multiset(),
        listed(list).len() == list.len(),
    decreases list.len(),
{
    if list.len() > 0 {
        let rest = list.drop_last();
        law_listing_is_a_permutation(rest);
        let at = insertion_point(listed(rest), list.last().identity);
        lemma_insertion_point_range(listed(rest), list.last().identity);
        listed(rest).to_multiset_ensures();
        rest.to_multiset_ensures();
        assert(list =~= rest.push(list.last()));
        vstd::seq_lib::to_multiset_insert(listed(rest), at, list.last());
        assert(list.to_multiset() =~= rest.to_multiset().insert(list.last()));
    }
}

/// No entity stands before one that should be listed before it.
pub open spec fn in_listing_order(list: Seq<Arc<NormalizedEntitySnapshot>>) -> bool {
    forall|i: int, j: int|
        0 <= i < j < list.len() ==> !listed_before(
            (#[trigger] list[j]).identity,
            (#[trigger] list[i]).identity,
        )
}

proof fn lemma_insertion_point_splits(
    list: Seq<Arc<NormalizedEntitySnapshot>>,
    entity: EntityIdentity,
)
    requires
        in_listing_order(list),
    ensures
        forall|i: int|
            insertion_point(list, entity) <= i < list.len() ==> listed_before(
                entity,
                (#[trigger] list[i]).identity,
            ),
        forall|i: int|
            0 <= i < insertion_point(list, entity) ==> !listed_before(
                entity,
                (#[trigger] list[i]).identity,
            ),
    decreases list.len(),
{
    lemma_insertion_point_range(list, entity);
    if list.len() > 0 {
        let last = list.last().identity;
        if listed_before(entity, last) {
            let rest = list.drop_last();
            assert(in_listing_order(rest)) by {
                assert forall|i: int, j: int| 0 <= i < j < rest.len() implies !listed_before(
                    (#[trigger] rest[j]).identity,
                    (#[trigger] rest[i]).identity,
                ) by {
                    assert(rest[i] == list[i]);
                    assert(rest[j] == list[j]);
                }
            }
            lemma_insertion_point_splits(rest, entity);
            lemma_insertion_point_range(rest, entity);
            let at = insertion_point(list, entity);
            assert forall|i: int| at <= i < list.len() implies listed_before(
                entity,
                (#[trigger] list[i]).identity,
            ) by {
                if i < rest.len() {
                    assert(rest[i] == list[i]);
                }
            }
            assert forall|i: int| 0 <= i < at implies !listed_before(
                entity,
                (#[trigger] list[i]).identity,
            ) by {
                assert(rest[i] == list[i]);
            }
        } else {
            assert forall|i: int| 0 <= i < list.len() implies !listed_before(
                entity,
                (#[trigger] list[i]).identity,
            ) by {
                let here = list[i].identity;
                if listed_before(entity, here) {
                    if i < list.len() - 1 {
                        assert(!listed_before(list[list.len() - 1].identity, here));
                        if here.key_text() == last.key_text() {
                            assert(listed_before(entity, last));
                        } else {
                            lemma_text_before_total(here.key_text(), last.key_text());
                            lemma_text_before_transitive(
                                entity.key_text(),
                                here.key_text(),
                                last.key_text(),
                            );
                        }
                    }
                }
            }
        }
    }
}

proof fn lemma_listed_before_asymmetric(a: EntityIdentity, b: EntityIdentity)
    requires
        listed_before(a, b),
    ensures
        !listed_before(b, a),
{
    if listed_before(b, a) {
        lemma_text_before_transitive(a.key_text(), b.key_text(), a.key_text());
        lemma_text_before_irreflexive(a.key_text());
    }
}

/// Listing puts the entities in order.
pub proof fn law_listing_is_in_order(list: Seq<Arc<NormalizedEntitySnapshot>>)
    ensures
        in_listing_order(listed(list)),
    decreases list.len(),
{
    if list.len() > 0 {
        let rest = listed(list.drop_last());
        let entity = list.last();
        law_listing_is_in_order(list.drop_last());
        lemma_insertion_point_range(rest, entity.identity);
        lemma_insertion_point_splits(rest, entity.identity);
        let at = insertion_point(rest, entity.identity);
        let all = listed(list);
        assert forall|i: int, j: int| 0 <= i < j < all.len() implies !listed_before(
            (#[trigger] all[j]).identity,
            (#[trigger] all[i]).identity,
        ) by {
            let before = if i < at {
                i
            } else {
                i - 1
            };
            let after = if j < at {
                j
            } else {
                j - 1
            };
            if i == at {
                assert(all[j] == rest[after]);
                assert(listed_before(entity.identity, rest[after].identity));
                lemma_listed_before_asymmetric(entity.identity, rest[after].identity);
            } else if j == at {
                assert(all[i] == rest[before]);
                assert(!listed_before(entity.identity, rest[before].identity));
            } else {
                assert(all[i] == rest[before]);
                assert(all[j] == rest[after]);
                assert(!listed_before(rest[after].identity, rest[before].identity));
            }
        }
    }
}

fn place_of(
    list: &Vec<Arc<NormalizedEntitySnapshot>>,
    entity: EntityIdentity,
) -> (at: usize)
    ensures
        at == insertion_point(list@, entity),
        at <= list@.len(),
{
    let mut at: usize = list.len();
    let key = entity.key();
    assert(list@.take(at as int) =~= list@);
    while at > 0
        invariant
            at <= list@.len(),
            key@ == entity.key_text(),
            insertion_point(list@, entity) == insertion_point(list@.take(at as int), entity),
        decreases at,
    {
        let other = list[at - 1].entity_key();
        assert(list@.take(at as int).last() == list@[at - 1]);
        if !is_before(key.as_str(), other.as_str()) {
            return at;
        }
        assert(list@.take(at as int).drop_last() =~= list@.take(at - 1));
        at = at - 1;
    }
    at
}

/// Puts a list into listing order.
pub fn list_in_order(list: Vec<Arc<NormalizedEntitySnapshot>>) -> (r: Vec<
    Arc<NormalizedEntitySnapshot>,
>)
    ensures
        r@ == listed(list@),
{
    let mut out: Vec<Arc<NormalizedEntitySnapshot>> = Vec::new();
    let mut i: usize = 0;
    assert(list@.take(0) =~= Seq::empty());
    while i < list.len()
        invariant
            i <= list@.len(),
            out@ == listed(list@.take(i as int)),
        decreases list@.len() - i,
    {
        let entity = list[i].clone();
        let at: usize = place_of(&out, entity.identity);
        out.insert(at, entity);
        assert(list@.take(i + 1).drop_last() =~= list@.take(i as int));
        i = i + 1;
    }
    assert(list@.take(list@.len() as int) =~= list@);
    out
}

/// The place of an entity in a list, if it is there.
pub open spec fn position_of(
    list: Seq<Arc<NormalizedEntitySnapshot>>,
    entity: EntityIdentity,
) -> Option<int>
    decreases list.len(),
{
    if list.len() == 0 {
        None
    } else {
        match position_of(list.drop_last(), entity) {
            Some(i) => Some(i),
            None => if list.last().identity == entity {
                Some(list.len() - 1)
            } else {
                None
            },
        }
    }
}

proof fn lemma_position_of(
    list: Seq<Arc<NormalizedEntitySnapshot>>,
    entity: EntityIdentity,
    at: int,
)
    requires
        0 <= at < list.len(),
        list[at].identity == entity,
        forall|k: int| 0 <= k < at ==> (#[trigger] list[k]).identity != entity,
    ensures
        position_of(list, entity) == Some(at),
    decreases list.len(),
{
    if at < list.len() - 1 {
        lemma_position_of(list.drop_last(), entity, at);
    } else {
        lemma_position_none(list.drop_last(), entity);
    }
}

proof fn lemma_position_none(list: Seq<Arc<NormalizedEntitySnapshot>>, entity: EntityIdentity)
    requires
        forall|k: int| 0 <= k < list.len() ==> (#[trigger] list[k]).identity != entity,
    ensures
        position_of(list, entity) is None,
    decreases list.len(),
{
    if list.len() > 0 {
        lemma_position_none(list.drop_last(), entity);
    }
}

/// A list in which an entity has been replaced or added, in listing order.
pub open spec fn upserted(
    list: Seq<Arc<NormalizedEntitySnapshot>>,
    entity: Arc<NormalizedEntitySnapshot>,
) -> Seq<Arc<NormalizedEntitySnapshot>> {
    match position_of(list, entity.identity) {
        Some(i) => listed(list.update(i, entity)),
        None => listed(list.push(entity)),
    }
}

/// A list without an entity.
pub open spec fn without_entity(
    list: Seq<Arc<NormalizedEntitySnapshot>>,
    entity: EntityIdentity,
) -> Seq<Arc<NormalizedEntitySnapshot>> {
    list.filter(|e: Arc<NormalizedEntitySnapshot>| e.identity != entity)
}

/// The residuals without those of an entity.
pub open spec fn without_residual(
    residuals: Seq<EntityObservationResidual>,
    entity: EntityIdentity,
) -> Seq<EntityObservationResidual> {
    residuals.filter(|r: EntityObservationResidual| r.entity != entity)
}

/// The first residual of an entity.
pub open spec fn residual_at(
    residuals: Seq<EntityObservationResidual>,
    entity: EntityIdentity,
    at: int,
) -> bool {
    &&& 0 <= at < residuals.len()
    &&& residuals[at].entity == entity
    &&& forall|k: int| 0 <= k < at ==> (#[trigger] residuals[k]).entity != entity
}

pub open spec fn has_residual(
    residuals: Seq<EntityObservationResidual>,
    entity: EntityIdentity,
) -> bool {
    exists|at: int| #[trigger] residual_at(residuals, entity, at)
}

pub open spec fn residual_position(
    residuals: Seq<EntityObservationResidual>,
    entity: EntityIdentity,
) -> int {
    choose|at: int| #[trigger] residual_at(residuals, entity, at)
}

/// The residual facts that a packet supplies: a head turn that can be published,
/// in the precision in which it is, and a velocity where the action keeps one.
pub open spec fn supplied_head_yaw(head_yaw: Option<Double>) -> Option<Double> {
    match head_yaw {
        Some(value) => if value.finite_as_single() {
            Some(value.single_rounded())
        } else {
            None
        },
        None => None,
    }
}

pub open spec fn supplied_velocity(
    velocity: Option<Vec3Value>,
    action: EntityResidualAction,
) -> Option<Vec3Value> {
    if action == EntityResidualAction::Update {
        velocity
    } else {
        None
    }
}

/// The residuals after a packet for an entity.
pub open spec fn residuals_after(
    residuals: Seq<EntityObservationResidual>,
    entity: EntityIdentity,
    head_yaw: Option<Double>,
    velocity: Option<Vec3Value>,
    action: EntityResidualAction,
) -> Seq<EntityObservationResidual> {
    let kept = if action == EntityResidualAction::Clear {
        without_residual(residuals, entity)
    } else {
        residuals
    };
    let head_yaw = supplied_head_yaw(head_yaw);
    let velocity = supplied_velocity(velocity, action);
    if head_yaw is None && velocity is None {
        kept
    } else if has_residual(kept, entity) {
        let at = residual_position(kept, entity);
        kept.update(
            at,
            EntityObservationResidual {
                entity: kept[at].entity,
                head_yaw: if head_yaw is Some {
                    head_yaw
                } else {
                    kept[at].head_yaw
                },
                velocity: if velocity is Some {
                    velocity
                } else {
                    kept[at].velocity
                },
            },
        )
    } else {
        let roomy = if kept.len() >= ENTITY_OBSERVATION_RESIDUAL_CAPACITY {
            kept.subrange(1, kept.len() as int)
        } else {
            kept
        };
        roomy.push(EntityObservationResidual { entity, head_yaw, velocity })
    }
}

/// A residual that outlives a refresh: of this epoch, and its entity was captured.
pub open spec fn residual_survives(
    residual: EntityObservationResidual,
    captured: Seq<Arc<NormalizedEntitySnapshot>>,
    epoch: u64,
) -> bool {
    residual.entity.epoch == epoch && exists|i: int|
        0 <= i < captured.len() && (#[trigger] captured[i]).identity == residual.entity
}

/// The residuals that outlive a refresh.
pub open spec fn surviving_residuals(
    residuals: Seq<EntityObservationResidual>,
    captured: Seq<Arc<NormalizedEntitySnapshot>>,
    epoch: u64,
) -> Seq<EntityObservationResidual> {
    residuals.filter(|r: EntityObservationResidual| residual_survives(r, captured, epoch))
}

/// A captured entity with its residual facts laid over it.
pub open spec fn overlaid(
    entity: Arc<NormalizedEntitySnapshot>,
    residuals: Seq<EntityObservationResidual>,
    epoch: u64,
) -> Arc<NormalizedEntitySnapshot> {
    if entity.identity.epoch == epoch && has_residual(residuals, entity.identity) {
        let residual = residuals[residual_position(residuals, entity.identity)];
        Arc::new(
            NormalizedEntitySnapshot {
                head_yaw: if residual.head_yaw is Some {
                    residual.head_yaw
                } else {
                    entity.head_yaw
                },
                velocity: match residual.velocity {
                    Some(velocity) => velocity,
                    None => entity.velocity,
                },
                ..*entity
            },
        )
    } else {
        entity
    }
}

/// The entities to publish after a refresh.
pub open spec fn refreshed_entities(
    captured: Seq<Arc<NormalizedEntitySnapshot>>,
    residuals: Seq<EntityObservationResidual>,
    epoch: u64,
) -> Seq<Arc<NormalizedEntitySnapshot>> {
    let survivors = surviving_residuals(residuals, captured, epoch);
    listed(
        Seq::new(captured.len(), |i: int| overlaid(captured[i], survivors, epoch)),
    )
}

fn find_residual(
    residuals: &Vec<EntityObservationResidual>,
    entity: EntityIdentity,
) -> (at: Option<usize>)
    ensures
        at is Some <==> has_residual(residuals@, entity),
        at matches Some(i) ==> i == residual_position(residuals@, entity) && residual_at(
            residuals@,
            entity,
            i as int,
        ),
{
    let mut i: usize = 0;
    while i < residuals.len()
        invariant
            i <= residuals@.len(),
            forall|k: int| 0 <= k < i ==> (#[trigger] residuals@[k]).entity != entity,
        decreases residuals@.len() - i,
    {
        if residuals[i].entity == entity {
            proof {
                assert(residual_at(residuals@, entity, i as int));
                let at = residual_position(residuals@, entity);
                assert(residual_at(residuals@, entity, at));
                if at < i {
                    assert(residuals@[at].entity != entity);
                } else if i < at {
                    assert(residuals@[i as int].entity != entity);
                }
            }
            return Some(i);
        }
        i = i + 1;
    }
    assert forall|at: int| !#[trigger] residual_at(residuals@, entity, at) by {
        if residual_at(residuals@, entity, at) {
            assert(residuals@[at].entity != entity);
        }
    }
    None
}

fn drop_residual(residuals: &Vec<EntityObservationResidual>, entity: EntityIdentity) -> (r: Vec<
    EntityObservationResidual,
>)
    ensures
        r@ == without_residual(residuals@, entity),
{
    let mut out: Vec<EntityObservationResidual> = Vec::new();
    let mut i: usize = 0;
    assert(residuals@.take(0) =~= Seq::empty());
    reveal(Seq::filter);
    while i < residuals.len()
        invariant
            i <= residuals@.len(),
            out@ == without_residual(residuals@.take(i as int), entity),
        decreases residuals@.len() - i,
    {
        reveal(Seq::filter);
        assert(residuals@.take(i + 1).drop_last() =~= residuals@.take(i as int));
        let current = residuals[i];
        if current.entity != entity {
            out.push(current);
        }
        i = i + 1;
    }
    assert(residuals@.take(residuals@.len() as int) =~= residuals@);
    out
}

fn drop_entity(list: &Vec<Arc<NormalizedEntitySnapshot>>, entity: EntityIdentity) -> (r: Vec<
    Arc<NormalizedEntitySnapshot>,
>)
    ensures
        r@ == without_entity(list@, entity),
{
    let mut out: Vec<Arc<NormalizedEntitySnapshot>> = Vec::new();
    let mut i: usize = 0;
    assert(list@.take(0) =~= Seq::empty());
    reveal(Seq::filter);
    while i < list.len()
        invariant
            i <= list@.len(),
            out@ == without_entity(list@.take(i as int), entity),
        decreases list@.len() - i,
    {
        reveal(Seq::filter);
        assert(list@.take(i + 1).drop_last() =~= list@.take(i as int));
        let current = list[i].clone();
        if current.identity != entity {
            out.push(current);
        }
        i = i + 1;
    }
    assert(list@.take(list@.len() as int) =~= list@);
    out
}

/// The residuals after a packet for an entity.
pub fn record_entity_residual(
    residuals: Vec<EntityObservationResidual>,
    entity: EntityIdentity,
    head_yaw: Option<Double>,
    velocity: Option<Vec3Value>,
    action: EntityResidualAction,
) -> (r: Vec<EntityObservationResidual>)
    ensures
        r@ == residuals_after(residuals@, entity, head_yaw, velocity, action),
{
    let mut kept = match action {
        EntityResidualAction::Clear => drop_residual(&residuals, entity),
        _ => residuals,
    };
    let new_head_yaw: Option<Double> = match head_yaw {
        Some(value) => if value.is_finite_as_single() {
            Some(value.round_to_single())
        } else {
            None
        },
        None => None,
    };
    let new_velocity: Option<Vec3Value> = match action {
        EntityResidualAction::Update => velocity,
        _ => None,
    };
    if new_head_yaw.is_none() && new_velocity.is_none() {
        return kept;
    }
    match find_residual(&kept, entity) {
        Some(at) => {
            let mut current = kept[at];
            if new_head_yaw.is_some() {
                current.head_yaw = new_head_yaw;
            }
            if new_velocity.is_some() {
                current.velocity = new_velocity;
            }
            kept.set(at, current);
            kept
        },
        None => {
            if kept.len() >= ENTITY_OBSERVATION_RESIDUAL_CAPACITY {
                let ghost full = kept@;
                let _ = kept.remove(0);
                assert(kept@ =~= full.subrange(1, full.len() as int));
            }
            kept.push(
                EntityObservationResidual {
                    entity,
                    head_yaw: new_head_yaw,
                    velocity: new_velocity,
                },
            );
            kept
        },
    }
}

fn was_captured(
    captured: &Vec<Arc<NormalizedEntitySnapshot>>,
    entity: EntityIdentity,
) -> (r: bool)
    ensures
        r == exists|i: int|
            0 <= i < captured@.len() && (#[trigger] captured@[i]).identity == entity,
{
    let mut i: usize = 0;
    while i < captured.len()
        invariant
            i <= captured@.len(),
            forall|k: int| 0 <= k < i ==> (#[trigger] captured@[k]).identity != entity,
        decreases captured@.len() - i,
    {
        if captured[i].identity == entity {
            assert(captured@[i as int].identity == entity);
            return true;
        }
        i = i + 1;
    }
    false
}

/// Lays the residual facts over a fresh capture. Residuals of other epochs and
/// of entities that were not captured end here.
pub fn merge_refreshed_tracked_entities(
    captured: Vec<Arc<NormalizedEntitySnapshot>>,
    residuals: &Vec<EntityObservationResidual>,
    connection_epoch: u64,
) -> (r: (Vec<Arc<NormalizedEntitySnapshot>>, Vec<EntityObservationResidual>))
    ensures
        r.0@ == refreshed_entities(captured@, residuals@, connection_epoch),
        r.1@ == surviving_residuals(residuals@, captured@, connection_epoch),
{
    let mut survivors: Vec<EntityObservationResidual> = Vec::new();
    let mut i: usize = 0;
    assert(residuals@.take(0) =~= Seq::empty());
    reveal(Seq::filter);
    while i < residuals.len()
        invariant
            i <= residuals@.len(),
            survivors@ == surviving_residuals(
                residuals@.take(i as int),
                captured@,
                connection_epoch,
            ),
        decreases residuals@.len() - i,
    {
        reveal(Seq::filter);
        assert(residuals@.take(i + 1).drop_last() =~= residuals@.take(i as int));
        let current = residuals[i];
        if current.entity.epoch == connection_epoch && was_captured(&captured, current.entity) {
            survivors.push(current);
        }
        i = i + 1;
    }
    assert(residuals@.take(residuals@.len() as int) =~= residuals@);
    let mut out: Vec<Arc<NormalizedEntitySnapshot>> = Vec::new();
    let mut j: usize = 0;
    while j < captured.len()
        invariant
            j <= captured@.len(),
            out@.len() == j,
            forall|k: int|
                0 <= k < j ==> out@[k] == overlaid(captured@[k], survivors@, connection_epoch),
        decreases captured@.len() - j,
    {
        let entity = captured[j].clone();
        let mut published = entity.clone();
        if entity.identity.epoch == connection_epoch {
            if let Some(at) = find_residual(&survivors, entity.identity) {
                let residual = survivors[at];
                let mut merged = (*entity).clone();
                if residual.head_yaw.is_some() {
                    merged.head_yaw = residual.head_yaw;
                }
                if let Some(velocity) = residual.velocity {
                    merged.velocity = velocity;
                }
                published = Arc::new(merged);
            }
        }
        out.push(published);
        j = j + 1;
    }
    assert(out@ =~= Seq::new(
        captured@.len(),
        |i: int| overlaid(captured@[i], survivors@, connection_epoch),
    ));
    (list_in_order(out), survivors)
}

/// The published observation as a value.
#[verifier::ext_equal]
pub ghost struct ObservationView {
    /// Changes with everything that is published.
    pub generation: u64,
    pub world: Option<u64>,
    pub snapshot: Option<Arc<MinecraftSnapshotV1>>,
    pub snapshot_scope_generation: u64,
    pub source: Option<FactSource>,
    pub tracked_entities: Seq<Arc<NormalizedEntitySnapshot>>,
    pub entity_residuals: Seq<EntityObservationResidual>,
    pub armor: Option<u8>,
    pub armor_epoch: Option<u64>,
    pub light: LightView,
}

impl ObservationView {
    pub open spec fn empty() -> ObservationView {
        ObservationView {
            generation: 0,
            world: None,
            snapshot: None,
            snapshot_scope_generation: 0,
            source: None,
            tracked_entities: Seq::empty(),
            entity_residuals: Seq::empty(),
            armor: None,
            armor_epoch: None,
            light: LightView::empty(),
        }
    }

    pub open spec fn bumped(self) -> ObservationView {
        ObservationView { generation: crate::lanes::successor(self.generation), ..self }
    }

    /// Nothing of a world is published.
    pub open spec fn without_world(self) -> ObservationView {
        ObservationView {
            world: None,
            snapshot: None,
            snapshot_scope_generation: 0,
            source: None,
            tracked_entities: Seq::empty(),
            entity_residuals: Seq::empty(),
            ..self
        }
    }

    /// Nothing at all is published.
    pub open spec fn cleared(self) -> ObservationView {
        ObservationView {
            armor: None,
            armor_epoch: None,
            light: LightView::empty(),
            ..self.without_world()
        }.bumped()
    }

    pub open spec fn upserted(self, entity: Arc<NormalizedEntitySnapshot>) -> ObservationView {
        ObservationView {
            tracked_entities: upserted(self.tracked_entities, entity),
            ..self
        }.bumped()
    }

    pub open spec fn with_residual(
        self,
        entity: EntityIdentity,
        head_yaw: Option<Double>,
        velocity: Option<Vec3Value>,
        action: EntityResidualAction,
    ) -> ObservationView {
        ObservationView {
            entity_residuals: residuals_after(
                self.entity_residuals,
                entity,
                head_yaw,
                velocity,
                action,
            ),
            ..self
        }
    }

    /// An entity is no longer published.
    pub open spec fn without(self, entity: EntityIdentity) -> ObservationView {
        let after = ObservationView {
            tracked_entities: without_entity(self.tracked_entities, entity),
            entity_residuals: without_residual(self.entity_residuals, entity),
            ..self
        };
        if after.tracked_entities.len() != self.tracked_entities.len()
            || after.entity_residuals.len() != self.entity_residuals.len() {
            after.bumped()
        } else {
            after
        }
    }

    /// No more residuals than there is room for.
    pub open spec fn bounded(self) -> bool {
        self.entity_residuals.len() <= ENTITY_OBSERVATION_RESIDUAL_CAPACITY
    }
}

/// Residuals never outgrow their capacity.
pub proof fn law_residuals_stay_bounded(
    residuals: Seq<EntityObservationResidual>,
    entity: EntityIdentity,
    head_yaw: Option<Double>,
    velocity: Option<Vec3Value>,
    action: EntityResidualAction,
)
    requires
        residuals.len() <= ENTITY_OBSERVATION_RESIDUAL_CAPACITY,
    ensures
        residuals_after(residuals, entity, head_yaw, velocity, action).len()
            <= ENTITY_OBSERVATION_RESIDUAL_CAPACITY,
{
    residuals.lemma_filter_len(|r: EntityObservationResidual| r.entity != entity);
}

/// After a refresh no residual is left whose entity was not captured, nor one of
/// another epoch.
pub proof fn law_refresh_ends_orphaned_residuals(
    residuals: Seq<EntityObservationResidual>,
    captured: Seq<Arc<NormalizedEntitySnapshot>>,
    epoch: u64,
    i: int,
)
    requires
        0 <= i < surviving_residuals(residuals, captured, epoch).len(),
    ensures
        residual_survives(surviving_residuals(residuals, captured, epoch)[i], captured, epoch),
        surviving_residuals(residuals, captured, epoch).len() <= residuals.len(),
{
    let keep = |r: EntityObservationResidual| residual_survives(r, captured, epoch);
    residuals.lemma_filter_pred(keep, i);
    residuals.lemma_filter_len(keep);
}

/// The observation that the runtime publishes.
pub struct ObservationState {
    pub generation: u64,
    pub world: Option<u64>,
    pub snapshot: Option<Arc<MinecraftSnapshotV1>>,
    pub snapshot_scope_generation: u64,
    pub source: Option<FactSource>,
    pub tracked_entities: Vec<Arc<NormalizedEntitySnapshot>>,
    pub entity_residuals: Vec<EntityObservationResidual>,
    pub armor: Option<u8>,
    pub armor_epoch: Option<u64>,
    pub light_cache: LightCache,
}

impl View for ObservationState {
    type V = ObservationView;

    open spec fn view(&self) -> ObservationView {
        ObservationView {
            generation: self.generation,
            world: self.world,
            snapshot: self.snapshot,
            snapshot_scope_generation: self.snapshot_scope_generation,
            source: self.source,
            tracked_entities: self.tracked_entities@,
            entity_residuals: self.entity_residuals@,
            armor: self.armor,
            armor_epoch: self.armor_epoch,
            light: self.light_cache@,
        }
    }
}

impl ObservationState {
    pub fn new() -> (state: Self)
        ensures
            state@ == ObservationView::empty(),
    {
        ObservationState {
            generation: 0,
            world: None,
            snapshot: None,
            snapshot_scope_generation: 0,
            source: None,
            tracked_entities: Vec::new(),
            entity_residuals: Vec::new(),
            armor: None,
            armor_epoch: None,
            light_cache: LightCache::new(),
        }
    }

    /// Marks that something published has changed.
    pub fn bump_generation(&mut self)
        ensures
            final(self)@ == old(self)@.bumped(),
    {
        self.generation = if self.generation == u64::MAX {
            0
        } else {
            self.generation + 1
        };
    }

    /// Withdraws everything that belongs to a world.
    pub fn clear_world(&mut self)
        ensures
            final(self)@ == old(self)@.without_world(),
    {
        self.world = None;
        self.snapshot = None;
        self.snapshot_scope_generation = 0;
        self.source = None;
        self.tracked_entities = Vec::new();
        self.entity_residuals = Vec::new();
    }

    /// Withdraws everything.
    pub fn clear(&mut self)
        ensures
            final(self)@ == old(self)@.cleared(),
    {
        self.clear_world();
        self.armor = None;
        self.armor_epoch = None;
        self.light_cache.clear();
        self.bump_generation();
    }

    /// Publishes the state of one entity.
    pub fn upsert_entity_observation(&mut self, entity: Arc<NormalizedEntitySnapshot>)
        ensures
            final(self)@ == old(self)@.upserted(entity),
    {
        let ghost before = self.tracked_entities@;
        let mut list = Vec::new();
        core::mem::swap(&mut list, &mut self.tracked_entities);
        let mut i: usize = 0;
        while i < list.len() && list[i].identity != entity.identity
            invariant
                list@ == before,
                i <= list@.len(),
                forall|k: int| 0 <= k < i ==> (#[trigger] list@[k]).identity != entity.identity,
            decreases list@.len() - i,
        {
            i = i + 1;
        }
        if i < list.len() {
            proof {
                lemma_position_of(before, entity.identity, i as int);
            }
            list.set(i, entity);
        } else {
            proof {
                lemma_position_none(before, entity.identity);
            }
            list.push(entity);
        }
        self.tracked_entities = list_in_order(list);
        self.bump_generation();
    }

    /// Records the residual facts of a packet.
    pub fn record_residual(
        &mut self,
        entity: EntityIdentity,
        head_yaw: Option<Double>,
        velocity: Option<Vec3Value>,
        action: EntityResidualAction,
    )
        ensures
            final(self)@ == old(self)@.with_residual(entity, head_yaw, velocity, action),
    {
        let mut residuals = Vec::new();
        core::mem::swap(&mut residuals, &mut self.entity_residuals);
        self.entity_residuals =
        record_entity_residual(residuals, entity, head_yaw, velocity, action);
    }

    /// Withdraws one entity.
    pub fn remove_entity(&mut self, entity: EntityIdentity)
        ensures
            final(self)@ == old(self)@.without(entity),
    {
        let remaining = drop_entity(&self.tracked_entities, entity);
        let residuals = drop_residual(&self.entity_residuals, entity);
        let changed = remaining.len() != self.tracked_entities.len() || residuals.len()
            != self.entity_residuals.len();
        self.tracked_entities = remaining;
        self.entity_residuals = residuals;
        if changed {
            self.bump_generation();
        }
    }
}

proof fn lemma_kept_by_filter<A>(list: Seq<A>, keep: spec_fn(A) -> bool, item: A)
    ensures
        list.filter(keep).contains(item) <==> list.contains(item) && keep(item),
{
    let kept = list.filter(keep);
    if kept.contains(item) {
        let i = choose|i: int| 0 <= i < kept.len() && kept[i] == item;
        list.lemma_filter_pred(keep, i);
        list.lemma_filter_contains_rev(keep, item);
    }
    if list.contains(item) && keep(item) {
        let i = choose|i: int| 0 <= i < list.len() && list[i] == item;
        list.lemma_filter_contains(keep, i);
    }
}

proof fn lemma_nothing_filtered<A>(list: Seq<A>, keep: spec_fn(A) -> bool)
    requires
        forall|i: int| 0 <= i < list.len() ==> keep(#[trigger] list[i]),
    ensures
        list.filter(keep) == list,
    decreases list.len(),
{
    reveal(Seq::filter);
    if list.len() > 0 {
        let rest = list.drop_last();
        assert forall|i: int| 0 <= i < rest.len() implies keep(#[trigger] rest[i]) by {
            assert(rest[i] == list[i]);
        }
        lemma_nothing_filtered(rest, keep);
        assert(rest.push(list.last()) =~= list);
    }
}

proof fn lemma_position_sound(list: Seq<Arc<NormalizedEntitySnapshot>>, entity: EntityIdentity)
    ensures
        match position_of(list, entity) {
            Some(at) => 0 <= at < list.len() && list[at].identity == entity,
            None => forall|k: int|
                0 <= k < list.len() ==> (#[trigger] list[k]).identity != entity,
        },
    decreases list.len(),
{
    if list.len() > 0 {
        let rest = list.drop_last();
        lemma_position_sound(rest, entity);
        if position_of(list, entity) is None {
            assert forall|k: int| 0 <= k < list.len() implies (#[trigger] list[k]).identity
                != entity by {
                if k < rest.len() {
                    assert(rest[k] == list[k]);
                }
            }
        }
    }
}

/// An entity that is reported takes the place of what was known of it, or joins
/// the others. The others stay, and the list is ordered by key.
pub proof fn law_a_reported_entity_takes_its_place(
    list: Seq<Arc<NormalizedEntitySnapshot>>,
    entity: Arc<NormalizedEntitySnapshot>,
    other: Arc<NormalizedEntitySnapshot>,
)
    requires
        forall|i: int, j: int|
            0 <= i < j < list.len() ==> (#[trigger] list[i]).identity != (
            #[trigger] list[j]).identity,
    ensures
        upserted(list, entity).contains(entity),
        other.identity != entity.identity ==> (upserted(list, entity).contains(other)
            <==> list.contains(other)),
        other.identity == entity.identity ==> (upserted(list, entity).contains(other) <==> other
            == entity),
        upserted(list, entity).len() == list.len() || upserted(list, entity).len() == list.len()
            + 1,
        upserted(list, entity).len() == list.len() <==> exists|i: int|
            0 <= i < list.len() && (#[trigger] list[i]).identity == entity.identity,
        forall|i: int, j: int|
            0 <= i < j < upserted(list, entity).len() ==> !text_before(
                (#[trigger] upserted(list, entity)[j]).identity.key_text(),
                (#[trigger] upserted(list, entity)[i]).identity.key_text(),
            ),
{
    lemma_position_sound(list, entity.identity);
    let changed = match position_of(list, entity.identity) {
        Some(at) => list.update(at, entity),
        None => list.push(entity),
    };
    law_listing_is_a_permutation(changed);
    law_listing_is_in_order(changed);
    let after = upserted(list, entity);
    assert(after == listed(changed));
    after.to_multiset_ensures();
    changed.to_multiset_ensures();
    assert forall|x: Arc<NormalizedEntitySnapshot>| after.contains(x) <==> changed.contains(x) by {
        assert(after.to_multiset().count(x) == changed.to_multiset().count(x));
    }
    match position_of(list, entity.identity) {
        Some(at) => {
            assert(changed[at] == entity);
            assert(list[at].identity == entity.identity);
            if list.contains(other) && other.identity != entity.identity {
                let i = choose|i: int| 0 <= i < list.len() && list[i] == other;
                assert(changed[i] == other);
            }
            if changed.contains(other) {
                let i = choose|i: int| 0 <= i < changed.len() && changed[i] == other;
                if i != at {
                    assert(list[i] == other);
                    if i < at {
                        assert(list[i].identity != list[at].identity);
                    } else {
                        assert(list[at].identity != list[i].identity);
                    }
                }
            }
        },
        None => {
            assert(changed[list.len() as int] == entity);
            if list.contains(other) {
                let i = choose|i: int| 0 <= i < list.len() && list[i] == other;
                assert(changed[i] == other);
            }
            if changed.contains(other) {
                let i = choose|i: int| 0 <= i < changed.len() && changed[i] == other;
                if i < list.len() {
                    assert(list[i] == other);
                }
            }
        },
    }
}

/// An entity that is gone is no longer known, nor is anything that packets told
/// of it; everything else stays.
pub proof fn law_a_gone_entity_is_forgotten(
    observation: ObservationView,
    gone: EntityIdentity,
    other: Arc<NormalizedEntitySnapshot>,
    fact: EntityObservationResidual,
)
    ensures
        observation.without(gone).tracked_entities.contains(other) <==> other.identity != gone
            && observation.tracked_entities.contains(other),
        observation.without(gone).entity_residuals.contains(fact) <==> fact.entity != gone
            && observation.entity_residuals.contains(fact),
        observation.without(gone) == (ObservationView {
            generation: observation.without(gone).generation,
            tracked_entities: observation.without(gone).tracked_entities,
            entity_residuals: observation.without(gone).entity_residuals,
            ..observation
        }),
        observation.tracked_entities.contains(other) && other.identity == gone
            ==> observation.without(gone).generation != observation.generation,
        observation.entity_residuals.contains(fact) && fact.entity == gone ==> observation.without(
            gone,
        ).generation != observation.generation,
        (forall|i: int|
            0 <= i < observation.tracked_entities.len() ==> (
            #[trigger] observation.tracked_entities[i]).identity != gone) && (forall|i: int|
            0 <= i < observation.entity_residuals.len() ==> (
            #[trigger] observation.entity_residuals[i]).entity != gone) ==> observation.without(
            gone,
        ) == observation,
{
    let entities = observation.tracked_entities;
    let residuals = observation.entity_residuals;
    let keep = |e: Arc<NormalizedEntitySnapshot>| e.identity != gone;
    let retain = |r: EntityObservationResidual| r.entity != gone;
    lemma_kept_by_filter(entities, keep, other);
    lemma_kept_by_filter(residuals, retain, fact);
    if entities.contains(other) && other.identity == gone {
        if entities.filter(keep).len() == entities.len() {
            lemma_whole_filter(entities, keep);
        }
    }
    if residuals.contains(fact) && fact.entity == gone {
        if residuals.filter(retain).len() == residuals.len() {
            lemma_whole_filter(residuals, retain);
        }
    }
    if (forall|i: int| 0 <= i < entities.len() ==> (#[trigger] entities[i]).identity != gone) && (
    forall|i: int| 0 <= i < residuals.len() ==> (#[trigger] residuals[i]).entity != gone) {
        lemma_nothing_filtered(entities, keep);
        lemma_nothing_filtered(residuals, retain);
    }
}

proof fn lemma_whole_filter<A>(list: Seq<A>, keep: spec_fn(A) -> bool)
    requires
        list.filter(keep).len() == list.len(),
    ensures
        list.filter(keep) == list,
    decreases list.len(),
{
    reveal(Seq::filter);
    if list.len() > 0 {
        let rest = list.drop_last();
        rest.lemma_filter_len(keep);
        lemma_whole_filter(rest, keep);
        assert(rest.push(list.last()) =~= list);
    }
}

/// What a packet tells of an entity of which something is remembered replaces
/// that, and only what it tells: a head turn that is a number, and a velocity if
/// velocities are to be updated.
pub proof fn law_packets_update_what_is_remembered(
    residuals: Seq<EntityObservationResidual>,
    entity: EntityIdentity,
    at: int,
    head_yaw: Option<Double>,
    velocity: Option<Vec3Value>,
    action: EntityResidualAction,
)
    requires
        0 <= at < residuals.len(),
        residuals[at].entity == entity,
        forall|k: int| 0 <= k < at ==> (#[trigger] residuals[k]).entity != entity,
        action is Retain || action is Update,
    ensures
        ({
            let after = residuals_after(residuals, entity, head_yaw, velocity, action);
            &&& after.len() == residuals.len()
            &&& forall|k: int|
                0 <= k < after.len() && k != at ==> #[trigger] after[k] == residuals[k]
            &&& after[at].entity == entity
            &&& after[at].head_yaw == (if head_yaw is Some && (head_yaw->0).finite_as_single() {
                Some((head_yaw->0).single_rounded())
            } else {
                residuals[at].head_yaw
            })
            &&& after[at].velocity == (if action is Update && velocity is Some {
                velocity
            } else {
                residuals[at].velocity
            })
        }),
{
    assert(residual_at(residuals, entity, at));
    let found = residual_position(residuals, entity);
    assert(residual_at(residuals, entity, found));
    if found < at {
        assert(residuals[found].entity != entity);
    } else if at < found {
        assert(residuals[at].entity != entity);
    }
}

/// What a packet tells of an entity of which nothing is remembered is remembered
/// as the newest; of 1024 entities the one that was heard of first makes room.
pub proof fn law_packets_are_remembered(
    residuals: Seq<EntityObservationResidual>,
    entity: EntityIdentity,
    head_yaw: Option<Double>,
    velocity: Option<Vec3Value>,
    action: EntityResidualAction,
)
    requires
        forall|k: int| 0 <= k < residuals.len() ==> (#[trigger] residuals[k]).entity != entity,
    ensures
        ({
            let after = residuals_after(residuals, entity, head_yaw, velocity, action);
            let turned = head_yaw is Some && (head_yaw->0).finite_as_single();
            let moved = action is Update && velocity is Some;
            if turned || moved {
                after == (if residuals.len() < 1024 {
                    residuals
                } else {
                    residuals.drop_first()
                }).push(
                    EntityObservationResidual {
                        entity,
                        head_yaw: if turned {
                            Some((head_yaw->0).single_rounded())
                        } else {
                            None
                        },
                        velocity: if moved {
                            velocity
                        } else {
                            None
                        },
                    },
                )
            } else {
                after == residuals
            }
        }),
{
    lemma_nothing_filtered(residuals, |r: EntityObservationResidual| r.entity != entity);
    assert forall|at: int| !#[trigger] residual_at(residuals, entity, at) by {
        if residual_at(residuals, entity, at) {
            assert(residuals[at].entity != entity);
        }
    }
    assert(residuals.drop_first() == residuals.subrange(1, residuals.len() as int));
}

/// A packet that ends what was remembered of an entity leaves at most its own
/// head turn.
pub proof fn law_packets_end_what_is_remembered(
    residuals: Seq<EntityObservationResidual>,
    entity: EntityIdentity,
    head_yaw: Option<Double>,
    velocity: Option<Vec3Value>,
    fact: EntityObservationResidual,
)
    requires
        residuals.len() < 1024,
    ensures
        ({
            let after = residuals_after(
                residuals,
                entity,
                head_yaw,
                velocity,
                EntityResidualAction::Clear,
            );
            if fact.entity == entity {
                after.contains(fact) <==> fact.velocity is None && head_yaw is Some && (
                head_yaw->0).finite_as_single() && fact.head_yaw == Some(
                    (head_yaw->0).single_rounded(),
                )
            } else {
                after.contains(fact) <==> residuals.contains(fact)
            }
        }),
{
    let keep = |r: EntityObservationResidual| r.entity != entity;
    let kept = residuals.filter(keep);
    residuals.lemma_filter_len(keep);
    lemma_kept_by_filter(residuals, keep, fact);
    assert forall|k: int| 0 <= k < kept.len() implies (#[trigger] kept[k]).entity != entity by {
        residuals.lemma_filter_pred(keep, k);
    }
    law_packets_are_remembered(kept, entity, head_yaw, velocity, EntityResidualAction::Clear);
    lemma_nothing_filtered(kept, keep);
    let after = residuals_after(residuals, entity, head_yaw, velocity, EntityResidualAction::Clear);
    assert(after == residuals_after(
        kept,
        entity,
        head_yaw,
        velocity,
        EntityResidualAction::Clear,
    ));
    if after != kept {
        let told = EntityObservationResidual {
            entity,
            head_yaw: Some((head_yaw->0).single_rounded()),
            velocity: None,
        };
        assert(after == kept.push(told));
        assert(after[kept.len() as int] == told);
        if after.contains(fact) {
            let i = choose|i: int| 0 <= i < after.len() && after[i] == fact;
            if i < kept.len() {
                assert(kept[i] == fact);
            }
        }
        if kept.contains(fact) {
            let i = choose|i: int| 0 <= i < kept.len() && kept[i] == fact;
            assert(after[i] == fact);
        }
    }
}

/// A refresh keeps what is remembered of the entities that were captured in this
/// epoch, and nothing else.
pub proof fn law_a_refresh_keeps_what_it_still_needs(
    residuals: Seq<EntityObservationResidual>,
    captured: Seq<Arc<NormalizedEntitySnapshot>>,
    epoch: u64,
    fact: EntityObservationResidual,
)
    ensures
        surviving_residuals(residuals, captured, epoch).contains(fact) <==> residuals.contains(fact)
            && fact.entity.epoch == epoch && exists|i: int|
            0 <= i < captured.len() && (#[trigger] captured[i]).identity == fact.entity,
{
    lemma_kept_by_filter(
        residuals,
        |r: EntityObservationResidual| residual_survives(r, captured, epoch),
        fact,
    );
}

proof fn lemma_first_survives(
    residuals: Seq<EntityObservationResidual>,
    keep: spec_fn(EntityObservationResidual) -> bool,
    entity: EntityIdentity,
    at: int,
)
    requires
        residual_at(residuals, entity, at),
        keep(residuals[at]),
    ensures
        exists|j: int| #[trigger]
            residual_at(residuals.filter(keep), entity, j) && residuals.filter(keep)[j]
                == residuals[at],
    decreases residuals.len(),
{
    reveal(Seq::filter);
    let rest = residuals.drop_last();
    let kept = residuals.filter(keep);
    if at < rest.len() {
        assert forall|k: int| 0 <= k < at implies (#[trigger] rest[k]).entity != entity by {
            assert(rest[k] == residuals[k]);
        }
        assert(residual_at(rest, entity, at));
        lemma_first_survives(rest, keep, entity, at);
        let j = choose|j: int| #[trigger]
            residual_at(rest.filter(keep), entity, j) && rest.filter(keep)[j] == rest[at];
        assert forall|k: int| 0 <= k < j implies (#[trigger] kept[k]).entity != entity by {
            assert(rest.filter(keep)[k] == kept[k]);
        }
        assert(residual_at(kept, entity, j) && kept[j] == residuals[at]);
    } else {
        let j = rest.filter(keep).len() as int;
        assert forall|k: int| 0 <= k < j implies (#[trigger] kept[k]).entity != entity by {
            assert(rest.filter(keep)[k] == kept[k]);
            rest.lemma_filter_contains_rev(keep, rest.filter(keep)[k]);
            let i = choose|i: int| 0 <= i < rest.len() && rest[i] == kept[k];
            assert(residuals[i] == rest[i]);
        }
        assert(residual_at(kept, entity, j) && kept[j] == residuals[at]);
    }
}

proof fn lemma_listed_contains(
    list: Seq<Arc<NormalizedEntitySnapshot>>,
    entity: Arc<NormalizedEntitySnapshot>,
)
    ensures
        listed(list).contains(entity) <==> list.contains(entity),
        listed(list).len() == list.len(),
{
    law_listing_is_a_permutation(list);
    listed(list).to_multiset_ensures();
    list.to_multiset_ensures();
    assert(listed(list).to_multiset().count(entity) == list.to_multiset().count(entity));
}

/// A captured entity of which packets told more is published with that: the head
/// turn and the velocity that were told replace the captured ones.
pub proof fn law_a_refresh_publishes_what_packets_told(
    captured: Seq<Arc<NormalizedEntitySnapshot>>,
    residuals: Seq<EntityObservationResidual>,
    epoch: u64,
    i: int,
    at: int,
)
    requires
        0 <= i < captured.len(),
        captured[i].identity.epoch == epoch,
        0 <= at < residuals.len(),
        residuals[at].entity == captured[i].identity,
        forall|k: int|
            0 <= k < at ==> (#[trigger] residuals[k]).entity != captured[i].identity,
    ensures
        refreshed_entities(captured, residuals, epoch).len() == captured.len(),
        refreshed_entities(captured, residuals, epoch).contains(
            Arc::new(
                NormalizedEntitySnapshot {
                    head_yaw: if residuals[at].head_yaw is Some {
                        residuals[at].head_yaw
                    } else {
                        captured[i].head_yaw
                    },
                    velocity: if residuals[at].velocity is Some {
                        residuals[at].velocity->0
                    } else {
                        captured[i].velocity
                    },
                    ..*captured[i]
                },
            ),
        ),
{
    let entity = captured[i].identity;
    let keep = |r: EntityObservationResidual| residual_survives(r, captured, epoch);
    let survivors = surviving_residuals(residuals, captured, epoch);
    assert(residual_at(residuals, entity, at));
    assert(keep(residuals[at]));
    lemma_first_survives(residuals, keep, entity, at);
    let j = choose|j: int| #[trigger]
        residual_at(residuals.filter(keep), entity, j) && residuals.filter(keep)[j]
            == residuals[at];
    let found = residual_position(survivors, entity);
    assert(residual_at(survivors, entity, j));
    assert(residual_at(survivors, entity, found));
    if found < j {
        assert(survivors[found].entity != entity);
    } else if j < found {
        assert(survivors[j].entity != entity);
    }
    let published = Seq::new(captured.len(), |k: int| overlaid(captured[k], survivors, epoch));
    assert(published[i] == overlaid(captured[i], survivors, epoch));
    lemma_listed_contains(published, published[i]);
}

/// A captured entity of which packets told nothing is published as captured.
pub proof fn law_a_refresh_publishes_what_was_captured(
    captured: Seq<Arc<NormalizedEntitySnapshot>>,
    residuals: Seq<EntityObservationResidual>,
    epoch: u64,
    i: int,
)
    requires
        0 <= i < captured.len(),
        captured[i].identity.epoch != epoch || forall|k: int|
            0 <= k < residuals.len() ==> (#[trigger] residuals[k]).entity != captured[i].identity,
    ensures
        refreshed_entities(captured, residuals, epoch).contains(captured[i]),
{
    let entity = captured[i].identity;
    let keep = |r: EntityObservationResidual| residual_survives(r, captured, epoch);
    let survivors = surviving_residuals(residuals, captured, epoch);
    if captured[i].identity.epoch == epoch {
        assert forall|at: int| !#[trigger] residual_at(survivors, entity, at) by {
            if residual_at(survivors, entity, at) {
                residuals.lemma_filter_contains_rev(keep, survivors[at]);
                let k = choose|k: int| 0 <= k < residuals.len() && residuals[k] == survivors[at];
                assert(residuals[k].entity == entity);
            }
        }
    }
    let published = Seq::new(captured.len(), |k: int| overlaid(captured[k], survivors, epoch));
    assert(published[i] == captured[i]);
    lemma_listed_contains(published, published[i]);
}

/// Once everything is withdrawn nothing is published, and whoever looks again
/// sees that something has changed.
pub proof fn law_withdrawn_observations_are_gone(observation: ObservationView)
    ensures
        ({
            let after = observation.cleared();
            &&& after.world is None
            &&& after.snapshot is None
            &&& after.snapshot_scope_generation == 0
            &&& after.source is None
            &&& after.tracked_entities.len() == 0
            &&& after.entity_residuals.len() == 0
            &&& after.armor is None
            &&& after.armor_epoch is None
            &&& after.light.context is None
            &&& after.light.chunks == Map::<i64, crate::light::ChunkLight>::empty()
            &&& after.generation != observation.generation
        }),
{
}

} // verus!
