use vstd::prelude::*;
use legion::prelude::{Entity, World};
use crate::components::{Health, Position, Static};
use crate::entity_log::{append_log_lines, log_lines};

verus! {

/// legion's `World`, the store of entities and their components; opaque here.
#[verifier::external_type_specification]
#[verifier::external_body]
pub struct ExWorld(legion::prelude::World);

/// legion's `Entity`, a handle to one entity of a world; opaque here.
#[verifier::external_type_specification]
#[verifier::external_body]
pub struct ExEntity(legion::prelude::Entity);

/// What a world holds about one entity: its handle, its `Position` and
/// `Health` components if it has them, and whether it carries the `Static` tag.
pub type EntityRecord = (Entity, Option<Position>, Option<Health>, bool);

/// The records of a world's entities, in the order in which
/// `World::iter_entities` walks them.
pub uninterp spec fn world_records(w: World) -> Seq<EntityRecord>;

/// The text that legion's `Display` gives an entity handle.
pub uninterp spec fn entity_label(e: Entity) -> Seq<char>;

/// The records that a batch insertion of entities with a position and a health creates.
pub open spec fn moving_records(
    entities: Seq<Entity>,
    items: Seq<(Position, Health)>,
) -> Seq<EntityRecord> {
    Seq::new(items.len(), |i: int| (entities[i], Some(items[i].0), Some(items[i].1), false))
}

/// The records that a batch insertion of static entities with a position creates.
pub open spec fn static_records(entities: Seq<Entity>, items: Seq<Position>) -> Seq<EntityRecord> {
    Seq::new(items.len(), |i: int| (entities[i], Some(items[i]), None, true))
}

/// Relies on legion's `World::insert`, with no tag: one new entity for each
/// item, holding that item's components, and no other entity changed. The
/// new handles come back in the order of the items.
#[verifier::external_body]
fn insert_moving(world: &mut World, items: Vec<(Position, Health)>) -> (r: Vec<Entity>)
    ensures
        r@.len() == items@.len(),
        world_records(*final(world)).to_multiset() == world_records(*old(world)).to_multiset().add(
            moving_records(r@, items@).to_multiset(),
        ),
{
    world.insert((), items).to_vec()
}

/// Relies on legion's `World::insert`, with the `Static` tag: one new
/// entity for each position, tagged, and no other entity changed. The new
/// handles come back in the order of the items.
#[verifier::external_body]
fn insert_static(world: &mut World, items: Vec<Position>) -> (r: Vec<Entity>)
    ensures
        r@.len() == items@.len(),
        world_records(*final(world)).to_multiset() == world_records(*old(world)).to_multiset().add(
            static_records(r@, items@).to_multiset(),
        ),
{
    world.insert((Static,), items.into_iter().map(|p| (p,))).to_vec()
}

/// Relies on legion's `World::iter_entities`: every entity of the world, once each.
#[verifier::external_body]
fn entities(world: &World) -> (r: Vec<Entity>)
    ensures
        r@ == world_records(*world).map_values(|rec: EntityRecord| rec.0),
{
    world.iter_entities().collect()
}

/// Relies on legion's `Display` for `Entity`, which writes the handle's index and version.
#[verifier::external_body]
fn label_of(e: &Entity) -> (r: String)
    ensures
        r@ == entity_label(*e),
{
    e.to_string()
}

/// How many entities of each kind the test scene spawns.
pub const TEST_BATCH: usize = 999;

pub open spec fn origin() -> Position {
    Position { x: 0, y: 0 }
}

pub open spec fn unhurt() -> Health {
    Health { hp: 0, last_damaged_by: 0 }
}

/// Spawns the test scene's entities: `TEST_BATCH` with a position at the
/// origin and a zero health, then `TEST_BATCH` tagged `Static` with a
/// position at the origin. Returns the handles of both batches.
pub fn spawn_test_entities(world: &mut World) -> (r: (Vec<Entity>, Vec<Entity>))
    ensures
        r.0@.len() == TEST_BATCH,
        r.1@.len() == TEST_BATCH,
        world_records(*final(world)).to_multiset() == world_records(*old(world)).to_multiset().add(
            moving_records(r.0@, Seq::new(TEST_BATCH as nat, |i: int| (origin(), unhurt()))).to_multiset(),
        ).add(static_records(r.1@, Seq::new(TEST_BATCH as nat, |i: int| origin())).to_multiset()),
        world_records(*final(world)).len() == world_records(*old(world)).len() + 2 * TEST_BATCH,
{
    let mut moving: Vec<(Position, Health)> = Vec::new();
    let mut fixed: Vec<Position> = Vec::new();
    let mut i: usize = 0;
    while i < TEST_BATCH
        invariant
            i <= TEST_BATCH,
            moving@ == Seq::new(i as nat, |j: int| (origin(), unhurt())),
            fixed@ == Seq::new(i as nat, |j: int| origin()),
        decreases TEST_BATCH - i,
    {
        moving.push((Position { x: 0, y: 0 }, Health { hp: 0, last_damaged_by: 0 }));
        fixed.push(Position { x: 0, y: 0 });
        i = i + 1;
        assert(moving@ =~= Seq::new(i as nat, |j: int| (origin(), unhurt())));
        assert(fixed@ =~= Seq::new(i as nat, |j: int| origin()));
    }
    let ghost w0 = world_records(*world);
    let a = insert_moving(world, moving);
    let ghost w1 = world_records(*world);
    let b = insert_static(world, fixed);
    let ghost w2 = world_records(*world);
    proof {
        broadcast use vstd::seq_lib::group_to_multiset_ensures;

        let grown = moving_records(a@, Seq::new(TEST_BATCH as nat, |i: int| (origin(), unhurt())));
        let tagged = static_records(b@, Seq::new(TEST_BATCH as nat, |i: int| origin()));
        assert(grown.len() == TEST_BATCH);
        assert(tagged.len() == TEST_BATCH);
        assert(w1.to_multiset().len() == w0.to_multiset().len() + grown.to_multiset().len());
        assert(w2.to_multiset().len() == w1.to_multiset().len() + tagged.to_multiset().len());
    }
    (a, b)
}

/// The labels of a world's entities, in the order in which they are walked.
pub open spec fn world_labels(w: World) -> Seq<Seq<char>> {
    world_records(w).map_values(|rec: EntityRecord| entity_label(rec.0))
}

/// Writes one log line per entity of the world, in the order in which the
/// world walks them.
pub fn log_entities(world: &World, content: &mut String)
    ensures
        final(content)@ == log_lines(old(content)@, world_labels(*world)),
{
    let ents = entities(world);
    let mut labels: Vec<String> = Vec::new();
    let mut i: usize = 0;
    while i < ents.len()
        invariant
            i <= ents@.len(),
            ents@ == world_records(*world).map_values(|rec: EntityRecord| rec.0),
            labels@.len() == i,
            forall|j: int| 0 <= j < i ==> #[trigger] labels@[j]@ == entity_label(ents@[j]),
        decreases ents@.len() - i,
    {
        let l = label_of(&ents[i]);
        labels.push(l);
        i = i + 1;
    }
    assert(labels@.map_values(|l: String| l@) =~= world_labels(*world));
    append_log_lines(content, &labels);
}

} // verus!
