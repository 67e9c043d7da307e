use crate::geom::{
    screen_to_world_x, screen_to_world_y, world_to_screen_x, world_to_screen_y, Position, Size,
};
use vstd::prelude::*;

verus! {

/// The kind of a spawned entity. The kinds carry no data and no behaviour of
/// their own; they only tag an entry of the store.
#[derive(Clone, Copy, Debug, PartialEq, Eq, Structural)]
pub enum EntityType {
    Turret,
    Conveyor,
    Bullet,
    Enemy,
}

/// The whole game state: a camera, the viewport it looks through, and the
/// entity store. The store is a pair of parallel lists; the i-th position and
/// the i-th type together make the i-th entity.
pub struct Game {
    pub screen_size: Size,
    pub camera_position: Position,
    pub positions: Vec<Position>,
    pub entity_types: Vec<EntityType>,
}

impl Game {
    /// The store's invariant: the two parallel lists have the same length.
    pub open spec fn wf(self) -> bool {
        self.positions@.len() == self.entity_types@.len()
    }

    /// The stored entities as one sequence of (position, type) pairs, in
    /// insertion order.
    pub open spec fn entities(self) -> Seq<(Position, EntityType)> {
        Seq::new(self.positions@.len(), |i: int| (self.positions@[i], self.entity_types@[i]))
    }

    /// An empty game: no entities, camera at the origin, and a zero-size
    /// viewport to be replaced once the real window size is known.
    pub fn new() -> (g: Game)
        ensures
            g.screen_size == (Size { width: 0, height: 0 }),
            g.camera_position == (Position { x: 0, y: 0 }),
            g.entities() == Seq::<(Position, EntityType)>::empty(),
            g.wf(),
    {
        let g = Game {
            screen_size: Size { width: 0, height: 0 },
            camera_position: Position::new(0, 0),
            positions: Vec::new(),
            entity_types: Vec::new(),
        };
        proof {
            assert(g.entities() =~= Seq::<(Position, EntityType)>::empty());
        }
        g
    }

    /// Appends one entity to the store. There is no validation, no capacity
    /// limit and no error condition; camera and viewport are untouched, and
    /// the parallel lists stay the same length as each other.
    pub fn add_entity(&mut self, position: Position, entity_type: EntityType)
        ensures
            final(self).positions@ == old(self).positions@.push(position),
            final(self).entity_types@ == old(self).entity_types@.push(entity_type),
            final(self).screen_size == old(self).screen_size,
            final(self).camera_position == old(self).camera_position,
            old(self).wf() ==> final(self).wf(),
            old(self).wf() ==> final(self).entities() == old(self).entities().push(
                (position, entity_type),
            ),
    {
        self.positions.push(position);
        self.entity_types.push(entity_type);
        proof {
            if old(self).wf() {
                assert(self.entities() =~= old(self).entities().push((position, entity_type)));
            }
        }
    }

    /// How many entities the store holds.
    pub fn entity_count(&self) -> (n: usize)
        ensures
            n == self.entities().len(),
    {
        self.positions.len()
    }

    /// The i-th entity in insertion order. Indexing from 0 up to
    /// `entity_count()` iterates the whole store; nothing is consumed, so the
    /// iteration can be restarted freely.
    pub fn entity_at(&self, i: usize) -> (e: (Position, EntityType))
        requires
            self.wf(),
            i < self.entities().len(),
        ensures
            e == self.entities()[i as int],
    {
        (self.positions[i], self.entity_types[i])
    }

    /// Converts a screen-space point (origin top-left) to the world-space
    /// point it covers, with the camera centred on the viewport. The viewport
    /// and the result must fit the coordinate type; the machine-sized bounds
    /// are the only restriction.
    pub fn screen_to_world(&self, screen_position: &Position) -> (world: Position)
        requires
            self.screen_size.width <= i32::MAX,
            self.screen_size.height <= i32::MAX,
            i32::MIN <= screen_to_world_x(
                self.camera_position.x as int,
                self.screen_size.width as int,
                screen_position.x as int,
            ) <= i32::MAX,
            i32::MIN <= screen_to_world_y(
                self.camera_position.y as int,
                self.screen_size.height as int,
                screen_position.y as int,
            ) <= i32::MAX,
        ensures
            world.x == screen_to_world_x(
                self.camera_position.x as int,
                self.screen_size.width as int,
                screen_position.x as int,
            ),
            world.y == screen_to_world_y(
                self.camera_position.y as int,
                self.screen_size.height as int,
                screen_position.y as int,
            ),
    {
        let half_width: u32 = self.screen_size.width / 2;
        let half_height: u32 = self.screen_size.height / 2;
        let x64: i64 = self.camera_position.x as i64 - half_width as i64 + screen_position.x as i64;
        let y64: i64 = self.camera_position.y as i64 + half_height as i64
            + screen_position.y as i64;
        Position { x: x64 as i32, y: y64 as i32 }
    }

    /// Converts a world-space point to the screen-space pixel that shows it,
    /// with the camera centred on the viewport. Inverse of `screen_to_world`
    /// wherever both directions fit the coordinate type.
    pub fn world_to_screen(&self, world_position: &Position) -> (screen: Position)
        requires
            self.screen_size.width <= i32::MAX,
            self.screen_size.height <= i32::MAX,
            i32::MIN <= world_to_screen_x(
                self.camera_position.x as int,
                self.screen_size.width as int,
                world_position.x as int,
            ) <= i32::MAX,
            i32::MIN <= world_to_screen_y(
                self.camera_position.y as int,
                self.screen_size.height as int,
                world_position.y as int,
            ) <= i32::MAX,
        ensures
            screen.x == world_to_screen_x(
                self.camera_position.x as int,
                self.screen_size.width as int,
                world_position.x as int,
            ),
            screen.y == world_to_screen_y(
                self.camera_position.y as int,
                self.screen_size.height as int,
                world_position.y as int,
            ),
    {
        let half_width: u32 = self.screen_size.width / 2;
        let half_height: u32 = self.screen_size.height / 2;
        let x64: i64 = world_position.x as i64 - self.camera_position.x as i64 + half_width as i64;
        let y64: i64 = world_position.y as i64 - self.camera_position.y as i64
            - half_height as i64;
        Position { x: x64 as i32, y: y64 as i32 }
    }
}

/// The entity list after a run of appends: each entry of `added` is pushed in
/// turn, exactly as a run of `add_entity` calls pushes its arguments.
pub open spec fn push_all(
    entries: Seq<(Position, EntityType)>,
    added: Seq<(Position, EntityType)>,
) -> Seq<(Position, EntityType)>
    decreases added.len(),
{
    if added.len() == 0 {
        entries
    } else {
        push_all(entries.push(added[0]), added.subrange(1, added.len() as int))
    }
}

/// Law: a run of appends yields exactly its entries, in call order. After any
/// run of `add_entity` calls the store holds the entries it held before,
/// followed by the appended pairs, one each, in the order of the calls; so
/// iterating a store built by N appends from empty yields exactly those N
/// pairs in call order.
pub proof fn lemma_adds_yield_call_order(
    entries: Seq<(Position, EntityType)>,
    added: Seq<(Position, EntityType)>,
)
    ensures
        push_all(entries, added) == entries + added,
    decreases added.len(),
{
    if added.len() == 0 {
        assert(push_all(entries, added) =~= entries + added);
    } else {
        let rest = added.subrange(1, added.len() as int);
        lemma_adds_yield_call_order(entries.push(added[0]), rest);
        assert(entries.push(added[0]) + rest =~= entries + added);
    }
}

} // verus!
