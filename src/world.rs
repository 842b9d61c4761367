//! The entity store: generational handles, component slots, the queue of
//! deferred creations, and the resources.
use vstd::prelude::*;
use crate::geom::{Point, point_ok, COORD_LIMIT};
use crate::components::{
    EnemyType,
    Position, Velocity, Hitbox, HP, Bullet, Enemy, Player, Sprite, AnimatedSprite, ColorRect, Star,
    Explosion,
};
use crate::resources::{
    PlayerEntity, Dead, CurrentWave, FramesToNextWave, QueuedEnemies, QueuedSounds, HPText,
    LastUpdate, StarInfo, Config,
};

verus! {

/// A handle to an entity. A slot's generation grows each time the slot is
/// reused, so a handle to a deleted entity never refers to a later one.
#[derive(Clone, Copy, Debug, PartialEq, Eq, Structural)]
pub struct Entity {
    pub index: usize,
    pub generation: u64,
}

/// The components of one entity; `None` where it lacks one.
#[derive(Clone, Copy, Debug)]
pub struct EntityData {
    pub position: Option<Position>,
    pub velocity: Option<Velocity>,
    pub hitbox: Option<Hitbox>,
    pub hp: Option<HP>,
    pub bullet: Option<Bullet>,
    pub enemy: Option<Enemy>,
    pub player: Option<Player>,
    pub sprite: Option<Sprite>,
    pub animated_sprite: Option<AnimatedSprite>,
    pub color_rect: Option<ColorRect>,
    pub star: Option<Star>,
    pub explosion: Option<Explosion>,
}

pub open spec fn empty_data() -> EntityData {
    EntityData {
        position: None,
        velocity: None,
        hitbox: None,
        hp: None,
        bullet: None,
        enemy: None,
        player: None,
        sprite: None,
        animated_sprite: None,
        color_rect: None,
        star: None,
        explosion: None,
    }
}

impl EntityData {
    /// An entity with no components.
    pub fn empty() -> (r: EntityData)
        ensures
            r == empty_data(),
    {
        EntityData {
            position: None,
            velocity: None,
            hitbox: None,
            hp: None,
            bullet: None,
            enemy: None,
            player: None,
            sprite: None,
            animated_sprite: None,
            color_rect: None,
            star: None,
            explosion: None,
        }
    }
}

/// Storage for one entity. `doomed` marks a deletion that takes effect at the
/// next `maintain`.
#[derive(Clone, Copy, Debug)]
pub struct Slot {
    pub generation: u64,
    pub alive: bool,
    pub doomed: bool,
    pub data: EntityData,
}

/// The singleton resources.
#[derive(Clone, Debug)]
pub struct Resources {
    pub player_entity: PlayerEntity,
    pub dead: Dead,
    pub current_wave: CurrentWave,
    pub frames_to_next_wave: FramesToNextWave,
    pub queued_enemies: QueuedEnemies,
    pub queued_sounds: QueuedSounds,
    pub hp_text: HPText,
    pub last_update: LastUpdate,
    pub star_info: StarInfo,
}

/// The whole simulation state.
#[derive(Clone, Debug)]
pub struct World {
    pub slots: Vec<Slot>,
    /// Entities created during a tick, added to the store by `maintain`.
    pub spawn_queue: Vec<EntityData>,
    pub res: Resources,
    pub config: Config,
}

/// Position and velocity, where present, lie in the coordinate range.
pub open spec fn data_wf(d: EntityData) -> bool {
    &&& d.position is Some ==> point_ok(d.position.unwrap().0)
    &&& d.velocity is Some ==> point_ok(d.velocity.unwrap().0)
}

fn point_in_range(p: Point) -> (r: bool)
    ensures
        r == point_ok(p),
{
    -COORD_LIMIT <= p.x && p.x <= COORD_LIMIT && -COORD_LIMIT <= p.y && p.y <= COORD_LIMIT
}

fn data_ok(d: &EntityData) -> (r: bool)
    ensures
        r == data_wf(*d),
{
    (match d.position {
        Some(p) => point_in_range(p.0),
        None => true,
    }) && (match d.velocity {
        Some(v) => point_in_range(v.0),
        None => true,
    })
}

pub open spec fn slots_wf(s: Seq<Slot>) -> bool {
    forall|i: int| 0 <= i < s.len() ==> data_wf(#[trigger] s[i].data)
}

pub open spec fn queue_wf(q: Seq<EntityData>) -> bool {
    forall|k: int| 0 <= k < q.len() ==> data_wf(#[trigger] q[k])
}

pub open spec fn roster_wf(r: Seq<(Point, EnemyType)>) -> bool {
    forall|k: int| 0 <= k < r.len() ==> point_ok(#[trigger] r[k].0)
}

/// Handles that were live stay live with their data unless they were
/// doomed; doomed ones and handles that were already dead are dead.
pub open spec fn keeps_handles(old: Seq<Slot>, new: Seq<Slot>) -> bool {
    &&& old.len() <= new.len()
    &&& forall|i: int|
        0 <= i < old.len() && old[i].alive && !old[i].doomed ==> #[trigger] new[i] == old[i]
    &&& forall|i: int|
        0 <= i < old.len() && !(old[i].alive && !old[i].doomed) ==> !#[trigger] new[i].alive
            || new[i].generation > old[i].generation
}

/// The deferred changes were applied: the queue is empty, resources and tuning
/// are unchanged, and handles are kept as `keeps_handles` says.
pub open spec fn flushed(old: World, new: World) -> bool {
    &&& new.spawn_queue@.len() == 0
    &&& new.res == old.res
    &&& new.config == old.config
    &&& keeps_handles(old.slots@, new.slots@)
}

/// The queued entities of `old` are live in `new` at the handles `hs`, in queue
/// order, at distinct slots that held no surviving entity.
pub open spec fn spawned_queue(old: World, new: World, hs: Seq<Entity>) -> bool {
    &&& hs.len() == old.spawn_queue@.len()
    &&& forall|k: int|
        0 <= k < hs.len() ==> new.live(#[trigger] hs[k]) && new.slots@[hs[k].index as int].data
            == old.spawn_queue@[k] && !new.slots@[hs[k].index as int].doomed
    &&& forall|k1: int, k2: int|
        0 <= k1 < k2 < hs.len() ==> #[trigger] hs[k1].index != #[trigger] hs[k2].index
    &&& forall|k: int|
        0 <= k < hs.len() && hs[k].index < old.slots@.len() ==> !(old.slots@[#[trigger] hs[k].index as int].alive
            && !old.slots@[hs[k].index as int].doomed)
}

pub proof fn lemma_slots_wf_update(s: Seq<Slot>, i: int, slot: Slot)
    requires
        slots_wf(s),
        data_wf(slot.data),
        0 <= i < s.len(),
    ensures
        slots_wf(s.update(i, slot)),
{
    assert forall|j: int| 0 <= j < s.len() implies data_wf(#[trigger] s.update(i, slot)[j].data) by {
        if j != i {
            assert(s.update(i, slot)[j] == s[j]);
        }
    }
}

pub proof fn lemma_slots_wf_push(s: Seq<Slot>, slot: Slot)
    requires
        slots_wf(s),
        data_wf(slot.data),
    ensures
        slots_wf(s.push(slot)),
{
    assert forall|j: int| 0 <= j < s.len() + 1 implies data_wf(#[trigger] s.push(slot)[j].data) by {
        if j < s.len() {
            assert(s.push(slot)[j] == s[j]);
        }
    }
}

pub proof fn lemma_queue_wf_push(q: Seq<EntityData>, d: EntityData)
    requires
        queue_wf(q),
        data_wf(d),
    ensures
        queue_wf(q.push(d)),
{
    assert forall|j: int| 0 <= j < q.len() + 1 implies data_wf(#[trigger] q.push(d)[j]) by {
        if j < q.len() {
            assert(q.push(d)[j] == q[j]);
        }
    }
}

impl World {
    /// Every position and velocity that the world holds or will create, every
    /// queued enemy position and the tuned velocities lie in the coordinate
    /// range, and the star parameters are bounded.
    pub open spec fn wf(&self) -> bool {
        &&& slots_wf(self.slots@)
        &&& queue_wf(self.spawn_queue@)
        &&& roster_wf(self.res.queued_enemies.0@)
        &&& self.config.wf()
        &&& self.res.star_info.wf()
    }

    pub open spec fn live(&self, e: Entity) -> bool {
        &&& e.index < self.slots@.len()
        &&& self.slots@[e.index as int].alive
        &&& self.slots@[e.index as int].generation == e.generation
    }

    /// An empty world with the given tuning; its player handle refers to nothing
    /// until a player is created.
    pub fn new(config: Config, star_info: StarInfo) -> (r: World)
        ensures
            config.wf() && star_info.wf() ==> r.wf(),
            r.slots@.len() == 0,
            r.spawn_queue@.len() == 0,
            r.config == config,
            r.res.star_info == star_info,
            r.res.dead == Dead(false),
            r.res.current_wave == CurrentWave(0),
            r.res.frames_to_next_wave == FramesToNextWave(0),
            r.res.queued_enemies.0@.len() == 0,
            r.res.queued_sounds.0@.len() == 0,
            r.res.hp_text == (HPText { needs_redraw: false }),
            r.res.last_update == LastUpdate(0),
            r.res.player_entity == PlayerEntity(Entity { index: 0, generation: 0 }),
    {
        World {
            slots: Vec::new(),
            spawn_queue: Vec::new(),
            res: Resources {
                player_entity: PlayerEntity(Entity { index: 0, generation: 0 }),
                dead: Dead(false),
                current_wave: CurrentWave(0),
                frames_to_next_wave: FramesToNextWave(0),
                queued_enemies: QueuedEnemies(Vec::new()),
                queued_sounds: QueuedSounds(Vec::new()),
                hp_text: HPText { needs_redraw: false },
                last_update: LastUpdate(0),
                star_info,
            },
            config,
        }
    }

    /// Tests `wf`.
    pub fn is_well_formed(&self) -> (r: bool)
        ensures
            r == self.wf(),
    {
        let mut i: usize = 0;
        while i < self.slots.len()
            invariant
                i <= self.slots@.len(),
                forall|j: int| 0 <= j < i ==> data_wf(#[trigger] self.slots@[j].data),
            decreases self.slots@.len() - i,
        {
            if !data_ok(&self.slots[i].data) {
                return false;
            }
            i += 1;
        }
        let mut k: usize = 0;
        while k < self.spawn_queue.len()
            invariant
                k <= self.spawn_queue@.len(),
                forall|j: int| 0 <= j < k ==> data_wf(#[trigger] self.spawn_queue@[j]),
            decreases self.spawn_queue@.len() - k,
        {
            if !data_ok(&self.spawn_queue[k]) {
                return false;
            }
            k += 1;
        }
        let mut q: usize = 0;
        while q < self.res.queued_enemies.0.len()
            invariant
                q <= self.res.queued_enemies.0@.len(),
                forall|j: int| 0 <= j < q ==> point_ok(#[trigger] self.res.queued_enemies.0@[j].0),
            decreases self.res.queued_enemies.0@.len() - q,
        {
            if !point_in_range(self.res.queued_enemies.0[q].0) {
                return false;
            }
            q += 1;
        }
        let c = &self.config;
        let si = &self.res.star_info;
        -COORD_LIMIT <= c.basic_bullet_speed && c.basic_bullet_speed <= COORD_LIMIT
            && point_in_range(c.bounce_bullet_velocity) && -1_000_000_000 <= si.size && si.size
            <= 1_000_000_000 && -1_000_000_000 <= si.vel && si.vel <= 1_000_000_000
            && si.size_variance <= 1_000_000_000 && si.vel_variance <= 1_000_000_000
    }

    pub fn is_alive(&self, e: Entity) -> (r: bool)
        ensures
            r == self.live(e),
    {
        e.index < self.slots.len() && self.slots[e.index].alive && self.slots[e.index].generation
            == e.generation
    }

    /// The components of a live entity.
    pub fn get(&self, e: Entity) -> (r: Option<EntityData>)
        ensures
            self.live(e) ==> r == Some(self.slots@[e.index as int].data),
            !self.live(e) ==> r is None,
    {
        if self.is_alive(e) {
            Some(self.slots[e.index].data)
        } else {
            None
        }
    }

    /// Creates an entity at once, in a free slot or a new one.
    pub fn create_entity(&mut self, data: EntityData) -> (r: Entity)
        requires
            data_wf(data),
        ensures
            old(self).wf() ==> final(self).wf(),
            final(self).spawn_queue == old(self).spawn_queue,
            final(self).res == old(self).res,
            final(self).config == old(self).config,
            r.index <= old(self).slots@.len(),
            final(self).slots@.len() == if r.index < old(self).slots@.len() {
                old(self).slots@.len()
            } else {
                old(self).slots@.len() + 1
            },
            final(self).slots@[r.index as int] == (Slot {
                generation: r.generation,
                alive: true,
                doomed: false,
                data,
            }),
            r.index < old(self).slots@.len() ==> !old(self).slots@[r.index as int].alive
                && r.generation > old(self).slots@[r.index as int].generation,
            forall|j: int|
                0 <= j < old(self).slots@.len() && j != r.index ==> #[trigger] final(self).slots@[j]
                    == old(self).slots@[j],
    {
        let n = self.slots.len();
        let mut i: usize = 0;
        while i < n
            invariant
                n == self.slots@.len(),
                i <= n,
                *self == *old(self),
                data_wf(data),
                forall|j: int|
                    0 <= j < i ==> #[trigger] self.slots@[j].alive || self.slots@[j].generation
                        == u64::MAX,
            decreases n - i,
        {
            let s = self.slots[i];
            if !s.alive && s.generation < u64::MAX {
                let generation = s.generation + 1;
                let ghost before = self.slots@;
                self.slots[i] = Slot { generation, alive: true, doomed: false, data };
                proof {
                    if old(self).wf() {
                        lemma_slots_wf_update(before, i as int, Slot { generation, alive: true, doomed: false, data });
                    }
                }
                return Entity { index: i, generation };
            }
            i += 1;
        }
        let ghost before = self.slots@;
        self.slots.push(Slot { generation: 1, alive: true, doomed: false, data });
        proof {
            if old(self).wf() {
                lemma_slots_wf_push(before, Slot { generation: 1, alive: true, doomed: false, data });
            }
        }
        Entity { index: n, generation: 1 }
    }

    /// Marks a live entity for deletion at the next `maintain`. Deleting an entity
    /// that is dead or already marked changes nothing and returns `false`.
    pub fn delete(&mut self, e: Entity) -> (r: bool)
        ensures
            old(self).wf() ==> final(self).wf(),
            r == (old(self).live(e) && !old(self).slots@[e.index as int].doomed),
            r ==> final(self).slots@ == old(self).slots@.update(
                e.index as int,
                Slot { doomed: true, ..old(self).slots@[e.index as int] },
            ),
            !r ==> final(self).slots@ == old(self).slots@,
            final(self).spawn_queue == old(self).spawn_queue,
            final(self).res == old(self).res,
            final(self).config == old(self).config,
    {
        if self.is_alive(e) && !self.slots[e.index].doomed {
            let mut s = self.slots[e.index];
            s.doomed = true;
            let ghost before = self.slots@;
            self.slots[e.index] = s;
            proof {
                if old(self).wf() {
                    lemma_slots_wf_update(before, e.index as int, s);
                }
            }
            true
        } else {
            false
        }
    }

    /// Queues an entity to be created at the next `maintain`.
    pub fn queue_spawn(&mut self, data: EntityData)
        requires
            data_wf(data),
        ensures
            old(self).wf() ==> final(self).wf(),
            final(self).spawn_queue@ == old(self).spawn_queue@.push(data),
            final(self).slots == old(self).slots,
            final(self).res == old(self).res,
            final(self).config == old(self).config,
    {
        self.spawn_queue.push(data);
        proof {
            if old(self).wf() {
                lemma_queue_wf_push(old(self).spawn_queue@, data);
            }
        }
    }

    /// Applies the deferred changes: removes the entities marked for deletion, then
    /// creates the queued ones in order. Returns the handles of the new entities.
    pub fn maintain(&mut self) -> (r: Vec<Entity>)
        requires
            old(self).wf(),
        ensures
            flushed(*old(self), *final(self)),
            spawned_queue(*old(self), *final(self), r@),
            final(self).wf(),
    {
        let n = self.slots.len();
        let mut i: usize = 0;
        while i < n
            invariant
                n == self.slots@.len() == old(self).slots@.len(),
                i <= n,
                self.spawn_queue == old(self).spawn_queue,
                self.res == old(self).res,
                self.config == old(self).config,
                old(self).wf(),
                slots_wf(self.slots@),
                forall|j: int|
                    0 <= j < i ==> #[trigger] self.slots@[j] == if old(self).slots@[j].doomed
                        && old(self).slots@[j].alive {
                        Slot { alive: false, doomed: false, ..old(self).slots@[j] }
                    } else {
                        old(self).slots@[j]
                    },
                forall|j: int| i <= j < n ==> #[trigger] self.slots@[j] == old(self).slots@[j],
            decreases n - i,
        {
            let s = self.slots[i];
            if s.alive && s.doomed {
                let ghost before = self.slots@;
                self.slots[i] = Slot { alive: false, doomed: false, ..s };
                proof {
                    lemma_slots_wf_update(before, i as int, Slot { alive: false, doomed: false, ..s });
                }
            }
            i += 1;
        }
        let ghost swept = self.slots@;
        let mut queue: Vec<EntityData> = Vec::new();
        std::mem::swap(&mut queue, &mut self.spawn_queue);
        let mut created: Vec<Entity> = Vec::new();
        let mut k: usize = 0;
        while k < queue.len()
            invariant
                k <= queue@.len(),
                queue@ == old(self).spawn_queue@,
                self.spawn_queue@.len() == 0,
                old(self).wf(),
                self.wf(),
                self.res == old(self).res,
                self.config == old(self).config,
                swept.len() == old(self).slots@.len(),
                forall|j: int|
                    0 <= j < swept.len() ==> #[trigger] swept[j] == if old(self).slots@[j].doomed
                        && old(self).slots@[j].alive {
                        Slot { alive: false, doomed: false, ..old(self).slots@[j] }
                    } else {
                        old(self).slots@[j]
                    },
                keeps_handles(old(self).slots@, self.slots@),
                forall|i: int|
                    0 <= i < old(self).slots@.len() ==> #[trigger] self.slots@[i].generation
                        >= old(self).slots@[i].generation,
                created@.len() == k,
                forall|c: int|
                    0 <= c < k ==> self.live(#[trigger] created@[c])
                        && self.slots@[created@[c].index as int].data == queue@[c]
                        && !self.slots@[created@[c].index as int].doomed,
                forall|c1: int, c2: int|
                    0 <= c1 < c2 < k ==> #[trigger] created@[c1].index
                        != #[trigger] created@[c2].index,
                forall|c: int|
                    0 <= c < k && created@[c].index < old(self).slots@.len() ==> !(old(
                        self,
                    ).slots@[#[trigger] created@[c].index as int].alive && !old(
                        self,
                    ).slots@[created@[c].index as int].doomed),
            decreases queue@.len() - k,
        {
            let ghost before = self.slots@;
            let e = self.create_entity(queue[k]);
            proof {
                assert forall|c: int| 0 <= c < k implies created@[c].index != e.index by {
                    assert(before[created@[c].index as int].alive);
                }
                let o = old(self).slots@;
                assert forall|i: int|
                    0 <= i < o.len() && !(o[i].alive && !o[i].doomed) implies !#[trigger] self.slots@[i].alive
                    || self.slots@[i].generation > o[i].generation by {
                    if i == e.index {
                        assert(before[i].generation >= o[i].generation);
                    }
                }
                assert forall|i: int|
                    0 <= i < o.len() && o[i].alive && !o[i].doomed implies #[trigger] self.slots@[i] == o[i] by {
                    if i == e.index {
                        assert(before[i] == o[i]);
                    }
                }
            }
            created.push(e);
            k += 1;
        }
        created
    }
}

} // verus!
