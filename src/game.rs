//! The driver's decisions around the system pipeline: frame pacing, firing,
//! wave progression, steering the player, the pipeline itself, and respawning.
use vstd::prelude::*;
use crate::geom::{Point, point_ok, SUBPIXELS, clamp_coord, clamp_wide, ratio, ratio_spec, limit, limit_spec};
use crate::components::{
    EnemyTuple, EnemyType, PlayerTuple, MovementType, Sprite, SheetId, ImageId, HP, Position,
    Velocity, Player, enemy_tuple, enemy_reload, centered_span, new_enemy, enemy_with_reload,
    new_player,
};
use crate::resources::{
    Dead, CurrentWave, FramesToNextWave, HPText, LastUpdate, PlayerEntity,
};
use crate::world::{World, Slot, EntityData, Entity, Resources, empty_data, data_wf, slots_wf, lemma_slots_wf_update};
use crate::waves::{wave_roster, WaveCalcSys};
use crate::rng::random_u32_in;
use crate::movement::{
    EnemyMoveSys, BulletTrackingSys, BounceBulletSys, IntegrateSys, StarMoveSys, DeflectorSys,
    AnimationSys, StarInitSys, star_field, enemy_move_post, bullet_tracking_post, bounce_bullet_post,
    integrate_post, star_move_post, deflector_post, animation_post,
};
use crate::shooting::{
    ReloadTimerSys, EnemyShootSys, SpawnBulletSys, reload_timer_post, enemy_shoot_post,
    spawn_bullet_post,
};
use crate::combat::{
    BulletCollSys, PlayerCollSys, HPKillSys, IFrameSys, bullet_coll_post, player_coll_post,
    hp_kill_post, iframe_post,
};
use crate::world::{flushed, spawned_queue};

verus! {

/// The data of an entity built from `new_enemy`'s components, drawn from the
/// enemy sheet.
pub open spec fn enemy_entity(t: EnemyTuple) -> EntityData {
    EntityData {
        position: Some(t.0),
        velocity: Some(t.1),
        enemy: Some(t.2),
        hp: Some(t.3),
        hitbox: Some(t.4),
        sprite: Some(Sprite::SpriteSheetInstance(SheetId::Enemies, t.5)),
        ..empty_data()
    }
}

fn enemy_entity_exec(t: EnemyTuple) -> (r: EntityData)
    ensures
        r == enemy_entity(t),
{
    let mut d = EntityData::empty();
    d.position = Some(t.0);
    d.velocity = Some(t.1);
    d.enemy = Some(t.2);
    d.hp = Some(t.3);
    d.hitbox = Some(t.4);
    d.sprite = Some(Sprite::SpriteSheetInstance(SheetId::Enemies, t.5));
    d
}

/// Creates an enemy entity at once.
pub fn create_enemy(world: &mut World, enemy: EnemyTuple) -> (r: Entity)
    requires
        data_wf(enemy_entity(enemy)),
    ensures
        old(world).wf() ==> final(world).wf(),
        final(world).live(r),
        final(world).slots@[r.index as int].data == enemy_entity(enemy),
        forall|j: int|
            0 <= j < old(world).slots@.len() && old(world).slots@[j].alive ==> #[trigger] final(world).slots@[j]
                == old(world).slots@[j],
        old(world).slots@.len() <= final(world).slots@.len(),
        !final(world).slots@[r.index as int].doomed,
        final(world).res == old(world).res,
        final(world).spawn_queue == old(world).spawn_queue,
        final(world).config == old(world).config,
{
    let d = enemy_entity_exec(enemy);
    world.create_entity(d)
}

/// The data of a player entity built from `new_player`'s components.
pub open spec fn player_entity_data(t: PlayerTuple) -> EntityData {
    EntityData {
        position: Some(t.0),
        velocity: Some(t.1),
        hp: Some(t.2),
        sprite: Some(t.3),
        player: Some(t.4),
        hitbox: Some(t.5),
        ..empty_data()
    }
}

/// Creates the player entity at once.
pub fn create_player(world: &mut World, player: PlayerTuple) -> (r: Entity)
    requires
        data_wf(player_entity_data(player)),
    ensures
        old(world).wf() ==> final(world).wf(),
        final(world).live(r),
        final(world).slots@[r.index as int].data == player_entity_data(player),
        !final(world).slots@[r.index as int].doomed,
        forall|j: int|
            0 <= j < old(world).slots@.len() && old(world).slots@[j].alive ==> #[trigger] final(world).slots@[j]
                == old(world).slots@[j],
        old(world).slots@.len() <= final(world).slots@.len(),
        final(world).res == old(world).res,
        final(world).spawn_queue == old(world).spawn_queue,
        final(world).config == old(world).config,
{
    let mut d = EntityData::empty();
    d.position = Some(player.0);
    d.velocity = Some(player.1);
    d.hp = Some(player.2);
    d.sprite = Some(player.3);
    d.player = Some(player.4);
    d.hitbox = Some(player.5);
    world.create_entity(d)
}

/// The patrol of a wave enemy at `x` (horizontal, 75 pixels wide) or at
/// `pos.y` (vertical, 90 pixels high), at one pixel per tick.
pub open spec fn wave_patrol(pos: Point, vertical: bool, x: i64) -> MovementType {
    if vertical {
        MovementType::VLine(centered_span(pos.y as int, 90 * SUBPIXELS), SUBPIXELS)
    } else {
        MovementType::HLine(centered_span(x as int, 75 * SUBPIXELS), SUBPIXELS)
    }
}

/// The x coordinate of the mirror image of an enemy at `pos`.
pub open spec fn mirror_x(pos: Point, width: int) -> i64 {
    clamp_coord(width - 90 * SUBPIXELS - pos.x) as i64
}

/// A queued enemy becomes two: one at its grid position and its mirror image
/// across the playfield, with the same patrol axis and the same reload timer.
pub open spec fn enemy_pair(pos: Point, ty: EnemyType, vertical: bool, reload: u32, width: int) -> (EntityData, EntityData) {
    let mx = mirror_x(pos, width);
    (
        enemy_entity(enemy_tuple(ty, pos, wave_patrol(pos, vertical, pos.x), reload)),
        enemy_entity(enemy_tuple(ty, Point { x: mx, y: pos.y }, wave_patrol(pos, vertical, mx), reload)),
    )
}

/// Entities `a` and `b` of `w` are the pair spawned for `item`, with the patrol
/// axis and the reload timer that were drawn for it.
pub open spec fn pair_at(w: World, a: Entity, b: Entity, item: (Point, EnemyType)) -> bool {
    let da = w.slots@[a.index as int].data;
    let e = da.enemy.unwrap();
    &&& w.live(a)
    &&& w.live(b)
    &&& !w.slots@[a.index as int].doomed
    &&& !w.slots@[b.index as int].doomed
    &&& da.enemy is Some
    &&& e.reload_timer < enemy_reload(item.1) / 2
    &&& (da, w.slots@[b.index as int].data) == enemy_pair(
        item.0,
        item.1,
        e.movement is VLine,
        e.reload_timer,
        w.config.screen_width as int,
    )
}

/// `new` holds the live slots of `before` unchanged and, at the handles `hs`,
/// a pair for each item of `roster`.
pub open spec fn wave_spawned(before: Seq<Slot>, new: World, hs: Seq<Entity>, roster: Seq<(Point, EnemyType)>) -> bool {
    &&& hs.len() == 2 * roster.len()
    &&& before.len() <= new.slots@.len()
    &&& forall|j: int| 0 <= j < before.len() && before[j].alive ==> #[trigger] new.slots@[j] == before[j]
    &&& forall|k: int|
        #![trigger roster[k]]
        0 <= k < roster.len() ==> pair_at(new, hs[2 * k], hs[2 * k + 1], roster[k])
}

fn make_pair(pos: Point, ty: EnemyType, width: i64) -> (r: (EntityData, EntityData))
    requires
        point_ok(pos),
    ensures
        data_wf(r.0),
        data_wf(r.1),
        r.0.enemy is Some,
        r.0.enemy.unwrap().reload_timer < enemy_reload(ty) / 2,
        r == enemy_pair(pos, ty, r.0.enemy.unwrap().movement is VLine, r.0.enemy.unwrap().reload_timer, width as int),
{
    let vertical = random_u32_in(0, 2) == 1;
    let mx = clamp_wide(width as i128 - 90 * SUBPIXELS as i128 - pos.x as i128);
    let (m1, m2) = if vertical {
        (
            MovementType::vertical(pos.y, 90 * SUBPIXELS, SUBPIXELS),
            MovementType::vertical(pos.y, 90 * SUBPIXELS, SUBPIXELS),
        )
    } else {
        (
            MovementType::horizontal(pos.x, 75 * SUBPIXELS, SUBPIXELS),
            MovementType::horizontal(mx, 75 * SUBPIXELS, SUBPIXELS),
        )
    };
    let first = new_enemy(ty, pos, m1);
    let second = enemy_with_reload(ty, Point { x: mx, y: pos.y }, m2, first.2.reload_timer);
    (enemy_entity_exec(first), enemy_entity_exec(second))
}

impl World {
    /// Creates, at once, the mirrored pair of every queued enemy, each with a
    /// patrol axis drawn at random. Returns the handles, pair by pair.
    pub fn spawn_wave(&mut self) -> (r: Vec<Entity>)
        requires
            old(self).wf(),
        ensures
            final(self).wf(),
            wave_spawned(old(self).slots@, *final(self), r@, old(self).res.queued_enemies.0@),
            final(self).res == old(self).res,
            final(self).spawn_queue == old(self).spawn_queue,
            final(self).config == old(self).config,
    {
        let n = self.res.queued_enemies.0.len();
        let width = self.config.screen_width;
        let mut hs: Vec<Entity> = Vec::new();
        let mut k: usize = 0;
        while k < n
            invariant
                n == self.res.queued_enemies.0@.len(),
                k <= n,
                width == self.config.screen_width,
                self.res == old(self).res,
                self.spawn_queue == old(self).spawn_queue,
                self.config == old(self).config,
                hs@.len() == 2 * k,
                self.wf(),
                old(self).slots@.len() <= self.slots@.len(),
                forall|j: int|
                    0 <= j < old(self).slots@.len() && old(self).slots@[j].alive ==> #[trigger] self.slots@[j]
                        == old(self).slots@[j],
                forall|c: int|
                    #![trigger self.res.queued_enemies.0@[c]]
                    0 <= c < k ==> pair_at(*self, hs@[2 * c], hs@[2 * c + 1], self.res.queued_enemies.0@[c]),
            decreases n - k,
        {
            let (pos, ty) = self.res.queued_enemies.0[k];
            let (d1, d2) = make_pair(pos, ty, width);
            let ghost w0 = *self;
            let a = self.create_entity(d1);
            let ghost w1 = *self;
            let b = self.create_entity(d2);
            proof {
                assert forall|c: int|
                    #![trigger self.res.queued_enemies.0@[c]]
                    0 <= c < k implies pair_at(*self, hs@[2 * c], hs@[2 * c + 1], self.res.queued_enemies.0@[c]) by {
                    let x = hs@[2 * c];
                    let y = hs@[2 * c + 1];
                    assert(w0.res.queued_enemies.0@[c] == self.res.queued_enemies.0@[c]);
                    assert(pair_at(w0, x, y, w0.res.queued_enemies.0@[c]));
                    assert(w0.live(x) && w0.live(y));
                    assert(x.index != a.index && y.index != a.index);
                    assert(w1.slots@[x.index as int] == w0.slots@[x.index as int]);
                    assert(w1.slots@[y.index as int] == w0.slots@[y.index as int]);
                    assert(x.index != b.index && y.index != b.index);
                }
                assert(a.index != b.index);
            }
            hs.push(a);
            hs.push(b);
            proof {
                assert(hs@[2 * k as int] == a);
                assert(hs@[2 * k + 1] == b);
            }
            k += 1;
        }
        hs
    }
}

} // verus!

verus! {

/// The number of live enemies among the first `k` slots.
pub open spec fn live_enemies(slots: Seq<Slot>, k: int) -> int
    decreases k,
{
    if k <= 0 {
        0
    } else {
        live_enemies(slots, k - 1) + if slots[k - 1].alive && slots[k - 1].data.enemy is Some {
            1int
        } else {
            0
        }
    }
}

/// The wave after `w`, stopping at the last representable one.
pub open spec fn next_wave(w: u8) -> u8 {
    if w < 255 { (w + 1) as u8 } else { 255 }
}

/// Every wave but the first heals the player.
pub open spec fn wave_heals(w: u8) -> bool {
    w != 1
}

/// The slots with the player healed by one hit point when `apply` holds and the
/// player entity is live with hit points.
pub open spec fn healed(w: World, apply: bool) -> Seq<Slot> {
    let e = w.res.player_entity.0;
    let s = w.slots@[e.index as int];
    if apply && w.live(e) && s.data.hp is Some {
        let hp = s.data.hp.unwrap();
        w.slots@.update(
            e.index as int,
            Slot {
                data: EntityData {
                    hp: Some(HP { remaining: if hp.remaining < u32::MAX { (hp.remaining + 1) as u32 } else { hp.remaining }, ..hp }),
                    ..s.data
                },
                ..s
            },
        )
    } else {
        w.slots@
    }
}

/// What one step of wave progression does. While enemies are left, a finished
/// countdown is rearmed to the wave delay. Once none are left, the countdown
/// runs down; when it is over the next wave begins: the HUD is redrawn, the wave
/// number grows, its roster is computed, the player is healed by one (except on
/// the first wave) and the roster is spawned in mirrored pairs.
pub open spec fn wave_progress_post(old: World, new: World) -> bool {
    new.wf() && wave_step(old, new)
}

/// The change that one step of wave progression makes; see `wave_progress_post`.
pub open spec fn wave_step(old: World, new: World) -> bool {
    let none_left = live_enemies(old.slots@, old.slots@.len() as int) == 0;
    let f = old.res.frames_to_next_wave.0;
    if none_left && f != 0 {
        &&& new.slots == old.slots
        &&& new.spawn_queue == old.spawn_queue
        &&& new.config == old.config
        &&& new.res == (Resources { frames_to_next_wave: FramesToNextWave((f - 1) as u16), ..old.res })
    } else if none_left {
        let w = next_wave(old.res.current_wave.0);
        &&& new.res.hp_text == (HPText { needs_redraw: true })
        &&& new.res.current_wave == CurrentWave(w)
        &&& new.res.queued_enemies.0@ == wave_roster(w)
        &&& new.res.player_entity == old.res.player_entity
        &&& new.res.dead == old.res.dead
        &&& new.res.frames_to_next_wave == old.res.frames_to_next_wave
        &&& new.res.queued_sounds == old.res.queued_sounds
        &&& new.res.last_update == old.res.last_update
        &&& new.res.star_info == old.res.star_info
        &&& new.spawn_queue == old.spawn_queue
        &&& new.config == old.config
        &&& exists|hs: Seq<Entity>| #[trigger] wave_spawned(healed(old, wave_heals(w)), new, hs, wave_roster(w))
    } else if f == 0 {
        &&& new.slots == old.slots
        &&& new.spawn_queue == old.spawn_queue
        &&& new.config == old.config
        &&& new.res == (Resources { frames_to_next_wave: FramesToNextWave(old.config.wave_delay), ..old.res })
    } else {
        &&& new.slots == old.slots
        &&& new.spawn_queue == old.spawn_queue
        &&& new.config == old.config
        &&& new.res == old.res
    }
}

impl World {
    pub fn count_live_enemies(&self) -> (r: usize)
        ensures
            r == live_enemies(self.slots@, self.slots@.len() as int),
    {
        let n = self.slots.len();
        let mut c: usize = 0;
        let mut i: usize = 0;
        while i < n
            invariant
                n == self.slots@.len(),
                i <= n,
                c <= i,
                c == live_enemies(self.slots@, i as int),
            decreases n - i,
        {
            if self.slots[i].alive && self.slots[i].data.enemy.is_some() {
                c += 1;
            }
            i += 1;
        }
        c
    }

    /// One step of wave progression; see `wave_progress_post`.
    pub fn advance_waves(&mut self)
        requires
            old(self).wf(),
        ensures
            wave_progress_post(*old(self), *final(self)),
    {
        let n = self.count_live_enemies();
        let f = self.res.frames_to_next_wave.0;
        if n == 0 {
            if f != 0 {
                self.res.frames_to_next_wave = FramesToNextWave(f - 1);
            } else {
                self.res.hp_text.needs_redraw = true;
                let w = self.res.current_wave.0;
                let w2: u8 = if w < 255 { w + 1 } else { 255 };
                self.res.current_wave = CurrentWave(w2);
                let mut calc = WaveCalcSys;
                calc.run(self);
                let ghost before_heal = *self;
                if w2 != 1 {
                    let e = self.res.player_entity.0;
                    if self.is_alive(e) {
                        let s = self.slots[e.index];
                        if let Some(hp) = s.data.hp {
                            let mut nd = s.data;
                            nd.hp = Some(HP { remaining: if hp.remaining < u32::MAX { hp.remaining + 1 } else { hp.remaining }, ..hp });
                            let ghost wf_before = self.slots@;
                            self.slots[e.index] = Slot { data: nd, ..s };
                            proof {
                                lemma_slots_wf_update(wf_before, e.index as int, self.slots@[e.index as int]);
                            }
                        }
                    }
                }
                let ghost mid = *self;
                assert(w2 == next_wave(old(self).res.current_wave.0));
                assert(mid.slots@ == healed(*old(self), wave_heals(w2)));
                let hs = self.spawn_wave();
                assert(wave_spawned(healed(*old(self), wave_heals(w2)), *self, hs@, wave_roster(w2)));
                assert(exists|hs: Seq<Entity>| #[trigger] wave_spawned(healed(*old(self), wave_heals(w2)), *self, hs, wave_roster(w2)));
            }
        } else if f == 0 {
            self.res.frames_to_next_wave = FramesToNextWave(self.config.wave_delay);
        }
    }
}

/// Keys pressed this tick.
#[derive(Clone, Copy, Debug, PartialEq, Eq, Structural, Default)]
pub struct Input {
    pub up: bool,
    pub down: bool,
    pub left: bool,
    pub right: bool,
    pub fire: bool,
}

/// The player's velocity and position after steering: drag first, then the
/// acceleration of each pressed direction while the player is not at that edge,
/// then the position is kept inside the playfield.
pub open spec fn steer_spec(pos: Point, vel: Point, input: Input, cfg: crate::resources::Config) -> (Point, Point) {
    let a = if input.fire { cfg.firing_move_accel as int } else { cfg.move_accel as int };
    let top = cfg.screen_height - cfg.player_size;
    let right_edge = cfg.screen_width - cfg.player_size;
    let vx0 = ratio_spec(vel.x as int, cfg.drag_num as int, cfg.drag_den as int);
    let vy0 = ratio_spec(vel.y as int, cfg.drag_num as int, cfg.drag_den as int);
    let vy1 = if input.up && pos.y > 0 { clamp_coord(vy0 - a) } else { vy0 };
    let vy2 = if input.down && pos.y < top { clamp_coord(vy1 + a) } else { vy1 };
    let vx1 = if input.left && pos.x > 0 { clamp_coord(vx0 - a) } else { vx0 };
    let vx2 = if input.right && pos.x < right_edge { clamp_coord(vx1 + a) } else { vx1 };
    (
        Point {
            x: limit_spec(pos.x as int, 0, clamp_coord(right_edge)) as i64,
            y: limit_spec(pos.y as int, 0, clamp_coord(top)) as i64,
        },
        Point { x: vx2 as i64, y: vy2 as i64 },
    )
}

/// What steering does: while the player is alive and located, its velocity and
/// position become those of `steer_spec`; otherwise nothing changes.
pub open spec fn steer_post(old: World, new: World, input: Input) -> bool {
    let e = old.res.player_entity.0;
    let s = old.slots@[e.index as int];
    &&& new.wf()
    &&& new.res == old.res
    &&& new.spawn_queue == old.spawn_queue
    &&& new.config == old.config
    &&& if !old.res.dead.0 && old.live(e) && s.data.position is Some && s.data.velocity is Some {
        let (p, v) = steer_spec(s.data.position.unwrap().0, s.data.velocity.unwrap().0, input, old.config);
        new.slots@ == old.slots@.update(
            e.index as int,
            Slot { data: EntityData { position: Some(Position(p)), velocity: Some(Velocity(v)), ..s.data }, ..s },
        )
    } else {
        new.slots@ == old.slots@
    }
}

impl World {
    /// Applies the player's input to its velocity; see `steer_post`.
    pub fn steer_player(&mut self, input: Input)
        requires
            old(self).wf(),
        ensures
            steer_post(*old(self), *final(self), input),
    {
        let e = self.res.player_entity.0;
        if self.res.dead.0 || !self.is_alive(e) {
            return;
        }
        let s = self.slots[e.index];
        if s.data.position.is_none() || s.data.velocity.is_none() {
            return;
        }
        let cfg = self.config;
        let pos = s.data.position.unwrap().0;
        let vel = s.data.velocity.unwrap().0;
        let a: i64 = if input.fire { cfg.firing_move_accel } else { cfg.move_accel };
        let top = clamp_wide(cfg.screen_height as i128 - cfg.player_size as i128);
        let right_edge = clamp_wide(cfg.screen_width as i128 - cfg.player_size as i128);
        let vx0 = ratio(vel.x, cfg.drag_num, cfg.drag_den);
        let vy0 = ratio(vel.y, cfg.drag_num, cfg.drag_den);
        let vy1 = if input.up && pos.y > 0 { clamp_wide(vy0 as i128 - a as i128) } else { vy0 };
        let vy2 = if input.down && (pos.y as i128) < cfg.screen_height as i128 - cfg.player_size as i128 {
            clamp_wide(vy1 as i128 + a as i128)
        } else {
            vy1
        };
        let vx1 = if input.left && pos.x > 0 { clamp_wide(vx0 as i128 - a as i128) } else { vx0 };
        let vx2 = if input.right && (pos.x as i128) < cfg.screen_width as i128 - cfg.player_size as i128 {
            clamp_wide(vx1 as i128 + a as i128)
        } else {
            vx1
        };
        let np = Point { x: limit(pos.x, 0, right_edge), y: limit(pos.y, 0, top) };
        let mut nd = s.data;
        nd.position = Some(Position(np));
        nd.velocity = Some(Velocity(Point { x: vx2, y: vy2 }));
        let ghost wf_before = self.slots@;
        self.slots[e.index] = Slot { data: nd, ..s };
        proof {
            lemma_slots_wf_update(wf_before, e.index as int, self.slots@[e.index as int]);
        }
    }
}

} // verus!

verus! {

/// `ws` runs through the systems of one tick, each once, in an order that
/// respects their dependencies: collisions after integration and bouncing,
/// hit-point removal after the collisions, invulnerability decay last.
pub open spec fn pipeline_stages(ws: Seq<World>) -> bool {
    &&& ws.len() == 14
    &&& enemy_move_post(ws[0], ws[1])
    &&& bullet_tracking_post(ws[1], ws[2])
    &&& bounce_bullet_post(ws[2], ws[3])
    &&& integrate_post(ws[3], ws[4])
    &&& star_move_post(ws[4], ws[5])
    &&& reload_timer_post(ws[5], ws[6])
    &&& deflector_post(ws[6], ws[7])
    &&& enemy_shoot_post(ws[7], ws[8])
    &&& animation_post(ws[8], ws[9])
    &&& bullet_coll_post(ws[9], ws[10])
    &&& player_coll_post(ws[10], ws[11])
    &&& hp_kill_post(ws[11], ws[12])
    &&& iframe_post(ws[12], ws[13])
}

impl World {
    /// Runs every system once, in dependency order; see `pipeline_stages`.
    pub fn run_systems(&mut self)
        requires
            old(self).wf(),
        ensures
            final(self).wf(),
            exists|ws: Seq<World>|
                #[trigger] pipeline_stages(ws) && ws[0] == *old(self) && ws[13] == *final(self),
            final(self).res.star_info == old(self).res.star_info,
    {
        let ghost ws: Seq<World> = seq![*self];
        EnemyMoveSys.run(self);
        proof { ws = ws.push(*self); }
        BulletTrackingSys.run(self);
        proof { ws = ws.push(*self); }
        BounceBulletSys.run(self);
        proof { ws = ws.push(*self); }
        IntegrateSys.run(self);
        proof { ws = ws.push(*self); }
        StarMoveSys.run(self);
        proof { ws = ws.push(*self); }
        ReloadTimerSys.run(self);
        proof { ws = ws.push(*self); }
        DeflectorSys.run(self);
        proof { ws = ws.push(*self); }
        EnemyShootSys.run(self);
        proof { ws = ws.push(*self); }
        AnimationSys.run(self);
        proof { ws = ws.push(*self); }
        BulletCollSys.run(self);
        proof { ws = ws.push(*self); }
        PlayerCollSys.run(self);
        proof { ws = ws.push(*self); }
        HPKillSys.run(self);
        proof { ws = ws.push(*self); }
        IFrameSys.run(self);
        proof {
            ws = ws.push(*self);
            assert(pipeline_stages(ws));
        }
    }
}

/// `w` with the time of the last tick set to `now`.
pub open spec fn stamped(w: World, now: u64) -> World {
    World { res: Resources { last_update: LastUpdate(now), ..w.res }, ..w }
}

/// `ws` runs through one tick of the game: the player fires if asked to and
/// alive, waves progress, the player steers, the systems run, and the deferred
/// changes are applied, creating the queued entities at `hs`.
pub open spec fn tick_stages(ws: Seq<World>, hs: Seq<Entity>, input: Input) -> bool {
    &&& ws.len() == 18
    &&& if !ws[0].res.dead.0 && input.fire {
        spawn_bullet_post(ws[0], ws[1])
    } else {
        ws[1] == ws[0]
    }
    &&& wave_progress_post(ws[1], ws[2])
    &&& steer_post(ws[2], ws[3], input)
    &&& pipeline_stages(ws.subrange(3, 17))
    &&& flushed(ws[16], ws[17])
    &&& spawned_queue(ws[16], ws[17], hs)
}

/// Enough time has passed since the last tick at `last`.
pub open spec fn tick_due(last: u64, now: u64, cfg: crate::resources::Config) -> bool {
    (if now >= last { now - last } else { 0 }) >= cfg.tick_micros
}

/// The game: the world that the driver steps and draws.
pub struct GameState {
    pub world: World,
}

impl GameState {
    /// Takes the world and fills its star field.
    pub fn new(world: World) -> (r: GameState)
        requires
            world.wf(),
        ensures
            r.world.wf(),
            exists|hs: Seq<Entity>| #[trigger] star_field(world, r.world, hs),
    {
        let mut w = world;
        let mut stars = StarInitSys;
        let hs = stars.run(&mut w);
        let r = GameState { world: w };
        assert(star_field(world, r.world, hs@));
        r
    }

    /// One call of the driver's update at time `now` (microseconds) on frame
    /// `ticks`. Nothing happens until a tick is due; then the time is recorded and,
    /// once the warm-up frames are over, one tick runs (see `tick_stages`).
    /// Returns whether a tick ran.
    pub fn update(&mut self, input: Input, now: u64, ticks: u64) -> (r: bool)
        requires
            old(self).world.wf(),
        ensures
            final(self).world.wf(),
            r == (tick_due(old(self).world.res.last_update.0, now, old(self).world.config)
                && ticks >= old(self).world.config.warmup_ticks),
            !tick_due(old(self).world.res.last_update.0, now, old(self).world.config) ==> final(self).world == old(self).world,
            tick_due(old(self).world.res.last_update.0, now, old(self).world.config) && !r ==> final(self).world == stamped(old(self).world, now),
            r ==> exists|ws: Seq<World>, hs: Seq<Entity>|
                #[trigger] tick_stages(ws, hs, input) && ws[0] == stamped(old(self).world, now) && ws[17] == final(self).world,
            final(self).world.res.star_info == old(self).world.res.star_info,
    {
        let cfg = self.world.config;
        let last = self.world.res.last_update.0;
        let diff = if now >= last { now - last } else { 0 };
        if diff < cfg.tick_micros {
            return false;
        }
        self.world.res.last_update = LastUpdate(now);
        if ticks < cfg.warmup_ticks {
            return false;
        }
        let ghost w0 = self.world;
        let dead = self.world.res.dead.0;
        if !dead && input.fire {
            SpawnBulletSys.run(&mut self.world);
        }
        let ghost w1 = self.world;
        self.world.advance_waves();
        let ghost w2 = self.world;
        self.world.steer_player(input);
        let ghost w3 = self.world;
        self.world.run_systems();
        let ghost w16 = self.world;
        let hs = self.world.maintain();
        proof {
            let ps = choose|ps: Seq<World>| #[trigger] pipeline_stages(ps) && ps[0] == w3 && ps[13] == w16;
            let ws = seq![w0, w1, w2] + ps + seq![self.world];
            assert(ws.subrange(3, 17) == ps);
            assert(tick_stages(ws, hs@, input));
        }
        true
    }
}

} // verus!

verus! {

/// Keys the game reacts to when pressed.
#[derive(Clone, Copy, Debug, PartialEq, Eq, Structural)]
pub enum Key {
    /// Respawns the player after death.
    Space,
    /// Raises the deflector.
    LControl,
    Other,
}

/// A live enemy or bullet.
pub open spec fn hostile(s: Slot) -> bool {
    s.alive && (s.data.enemy is Some || s.data.bullet is Some)
}

/// The hit points a respawned player starts with.
pub const RESPAWN_HP: u32 = 5;

/// What a respawn does: a fresh player with `RESPAWN_HP` hit points becomes the
/// player entity; the death flag is cleared, the wave count restarts, the HUD is
/// redrawn, every enemy and bullet is removed, and the other entities stay.
pub open spec fn respawn_post(old: World, new: World) -> bool {
    let e = new.res.player_entity.0;
    &&& new.wf()
    &&& new.live(e)
    &&& new.slots@[e.index as int].data == player_entity_data(
        (
            Position(crate::components::player_start()),
            Velocity(Point { x: 0, y: 0 }),
            HP { remaining: RESPAWN_HP, iframes: 0 },
            Sprite::Img(ImageId::Player),
            crate::components::default_player(),
            crate::components::Hitbox(Point { x: 0, y: 0 }, (45 * SUBPIXELS) as i64, (45 * SUBPIXELS) as i64),
        ),
    )
    &&& new.res.dead == Dead(false)
    &&& new.res.current_wave == CurrentWave(0)
    &&& new.res.hp_text == (HPText { needs_redraw: true })
    &&& new.res.frames_to_next_wave == old.res.frames_to_next_wave
    &&& new.res.queued_enemies == old.res.queued_enemies
    &&& new.res.queued_sounds == old.res.queued_sounds
    &&& new.res.last_update == old.res.last_update
    &&& new.res.star_info == old.res.star_info
    &&& new.config == old.config
    &&& new.spawn_queue@.len() == 0
    &&& forall|j: int| 0 <= j < old.slots@.len() && hostile(old.slots@[j]) ==> !#[trigger] new.slots@[j].alive
        || new.slots@[j].generation > old.slots@[j].generation
    &&& forall|j: int|
        0 <= j < old.slots@.len() && old.slots@[j].alive && !old.slots@[j].doomed && !hostile(old.slots@[j])
            ==> #[trigger] new.slots@[j] == old.slots@[j]
}

/// The two worlds hold the same entities, queue, resources and tuning.
pub open spec fn same_world(a: World, b: World) -> bool {
    &&& a.slots@ == b.slots@
    &&& a.spawn_queue == b.spawn_queue
    &&& a.res == b.res
    &&& a.config == b.config
}

/// The player entity is live, has a `Player` and its deflector has recharged.
pub open spec fn deflector_ready(w: World) -> bool {
    let e = w.res.player_entity.0;
    let d = w.slots@[e.index as int].data;
    w.live(e) && d.player is Some && d.player.unwrap().deflector_cooldown == 0
}

impl World {
    /// Brings the player back after death; see `respawn_post`.
    pub fn respawn(&mut self)
        requires
            old(self).wf(),
        ensures
            respawn_post(*old(self), *final(self)),
    {
        let player = new_player(ImageId::Player, RESPAWN_HP);
        let e = create_player(self, player);
        self.res.player_entity = PlayerEntity(e);
        self.res.dead = Dead(false);
        self.res.current_wave = CurrentWave(0);
        self.res.hp_text.needs_redraw = true;
        let ghost w1 = *self;
        let n = self.slots.len();
        let mut i: usize = 0;
        while i < n
            invariant
                n == self.slots@.len() == w1.slots@.len(),
                i <= n,
                self.res == w1.res,
                self.config == w1.config,
                self.spawn_queue == w1.spawn_queue,
                w1.wf(),
                slots_wf(self.slots@),
                e.index < n,
                w1.live(e),
                !w1.slots@[e.index as int].doomed,
                w1.slots@[e.index as int].data.enemy is None,
                w1.slots@[e.index as int].data.bullet is None,
                forall|j: int| 0 <= j < i ==> #[trigger] self.slots@[j] == if hostile(w1.slots@[j]) {
                    Slot { doomed: true, ..w1.slots@[j] }
                } else {
                    w1.slots@[j]
                },
                forall|j: int| i <= j < n ==> #[trigger] self.slots@[j] == w1.slots@[j],
            decreases n - i,
        {
            let s = self.slots[i];
            if s.alive && (s.data.enemy.is_some() || s.data.bullet.is_some()) {
                let ghost wf_before = self.slots@;
                self.slots[i] = Slot { doomed: true, ..s };
                proof {
                    lemma_slots_wf_update(wf_before, i as int, self.slots@[i as int]);
                }
            }
            i += 1;
        }
        let ghost w2 = *self;
        assert(w2.slots@[e.index as int] == w1.slots@[e.index as int]);
        let _ = self.maintain();
        proof {
            assert forall|j: int| 0 <= j < old(self).slots@.len() && hostile(old(self).slots@[j]) implies !#[trigger] self.slots@[j].alive
                || self.slots@[j].generation > old(self).slots@[j].generation by {
                assert(w1.slots@[j] == old(self).slots@[j]);
                assert(w2.slots@[j].doomed && w2.slots@[j].alive);
            }
            assert forall|j: int|
                0 <= j < old(self).slots@.len() && old(self).slots@[j].alive && !old(self).slots@[j].doomed
                    && !hostile(old(self).slots@[j]) implies #[trigger] self.slots@[j] == old(self).slots@[j] by {
                assert(w1.slots@[j] == old(self).slots@[j]);
                assert(w2.slots@[j] == w1.slots@[j]);
            }
        }
    }

    /// Raises the player's deflector if it has recharged, and starts recharging it.
    pub fn raise_deflector(&mut self)
        requires
            old(self).wf(),
        ensures
            final(self).wf(),
            deflector_ready(*old(self)) ==> {
                let i = old(self).res.player_entity.0.index as int;
                let s = old(self).slots@[i];
                let p = s.data.player.unwrap();
                final(self).slots@ == old(self).slots@.update(
                    i,
                    Slot {
                        data: EntityData {
                            player: Some(Player { deflector_timer: p.deflector_frames, deflector_cooldown: p.deflector_reload_frames, ..p }),
                            ..s.data
                        },
                        ..s
                    },
                )
            },
            !deflector_ready(*old(self)) ==> final(self).slots@ == old(self).slots@,
            final(self).res == old(self).res,
            final(self).spawn_queue == old(self).spawn_queue,
            final(self).config == old(self).config,
    {
        let e = self.res.player_entity.0;
        if !self.is_alive(e) {
            return;
        }
        let s = self.slots[e.index];
        if let Some(p) = s.data.player {
            if p.deflector_cooldown == 0 {
                let mut nd = s.data;
                nd.player = Some(Player { deflector_timer: p.deflector_frames, deflector_cooldown: p.deflector_reload_frames, ..p });
                let ghost wf_before = self.slots@;
                self.slots[e.index] = Slot { data: nd, ..s };
                proof {
                    lemma_slots_wf_update(wf_before, e.index as int, self.slots@[e.index as int]);
                }
            }
        }
    }
}

impl GameState {
    /// Space respawns a dead player; left control raises a living player's deflector.
    pub fn key_down_event(&mut self, key: Key)
        requires
            old(self).world.wf(),
        ensures
            final(self).world.wf(),
            key == Key::Space && old(self).world.res.dead.0 ==> respawn_post(old(self).world, final(self).world),
            key == Key::LControl && !old(self).world.res.dead.0 && !deflector_ready(old(self).world) ==> same_world(final(self).world, old(self).world),
            key == Key::LControl && !old(self).world.res.dead.0 && deflector_ready(old(self).world) ==> {
                let i = old(self).world.res.player_entity.0.index as int;
                let s = old(self).world.slots@[i];
                let p = s.data.player.unwrap();
                &&& final(self).world.slots@ == old(self).world.slots@.update(
                    i,
                    Slot {
                        data: EntityData {
                            player: Some(Player { deflector_timer: p.deflector_frames, deflector_cooldown: p.deflector_reload_frames, ..p }),
                            ..s.data
                        },
                        ..s
                    },
                )
                &&& final(self).world.res == old(self).world.res
                &&& final(self).world.spawn_queue == old(self).world.spawn_queue
                &&& final(self).world.config == old(self).world.config
            },
            !(key == Key::Space && old(self).world.res.dead.0) && !(key == Key::LControl
                && !old(self).world.res.dead.0) ==> final(self).world == old(self).world,
    {
        match key {
            Key::Space => {
                if self.world.res.dead.0 {
                    self.world.respawn();
                }
            },
            Key::LControl => {
                if !self.world.res.dead.0 {
                    self.world.raise_deflector();
                }
            },
            Key::Other => {},
        }
    }
}

} // verus!
