//! Damage resolution: bullet hits, player-enemy contact, removal of entities
//! without hit points, and the decay of invulnerability frames.
use vstd::prelude::*;
use crate::geom::{Point, point_ok, rects_overlap, add_point, add_point_spec, toward, toward_spec};
use crate::components::{
    Position, Hitbox, HP, Bullet, AnimatedSprite, Explosion, ImageId,
};
use crate::resources::{SoundCue, Config};
use crate::world::{data_wf, slots_wf, queue_wf, lemma_slots_wf_update, lemma_queue_wf_push, World, Slot, EntityData, Entity, Resources, empty_data};

verus! {

/// The hitboxes of two entities, placed at their positions, overlap.
pub open spec fn hitboxes_meet(p1: Position, h1: Hitbox, p2: Position, h2: Hitbox) -> bool {
    rects_overlap(
        p1.0.x + h1.0.x,
        p1.0.y + h1.0.y,
        h1.1 as int,
        h1.2 as int,
        p2.0.x + h2.0.x,
        p2.0.y + h2.0.y,
        h2.1 as int,
        h2.2 as int,
    )
}

pub fn hitboxes_overlap(p1: Position, h1: Hitbox, p2: Position, h2: Hitbox) -> (r: bool)
    ensures
        r == hitboxes_meet(p1, h1, p2, h2),
{
    let ax = p1.0.x as i128 + h1.0.x as i128;
    let ay = p1.0.y as i128 + h1.0.y as i128;
    let bx = p2.0.x as i128 + h2.0.x as i128;
    let by = p2.0.y as i128 + h2.0.y as i128;
    ax <= bx + h2.1 as i128 && ax + h1.1 as i128 >= bx && ay <= by + h2.2 as i128 && ay + h1.2 as i128
        >= by
}

/// `hp` after taking `damage`, floored at zero.
pub open spec fn damaged(hp: HP, damage: u32) -> HP {
    HP { remaining: if hp.remaining >= damage { (hp.remaining - damage) as u32 } else { 0 }, ..hp }
}

/// Slot `t` holds the entity that `player` refers to.
pub open spec fn is_player_slot(slots: Seq<Slot>, t: int, player: Entity) -> bool {
    player.index == t && slots[t].alive && slots[t].generation == player.generation
}

/// A bullet that still takes part in collisions this tick.
pub open spec fn active_bullet(s: Slot) -> bool {
    &&& s.alive
    &&& !s.doomed
    &&& s.data.bullet is Some
    &&& s.data.position is Some
    &&& s.data.hitbox is Some
}

/// The bullet's position lies outside the playfield widened by the margin
/// (above, left and right; below, the edge itself).
pub open spec fn out_of_bounds(p: Point, cfg: Config) -> bool {
    !(-cfg.bullet_margin <= p.x < cfg.screen_width + cfg.bullet_margin) || !(-cfg.bullet_margin
        <= p.y < cfg.screen_height)
}

pub open spec fn iframes_of(d: EntityData) -> u8 {
    match d.hp {
        Some(hp) => hp.iframes,
        None => 0,
    }
}

/// The bullet in slot `b` may hit the entity in slot `t`: a live entity with hit
/// points, position and hitbox, not invulnerable, of a faction the bullet hurts
/// (a non-player entity only while it has hit points left), overlapping it.
pub open spec fn can_hit(slots: Seq<Slot>, b: int, t: int, player: Entity) -> bool {
    let bs = slots[b].data;
    let ts = slots[t];
    let bl = bs.bullet.unwrap();
    &&& t != b
    &&& ts.alive
    &&& ts.data.hp is Some
    &&& ts.data.position is Some
    &&& ts.data.hitbox is Some
    &&& ts.data.hp.unwrap().iframes == 0
    &&& if is_player_slot(slots, t, player) {
        bl.damages_player_spec()
    } else {
        bl.damages_enemy_spec() && ts.data.hp.unwrap().remaining > 0
    }
    &&& hitboxes_meet(
        bs.position.unwrap(),
        bs.hitbox.unwrap(),
        ts.data.position.unwrap(),
        ts.data.hitbox.unwrap(),
    )
}

/// The first slot at or after `t` that the bullet in slot `b` may hit.
pub open spec fn first_target(slots: Seq<Slot>, b: int, t: int, player: Entity) -> Option<int>
    decreases slots.len() - t,
{
    if t < 0 || t >= slots.len() {
        None
    } else if can_hit(slots, b, t, player) {
        Some(t)
    } else {
        first_target(slots, b, t + 1, player)
    }
}

/// An explosion that plays once at `pos`.
pub open spec fn explosion_at(pos: Position, cfg: Config) -> EntityData {
    EntityData {
        position: Some(pos),
        animated_sprite: Some(
            AnimatedSprite {
                spritesheet: ImageId::Explosion,
                num_frames: cfg.explosion_frames,
                spritesheet_width: cfg.explosion_sheet_width,
                current_frame: 0,
                temporary: true,
            },
        ),
        explosion: Some(Explosion),
        ..empty_data()
    }
}

pub fn new_explosion(pos: Position, cfg: &Config) -> (r: EntityData)
    ensures
        r == explosion_at(pos, *cfg),
{
    let mut d = EntityData::empty();
    d.position = Some(pos);
    d.animated_sprite = Some(
        AnimatedSprite::new(ImageId::Explosion, cfg.explosion_frames, cfg.explosion_sheet_width, true),
    );
    d.explosion = Some(Explosion);
    d
}

/// What bullet collision has produced so far: the slots, the queued creations,
/// whether the player was hit and whether anything exploded.
pub struct CollState {
    pub slots: Seq<Slot>,
    pub spawns: Seq<EntityData>,
    pub player_hit: bool,
    pub exploded: bool,
}

/// Resolves the bullet in slot `b`: an active bullet outside the playfield is
/// deleted; otherwise, unless it is invulnerable itself, it hits the first slot it
/// may hit, which loses the bullet's damage, and the bullet is deleted with an
/// explosion at its position.
pub open spec fn bullet_step(st: CollState, b: int, player: Entity, cfg: Config) -> CollState {
    let s = st.slots[b];
    if !active_bullet(s) {
        st
    } else if out_of_bounds(s.data.position.unwrap().0, cfg) {
        CollState { slots: st.slots.update(b, Slot { doomed: true, ..s }), ..st }
    } else if iframes_of(s.data) > 0 {
        st
    } else {
        match first_target(st.slots, b, 0, player) {
            None => st,
            Some(t) => {
                let ts = st.slots[t];
                let hit = Slot {
                    data: EntityData {
                        hp: Some(damaged(ts.data.hp.unwrap(), s.data.bullet.unwrap().damage)),
                        ..ts.data
                    },
                    ..ts
                };
                CollState {
                    slots: st.slots.update(t, hit).update(b, Slot { doomed: true, ..s }),
                    spawns: st.spawns.push(explosion_at(s.data.position.unwrap(), cfg)),
                    player_hit: st.player_hit || is_player_slot(st.slots, t, player),
                    exploded: true,
                }
            },
        }
    }
}

/// Bullet collision over the first `k` slots, in slot order.
pub open spec fn bullet_coll_upto(st: CollState, k: int, player: Entity, cfg: Config) -> CollState
    decreases k,
{
    if k <= 0 {
        st
    } else {
        bullet_step(bullet_coll_upto(st, k - 1, player, cfg), k - 1, player, cfg)
    }
}

pub open spec fn coll_start(w: World) -> CollState {
    CollState { slots: w.slots@, spawns: w.spawn_queue@, player_hit: false, exploded: false }
}

/// The resources other than the sound queue, the HUD flag and the death flag agree.
pub open spec fn same_other_resources(a: Resources, b: Resources) -> bool {
    &&& a.player_entity == b.player_entity
    &&& a.current_wave == b.current_wave
    &&& a.frames_to_next_wave == b.frames_to_next_wave
    &&& a.queued_enemies == b.queued_enemies
    &&& a.last_update == b.last_update
    &&& a.star_info == b.star_info
}

/// `cue` appended to `sounds` when `play` holds.
pub open spec fn with_cue(sounds: Seq<SoundCue>, play: bool, cue: SoundCue) -> Seq<SoundCue> {
    if play {
        sounds.push(cue)
    } else {
        sounds
    }
}

proof fn lemma_first_target_skip(slots: Seq<Slot>, b: int, t: int, player: Entity)
    requires
        0 <= t < slots.len(),
        !can_hit(slots, b, t, player),
    ensures
        first_target(slots, b, t, player) == first_target(slots, b, t + 1, player),
{
}

/// What one run of `BulletCollSys` does.
pub open spec fn bullet_coll_post(old: World, new: World) -> bool {
    &&& ({
            let st = bullet_coll_upto(
                coll_start(old),
                old.slots@.len() as int,
                old.res.player_entity.0,
                old.config,
            );
            &&& new.slots@ == st.slots
            &&& new.spawn_queue@ == st.spawns
            &&& new.res.hp_text.needs_redraw == (old.res.hp_text.needs_redraw
                || st.player_hit)
            &&& new.res.queued_sounds.0@ == with_cue(
                old.res.queued_sounds.0@,
                st.exploded,
                SoundCue::Boom,
            )
        })
    &&& new.res.dead == old.res.dead
    &&& same_other_resources(new.res, old.res)
    &&& new.config == old.config
    &&& new.wf()
}

pub struct BulletCollSys;

impl BulletCollSys {
    /// Resolves every bullet against every target, in slot order; see `bullet_step`.
    /// Requests an explosion sound when anything exploded, and a HUD redraw when
    /// the player was hit.
    pub fn run(&mut self, world: &mut World)
        requires
            old(world).wf(),
        ensures
            bullet_coll_post(*old(world), *final(world)),
    {
        let n = world.slots.len();
        let player = world.res.player_entity.0;
        let cfg = world.config;
        let ghost start = coll_start(*world);
        let mut player_hit = false;
        let mut exploded = false;
        let mut b: usize = 0;
        while b < n
            invariant
                old(world).wf(),
                slots_wf(world.slots@),
                queue_wf(world.spawn_queue@),
                n == world.slots@.len() == old(world).slots@.len(),
                b <= n,
                player == old(world).res.player_entity.0,
                cfg == old(world).config,
                world.config == cfg,
                world.res == old(world).res,
                start == coll_start(*old(world)),
                ({
                    let st = bullet_coll_upto(start, b as int, player, cfg);
                    &&& world.slots@ == st.slots
                    &&& world.spawn_queue@ == st.spawns
                    &&& player_hit == st.player_hit
                    &&& exploded == st.exploded
                }),
            decreases n - b,
        {
            let ghost st = bullet_coll_upto(start, b as int, player, cfg);
            let s = world.slots[b];
            if s.alive && !s.doomed && s.data.bullet.is_some() && s.data.position.is_some()
                && s.data.hitbox.is_some() {
                let bullet = s.data.bullet.unwrap();
                let pos = s.data.position.unwrap();
                let hb = s.data.hitbox.unwrap();
                let p = pos.0;
                let margin = cfg.bullet_margin as i128;
                if !(-margin <= p.x as i128 && (p.x as i128) < cfg.screen_width as i128 + margin)
                    || !(-margin <= p.y as i128 && p.y < cfg.screen_height) {
                    let ghost wf_before = world.slots@;
                    world.slots[b] = Slot { doomed: true, ..s };
                    proof {
                        lemma_slots_wf_update(wf_before, b as int, world.slots@[b as int]);
                    }
                } else if s.data.hp.is_none() || s.data.hp.unwrap().iframes == 0 {
                    let mut t: usize = 0;
                    let mut found = false;
                    while t < n
                        invariant
                old(world).wf(),
                slots_wf(world.slots@),
                queue_wf(world.spawn_queue@),
                            n == world.slots@.len(),
                            b < n,
                            t <= n,
                            found ==> t == n,
                            !found ==> world.slots@ == st.slots,
                            !found ==> world.spawn_queue@ == st.spawns,
                            world.res == old(world).res,
                            world.config == cfg,
                            s == st.slots[b as int],
                            active_bullet(s),
                            !out_of_bounds(p, cfg),
                            iframes_of(s.data) == 0,
                            bullet == s.data.bullet.unwrap(),
                            pos == s.data.position.unwrap(),
                            hb == s.data.hitbox.unwrap(),
                            p == pos.0,
                            !found ==> first_target(st.slots, b as int, 0, player)
                                == first_target(st.slots, b as int, t as int, player),
                            found ==> ({
                                let nx = bullet_step(st, b as int, player, cfg);
                                &&& world.slots@ == nx.slots
                                &&& world.spawn_queue@ == nx.spawns
                                &&& player_hit == nx.player_hit
                                &&& exploded == nx.exploded
                            }),
                            !found ==> player_hit == st.player_hit && exploded == st.exploded,
                        decreases n - t,
                    {
                        let ts = world.slots[t];
                        let is_player = player.index == t && ts.alive && ts.generation
                            == player.generation;
                        let mut hit = false;
                        if t != b && ts.alive && ts.data.hp.is_some() && ts.data.position.is_some()
                            && ts.data.hitbox.is_some() {
                            let hp = ts.data.hp.unwrap();
                            let allowed = if is_player {
                                bullet.damages_player()
                            } else {
                                bullet.damages_enemy() && hp.remaining > 0
                            };
                            if hp.iframes == 0 && allowed && hitboxes_overlap(
                                pos,
                                hb,
                                ts.data.position.unwrap(),
                                ts.data.hitbox.unwrap(),
                            ) {
                                hit = true;
                                let remaining = if hp.remaining >= bullet.damage {
                                    hp.remaining - bullet.damage
                                } else {
                                    0
                                };
                                let mut nd = ts.data;
                                nd.hp = Some(HP { remaining, ..hp });
                                let ghost wf_before = world.slots@;
                                world.slots[t] = Slot { data: nd, ..ts };
                                proof {
                                    lemma_slots_wf_update(wf_before, t as int, world.slots@[t as int]);
                                }
                                let ghost wf_before = world.slots@;
                                world.slots[b] = Slot { doomed: true, ..s };
                                proof {
                                    lemma_slots_wf_update(wf_before, b as int, world.slots@[b as int]);
                                }
                                let ex = new_explosion(pos, &cfg);
                                let ghost wq_before = world.spawn_queue@;
                                world.spawn_queue.push(ex);
                                proof {
                                    lemma_queue_wf_push(wq_before, ex);
                                }
                                if is_player {
                                    player_hit = true;
                                }
                                exploded = true;
                                found = true;
                                t = n;
                            }
                        }
                        if !hit {
                            proof {
                                lemma_first_target_skip(st.slots, b as int, t as int, player);
                            }
                            t += 1;
                        }
                    }
                }
            }
            b += 1;
        }
        if player_hit {
            world.res.hp_text.needs_redraw = true;
        }
        if exploded {
            world.res.queued_sounds.0.push(SoundCue::Boom);
        }
    }
}

} // verus!

verus! {

/// Progress of the contact check: the slots, and the player's hit points and
/// velocity as updated so far.
pub struct ContactState {
    pub slots: Seq<Slot>,
    pub hp: HP,
    pub vel: Point,
}

/// The enemy in slot `t` touches the player: a live, non-bullet enemy with hit
/// points, position and hitbox, neither it nor the player invulnerable, whose
/// hitbox overlaps the player's.
pub open spec fn contact(st: ContactState, t: int, player: Entity, ppos: Position, phb: Hitbox) -> bool {
    let ts = st.slots[t];
    &&& t != player.index
    &&& ts.alive
    &&& ts.data.bullet is None
    &&& ts.data.enemy is Some
    &&& ts.data.hp is Some
    &&& ts.data.position is Some
    &&& ts.data.hitbox is Some
    &&& ts.data.hp.unwrap().iframes == 0
    &&& st.hp.iframes == 0
    &&& hitboxes_meet(ts.data.position.unwrap(), ts.data.hitbox.unwrap(), ppos, phb)
}

/// On contact the player takes the contact damage and gains invulnerability, is
/// knocked away from the enemy, and the enemy takes the ram damage.
pub open spec fn contact_step(
    st: ContactState,
    t: int,
    player: Entity,
    ppos: Position,
    phb: Hitbox,
    cfg: Config,
) -> ContactState {
    if contact(st, t, player, ppos, phb) {
        let ts = st.slots[t];
        ContactState {
            slots: st.slots.update(
                t,
                Slot {
                    data: EntityData {
                        hp: Some(damaged(ts.data.hp.unwrap(), cfg.ram_damage)),
                        ..ts.data
                    },
                    ..ts
                },
            ),
            hp: HP {
                remaining: damaged(st.hp, cfg.contact_damage).remaining,
                iframes: cfg.contact_iframes,
            },
            vel: add_point_spec(
                st.vel,
                toward_spec(ts.data.position.unwrap().0, ppos.0, cfg.knockback_speed as int),
            ),
        }
    } else {
        st
    }
}

pub open spec fn contact_upto(
    st: ContactState,
    k: int,
    player: Entity,
    ppos: Position,
    phb: Hitbox,
    cfg: Config,
) -> ContactState
    decreases k,
{
    if k <= 0 {
        st
    } else {
        contact_step(contact_upto(st, k - 1, player, ppos, phb, cfg), k - 1, player, ppos, phb, cfg)
    }
}

/// The player entity is live and has what the contact check reads.
pub open spec fn player_ready(w: World) -> bool {
    let e = w.res.player_entity.0;
    let d = w.slots@[e.index as int].data;
    &&& w.live(e)
    &&& d.position is Some
    &&& d.hitbox is Some
    &&& d.velocity is Some
    &&& d.hp is Some
}

/// The world after the contact check of a live player.
pub open spec fn player_coll_result(w: World) -> Seq<Slot> {
    let e = w.res.player_entity.0;
    let ps = w.slots@[e.index as int];
    let d = ps.data;
    let st = contact_upto(
        ContactState { slots: w.slots@, hp: d.hp.unwrap(), vel: d.velocity.unwrap().0 },
        w.slots@.len() as int,
        e,
        d.position.unwrap(),
        d.hitbox.unwrap(),
        w.config,
    );
    st.slots.update(
        e.index as int,
        Slot {
            data: EntityData {
                hp: Some(st.hp),
                velocity: Some(crate::components::Velocity(st.vel)),
                ..d
            },
            ..ps
        },
    )
}

pub(crate) proof fn lemma_contact_keeps_player(
    st: ContactState,
    k: int,
    player: Entity,
    ppos: Position,
    phb: Hitbox,
    cfg: Config,
)
    requires
        0 <= k <= st.slots.len(),
        0 <= player.index < st.slots.len(),
    ensures
        contact_upto(st, k, player, ppos, phb, cfg).slots.len() == st.slots.len(),
        contact_upto(st, k, player, ppos, phb, cfg).slots[player.index as int]
            == st.slots[player.index as int],
    decreases k,
{
    if k > 0 {
        lemma_contact_keeps_player(st, k - 1, player, ppos, phb, cfg);
    }
}

/// What one run of `PlayerCollSys` does.
pub open spec fn player_coll_post(old: World, new: World) -> bool {
    &&& !old.res.dead.0 && player_ready(old) ==> new.slots@
            == player_coll_result(old)
    &&& old.res.dead.0 || !player_ready(old) ==> new.slots@ == old.slots@
    &&& new.spawn_queue == old.spawn_queue
    &&& new.res == old.res
    &&& new.config == old.config
    &&& new.wf()
}

pub struct PlayerCollSys;

impl PlayerCollSys {
    /// Checks the player against every enemy in slot order; see `contact_step`.
    /// Does nothing once the player is dead or when the player entity lacks a
    /// component it reads.
    pub fn run(&mut self, world: &mut World)
        requires
            old(world).wf(),
        ensures
            player_coll_post(*old(world), *final(world)),
    {
        if world.res.dead.0 {
            return;
        }
        let player = world.res.player_entity.0;
        if !world.is_alive(player) {
            return;
        }
        let ps = world.slots[player.index];
        let d = ps.data;
        if d.position.is_none() || d.hitbox.is_none() || d.velocity.is_none() || d.hp.is_none() {
            return;
        }
        let ppos = d.position.unwrap();
        let phb = d.hitbox.unwrap();
        let mut php = d.hp.unwrap();
        let mut pvel = d.velocity.unwrap().0;
        let cfg = world.config;
        let n = world.slots.len();
        assert(data_wf(old(world).slots@[player.index as int].data));
        let ghost start = ContactState { slots: world.slots@, hp: php, vel: pvel };
        let mut t: usize = 0;
        while t < n
            invariant
                old(world).wf(),
                slots_wf(world.slots@),
                queue_wf(world.spawn_queue@),
                n == world.slots@.len() == old(world).slots@.len(),
                t <= n,
                player.index < n,
                cfg == old(world).config,
                world.config == cfg,
                world.res == old(world).res,
                world.spawn_queue == old(world).spawn_queue,
                start.slots == old(world).slots@,
                data_wf(d),
                point_ok(pvel),
                ({
                    let st = contact_upto(start, t as int, player, ppos, phb, cfg);
                    &&& world.slots@ == st.slots
                    &&& php == st.hp
                    &&& pvel == st.vel
                }),
            decreases n - t,
        {
            let ghost st = contact_upto(start, t as int, player, ppos, phb, cfg);
            let ts = world.slots[t];
            if t != player.index && ts.alive && ts.data.bullet.is_none() && ts.data.enemy.is_some()
                && ts.data.hp.is_some() && ts.data.position.is_some() && ts.data.hitbox.is_some() {
                let hp = ts.data.hp.unwrap();
                let epos = ts.data.position.unwrap();
                if hp.iframes == 0 && php.iframes == 0 && hitboxes_overlap(
                    epos,
                    ts.data.hitbox.unwrap(),
                    ppos,
                    phb,
                ) {
                    php = HP {
                        remaining: if php.remaining >= cfg.contact_damage {
                            php.remaining - cfg.contact_damage
                        } else {
                            0
                        },
                        iframes: cfg.contact_iframes,
                    };
                    let push = toward(epos.0, ppos.0, cfg.knockback_speed);
                    pvel = add_point(pvel, push);
                    let remaining = if hp.remaining >= cfg.ram_damage {
                        hp.remaining - cfg.ram_damage
                    } else {
                        0
                    };
                    let mut nd = ts.data;
                    nd.hp = Some(HP { remaining, ..hp });
                    let ghost wf_before = world.slots@;
                    world.slots[t] = Slot { data: nd, ..ts };
                    proof {
                        lemma_slots_wf_update(wf_before, t as int, world.slots@[t as int]);
                    }
                }
            }
            t += 1;
        }
        proof {
            lemma_contact_keeps_player(start, n as int, player, ppos, phb, cfg);
        }
        let mut nd = d;
        nd.hp = Some(php);
        nd.velocity = Some(crate::components::Velocity(pvel));
        let ghost wf_before = world.slots@;
        world.slots[player.index] = Slot { data: nd, ..ps };
        proof {
            lemma_slots_wf_update(wf_before, player.index as int, world.slots@[player.index as int]);
        }
    }
}

} // verus!

verus! {

/// A live entity whose hit points have run out.
pub open spec fn out_of_hp(s: Slot) -> bool {
    s.alive && s.data.hp is Some && s.data.hp.unwrap().remaining == 0
}

pub open spec fn kill_step(s: Slot) -> Slot {
    if out_of_hp(s) {
        Slot { doomed: true, ..s }
    } else {
        s
    }
}

/// The player entity is live and out of hit points.
pub open spec fn player_killed(w: World) -> bool {
    let e = w.res.player_entity.0;
    w.live(e) && out_of_hp(w.slots@[e.index as int])
}

/// What one run of `HPKillSys` does.
pub open spec fn hp_kill_post(old: World, new: World) -> bool {
    &&& new.slots@.len() == old.slots@.len()
    &&& forall|i: int|
            0 <= i < old.slots@.len() ==> #[trigger] new.slots@[i] == kill_step(
                old.slots@[i],
            )
    &&& new.res.dead.0 == (old.res.dead.0 || player_killed(old))
    &&& new.res.queued_sounds.0@ == with_cue(
            old.res.queued_sounds.0@,
            player_killed(old),
            SoundCue::Dead,
        )
    &&& new.res.hp_text == old.res.hp_text
    &&& same_other_resources(new.res, old.res)
    &&& new.spawn_queue == old.spawn_queue
    &&& new.config == old.config
    &&& new.wf()
}

pub struct HPKillSys;

impl HPKillSys {
    /// Marks every live entity without hit points for deletion; when that is the
    /// player, sets the death flag and requests the death sound.
    pub fn run(&mut self, world: &mut World)
        requires
            old(world).wf(),
        ensures
            hp_kill_post(*old(world), *final(world)),
    {
        let player = world.res.player_entity.0;
        let killed = world.is_alive(player) && {
            let d = world.slots[player.index].data;
            d.hp.is_some() && d.hp.unwrap().remaining == 0
        };
        let n = world.slots.len();
        let mut i: usize = 0;
        while i < n
            invariant
                old(world).wf(),
                slots_wf(world.slots@),
                queue_wf(world.spawn_queue@),
                n == world.slots@.len() == old(world).slots@.len(),
                i <= n,
                world.res == old(world).res,
                world.spawn_queue == old(world).spawn_queue,
                world.config == old(world).config,
                forall|j: int| 0 <= j < i ==> #[trigger] world.slots@[j] == kill_step(old(world).slots@[j]),
                forall|j: int| i <= j < n ==> #[trigger] world.slots@[j] == old(world).slots@[j],
            decreases n - i,
        {
            let s = world.slots[i];
            if s.alive && s.data.hp.is_some() && s.data.hp.unwrap().remaining == 0 {
                let ghost wf_before = world.slots@;
                world.slots[i] = Slot { doomed: true, ..s };
                proof {
                    lemma_slots_wf_update(wf_before, i as int, world.slots@[i as int]);
                }
            }
            i += 1;
        }
        if killed {
            world.res.dead = crate::resources::Dead(true);
            world.res.queued_sounds.0.push(SoundCue::Dead);
        }
    }
}

/// One tick of invulnerability wears off.
pub open spec fn iframe_step(s: Slot) -> Slot {
    match s.data.hp {
        Some(hp) => if s.alive && hp.iframes > 0 {
            Slot {
                data: EntityData { hp: Some(HP { iframes: (hp.iframes - 1) as u8, ..hp }), ..s.data },
                ..s
            }
        } else {
            s
        },
        None => s,
    }
}

/// What one run of `IFrameSys` does.
pub open spec fn iframe_post(old: World, new: World) -> bool {
    &&& new.slots@.len() == old.slots@.len()
    &&& forall|i: int|
            0 <= i < old.slots@.len() ==> #[trigger] new.slots@[i]
                == iframe_step(old.slots@[i])
    &&& new.res == old.res
    &&& new.spawn_queue == old.spawn_queue
    &&& new.config == old.config
    &&& new.wf()
}

pub struct IFrameSys;

impl IFrameSys {
    /// Decrements every live entity's invulnerability frames that are above zero.
    pub fn run(&mut self, world: &mut World)
        requires
            old(world).wf(),
        ensures
            iframe_post(*old(world), *final(world)),
    {
        let n = world.slots.len();
        let mut i: usize = 0;
        while i < n
            invariant
                old(world).wf(),
                slots_wf(world.slots@),
                queue_wf(world.spawn_queue@),
                n == world.slots@.len() == old(world).slots@.len(),
                i <= n,
                world.res == old(world).res,
                world.spawn_queue == old(world).spawn_queue,
                world.config == old(world).config,
                forall|j: int| 0 <= j < i ==> #[trigger] world.slots@[j] == iframe_step(old(world).slots@[j]),
                forall|j: int| i <= j < n ==> #[trigger] world.slots@[j] == old(world).slots@[j],
            decreases n - i,
        {
            let s = world.slots[i];
            if let Some(hp) = s.data.hp {
                if s.alive && hp.iframes > 0 {
                    let mut nd = s.data;
                    nd.hp = Some(HP { iframes: hp.iframes - 1, ..hp });
                    let ghost wf_before = world.slots@;
                    world.slots[i] = Slot { data: nd, ..s };
                    proof {
                        lemma_slots_wf_update(wf_before, i as int, world.slots@[i as int]);
                    }
                }
            }
            i += 1;
        }
    }
}

} // verus!
