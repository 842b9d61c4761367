//! Firing: reload timers, enemy shots aimed by bullet type, and the player's shot.
use vstd::prelude::*;
use crate::geom::{
    Point, Vector, clamp_coord, clamp_wide, add_point, add_point_spec, toward, toward_spec,
    floor_sqrt, isqrt, div_toward_zero, point_ok,
};
use crate::components::{
    BulletType, DamagesWho, Sprite, SheetId, Player, new_bullet, new_bullet_spec,
};
use crate::resources::{SoundCue, Config};
use crate::world::{slots_wf, queue_wf, lemma_slots_wf_update, lemma_queue_wf_push, World, Slot, EntityData, empty_data};
use crate::combat::with_cue;

verus! {

/// Distance between two points, rounded down.
pub open spec fn distance(a: Point, b: Point) -> int {
    let dx = clamp_coord(b.x as int) - clamp_coord(a.x as int);
    let dy = clamp_coord(b.y as int) - clamp_coord(a.y as int);
    floor_sqrt(dx * dx + dy * dy)
}

fn distance_exec(a: Point, b: Point) -> (r: u128)
    ensures
        r == distance(a, b),
        r <= 0x4_0000_0000,
{
    let dx: i128 = clamp_wide(b.x as i128) as i128 - clamp_wide(a.x as i128) as i128;
    let dy: i128 = clamp_wide(b.y as i128) as i128 - clamp_wide(a.y as i128) as i128;
    assert(0 <= dx * dx <= 16_000_000_000_000_000_000 && 0 <= dy * dy
        <= 16_000_000_000_000_000_000) by (nonlinear_arith)
        requires
            -4_000_000_000 <= dx <= 4_000_000_000,
            -4_000_000_000 <= dy <= 4_000_000_000,
    ;
    isqrt((dx * dx + dy * dy) as u128)
}

/// Where the player is expected to be after `passes` refinements: each pass
/// takes the time a bullet at `speed` needs to reach the previous estimate and
/// moves the player's current position along its velocity for that long.
pub open spec fn lead_target(shooter: Point, ppos: Point, pvel: Vector, speed: int, passes: nat) -> Point
    decreases passes,
{
    if passes == 0 || speed <= 0 {
        ppos
    } else {
        let prev = lead_target(shooter, ppos, pvel, speed, (passes - 1) as nat);
        let d = distance(shooter, prev);
        add_point_spec(
            ppos,
            Point {
                x: clamp_coord(div_toward_zero(clamp_coord(pvel.x as int) * d, speed)) as i64,
                y: clamp_coord(div_toward_zero(clamp_coord(pvel.y as int) * d, speed)) as i64,
            },
        )
    }
}

/// `v * d / speed`, rounded toward zero and clamped.
fn travel(v: i64, d: u128, speed: i64) -> (r: i64)
    requires
        d <= 0x4_0000_0000,
        speed > 0,
    ensures
        r == clamp_coord(div_toward_zero(clamp_coord(v as int) * d, speed as int)),
{
    let c = clamp_wide(v as i128);
    let mag: u128 = if c >= 0 { c as u128 } else { (-(c as i128)) as u128 };
    assert(mag * d <= 0x8_0000_0000_0000_0000_0) by (nonlinear_arith)
        requires
            mag <= 2_000_000_000,
            d <= 0x4_0000_0000,
    ;
    let q = mag * d / (speed as u128);
    assert(q <= mag * d) by (nonlinear_arith)
        requires
            q == mag * d / (speed as int),
            speed >= 1,
    ;
    assert(q <= 0x8_0000_0000_0000_0000_0);
    proof {
        assert(c as int * d == if c >= 0 { mag * d } else { -(mag * d) }) by (nonlinear_arith)
            requires
                mag == if c >= 0 { c as int } else { -c },
        ;
    }
    if c >= 0 {
        clamp_wide(q as i128)
    } else {
        clamp_wide(-(q as i128))
    }
}

fn lead_target_exec(shooter: Point, ppos: Point, pvel: Vector, speed: i64, passes: u32) -> (r: Point)
    ensures
        r == lead_target(shooter, ppos, pvel, speed as int, passes as nat),
{
    if speed <= 0 {
        return ppos;
    }
    let mut projected = ppos;
    let mut k: u32 = 0;
    while k < passes
        invariant
            k <= passes,
            speed > 0,
            projected == lead_target(shooter, ppos, pvel, speed as int, k as nat),
        decreases passes - k,
    {
        let d = distance_exec(shooter, projected);
        let off = Point { x: travel(pvel.x, d, speed), y: travel(pvel.y, d, speed) };
        projected = add_point(ppos, off);
        k += 1;
    }
    projected
}

/// The velocity of an enemy shot of type `ty` fired from `shooter` at a player at
/// `ppos` moving with `pvel`.
pub open spec fn shot_velocity(ty: BulletType, shooter: Point, ppos: Point, pvel: Vector, cfg: Config) -> Vector {
    match ty {
        BulletType::PlayerBullet | BulletType::BasicBullet => Point {
            x: 0,
            y: cfg.basic_bullet_speed,
        },
        BulletType::AimedBullet => toward_spec(shooter, ppos, cfg.aimed_bullet_speed as int),
        BulletType::TrackingBullet(_) => toward_spec(
            shooter,
            ppos,
            cfg.tracking_launch_speed as int,
        ),
        BulletType::PredictBullet => toward_spec(
            shooter,
            lead_target(
                shooter,
                ppos,
                pvel,
                cfg.predict_bullet_speed as int,
                cfg.predict_passes as nat,
            ),
            cfg.predict_bullet_speed as int,
        ),
        BulletType::BouncingBullet(_) => cfg.bounce_bullet_velocity,
    }
}

pub fn shot_velocity_exec(ty: BulletType, shooter: Point, ppos: Point, pvel: Vector, cfg: &Config) -> (r:
    Vector)
    ensures
        r == shot_velocity(ty, shooter, ppos, pvel, *cfg),
        cfg.wf() ==> point_ok(r),
{
    match ty {
        BulletType::PlayerBullet | BulletType::BasicBullet => Point {
            x: 0,
            y: cfg.basic_bullet_speed,
        },
        BulletType::AimedBullet => toward(shooter, ppos, cfg.aimed_bullet_speed),
        BulletType::TrackingBullet(_) => toward(shooter, ppos, cfg.tracking_launch_speed),
        BulletType::PredictBullet => {
            let target = lead_target_exec(
                shooter,
                ppos,
                pvel,
                cfg.predict_bullet_speed,
                cfg.predict_passes,
            );
            toward(shooter, target, cfg.predict_bullet_speed)
        },
        BulletType::BouncingBullet(_) => cfg.bounce_bullet_velocity,
    }
}

/// A bullet entity built from `new_bullet`'s components, drawn from the bullet sheet.
pub open spec fn bullet_entity(ty: BulletType, pos: Point, vel: Vector, who: DamagesWho) -> EntityData {
    let b = new_bullet_spec(ty, pos, vel, who);
    EntityData {
        position: Some(b.0),
        hitbox: Some(b.1),
        velocity: Some(b.2),
        bullet: Some(b.3),
        sprite: Some(Sprite::SpriteSheetInstance(SheetId::Bullets, b.4)),
        ..empty_data()
    }
}

fn bullet_entity_exec(ty: BulletType, pos: Point, vel: Vector, who: DamagesWho) -> (r: EntityData)
    ensures
        r == bullet_entity(ty, pos, vel, who),
{
    let b = new_bullet(ty, pos, vel, who);
    let mut d = EntityData::empty();
    d.position = Some(b.0);
    d.hitbox = Some(b.1);
    d.velocity = Some(b.2);
    d.bullet = Some(b.3);
    d.sprite = Some(Sprite::SpriteSheetInstance(SheetId::Bullets, b.4));
    d
}

/// A live enemy with a position: the shooters.
pub open spec fn shooter(s: Slot) -> bool {
    s.alive && s.data.enemy is Some && s.data.position is Some
}

/// A shooter fires when its timer has run out, and its timer restarts; otherwise
/// its timer counts down.
pub open spec fn enemy_reload_step(s: Slot) -> Slot {
    if shooter(s) {
        let e = s.data.enemy.unwrap();
        let t = if e.reload_timer != 0 { (e.reload_timer - 1) as u32 } else { e.reload_speed };
        Slot { data: EntityData { enemy: Some(crate::components::Enemy { reload_timer: t, ..e }), ..s.data }, ..s }
    } else {
        s
    }
}

/// The shot of the enemy in slot `s` if it fires this tick.
pub open spec fn enemy_shot(s: Slot, ppos: Point, pvel: Vector, cfg: Config) -> Seq<EntityData> {
    if shooter(s) && s.data.enemy.unwrap().reload_timer == 0 {
        let e = s.data.enemy.unwrap();
        let pos = s.data.position.unwrap().0;
        seq![
            bullet_entity(
                e.bullet_type,
                add_point_spec(pos, cfg.enemy_muzzle),
                shot_velocity(e.bullet_type, pos, ppos, pvel, cfg),
                DamagesWho::Player,
            ),
        ]
    } else {
        seq![]
    }
}

/// The shots of the first `k` slots, in slot order.
pub open spec fn enemy_shots_upto(slots: Seq<Slot>, k: int, ppos: Point, pvel: Vector, cfg: Config) -> Seq<EntityData>
    decreases k,
{
    if k <= 0 {
        seq![]
    } else {
        enemy_shots_upto(slots, k - 1, ppos, pvel, cfg) + enemy_shot(slots[k - 1], ppos, pvel, cfg)
    }
}

/// The player entity is live with a position and a velocity.
pub open spec fn player_located(w: World) -> bool {
    let e = w.res.player_entity.0;
    w.live(e) && w.slots@[e.index as int].data.position is Some
        && w.slots@[e.index as int].data.velocity is Some
}

/// What one run of `EnemyShootSys` does.
pub open spec fn enemy_shoot_post(old: World, new: World) -> bool {
    &&& new.res == old.res
    &&& new.config == old.config
    &&& old.res.dead.0 || !player_located(old) ==> new.slots@ == old.slots@ && new.spawn_queue@ == old.spawn_queue@
    &&& !old.res.dead.0 && player_located(old) ==> {
            let pd = old.slots@[old.res.player_entity.0.index as int].data;
            &&& new.slots@.len() == old.slots@.len()
            &&& forall|i: int|
                0 <= i < old.slots@.len() ==> #[trigger] new.slots@[i]
                    == enemy_reload_step(old.slots@[i])
            &&& new.spawn_queue@ == old.spawn_queue@ + enemy_shots_upto(
                old.slots@,
                old.slots@.len() as int,
                pd.position.unwrap().0,
                pd.velocity.unwrap().0,
                old.config,
            )
        }
    &&& new.wf()
}

pub struct EnemyShootSys;

impl EnemyShootSys {
    /// Counts down every enemy's reload timer; each enemy whose timer has run out
    /// fires a bullet at the player (queued, in slot order) and restarts its timer.
    /// Nothing happens once the player is dead or cannot be located.
    pub fn run(&mut self, world: &mut World)
        requires
            old(world).wf(),
        ensures
            enemy_shoot_post(*old(world), *final(world)),
    {
        if world.res.dead.0 {
            return;
        }
        let player = world.res.player_entity.0;
        if !world.is_alive(player) {
            return;
        }
        let pd = world.slots[player.index].data;
        if pd.position.is_none() || pd.velocity.is_none() {
            return;
        }
        let ppos = pd.position.unwrap().0;
        let pvel = pd.velocity.unwrap().0;
        let cfg = world.config;
        let n = world.slots.len();
        let mut i: usize = 0;
        while i < n
            invariant
                old(world).wf(),
                slots_wf(world.slots@),
                queue_wf(world.spawn_queue@),
                n == world.slots@.len() == old(world).slots@.len(),
                i <= n,
                world.res == old(world).res,
                world.config == cfg,
                cfg == old(world).config,
                forall|j: int|
                    0 <= j < i ==> #[trigger] world.slots@[j] == enemy_reload_step(old(world).slots@[j]),
                forall|j: int| i <= j < n ==> #[trigger] world.slots@[j] == old(world).slots@[j],
                world.spawn_queue@ == old(world).spawn_queue@ + enemy_shots_upto(
                    old(world).slots@,
                    i as int,
                    ppos,
                    pvel,
                    cfg,
                ),
            decreases n - i,
        {
            let s = world.slots[i];
            if s.alive && s.data.enemy.is_some() && s.data.position.is_some() {
                let e = s.data.enemy.unwrap();
                let pos = s.data.position.unwrap().0;
                let mut nd = s.data;
                if e.reload_timer != 0 {
                    nd.enemy = Some(crate::components::Enemy { reload_timer: e.reload_timer - 1, ..e });
                } else {
                    nd.enemy = Some(crate::components::Enemy { reload_timer: e.reload_speed, ..e });
                    let vel = shot_velocity_exec(e.bullet_type, pos, ppos, pvel, &cfg);
                    let shot = bullet_entity_exec(
                        e.bullet_type,
                        add_point(pos, cfg.enemy_muzzle),
                        vel,
                        DamagesWho::Player,
                    );
                    let ghost wq_before = world.spawn_queue@;
                    world.spawn_queue.push(shot);
                    proof {
                        lemma_queue_wf_push(wq_before, shot);
                    }
                }
                let ghost wf_before = world.slots@;
                world.slots[i] = Slot { data: nd, ..s };
                proof {
                    lemma_slots_wf_update(wf_before, i as int, world.slots@[i as int]);
                }
            }
            proof {
                assert(old(world).slots@[i as int] == s);
                assert(enemy_shots_upto(old(world).slots@, i + 1, ppos, pvel, cfg)
                    == enemy_shots_upto(old(world).slots@, i as int, ppos, pvel, cfg)
                    + enemy_shot(s, ppos, pvel, cfg));
            }
            i += 1;
        }
    }
}

/// The player's reload timer counts down, stopping at zero.
pub open spec fn player_reload_step(p: Player) -> Player {
    Player { reload_timer: if p.reload_timer != 0 { (p.reload_timer - 1) as u32 } else { 0 }, ..p }
}

/// The player entity is live and has a `Player` component.
pub open spec fn has_player(w: World) -> bool {
    let e = w.res.player_entity.0;
    w.live(e) && w.slots@[e.index as int].data.player is Some
}

/// What one run of `ReloadTimerSys` does.
pub open spec fn reload_timer_post(old: World, new: World) -> bool {
    &&& has_player(old) ==> {
            let i = old.res.player_entity.0.index as int;
            let s = old.slots@[i];
            new.slots@ == old.slots@.update(
                i,
                Slot {
                    data: EntityData {
                        player: Some(player_reload_step(s.data.player.unwrap())),
                        ..s.data
                    },
                    ..s
                },
            )
        }
    &&& !has_player(old) ==> new.slots@ == old.slots@
    &&& new.spawn_queue == old.spawn_queue
    &&& new.res == old.res
    &&& new.config == old.config
    &&& new.wf()
}

pub struct ReloadTimerSys;

impl ReloadTimerSys {
    /// Counts down the player's reload timer.
    pub fn run(&mut self, world: &mut World)
        requires
            old(world).wf(),
        ensures
            reload_timer_post(*old(world), *final(world)),
    {
        let e = world.res.player_entity.0;
        if world.is_alive(e) {
            let s = world.slots[e.index];
            if let Some(p) = s.data.player {
                let mut nd = s.data;
                nd.player = Some(
                    Player { reload_timer: if p.reload_timer != 0 { p.reload_timer - 1 } else { 0 }, ..p },
                );
                let ghost wf_before = world.slots@;
                world.slots[e.index] = Slot { data: nd, ..s };
                proof {
                    lemma_slots_wf_update(wf_before, e.index as int, world.slots@[e.index as int]);
                }
            }
        }
    }
}

/// The player entity is live with what firing reads.
pub open spec fn player_armed(w: World) -> bool {
    let e = w.res.player_entity.0;
    let d = w.slots@[e.index as int].data;
    w.live(e) && d.player is Some && d.position is Some && d.velocity is Some
}

/// The player's shot flies up at the bullet speed, faster while the player moves up.
pub open spec fn player_shot_velocity(pvel: Vector, cfg: Config) -> Vector {
    Point {
        x: 0,
        y: clamp_coord(-clamp_coord(cfg.player_bullet_speed as int) + if pvel.y < 0 {
            clamp_coord(pvel.y as int)
        } else {
            0
        }) as i64,
    }
}

/// What one run of `SpawnBulletSys` does.
pub open spec fn spawn_bullet_post(old: World, new: World) -> bool {
    &&& new.config == old.config
    &&& new.res.dead == old.res.dead
    &&& new.res.hp_text == old.res.hp_text
    &&& crate::combat::same_other_resources(new.res, old.res)
    &&& ({
            let i = old.res.player_entity.0.index as int;
            let s = old.slots@[i];
            let p = s.data.player.unwrap();
            let fires = !old.res.dead.0 && player_armed(old) && p.reload_timer == 0;
            &&& fires ==> new.slots@ == old.slots@.update(
                i,
                Slot {
                    data: EntityData {
                        player: Some(Player { reload_timer: p.reload_speed, ..p }),
                        ..s.data
                    },
                    ..s
                },
            )
            &&& fires ==> new.spawn_queue@ == old.spawn_queue@.push(
                bullet_entity(
                    p.bullet_type,
                    add_point_spec(s.data.position.unwrap().0, old.config.player_muzzle),
                    player_shot_velocity(s.data.velocity.unwrap().0, old.config),
                    DamagesWho::Enemy,
                ),
            )
            &&& new.res.queued_sounds.0@ == with_cue(
                old.res.queued_sounds.0@,
                fires,
                SoundCue::Shoot,
            )
            &&& !fires ==> new.slots@ == old.slots@
                && new.spawn_queue@ == old.spawn_queue@
        })
    &&& new.wf()
}

pub struct SpawnBulletSys;

impl SpawnBulletSys {
    /// Unless the player is dead, fires the player's weapon if it has reloaded: restarts the reload timer,
    /// queues a bullet that hurts enemies, and requests the shot sound.
    pub fn run(&mut self, world: &mut World)
        requires
            old(world).wf(),
        ensures
            spawn_bullet_post(*old(world), *final(world)),
    {
        if world.res.dead.0 {
            return;
        }
        let e = world.res.player_entity.0;
        if !world.is_alive(e) {
            return;
        }
        let s = world.slots[e.index];
        if s.data.player.is_none() || s.data.position.is_none() || s.data.velocity.is_none() {
            return;
        }
        let p = s.data.player.unwrap();
        if p.reload_timer != 0 {
            return;
        }
        let cfg = world.config;
        world.res.queued_sounds.0.push(SoundCue::Shoot);
        let mut nd = s.data;
        nd.player = Some(Player { reload_timer: p.reload_speed, ..p });
        let ghost wf_before = world.slots@;
        world.slots[e.index] = Slot { data: nd, ..s };
        proof {
            lemma_slots_wf_update(wf_before, e.index as int, world.slots@[e.index as int]);
        }
        let pvel = s.data.velocity.unwrap().0;
        let up = if pvel.y < 0 {
            clamp_wide(pvel.y as i128)
        } else {
            0
        };
        let vy = clamp_wide(-(clamp_wide(cfg.player_bullet_speed as i128) as i128) + up as i128);
        let shot = bullet_entity_exec(
            p.bullet_type,
            add_point(s.data.position.unwrap().0, cfg.player_muzzle),
            Point { x: 0, y: vy },
            DamagesWho::Enemy,
        );
        let ghost wq_before = world.spawn_queue@;
        world.spawn_queue.push(shot);
        proof {
            lemma_queue_wf_push(wq_before, shot);
        }
    }
}

} // verus!
