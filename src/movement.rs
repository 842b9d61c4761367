//! Motion and per-entity countdowns: integration, enemy patrols, homing and
//! bouncing bullets, animations, the deflector and the star field.
use vstd::prelude::*;
use crate::geom::{Point, clamp_coord, add_point, add_point_spec, toward, toward_spec, blend, blend_spec, negate};
use crate::components::{
    Position, Velocity, BulletType, MovementType, Sprite, ImageId, AnimatedSprite, Star,
    SCREEN_HEIGHT,
};
use crate::resources::{SoundCue, Config, drawn_around};
use crate::world::{data_wf, slots_wf, queue_wf, lemma_slots_wf_update, lemma_queue_wf_push, World, Slot, EntityData, Entity};
use crate::combat::{explosion_at, new_explosion, with_cue, same_other_resources};

verus! {

/// A live entity with a position and a velocity moves by its velocity.
pub open spec fn integrate_step(s: Slot) -> Slot {
    if s.alive && s.data.position is Some && s.data.velocity is Some {
        Slot {
            data: EntityData {
                position: Some(
                    Position(add_point_spec(s.data.position.unwrap().0, s.data.velocity.unwrap().0)),
                ),
                ..s.data
            },
            ..s
        }
    } else {
        s
    }
}

/// What one run of `IntegrateSys` does.
pub open spec fn integrate_post(old: World, new: World) -> bool {
    &&& new.slots@.len() == old.slots@.len()
    &&& forall|i: int|
            0 <= i < old.slots@.len() ==> #[trigger] new.slots@[i]
                == integrate_step(old.slots@[i])
    &&& new.res == old.res
    &&& new.spawn_queue == old.spawn_queue
    &&& new.config == old.config
    &&& new.wf()
}

pub struct IntegrateSys;

impl IntegrateSys {
    /// Adds each live entity's velocity to its position.
    pub fn run(&mut self, world: &mut World)
        requires
            old(world).wf(),
        ensures
            integrate_post(*old(world), *final(world)),
    {
        let n = world.slots.len();
        let mut i: usize = 0;
        while i < n
            invariant
                old(world).wf(),
                slots_wf(world.slots@),
                queue_wf(world.spawn_queue@),
                n == world.slots@.len() == old(world).slots@.len(),
                i <= n,
                world.res == old(world).res,
                world.spawn_queue == old(world).spawn_queue,
                world.config == old(world).config,
                forall|j: int| 0 <= j < i ==> #[trigger] world.slots@[j] == integrate_step(old(world).slots@[j]),
                forall|j: int| i <= j < n ==> #[trigger] world.slots@[j] == old(world).slots@[j],
            decreases n - i,
        {
            let s = world.slots[i];
            if s.alive && s.data.position.is_some() && s.data.velocity.is_some() {
                let mut nd = s.data;
                nd.position = Some(Position(add_point(s.data.position.unwrap().0, s.data.velocity.unwrap().0)));
                let ghost wf_before = world.slots@;
                world.slots[i] = Slot { data: nd, ..s };
                proof {
                    lemma_slots_wf_update(wf_before, i as int, world.slots@[i as int]);
                }
            }
            i += 1;
        }
    }
}

/// An enemy outside its patrol span turns around on that axis.
pub open spec fn patrol_step(s: Slot) -> Slot {
    if s.alive && s.data.enemy is Some && s.data.position is Some && s.data.velocity is Some {
        let p = s.data.position.unwrap().0;
        let v = s.data.velocity.unwrap().0;
        let nv = match s.data.enemy.unwrap().movement {
            MovementType::HLine(span, _) => if span.contains_spec(p.x as int) {
                v
            } else {
                Point { x: (-v.x) as i64, ..v }
            },
            MovementType::VLine(span, _) => if span.contains_spec(p.y as int) {
                v
            } else {
                Point { y: (-v.y) as i64, ..v }
            },
        };
        Slot { data: EntityData { velocity: Some(Velocity(nv)), ..s.data }, ..s }
    } else {
        s
    }
}

/// What one run of `EnemyMoveSys` does.
pub open spec fn enemy_move_post(old: World, new: World) -> bool {
    &&& new.slots@.len() == old.slots@.len()
    &&& forall|i: int|
            0 <= i < old.slots@.len() ==> #[trigger] new.slots@[i]
                == patrol_step(old.slots@[i])
    &&& new.res == old.res
    &&& new.spawn_queue == old.spawn_queue
    &&& new.config == old.config
    &&& new.wf()
}

pub struct EnemyMoveSys;

impl EnemyMoveSys {
    /// Turns around every enemy that has left its patrol span.
    pub fn run(&mut self, world: &mut World)
        requires
            old(world).wf(),
        ensures
            enemy_move_post(*old(world), *final(world)),
    {
        let n = world.slots.len();
        let mut i: usize = 0;
        while i < n
            invariant
                old(world).wf(),
                slots_wf(world.slots@),
                queue_wf(world.spawn_queue@),
                n == world.slots@.len() == old(world).slots@.len(),
                i <= n,
                world.res == old(world).res,
                world.spawn_queue == old(world).spawn_queue,
                world.config == old(world).config,
                forall|j: int| 0 <= j < i ==> #[trigger] world.slots@[j] == patrol_step(old(world).slots@[j]),
                forall|j: int| i <= j < n ==> #[trigger] world.slots@[j] == old(world).slots@[j],
            decreases n - i,
        {
            let s = world.slots[i];
            if s.alive && s.data.enemy.is_some() && s.data.position.is_some() && s.data.velocity.is_some() {
                let p = s.data.position.unwrap().0;
                let v = s.data.velocity.unwrap().0;
                let nv = match s.data.enemy.unwrap().movement {
                    MovementType::HLine(span, _) => if span.contains(p.x) {
                        v
                    } else {
                        Point { x: negate(v.x), ..v }
                    },
                    MovementType::VLine(span, _) => if span.contains(p.y) {
                        v
                    } else {
                        Point { y: negate(v.y), ..v }
                    },
                };
                let mut nd = s.data;
                nd.velocity = Some(Velocity(nv));
                let ghost wf_before = world.slots@;
                world.slots[i] = Slot { data: nd, ..s };
                proof {
                    lemma_slots_wf_update(wf_before, i as int, world.slots@[i as int]);
                }
            }
            i += 1;
        }
    }
}

/// A live tracking bullet with a position and a velocity.
pub open spec fn tracking(s: Slot) -> bool {
    s.alive && s.data.position is Some && s.data.velocity is Some && s.data.bullet is Some
        && s.data.bullet.unwrap().ty is TrackingBullet
}

/// A tracking bullet whose time is up is deleted; otherwise its countdown
/// decreases and its velocity moves a fraction of the way toward the homing
/// velocity aimed at the player.
pub open spec fn homing_step(s: Slot, ppos: Point, cfg: Config) -> Slot {
    if tracking(s) {
        let b = s.data.bullet.unwrap();
        let frames = b.ty->TrackingBullet_0;
        if frames == 0 {
            Slot { doomed: true, ..s }
        } else {
            let pos = s.data.position.unwrap().0;
            let v = s.data.velocity.unwrap().0;
            let target = toward_spec(pos, ppos, cfg.homing_speed as int);
            let nv = Point {
                x: blend_spec(v.x as int, target.x as int, cfg.homing_blend_num as int, cfg.homing_blend_den as int) as i64,
                y: blend_spec(v.y as int, target.y as int, cfg.homing_blend_num as int, cfg.homing_blend_den as int) as i64,
            };
            Slot {
                data: EntityData {
                    velocity: Some(Velocity(nv)),
                    bullet: Some(crate::components::Bullet { ty: BulletType::TrackingBullet((frames - 1) as u16), ..b }),
                    ..s.data
                },
                ..s
            }
        }
    } else {
        s
    }
}

/// The explosion of slot `s` if it is a tracking bullet whose time is up.
pub open spec fn homing_blast(s: Slot, cfg: Config) -> Seq<EntityData> {
    if tracking(s) && s.data.bullet.unwrap().ty->TrackingBullet_0 == 0 {
        seq![explosion_at(s.data.position.unwrap(), cfg)]
    } else {
        seq![]
    }
}

pub open spec fn homing_blasts_upto(slots: Seq<Slot>, k: int, cfg: Config) -> Seq<EntityData>
    decreases k,
{
    if k <= 0 {
        seq![]
    } else {
        homing_blasts_upto(slots, k - 1, cfg) + homing_blast(slots[k - 1], cfg)
    }
}

/// The player entity is live with a position.
pub open spec fn player_placed(w: World) -> bool {
    let e = w.res.player_entity.0;
    w.live(e) && w.slots@[e.index as int].data.position is Some
}

/// What one run of `BulletTrackingSys` does.
pub open spec fn bullet_tracking_post(old: World, new: World) -> bool {
    &&& new.config == old.config
    &&& new.res.dead == old.res.dead
    &&& new.res.hp_text == old.res.hp_text
    &&& same_other_resources(new.res, old.res)
    &&& !player_placed(old) ==> new.slots@ == old.slots@
            && new.spawn_queue@ == old.spawn_queue@ && new.res
            == old.res
    &&& player_placed(old) ==> {
            let ppos = old.slots@[old.res.player_entity.0.index as int].data.position.unwrap().0;
            let blasts = homing_blasts_upto(old.slots@, old.slots@.len() as int, old.config);
            &&& new.slots@.len() == old.slots@.len()
            &&& forall|i: int|
                0 <= i < old.slots@.len() ==> #[trigger] new.slots@[i]
                    == homing_step(old.slots@[i], ppos, old.config)
            &&& new.spawn_queue@ == old.spawn_queue@ + blasts
            &&& new.res.queued_sounds.0@ == with_cue(
                old.res.queued_sounds.0@,
                blasts.len() > 0,
                SoundCue::Boom,
            )
        }
    &&& new.wf()
}

pub struct BulletTrackingSys;

impl BulletTrackingSys {
    /// Steers every tracking bullet toward the player (see `homing_step`); those
    /// whose time is up explode, and an explosion sound is requested if any did.
    /// Nothing happens when the player cannot be located.
    pub fn run(&mut self, world: &mut World)
        requires
            old(world).wf(),
        ensures
            bullet_tracking_post(*old(world), *final(world)),
    {
        let player = world.res.player_entity.0;
        if !world.is_alive(player) {
            return;
        }
        let pd = world.slots[player.index].data;
        if pd.position.is_none() {
            return;
        }
        let ppos = pd.position.unwrap().0;
        let cfg = world.config;
        let n = world.slots.len();
        let mut exploded = false;
        let mut i: usize = 0;
        while i < n
            invariant
                old(world).wf(),
                slots_wf(world.slots@),
                queue_wf(world.spawn_queue@),
                n == world.slots@.len() == old(world).slots@.len(),
                i <= n,
                world.res == old(world).res,
                world.config == cfg,
                cfg == old(world).config,
                forall|j: int|
                    0 <= j < i ==> #[trigger] world.slots@[j] == homing_step(old(world).slots@[j], ppos, cfg),
                forall|j: int| i <= j < n ==> #[trigger] world.slots@[j] == old(world).slots@[j],
                world.spawn_queue@ == old(world).spawn_queue@ + homing_blasts_upto(old(world).slots@, i as int, cfg),
                exploded == (homing_blasts_upto(old(world).slots@, i as int, cfg).len() > 0),
            decreases n - i,
        {
            let s = world.slots[i];
            if s.alive && s.data.position.is_some() && s.data.velocity.is_some() && s.data.bullet.is_some() {
                let b = s.data.bullet.unwrap();
                if let BulletType::TrackingBullet(frames) = b.ty {
                    let pos = s.data.position.unwrap();
                    if frames == 0 {
                        let ex = new_explosion(pos, &cfg);
                        let ghost wq_before = world.spawn_queue@;
                        world.spawn_queue.push(ex);
                        proof {
                            lemma_queue_wf_push(wq_before, ex);
                        }
                        let ghost wf_before = world.slots@;
                        world.slots[i] = Slot { doomed: true, ..s };
                        proof {
                            lemma_slots_wf_update(wf_before, i as int, world.slots@[i as int]);
                        }
                        exploded = true;
                    } else {
                        let v = s.data.velocity.unwrap().0;
                        let target = toward(pos.0, ppos, cfg.homing_speed);
                        let nv = Point {
                            x: blend(v.x, target.x, cfg.homing_blend_num, cfg.homing_blend_den),
                            y: blend(v.y, target.y, cfg.homing_blend_num, cfg.homing_blend_den),
                        };
                        let mut nd = s.data;
                        nd.velocity = Some(Velocity(nv));
                        nd.bullet = Some(crate::components::Bullet { ty: BulletType::TrackingBullet(frames - 1), ..b });
                        let ghost wf_before = world.slots@;
                        world.slots[i] = Slot { data: nd, ..s };
                        proof {
                            lemma_slots_wf_update(wf_before, i as int, world.slots@[i as int]);
                        }
                    }
                }
            }
            proof {
                assert(homing_blasts_upto(old(world).slots@, i + 1, cfg)
                    == homing_blasts_upto(old(world).slots@, i as int, cfg)
                    + homing_blast(old(world).slots@[i as int], cfg));
            }
            i += 1;
        }
        if exploded {
            world.res.queued_sounds.0.push(SoundCue::Boom);
        }
    }
}

/// A bouncing bullet moving outward beyond the left or right edge.
pub open spec fn bounces(s: Slot, width: int) -> bool {
    let p = s.data.position.unwrap().0;
    let v = s.data.velocity.unwrap().0;
    &&& s.alive
    &&& s.data.position is Some
    &&& s.data.velocity is Some
    &&& s.data.bullet is Some
    &&& s.data.bullet.unwrap().ty is BouncingBullet
    &&& (p.x > width && v.x > 0 || p.x < 0 && v.x < 0)
}

/// The bounce counter after one bounce: one less, stopping at zero.
pub open spec fn bounce_counter(n: u8) -> u8 {
    if n > 0 { (n - 1) as u8 } else { 0 }
}

/// On a bounce the horizontal velocity flips and the counter drops; the bounce
/// that finds the counter at zero also deletes the bullet.
pub open spec fn bounce_step(s: Slot, width: int) -> Slot {
    if bounces(s, width) {
        let b = s.data.bullet.unwrap();
        let n = b.ty->BouncingBullet_0;
        let v = s.data.velocity.unwrap().0;
        Slot {
            data: EntityData {
                velocity: Some(Velocity(Point { x: (-v.x) as i64, ..v })),
                bullet: Some(crate::components::Bullet { ty: BulletType::BouncingBullet(bounce_counter(n)), ..b }),
                ..s.data
            },
            doomed: s.doomed || n == 0,
            ..s
        }
    } else {
        s
    }
}

/// What one run of `BounceBulletSys` does.
pub open spec fn bounce_bullet_post(old: World, new: World) -> bool {
    &&& new.slots@.len() == old.slots@.len()
    &&& forall|i: int|
            0 <= i < old.slots@.len() ==> #[trigger] new.slots@[i]
                == bounce_step(old.slots@[i], old.config.screen_width as int)
    &&& new.res == old.res
    &&& new.spawn_queue == old.spawn_queue
    &&& new.config == old.config
    &&& new.wf()
}

pub struct BounceBulletSys;

impl BounceBulletSys {
    /// Bounces every bouncing bullet that is leaving through a side edge.
    pub fn run(&mut self, world: &mut World)
        requires
            old(world).wf(),
        ensures
            bounce_bullet_post(*old(world), *final(world)),
    {
        let width = world.config.screen_width;
        let n = world.slots.len();
        let mut i: usize = 0;
        while i < n
            invariant
                old(world).wf(),
                slots_wf(world.slots@),
                queue_wf(world.spawn_queue@),
                n == world.slots@.len() == old(world).slots@.len(),
                i <= n,
                width == old(world).config.screen_width,
                world.res == old(world).res,
                world.spawn_queue == old(world).spawn_queue,
                world.config == old(world).config,
                forall|j: int| 0 <= j < i ==> #[trigger] world.slots@[j] == bounce_step(old(world).slots@[j], width as int),
                forall|j: int| i <= j < n ==> #[trigger] world.slots@[j] == old(world).slots@[j],
            decreases n - i,
        {
            let s = world.slots[i];
            let ghost wf_before = world.slots@;
            world.slots[i] = bounce_slot(s, width);
            proof {
                lemma_slots_wf_update(wf_before, i as int, world.slots@[i as int]);
            }
            i += 1;
        }
    }
}

pub fn bounce_slot(s: Slot, width: i64) -> (r: Slot)
    requires
        data_wf(s.data),
    ensures
        r == bounce_step(s, width as int),
        data_wf(r.data),
{
    if !(s.alive && s.data.position.is_some() && s.data.velocity.is_some() && s.data.bullet.is_some()) {
        return s;
    }
    let b = s.data.bullet.unwrap();
    let p = s.data.position.unwrap().0;
    let v = s.data.velocity.unwrap().0;
    if let BulletType::BouncingBullet(n) = b.ty {
        if p.x > width && v.x > 0 || p.x < 0 && v.x < 0 {
            let mut nd = s.data;
            nd.velocity = Some(Velocity(Point { x: negate(v.x), ..v }));
            let left: u8 = if n > 0 { n - 1 } else { 0 };
            nd.bullet = Some(crate::components::Bullet { ty: BulletType::BouncingBullet(left), ..b });
            return Slot { data: nd, doomed: s.doomed || n == 0, ..s };
        }
    }
    s
}

/// An animation advances one frame; after its last frame a temporary one
/// deletes its entity and a looping one starts over.
pub open spec fn animation_step(s: Slot) -> Slot {
    if s.alive && s.data.animated_sprite is Some {
        let a = s.data.animated_sprite.unwrap();
        let f = if a.current_frame == 255 { 0u8 } else { (a.current_frame + 1) as u8 };
        if f == a.num_frames && a.temporary {
            Slot {
                data: EntityData { animated_sprite: Some(AnimatedSprite { current_frame: f, ..a }), ..s.data },
                doomed: true,
                ..s
            }
        } else if f == a.num_frames {
            Slot { data: EntityData { animated_sprite: Some(AnimatedSprite { current_frame: 0, ..a }), ..s.data }, ..s }
        } else {
            Slot { data: EntityData { animated_sprite: Some(AnimatedSprite { current_frame: f, ..a }), ..s.data }, ..s }
        }
    } else {
        s
    }
}

/// What one run of `AnimationSys` does.
pub open spec fn animation_post(old: World, new: World) -> bool {
    &&& new.slots@.len() == old.slots@.len()
    &&& forall|i: int|
            0 <= i < old.slots@.len() ==> #[trigger] new.slots@[i]
                == animation_step(old.slots@[i])
    &&& new.res == old.res
    &&& new.spawn_queue == old.spawn_queue
    &&& new.config == old.config
    &&& new.wf()
}

pub struct AnimationSys;

impl AnimationSys {
    /// Advances every animation by one frame.
    pub fn run(&mut self, world: &mut World)
        requires
            old(world).wf(),
        ensures
            animation_post(*old(world), *final(world)),
    {
        let n = world.slots.len();
        let mut i: usize = 0;
        while i < n
            invariant
                old(world).wf(),
                slots_wf(world.slots@),
                queue_wf(world.spawn_queue@),
                n == world.slots@.len() == old(world).slots@.len(),
                i <= n,
                world.res == old(world).res,
                world.spawn_queue == old(world).spawn_queue,
                world.config == old(world).config,
                forall|j: int| 0 <= j < i ==> #[trigger] world.slots@[j] == animation_step(old(world).slots@[j]),
                forall|j: int| i <= j < n ==> #[trigger] world.slots@[j] == old(world).slots@[j],
            decreases n - i,
        {
            let s = world.slots[i];
            if s.alive && s.data.animated_sprite.is_some() {
                let a = s.data.animated_sprite.unwrap();
                let f: u8 = if a.current_frame == 255 { 0 } else { a.current_frame + 1 };
                let mut nd = s.data;
                if f == a.num_frames && a.temporary {
                    nd.animated_sprite = Some(AnimatedSprite { current_frame: f, ..a });
                    let ghost wf_before = world.slots@;
                    world.slots[i] = Slot { data: nd, doomed: true, ..s };
                    proof {
                        lemma_slots_wf_update(wf_before, i as int, world.slots@[i as int]);
                    }
                } else if f == a.num_frames {
                    nd.animated_sprite = Some(AnimatedSprite { current_frame: 0, ..a });
                    let ghost wf_before = world.slots@;
                    world.slots[i] = Slot { data: nd, ..s };
                    proof {
                        lemma_slots_wf_update(wf_before, i as int, world.slots@[i as int]);
                    }
                } else {
                    nd.animated_sprite = Some(AnimatedSprite { current_frame: f, ..a });
                    let ghost wf_before = world.slots@;
                    world.slots[i] = Slot { data: nd, ..s };
                    proof {
                        lemma_slots_wf_update(wf_before, i as int, world.slots@[i as int]);
                    }
                }
            }
            i += 1;
        }
    }
}

} // verus!

verus! {

/// The deflector's countdowns advance, and the sprite follows them: the
/// deflector image when it has just been raised, the cooldown image when it is
/// about to drop, and the plain image when it is about to be ready again.
pub open spec fn deflector_step(s: Slot) -> Slot {
    if s.alive && s.data.player is Some && s.data.sprite is Some {
        let p = s.data.player.unwrap();
        let timer = if p.deflector_timer > 0 { (p.deflector_timer - 1) as u32 } else { 0 };
        let cooldown = if p.deflector_cooldown > 0 { (p.deflector_cooldown - 1) as u32 } else { 0 };
        let s1 = if timer == 1 { Sprite::Img(ImageId::PlayerCooldown) } else { s.data.sprite.unwrap() };
        let s2 = if p.deflector_frames >= 1 && timer == p.deflector_frames - 1 {
            Sprite::Img(ImageId::PlayerDeflector)
        } else {
            s1
        };
        let s3 = if cooldown == 1 { Sprite::Img(ImageId::Player) } else { s2 };
        Slot {
            data: EntityData {
                player: Some(crate::components::Player { deflector_timer: timer, deflector_cooldown: cooldown, ..p }),
                sprite: Some(s3),
                ..s.data
            },
            ..s
        }
    } else {
        s
    }
}

/// What one run of `DeflectorSys` does.
pub open spec fn deflector_post(old: World, new: World) -> bool {
    &&& new.slots@.len() == old.slots@.len()
    &&& forall|i: int|
            0 <= i < old.slots@.len() ==> #[trigger] new.slots@[i]
                == deflector_step(old.slots@[i])
    &&& new.res == old.res
    &&& new.spawn_queue == old.spawn_queue
    &&& new.config == old.config
    &&& new.wf()
}

pub struct DeflectorSys;

impl DeflectorSys {
    /// Advances the deflector of every player; see `deflector_step`.
    pub fn run(&mut self, world: &mut World)
        requires
            old(world).wf(),
        ensures
            deflector_post(*old(world), *final(world)),
    {
        let n = world.slots.len();
        let mut i: usize = 0;
        while i < n
            invariant
                old(world).wf(),
                slots_wf(world.slots@),
                queue_wf(world.spawn_queue@),
                n == world.slots@.len() == old(world).slots@.len(),
                i <= n,
                world.res == old(world).res,
                world.spawn_queue == old(world).spawn_queue,
                world.config == old(world).config,
                forall|j: int| 0 <= j < i ==> #[trigger] world.slots@[j] == deflector_step(old(world).slots@[j]),
                forall|j: int| i <= j < n ==> #[trigger] world.slots@[j] == old(world).slots@[j],
            decreases n - i,
        {
            let s = world.slots[i];
            if s.alive && s.data.player.is_some() && s.data.sprite.is_some() {
                let p = s.data.player.unwrap();
                let timer: u32 = if p.deflector_timer > 0 { p.deflector_timer - 1 } else { 0 };
                let cooldown: u32 = if p.deflector_cooldown > 0 { p.deflector_cooldown - 1 } else { 0 };
                let mut sprite = s.data.sprite.unwrap();
                if timer == 1 {
                    sprite = Sprite::Img(ImageId::PlayerCooldown);
                }
                if p.deflector_frames >= 1 && timer == p.deflector_frames - 1 {
                    sprite = Sprite::Img(ImageId::PlayerDeflector);
                }
                if cooldown == 1 {
                    sprite = Sprite::Img(ImageId::Player);
                }
                let mut nd = s.data;
                nd.player = Some(crate::components::Player { deflector_timer: timer, deflector_cooldown: cooldown, ..p });
                nd.sprite = Some(sprite);
                let ghost wf_before = world.slots@;
                world.slots[i] = Slot { data: nd, ..s };
                proof {
                    lemma_slots_wf_update(wf_before, i as int, world.slots@[i as int]);
                }
            }
            i += 1;
        }
    }
}

/// A live star with position, velocity and rectangle.
pub open spec fn star_slot(s: Slot) -> bool {
    s.alive && s.data.star is Some && s.data.position is Some && s.data.velocity is Some
        && s.data.color_rect is Some
}

/// `s` holds a star as `StarInfo::new_star` makes them, moved down by `drop`.
pub open spec fn fresh_star(d: EntityData, info: crate::resources::StarInfo, drop: int) -> bool {
    let p = d.position.unwrap().0;
    let v = d.velocity.unwrap().0;
    let r = d.color_rect.unwrap();
    &&& d.position is Some
    &&& d.velocity is Some
    &&& d.color_rect is Some
    &&& 0 <= p.x < crate::components::SCREEN_WIDTH
    &&& -crate::components::SCREEN_WIDTH + drop <= p.y < drop
    &&& v.x == 0
    &&& drawn_around(v.y as int, info.vel as int, info.vel_variance as int)
    &&& drawn_around(r.w as int, info.size as int, info.size_variance as int)
    &&& r.h == r.w
}

/// What one run of `StarMoveSys` does.
pub open spec fn star_move_post(old: World, new: World) -> bool {
    &&& new.slots@.len() == old.slots@.len()
    &&& forall|i: int|
            #![trigger new.slots@[i]]
            0 <= i < old.slots@.len() ==> {
                let o = old.slots@[i];
                let f = new.slots@[i];
                if star_slot(o) && o.data.position.unwrap().0.y > SCREEN_HEIGHT {
                    &&& fresh_star(f.data, old.res.star_info, 0)
                    &&& f == (Slot {
                        data: EntityData {
                            position: f.data.position,
                            velocity: f.data.velocity,
                            color_rect: f.data.color_rect,
                            ..o.data
                        },
                        ..o
                    })
                } else {
                    f == o
                }
            }
    &&& new.res == old.res
    &&& new.spawn_queue == old.spawn_queue
    &&& new.config == old.config
    &&& new.wf()
}

pub struct StarMoveSys;

impl StarMoveSys {
    /// Every star that has fallen below the bottom edge starts over above the top.
    pub fn run(&mut self, world: &mut World)
        requires
            old(world).wf(),
        ensures
            star_move_post(*old(world), *final(world)),
    {
        let info = world.res.star_info;
        let n = world.slots.len();
        let mut i: usize = 0;
        while i < n
            invariant
                old(world).wf(),
                slots_wf(world.slots@),
                queue_wf(world.spawn_queue@),
                n == world.slots@.len() == old(world).slots@.len(),
                i <= n,
                info == old(world).res.star_info,
                info.wf(),
                world.res == old(world).res,
                world.spawn_queue == old(world).spawn_queue,
                world.config == old(world).config,
                forall|j: int|
                    #![trigger world.slots@[j]]
                    0 <= j < i ==> {
                        let o = old(world).slots@[j];
                        let f = world.slots@[j];
                        if star_slot(o) && o.data.position.unwrap().0.y > SCREEN_HEIGHT {
                            &&& fresh_star(f.data, info, 0)
                            &&& f == (Slot {
                                data: EntityData {
                                    position: f.data.position,
                                    velocity: f.data.velocity,
                                    color_rect: f.data.color_rect,
                                    ..o.data
                                },
                                ..o
                            })
                        } else {
                            f == o
                        }
                    },
                forall|j: int| i <= j < n ==> #[trigger] world.slots@[j] == old(world).slots@[j],
            decreases n - i,
        {
            let s = world.slots[i];
            if s.alive && s.data.star.is_some() && s.data.position.is_some() && s.data.velocity.is_some()
                && s.data.color_rect.is_some() && s.data.position.unwrap().0.y > SCREEN_HEIGHT {
                let (np, nv, nr) = info.new_star();
                let mut nd = s.data;
                nd.position = Some(np);
                nd.velocity = Some(nv);
                nd.color_rect = Some(nr);
                let ghost wf_before = world.slots@;
                world.slots[i] = Slot { data: nd, ..s };
                proof {
                    lemma_slots_wf_update(wf_before, i as int, world.slots@[i as int]);
                }
            }
            i += 1;
        }
    }
}

/// `new` adds to `old` the stars at `hs`, one for each star of the star
/// parameters, as `StarInfo::new_star` makes them moved down by nine tenths of
/// the screen height; everything else stays.
pub open spec fn star_field(old: World, new: World, hs: Seq<Entity>) -> bool {
    &&& new.wf()
    &&& hs.len() == old.res.star_info.num_stars
    &&& forall|k: int|
        0 <= k < hs.len() ==> new.live(#[trigger] hs[k])
            && fresh_star(new.slots@[hs[k].index as int].data, old.res.star_info, SCREEN_HEIGHT * 9 / 10)
            && new.slots@[hs[k].index as int].data.star is Some
    &&& old.slots@.len() <= new.slots@.len()
    &&& forall|j: int|
        0 <= j < old.slots@.len() && old.slots@[j].alive ==> #[trigger] new.slots@[j] == old.slots@[j]
    &&& new.res == old.res
    &&& new.spawn_queue == old.spawn_queue
    &&& new.config == old.config
}

#[derive(Default)]
pub struct StarInitSys;

impl StarInitSys {
    /// Creates the star field at once: `num_stars` stars spread over the screen,
    /// each as `StarInfo::new_star` makes them moved down by nine tenths of the
    /// screen height. Returns their handles.
    pub fn run(&mut self, world: &mut World) -> (r: Vec<Entity>)
        requires
            old(world).wf(),
        ensures
            star_field(*old(world), *final(world), r@),
    {
        let info = world.res.star_info;
        let mut created: Vec<Entity> = Vec::new();
        let mut k: usize = 0;
        while k < info.num_stars
            invariant
                old(world).wf(),
                slots_wf(world.slots@),
                queue_wf(world.spawn_queue@),
                k <= info.num_stars,
                info == old(world).res.star_info,
                info.wf(),
                created@.len() == k,
                old(world).slots@.len() <= world.slots@.len(),
                forall|c: int|
                    0 <= c < k ==> world.live(#[trigger] created@[c])
                        && fresh_star(world.slots@[created@[c].index as int].data, info, SCREEN_HEIGHT * 9 / 10)
                        && world.slots@[created@[c].index as int].data.star is Some,
                forall|j: int|
                    0 <= j < old(world).slots@.len() && old(world).slots@[j].alive ==> #[trigger] world.slots@[j]
                        == old(world).slots@[j],
                world.res == old(world).res,
                world.wf(),
                world.spawn_queue == old(world).spawn_queue,
                world.config == old(world).config,
            decreases info.num_stars - k,
        {
            let (p, v, rect) = info.new_star();
            let np = Position(Point { x: p.0.x, y: p.0.y + SCREEN_HEIGHT * 9 / 10 });
            let mut d = EntityData::empty();
            d.star = Some(Star);
            d.position = Some(np);
            d.velocity = Some(v);
            d.color_rect = Some(rect);
            let ghost before = world.slots@;
            let e = world.create_entity(d);
            proof {
                assert forall|c: int| 0 <= c < k implies created@[c].index != e.index by {
                    assert(before[created@[c].index as int].alive);
                }
            }
            created.push(e);
            k += 1;
        }
        created
    }
}

} // verus!
