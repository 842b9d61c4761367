use shmup_core::combat::{BulletCollSys, HPKillSys, IFrameSys, PlayerCollSys};
use shmup_core::components::{
    new_bullet, new_enemy, enemy_with_reload, new_player, AnimatedSprite, Bullet, BulletType,
    DamagesWho, EnemyType, Hitbox, ImageId, MovementType, Position, Velocity, HP, Player,
    SCREEN_HEIGHT,
};
use shmup_core::game::{GameState, Input, Key, create_enemy, create_player};
use shmup_core::geom::{isqrt, toward, Point, Span, SUBPIXELS};
use shmup_core::movement::{AnimationSys, BounceBulletSys, BulletTrackingSys, EnemyMoveSys, IntegrateSys};
use shmup_core::resources::{Config, Dead, LastUpdate, PlayerEntity, SoundCue, StarInfo};
use shmup_core::shooting::{EnemyShootSys, ReloadTimerSys, SpawnBulletSys};
use shmup_core::waves::{calc_diff, target_difficulty_exec, wave_enemies, WaveCalcSys};
use shmup_core::world::{EntityData, World};

fn px(v: i64) -> i64 {
    v * SUBPIXELS
}

fn pt(x: i64, y: i64) -> Point {
    Point { x: px(x), y: px(y) }
}

fn world() -> World {
    World::new(Config::standard(), StarInfo::default())
}

fn stars() -> StarInfo {
    StarInfo { num_stars: 4, size: 225, size_variance: 150, vel: 500, vel_variance: 200 }
}

fn bullet_data(pos: Point, vel: Point, damage: u32, who: DamagesWho, ty: BulletType) -> EntityData {
    let mut d = EntityData::empty();
    d.position = Some(Position(pos));
    d.velocity = Some(Velocity(vel));
    d.hitbox = Some(Hitbox(Point { x: px(5), y: px(5) }, px(15), px(15)));
    d.bullet = Some(Bullet { damage, damages_who: who, ty });
    d
}

fn target_data(pos: Point, hp: HP) -> EntityData {
    let mut d = EntityData::empty();
    d.position = Some(Position(pos));
    d.velocity = Some(Velocity(Point { x: 0, y: 0 }));
    d.hitbox = Some(Hitbox(Point { x: 0, y: 0 }, px(30), px(30)));
    d.hp = Some(hp);
    d
}

fn add_player(w: &mut World, pos: Point, hp: u32) -> shmup_core::world::Entity {
    let mut p = new_player(ImageId::Player, hp);
    p.0 = Position(pos);
    let e = create_player(w, p);
    w.res.player_entity = PlayerEntity(e);
    e
}

fn explosions(w: &World) -> Vec<Point> {
    w.slots
        .iter()
        .filter(|s| s.alive && s.data.explosion.is_some())
        .map(|s| s.data.position.unwrap().0)
        .collect()
}

#[test]
fn stationary_target_is_destroyed_by_bullet() {
    let mut w = world();
    let target = w.create_entity(target_data(pt(100, 100), HP { remaining: 1, iframes: 0 }));
    let bullet = w.create_entity(bullet_data(pt(100, 100), Point { x: 0, y: 0 }, 1, DamagesWho::Both, BulletType::BasicBullet));
    IntegrateSys.run(&mut w);
    BulletCollSys.run(&mut w);
    HPKillSys.run(&mut w);
    w.maintain();
    assert!(!w.is_alive(target));
    assert!(!w.is_alive(bullet));
    let ex = explosions(&w);
    assert_eq!(ex.len(), 1);
    assert_eq!(ex[0], pt(100, 100));
    assert_eq!(w.res.queued_sounds.0, vec![SoundCue::Boom]);
}

#[test]
fn player_contact_damages_once_per_tick() {
    let mut w = world();
    let player = add_player(&mut w, pt(300, 300), 3);
    let enemy = enemy_with_reload(EnemyType::BasicEnemy, pt(280, 270), MovementType::horizontal(px(280), px(75), px(1)), 50);
    let enemy = create_enemy(&mut w, enemy);
    PlayerCollSys.run(&mut w);
    let php = w.get(player).unwrap().hp.unwrap();
    assert_eq!(php, HP { remaining: 2, iframes: 30 });
    assert_eq!(w.get(enemy).unwrap().hp.unwrap().remaining, 0);
    let vel = w.get(player).unwrap().velocity.unwrap().0;
    assert!(vel.x > 0 && vel.y > 0);
    PlayerCollSys.run(&mut w);
    assert_eq!(w.get(player).unwrap().hp.unwrap(), HP { remaining: 2, iframes: 30 });
}

#[test]
fn first_wave_meets_its_budget() {
    assert_eq!(target_difficulty_exec(1), 12);
    let roster = wave_enemies(1);
    let total: u32 = roster.iter().map(|(_, ty)| 2 * calc_diff(*ty) as u32).sum();
    assert!(total >= 12);
    assert_eq!(
        roster,
        vec![
            (pt(0, 20), EnemyType::AimEnemy),
            (pt(90, 20), EnemyType::BasicEnemy2),
            (pt(180, 20), EnemyType::BasicEnemy),
            (pt(270, 20), EnemyType::BasicEnemy),
        ]
    );
}

#[test]
fn wave_budget_is_met_for_many_waves() {
    for wave in 0..=255u8 {
        let roster = wave_enemies(wave);
        assert!(!roster.is_empty());
        let total: u32 = roster.iter().map(|(_, ty)| 2 * calc_diff(*ty) as u32).sum();
        assert!(total >= target_difficulty_exec(wave) as u32);
    }
}

#[test]
fn target_difficulty_formula() {
    assert_eq!(target_difficulty_exec(2), 14);
    assert_eq!(target_difficulty_exec(3), 20);
    assert_eq!(target_difficulty_exec(4), 24);
    assert_eq!(target_difficulty_exec(5), 30);
    assert_eq!(target_difficulty_exec(255), 1280);
}

#[test]
fn wave_calc_fills_the_queue() {
    let mut w = world();
    w.res.current_wave.0 = 1;
    WaveCalcSys.run(&mut w);
    assert_eq!(w.res.queued_enemies.0, wave_enemies(1));
}

#[test]
fn integration_at_rest_stays_put() {
    let mut w = world();
    let e = w.create_entity(target_data(pt(40, 50), HP::new(1)));
    for _ in 0..5 {
        IntegrateSys.run(&mut w);
    }
    assert_eq!(w.get(e).unwrap().position.unwrap().0, pt(40, 50));
}

#[test]
fn integration_adds_velocity() {
    let mut w = world();
    let mut d = target_data(pt(40, 50), HP::new(1));
    d.velocity = Some(Velocity(Point { x: 250, y: -100 }));
    let e = w.create_entity(d);
    IntegrateSys.run(&mut w);
    IntegrateSys.run(&mut w);
    assert_eq!(w.get(e).unwrap().position.unwrap().0, Point { x: 4500, y: 4800 });
}

#[test]
fn invulnerable_target_is_not_hit() {
    let mut w = world();
    let target = w.create_entity(target_data(pt(100, 100), HP { remaining: 3, iframes: 4 }));
    let bullet = w.create_entity(bullet_data(pt(100, 100), Point { x: 0, y: 0 }, 1, DamagesWho::Both, BulletType::BasicBullet));
    BulletCollSys.run(&mut w);
    assert_eq!(w.get(target).unwrap().hp.unwrap(), HP { remaining: 3, iframes: 4 });
    assert!(!w.slots[bullet.index].doomed);
    assert!(w.spawn_queue.is_empty());
}

#[test]
fn bullet_hits_only_one_target() {
    let mut w = world();
    let a = w.create_entity(target_data(pt(100, 100), HP::new(3)));
    let b = w.create_entity(target_data(pt(100, 100), HP::new(3)));
    w.create_entity(bullet_data(pt(100, 100), Point { x: 0, y: 0 }, 2, DamagesWho::Enemy, BulletType::BasicBullet));
    BulletCollSys.run(&mut w);
    assert_eq!(w.get(a).unwrap().hp.unwrap().remaining, 1);
    assert_eq!(w.get(b).unwrap().hp.unwrap().remaining, 3);
    assert_eq!(w.spawn_queue.len(), 1);
}

#[test]
fn damage_is_floored_at_zero() {
    let mut w = world();
    let a = w.create_entity(target_data(pt(100, 100), HP::new(1)));
    w.create_entity(bullet_data(pt(100, 100), Point { x: 0, y: 0 }, 3, DamagesWho::Enemy, BulletType::PlayerBullet));
    BulletCollSys.run(&mut w);
    assert_eq!(w.get(a).unwrap().hp.unwrap().remaining, 0);
}

#[test]
fn faction_rules_of_bullets() {
    let mut w = world();
    let player = add_player(&mut w, pt(100, 100), 5);
    w.create_entity(bullet_data(pt(100, 100), Point { x: 0, y: 0 }, 1, DamagesWho::Enemy, BulletType::PlayerBullet));
    BulletCollSys.run(&mut w);
    assert_eq!(w.get(player).unwrap().hp.unwrap().remaining, 5);
    w.create_entity(bullet_data(pt(100, 100), Point { x: 0, y: 0 }, 1, DamagesWho::Player, BulletType::BasicBullet));
    BulletCollSys.run(&mut w);
    assert_eq!(w.get(player).unwrap().hp.unwrap().remaining, 4);
    assert!(w.res.hp_text.needs_redraw);
    let b = Bullet { damage: 1, damages_who: DamagesWho::Both, ty: BulletType::BasicBullet };
    assert!(b.damages_player() && b.damages_enemy());
}

#[test]
fn offscreen_bullet_is_deleted_without_damage() {
    let mut w = world();
    let b = w.create_entity(bullet_data(Point { x: px(-11), y: px(100) }, Point { x: 0, y: 0 }, 1, DamagesWho::Both, BulletType::BasicBullet));
    BulletCollSys.run(&mut w);
    assert!(w.slots[b.index].doomed);
    assert!(w.spawn_queue.is_empty());
    w.maintain();
    assert!(!w.is_alive(b));
}

#[test]
fn zero_hp_entity_is_removed_and_player_death_is_flagged() {
    let mut w = world();
    let player = add_player(&mut w, pt(100, 100), 0);
    let other = w.create_entity(target_data(pt(10, 10), HP::new(0)));
    HPKillSys.run(&mut w);
    assert!(w.res.dead.0);
    assert_eq!(w.res.queued_sounds.0, vec![SoundCue::Dead]);
    w.maintain();
    assert!(!w.is_alive(player));
    assert!(!w.is_alive(other));
}

#[test]
fn iframes_decay_by_one() {
    let mut w = world();
    let a = w.create_entity(target_data(pt(10, 10), HP { remaining: 2, iframes: 2 }));
    let b = w.create_entity(target_data(pt(10, 10), HP { remaining: 2, iframes: 0 }));
    IFrameSys.run(&mut w);
    assert_eq!(w.get(a).unwrap().hp.unwrap().iframes, 1);
    assert_eq!(w.get(b).unwrap().hp.unwrap().iframes, 0);
}

#[test]
fn bouncing_bullet_bounces_count_plus_one_times() {
    let mut w = world();
    let width = w.config.screen_width;
    let b = w.create_entity(bullet_data(Point { x: width + 1, y: px(100) }, Point { x: 300, y: 0 }, 1, DamagesWho::Player, BulletType::BouncingBullet(2)));
    let mut flips = 0;
    for round in 0..3 {
        let before = w.get(b).unwrap().velocity.unwrap().0.x;
        let x = if before > 0 { width + 1 } else { -1 };
        let mut d = w.get(b).unwrap();
        d.position = Some(Position(Point { x, y: px(100) }));
        w.slots[b.index].data = d;
        BounceBulletSys.run(&mut w);
        let after = w.get(b).unwrap().velocity.unwrap().0.x;
        assert_eq!(after, -before);
        flips += 1;
        assert_eq!(w.slots[b.index].doomed, round == 2);
    }
    assert_eq!(flips, 3);
    assert_eq!(w.get(b).unwrap().bullet.unwrap().ty, BulletType::BouncingBullet(0));
}

#[test]
fn tracking_bullet_homes_then_expires() {
    let mut w = world();
    add_player(&mut w, pt(400, 600), 5);
    let b = w.create_entity(bullet_data(pt(400, 100), Point { x: 0, y: 0 }, 1, DamagesWho::Player, BulletType::TrackingBullet(1)));
    BulletTrackingSys.run(&mut w);
    let d = w.get(b).unwrap();
    assert_eq!(d.bullet.unwrap().ty, BulletType::TrackingBullet(0));
    assert_eq!(d.velocity.unwrap().0, Point { x: 0, y: 14 });
    BulletTrackingSys.run(&mut w);
    assert!(w.slots[b.index].doomed);
    assert_eq!(w.spawn_queue.len(), 1);
    assert_eq!(w.res.queued_sounds.0, vec![SoundCue::Boom]);
}

#[test]
fn toward_scales_direction() {
    assert_eq!(toward(Point { x: 0, y: 0 }, Point { x: 300, y: 400 }, 500), Point { x: 300, y: 400 });
    assert_eq!(toward(Point { x: 0, y: 0 }, Point { x: -300, y: 400 }, 1000), Point { x: -600, y: 800 });
    assert_eq!(toward(Point { x: 5, y: 5 }, Point { x: 5, y: 5 }, 1000), Point { x: 0, y: 0 });
    assert_eq!(isqrt(24), 4);
    assert_eq!(isqrt(25), 5);
}

#[test]
fn enemy_fires_when_reloaded() {
    let mut w = world();
    add_player(&mut w, pt(400, 600), 5);
    let e = create_enemy(&mut w, enemy_with_reload(EnemyType::BasicEnemy, pt(100, 100), MovementType::horizontal(px(100), px(75), px(1)), 1));
    EnemyShootSys.run(&mut w);
    assert_eq!(w.get(e).unwrap().enemy.unwrap().reload_timer, 0);
    assert!(w.spawn_queue.is_empty());
    EnemyShootSys.run(&mut w);
    assert_eq!(w.get(e).unwrap().enemy.unwrap().reload_timer, 180);
    assert_eq!(w.spawn_queue.len(), 1);
    let shot = w.spawn_queue[0];
    assert_eq!(shot.velocity.unwrap().0, Point { x: 0, y: px(8) });
    assert_eq!(shot.position.unwrap().0, pt(136, 156));
    assert_eq!(shot.bullet.unwrap().damages_who, DamagesWho::Player);
}

#[test]
fn aimed_enemy_fires_at_player() {
    let mut w = world();
    add_player(&mut w, Point { x: px(100) + 3000, y: px(100) + 4000 }, 5);
    create_enemy(&mut w, enemy_with_reload(EnemyType::AimEnemy, pt(100, 100), MovementType::horizontal(px(100), px(75), px(1)), 0));
    EnemyShootSys.run(&mut w);
    assert_eq!(w.spawn_queue[0].velocity.unwrap().0, Point { x: 540, y: 720 });
}

#[test]
fn enemies_hold_fire_when_player_is_dead() {
    let mut w = world();
    add_player(&mut w, pt(400, 600), 5);
    let e = create_enemy(&mut w, enemy_with_reload(EnemyType::BasicEnemy, pt(100, 100), MovementType::horizontal(px(100), px(75), px(1)), 0));
    w.res.dead = Dead(true);
    EnemyShootSys.run(&mut w);
    assert!(w.spawn_queue.is_empty());
    assert_eq!(w.get(e).unwrap().enemy.unwrap().reload_timer, 0);
}

#[test]
fn player_fires_and_reloads() {
    let mut w = world();
    let p = add_player(&mut w, pt(300, 500), 5);
    let mut d = w.get(p).unwrap();
    d.velocity = Some(Velocity(Point { x: 0, y: -200 }));
    w.slots[p.index].data = d;
    SpawnBulletSys.run(&mut w);
    assert_eq!(w.res.queued_sounds.0, vec![SoundCue::Shoot]);
    assert_eq!(w.get(p).unwrap().player.unwrap().reload_timer, 12);
    let shot = w.spawn_queue[0];
    assert_eq!(shot.velocity.unwrap().0, Point { x: 0, y: -700 });
    assert_eq!(shot.position.unwrap().0, pt(312, 489));
    assert_eq!(shot.bullet.unwrap().damage, 3);
    SpawnBulletSys.run(&mut w);
    assert_eq!(w.spawn_queue.len(), 1);
    ReloadTimerSys.run(&mut w);
    assert_eq!(w.get(p).unwrap().player.unwrap().reload_timer, 11);
}

#[test]
fn new_bullet_components() {
    let b = new_bullet(BulletType::AimedBullet, pt(10, 40), Point { x: 1, y: 2 }, DamagesWho::Player);
    assert_eq!(b.0, Position(pt(10, 24)));
    assert_eq!(b.1, Hitbox(pt(5, 5), px(15), px(15)));
    assert_eq!(b.2, Velocity(Point { x: 1, y: 2 }));
    assert_eq!(b.3, Bullet { damage: 1, damages_who: DamagesWho::Player, ty: BulletType::AimedBullet });
    assert_eq!(b.4, 1);
}

#[test]
fn new_enemy_stats() {
    let e = new_enemy(EnemyType::AimEnemy2, pt(10, 20), MovementType::vertical(px(20), px(90), px(1)));
    assert_eq!(e.1, Velocity(Point { x: 0, y: px(1) }));
    assert_eq!(e.2.reload_speed, 90);
    assert!(e.2.reload_timer < 45);
    assert_eq!(e.2.bullet_type, BulletType::AimedBullet);
    assert_eq!(e.3, HP::new(5));
    assert_eq!(e.5, 5);
    assert_eq!(MovementType::horizontal(px(100), px(75), 7), MovementType::HLine(Span { start: 6250, end: 13750 }, 7));
}

#[test]
fn patrol_turns_around_outside_span() {
    let mut w = world();
    let e = create_enemy(&mut w, enemy_with_reload(EnemyType::BasicEnemy, pt(200, 100), MovementType::horizontal(px(100), px(75), px(1)), 0));
    EnemyMoveSys.run(&mut w);
    assert_eq!(w.get(e).unwrap().velocity.unwrap().0, Point { x: -px(1), y: 0 });
    let inside = create_enemy(&mut w, enemy_with_reload(EnemyType::BasicEnemy, pt(100, 100), MovementType::horizontal(px(100), px(75), px(1)), 0));
    EnemyMoveSys.run(&mut w);
    assert_eq!(w.get(inside).unwrap().velocity.unwrap().0, Point { x: px(1), y: 0 });
}

#[test]
fn delete_twice_is_harmless_and_handles_do_not_alias() {
    let mut w = world();
    let a = w.create_entity(EntityData::empty());
    assert!(w.delete(a));
    assert!(!w.delete(a));
    assert!(w.is_alive(a));
    w.maintain();
    assert!(!w.is_alive(a));
    assert!(!w.delete(a));
    let b = w.create_entity(EntityData::empty());
    assert_eq!(b.index, a.index);
    assert!(b.generation > a.generation);
    assert!(!w.is_alive(a));
    assert!(w.is_alive(b));
}

#[test]
fn maintain_creates_queued_entities_in_order() {
    let mut w = world();
    let mut d1 = EntityData::empty();
    d1.hp = Some(HP::new(1));
    let mut d2 = EntityData::empty();
    d2.hp = Some(HP::new(2));
    w.queue_spawn(d1);
    w.queue_spawn(d2);
    let hs = w.maintain();
    assert_eq!(hs.len(), 2);
    assert_eq!(w.get(hs[0]).unwrap().hp, Some(HP::new(1)));
    assert_eq!(w.get(hs[1]).unwrap().hp, Some(HP::new(2)));
    assert!(w.spawn_queue.is_empty());
}

#[test]
fn temporary_animation_ends_its_entity() {
    let mut w = world();
    let mut d = EntityData::empty();
    d.animated_sprite = Some(AnimatedSprite::new(ImageId::Explosion, 2, 16, true));
    let e = w.create_entity(d);
    AnimationSys.run(&mut w);
    assert_eq!(w.get(e).unwrap().animated_sprite.unwrap().current_frame, 1);
    AnimationSys.run(&mut w);
    assert!(w.slots[e.index].doomed);
    let looping = AnimatedSprite::new(ImageId::Explosion, 2, 16, true).set_temporary(false);
    assert!(!looping.temporary);
}

#[test]
fn waves_count_down_then_spawn_mirrored_pairs() {
    let mut w = world();
    let p = add_player(&mut w, pt(300, 500), 4);
    w.res.frames_to_next_wave.0 = 1;
    w.advance_waves();
    assert_eq!(w.res.frames_to_next_wave.0, 0);
    w.res.current_wave.0 = 1;
    w.advance_waves();
    assert_eq!(w.res.current_wave.0, 2);
    assert!(w.res.hp_text.needs_redraw);
    assert_eq!(w.get(p).unwrap().hp.unwrap().remaining, 5);
    let roster = wave_enemies(2);
    assert_eq!(w.res.queued_enemies.0, roster);
    assert_eq!(w.count_live_enemies(), 2 * roster.len());
    w.advance_waves();
    assert_eq!(w.res.frames_to_next_wave.0, 120);
}

#[test]
fn first_wave_does_not_heal() {
    let mut w = world();
    let p = add_player(&mut w, pt(300, 500), 4);
    w.advance_waves();
    assert_eq!(w.res.current_wave.0, 1);
    assert_eq!(w.get(p).unwrap().hp.unwrap().remaining, 4);
}

#[test]
fn steering_applies_drag_and_input() {
    let mut w = world();
    let p = add_player(&mut w, pt(300, 500), 4);
    let mut d = w.get(p).unwrap();
    d.velocity = Some(Velocity(Point { x: 290, y: 0 }));
    w.slots[p.index].data = d;
    w.steer_player(Input { up: true, right: true, ..Input::default() });
    assert_eq!(w.get(p).unwrap().velocity.unwrap().0, Point { x: 200 + 170, y: -170 });
}

#[test]
fn update_waits_for_its_tick() {
    let mut g = GameState::new(World::new(Config::standard(), stars()));
    assert_eq!(g.world.slots.len(), 4);
    assert!(g.world.slots.iter().all(|s| s.data.star.is_some() && s.data.position.unwrap().0.y >= px(768) * 9 / 10 - px(768)));
    add_player(&mut g.world, pt(300, 500), 5);
    assert!(!g.update(Input::default(), 10_000, 10));
    assert_eq!(g.world.res.last_update, LastUpdate(0));
    assert!(!g.update(Input::default(), 40_000, 2));
    assert_eq!(g.world.res.last_update, LastUpdate(40_000));
    assert!(g.update(Input { fire: true, ..Input::default() }, 80_000, 10));
    assert_eq!(g.world.res.last_update, LastUpdate(80_000));
    assert!(g.world.spawn_queue.is_empty());
    assert!(g.world.slots.iter().any(|s| s.alive && s.data.bullet.is_some()));
}

#[test]
fn respawn_and_deflector_keys() {
    let mut g = GameState::new(World::new(Config::standard(), StarInfo::default()));
    let p = add_player(&mut g.world, pt(300, 500), 0);
    create_enemy(&mut g.world, enemy_with_reload(EnemyType::BasicEnemy, pt(100, 100), MovementType::horizontal(px(100), px(75), px(1)), 0));
    HPKillSys.run(&mut g.world);
    g.world.maintain();
    assert!(g.world.res.dead.0);
    g.key_down_event(Key::LControl);
    g.key_down_event(Key::Space);
    assert!(!g.world.res.dead.0);
    assert_eq!(g.world.res.current_wave.0, 0);
    assert!(!g.world.is_alive(p));
    let np = g.world.res.player_entity.0;
    assert_eq!(g.world.get(np).unwrap().hp, Some(HP::new(5)));
    assert_eq!(g.world.count_live_enemies(), 0);
    g.key_down_event(Key::LControl);
    let pl: Player = g.world.get(np).unwrap().player.unwrap();
    assert_eq!((pl.deflector_timer, pl.deflector_cooldown), (20, 120));
}

#[test]
fn stars_fall_back_to_the_top() {
    let info = stars();
    for _ in 0..50 {
        let (p, v, r) = info.new_star();
        assert!(p.0.x >= 0 && p.0.x < px(768));
        assert!(p.0.y >= -px(768) && p.0.y < 0);
        assert_eq!(v.0.x, 0);
        assert!(v.0.y >= 300 && v.0.y < 700);
        assert!(r.w >= 75 && r.w < 375 && r.h == r.w);
    }
    let _ = SCREEN_HEIGHT;
}

#[test]
fn dead_player_does_not_fire() {
    let mut w = world();
    add_player(&mut w, pt(300, 500), 5);
    w.res.dead = Dead(true);
    SpawnBulletSys.run(&mut w);
    assert!(w.spawn_queue.is_empty());
    assert!(w.res.queued_sounds.0.is_empty());
}

#[test]
fn well_formedness_bounds_coordinates() {
    let mut w = world();
    assert!(w.is_well_formed());
    let e = w.create_entity(target_data(pt(100, 100), HP::new(1)));
    assert!(w.is_well_formed());
    let mut d = w.get(e).unwrap();
    d.position = Some(Position(Point { x: 3_000_000_000, y: 0 }));
    w.slots[e.index].data = d;
    assert!(!w.is_well_formed());
}

#[test]
fn patrol_flip_is_exact_at_large_speeds() {
    let mut w = world();
    let mut t = enemy_with_reload(EnemyType::BasicEnemy, pt(200, 100), MovementType::horizontal(px(100), px(75), px(1)), 0);
    t.1 = Velocity(Point { x: 1_999_999_999, y: 0 });
    let e = create_enemy(&mut w, t);
    EnemyMoveSys.run(&mut w);
    assert_eq!(w.get(e).unwrap().velocity.unwrap().0.x, -1_999_999_999);
}
