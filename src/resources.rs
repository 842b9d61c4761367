//! Singleton resources of the simulation, and its tuning constants.
use vstd::prelude::*;
use crate::geom::{Point, SUBPIXELS, coord_ok, point_ok};
use crate::components::{EnemyType, Position, Velocity, ColorRect, SCREEN_WIDTH, SCREEN_HEIGHT};
use crate::world::Entity;
use crate::rng::random_i64_in;

verus! {

/// Set once the player has died; cleared only by a respawn.
#[derive(Clone, Copy, Debug, PartialEq, Eq, Structural, Default)]
pub struct Dead(pub bool);

/// The wave being played; 0 before the first.
#[derive(Clone, Copy, Debug, PartialEq, Eq, Structural, Default)]
pub struct CurrentWave(pub u8);

/// Ticks left before the next wave spawns once the field is clear.
#[derive(Clone, Copy, Debug, PartialEq, Eq, Structural)]
pub struct FramesToNextWave(pub u16);

impl Default for FramesToNextWave {
    fn default() -> (r: FramesToNextWave)
        ensures
            r == FramesToNextWave(120),
    {
        FramesToNextWave(120)
    }
}

/// The roster of the next wave: a grid position and an enemy type each.
#[derive(Clone, Debug, Default)]
pub struct QueuedEnemies(pub Vec<(Point, EnemyType)>);

/// Sound effects requested by the simulation, for the audio side to play.
#[derive(Clone, Copy, Debug, PartialEq, Eq, Structural, Hash)]
pub enum SoundCue {
    Shoot,
    Boom,
    Dead,
    Deflect,
}

/// Sound cues in the order they were requested.
#[derive(Clone, Debug, Default)]
pub struct QueuedSounds(pub Vec<SoundCue>);

/// Whether the hit-point and wave display must be redrawn.
#[derive(Clone, Copy, Debug, PartialEq, Eq, Structural, Default)]
pub struct HPText {
    pub needs_redraw: bool,
}

/// Time of the last simulated tick, in microseconds since start.
#[derive(Clone, Copy, Debug, PartialEq, Eq, Structural, Default)]
pub struct LastUpdate(pub u64);

/// The entity that is the player.
#[derive(Clone, Copy, Debug, PartialEq, Eq, Structural)]
pub struct PlayerEntity(pub Entity);

/// Parameters of the scrolling star background, in fixed-point units.
#[derive(Clone, Copy, Debug, PartialEq, Eq, Structural, Default)]
pub struct StarInfo {
    pub num_stars: usize,
    pub size: i64,
    pub size_variance: i64,
    pub vel: i64,
    pub vel_variance: i64,
}

/// `center - variance <= v < center + variance`, or `v == center` when the
/// interval is empty.
pub open spec fn drawn_around(v: int, center: int, variance: int) -> bool {
    if variance > 0 {
        center - variance <= v < center + variance
    } else {
        v == center
    }
}

/// A draw from `[center - variance, center + variance)`; `center` when that is empty.
fn draw_around(center: i64, variance: i64) -> (r: i64)
    requires
        -1_000_000_000_000 <= center <= 1_000_000_000_000,
        variance <= 1_000_000_000_000,
    ensures
        drawn_around(r as int, center as int, variance as int),
{
    if variance > 0 {
        random_i64_in(center - variance, center + variance)
    } else {
        center
    }
}

impl StarInfo {
    /// The parameters are small enough for every drawn speed and size to lie
    /// in the coordinate range.
    pub open spec fn wf(&self) -> bool {
        &&& -1_000_000_000 <= self.size <= 1_000_000_000
        &&& -1_000_000_000 <= self.vel <= 1_000_000_000
        &&& self.size_variance <= 1_000_000_000
        &&& self.vel_variance <= 1_000_000_000
    }

    /// A star above the top edge, somewhere across the width, falling at a
    /// speed drawn around `vel` and with a size drawn around `size`.
    pub fn new_star(&self) -> (r: (Position, Velocity, ColorRect))
        requires
            self.wf(),
        ensures
            0 <= r.0.0.x < SCREEN_WIDTH,
            -SCREEN_WIDTH <= r.0.0.y < 0,
            r.1.0.x == 0,
            drawn_around(r.1.0.y as int, self.vel as int, self.vel_variance as int),
            drawn_around(r.2.w as int, self.size as int, self.size_variance as int),
            r.2.h == r.2.w,
    {
        let x = random_i64_in(0, SCREEN_WIDTH);
        let y = random_i64_in(-SCREEN_WIDTH, 0);
        let y_vel = draw_around(self.vel, self.vel_variance);
        let size = draw_around(self.size, self.size_variance);
        (Position(Point { x, y }), Velocity(Point { x: 0, y: y_vel }), ColorRect { w: size, h: size })
    }
}

/// Tuning constants of the simulation, in fixed-point units and ticks.
#[derive(Clone, Copy, Debug, PartialEq, Eq, Structural)]
pub struct Config {
    pub screen_width: i64,
    pub screen_height: i64,
    /// Bullets farther than this outside the playfield are removed.
    pub bullet_margin: i64,
    pub basic_bullet_speed: i64,
    pub aimed_bullet_speed: i64,
    pub tracking_launch_speed: i64,
    pub predict_bullet_speed: i64,
    /// Refinement passes of the lead calculation of predicting bullets.
    pub predict_passes: u32,
    pub bounce_bullet_velocity: Point,
    /// Where enemy bullets leave an enemy, relative to its position.
    pub enemy_muzzle: Point,
    /// Where player bullets leave the player, relative to its position.
    pub player_muzzle: Point,
    pub player_bullet_speed: i64,
    /// Speed that tracking bullets steer toward.
    pub homing_speed: i64,
    /// Each tick a tracking bullet closes `homing_blend_num / homing_blend_den`
    /// of the gap between its velocity and the target velocity.
    pub homing_blend_num: i64,
    pub homing_blend_den: i64,
    pub contact_damage: u32,
    pub contact_iframes: u8,
    pub ram_damage: u32,
    pub knockback_speed: i64,
    pub explosion_frames: u8,
    pub explosion_sheet_width: u8,
    /// Ticks between a cleared field and the next wave.
    pub wave_delay: u16,
    /// Each tick the player's velocity is multiplied by `drag_num / drag_den`.
    pub drag_num: i64,
    pub drag_den: i64,
    pub move_accel: i64,
    /// Acceleration while the fire key is held.
    pub firing_move_accel: i64,
    pub player_size: i64,
    /// Minimum time between two ticks, in microseconds.
    pub tick_micros: u64,
    /// Ticks to wait at start-up before simulating.
    pub warmup_ticks: u64,
}

/// The game's standard tuning.
pub open spec fn standard_config() -> Config {
    Config {
        screen_width: SCREEN_WIDTH,
        screen_height: SCREEN_HEIGHT,
        bullet_margin: 1000,
        basic_bullet_speed: 800,
        aimed_bullet_speed: 900,
        tracking_launch_speed: 500,
        predict_bullet_speed: 1300,
        predict_passes: 2,
        bounce_bullet_velocity: Point { x: 400, y: 600 },
        enemy_muzzle: Point { x: 3600, y: 7200 },
        player_muzzle: Point { x: 1200, y: 500 },
        player_bullet_speed: 500,
        homing_speed: 700,
        homing_blend_num: 2,
        homing_blend_den: 100,
        contact_damage: 1,
        contact_iframes: 30,
        ram_damage: 3,
        knockback_speed: 2000,
        explosion_frames: 12,
        explosion_sheet_width: 16,
        wave_delay: 120,
        drag_num: 100,
        drag_den: 145,
        move_accel: 170,
        firing_move_accel: 130,
        player_size: 4500,
        tick_micros: 32_000,
        warmup_ticks: 5,
    }
}

impl Config {
    /// The tuned velocities that are written unclamped lie in the coordinate range.
    pub open spec fn wf(&self) -> bool {
        &&& coord_ok(self.basic_bullet_speed as int)
        &&& point_ok(self.bounce_bullet_velocity)
    }

    pub fn standard() -> (r: Config)
        ensures
            r == standard_config(),
            r.wf(),
    {
        Config {
            screen_width: SCREEN_WIDTH,
            screen_height: SCREEN_HEIGHT,
            bullet_margin: 10 * SUBPIXELS,
            basic_bullet_speed: 8 * SUBPIXELS,
            aimed_bullet_speed: 9 * SUBPIXELS,
            tracking_launch_speed: 5 * SUBPIXELS,
            predict_bullet_speed: 13 * SUBPIXELS,
            predict_passes: 2,
            bounce_bullet_velocity: Point { x: 4 * SUBPIXELS, y: 6 * SUBPIXELS },
            enemy_muzzle: Point { x: 36 * SUBPIXELS, y: 72 * SUBPIXELS },
            player_muzzle: Point { x: 12 * SUBPIXELS, y: 5 * SUBPIXELS },
            player_bullet_speed: 5 * SUBPIXELS,
            homing_speed: 7 * SUBPIXELS,
            homing_blend_num: 2,
            homing_blend_den: 100,
            contact_damage: 1,
            contact_iframes: 30,
            ram_damage: 3,
            knockback_speed: 20 * SUBPIXELS,
            explosion_frames: 12,
            explosion_sheet_width: 16,
            wave_delay: 120,
            drag_num: 100,
            drag_den: 145,
            move_accel: 170,
            firing_move_accel: 130,
            player_size: 45 * SUBPIXELS,
            tick_micros: 32_000,
            warmup_ticks: 5,
        }
    }
}

} // verus!
