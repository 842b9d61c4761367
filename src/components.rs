//! Components: the plain data attached to entities, and the constructors that
//! give each archetype its fixed stats.
use vstd::prelude::*;
use crate::geom::{
    Point, Vector, Span, SUBPIXELS, clamp_coord, clamp_wide, add_clamped, half, div_toward_zero,
};
use crate::rng::random_u32_in;

verus! {

/// Width of the playfield in fixed-point units.
pub const SCREEN_WIDTH: i64 = 76_800;

/// Height of the playfield in fixed-point units.
pub const SCREEN_HEIGHT: i64 = 76_800;

/// World-space anchor of an entity.
#[derive(Clone, Copy, Debug, PartialEq, Eq, Structural)]
pub struct Position(pub Point);

impl Position {
    /// The anchor as a point.
    pub fn into(self) -> (r: Point)
        ensures
            r == self.0,
    {
        self.0
    }
}

/// Signed displacement per tick.
#[derive(Clone, Copy, Debug, PartialEq, Eq, Structural)]
pub struct Velocity(pub Vector);

impl Default for Velocity {
    fn default() -> (r: Velocity)
        ensures
            r == (Velocity(Point { x: 0, y: 0 })),
    {
        Velocity(Point { x: 0, y: 0 })
    }
}

/// Images that a sprite can show.
#[derive(Clone, Copy, Debug, PartialEq, Eq, Structural, Hash)]
pub enum ImageId {
    Player,
    PlayerDeflector,
    PlayerCooldown,
    Explosion,
}

/// Sprite sheets whose frames are drawn in batches.
#[derive(Clone, Copy, Debug, PartialEq, Eq, Structural, Hash)]
pub enum SheetId {
    Bullets,
    Enemies,
}

/// What an entity looks like: a whole image, or one frame of a sprite sheet.
#[derive(Clone, Copy, Debug, PartialEq, Eq, Structural)]
pub enum Sprite {
    Img(ImageId),
    SpriteSheetInstance(SheetId, u8),
}

/// A sprite that advances one frame per tick.
#[derive(Clone, Copy, Debug, PartialEq, Eq, Structural)]
pub struct AnimatedSprite {
    pub spritesheet: ImageId,
    pub num_frames: u8,
    pub spritesheet_width: u8,
    pub current_frame: u8,
    /// A temporary animation deletes its entity after the last frame.
    pub temporary: bool,
}

impl AnimatedSprite {
    pub fn new(spritesheet: ImageId, num_frames: u8, spritesheet_width: u8, temporary: bool) -> (r:
        AnimatedSprite)
        ensures
            r == (AnimatedSprite {
                spritesheet,
                num_frames,
                spritesheet_width,
                current_frame: 0,
                temporary,
            }),
    {
        AnimatedSprite { spritesheet, num_frames, spritesheet_width, current_frame: 0, temporary }
    }

    pub fn set_temporary(self, temporary: bool) -> (r: AnimatedSprite)
        ensures
            r == (AnimatedSprite { temporary, ..self }),
    {
        let mut s = self;
        s.temporary = temporary;
        s
    }
}

/// Tag of an explosion entity.
#[derive(Clone, Copy, Debug, PartialEq, Eq, Structural)]
pub struct Explosion;

/// Tag of a background star.
#[derive(Clone, Copy, Debug, PartialEq, Eq, Structural)]
pub struct Star;

/// A filled rectangle of the given size, drawn at the entity's position.
#[derive(Clone, Copy, Debug, PartialEq, Eq, Structural)]
pub struct ColorRect {
    pub w: i64,
    pub h: i64,
}

/// Hit points, and the invulnerability frames left after a hit.
#[derive(Clone, Copy, Debug, PartialEq, Eq, Structural)]
pub struct HP {
    pub remaining: u32,
    pub iframes: u8,
}

impl HP {
    pub fn new(hp: u32) -> (r: HP)
        ensures
            r == (HP { remaining: hp, iframes: 0 }),
    {
        HP { remaining: hp, iframes: 0 }
    }
}

/// Bookkeeping of a bullet's bounces.
#[derive(Clone, Copy, Debug, PartialEq, Eq, Structural)]
pub struct BounceInfo {
    pub num_bounces: u8,
    pub used_bounces: u8,
}

/// Kinds of bullet; tracking and bouncing bullets carry a countdown.
#[derive(Clone, Copy, Debug, PartialEq, Eq, Structural)]
pub enum BulletType {
    PlayerBullet,
    BasicBullet,
    AimedBullet,
    PredictBullet,
    /// Frames left before the bullet explodes.
    TrackingBullet(u16),
    /// Bounces left before the bullet is destroyed on its next bounce.
    BouncingBullet(u8),
}

/// Which faction a bullet may hurt.
#[derive(Clone, Copy, Debug, PartialEq, Eq, Structural)]
pub enum DamagesWho {
    Player,
    Enemy,
    Both,
}

#[derive(Clone, Copy, Debug, PartialEq, Eq, Structural)]
pub struct Bullet {
    pub damage: u32,
    pub damages_who: DamagesWho,
    pub ty: BulletType,
}

impl Bullet {
    pub open spec fn damages_player_spec(self) -> bool {
        self.damages_who == DamagesWho::Both || self.damages_who == DamagesWho::Player
    }

    pub open spec fn damages_enemy_spec(self) -> bool {
        self.damages_who == DamagesWho::Both || self.damages_who == DamagesWho::Enemy
    }

    pub fn damages_player(self) -> (r: bool)
        ensures
            r == self.damages_player_spec(),
    {
        match self.damages_who {
            DamagesWho::Player | DamagesWho::Both => true,
            DamagesWho::Enemy => false,
        }
    }

    pub fn damages_enemy(self) -> (r: bool)
        ensures
            r == self.damages_enemy_spec(),
    {
        match self.damages_who {
            DamagesWho::Enemy | DamagesWho::Both => true,
            DamagesWho::Player => false,
        }
    }
}

/// Collision rectangle: offset from the position, width and height.
#[derive(Clone, Copy, Debug, PartialEq, Eq, Structural)]
pub struct Hitbox(pub Point, pub i64, pub i64);

pub type BulletTuple = (Position, Hitbox, Velocity, Bullet, u8);

pub open spec fn bullet_damage(ty: BulletType) -> u32 {
    match ty {
        BulletType::PlayerBullet => 3,
        _ => 1,
    }
}

pub open spec fn bullet_sprite_index(ty: BulletType) -> u8 {
    match ty {
        BulletType::BasicBullet => 0,
        BulletType::AimedBullet => 1,
        BulletType::PredictBullet => 2,
        BulletType::TrackingBullet(_) => 3,
        BulletType::PlayerBullet => 1,
        BulletType::BouncingBullet(_) => 4,
    }
}

/// Every bullet has a 15 by 15 pixel hitbox, offset by 5 pixels on each axis.
pub open spec fn bullet_hitbox() -> Hitbox {
    Hitbox(
        Point { x: (5 * SUBPIXELS) as i64, y: (5 * SUBPIXELS) as i64 },
        (15 * SUBPIXELS) as i64,
        (15 * SUBPIXELS) as i64,
    )
}

/// The components of a new bullet; it is placed 16 pixels above `pos`.
pub open spec fn new_bullet_spec(ty: BulletType, pos: Point, vel: Vector, damages_who: DamagesWho) -> BulletTuple {
    (
        Position(Point { x: pos.x, y: clamp_coord(pos.y - 16 * SUBPIXELS) as i64 }),
        bullet_hitbox(),
        Velocity(vel),
        Bullet { damage: bullet_damage(ty), damages_who, ty },
        bullet_sprite_index(ty),
    )
}

pub fn new_bullet(ty: BulletType, pos: Point, vel: Vector, damages_who: DamagesWho) -> (r:
    BulletTuple)
    ensures
        r == new_bullet_spec(ty, pos, vel, damages_who),
{
    let damage: u32 = match ty {
        BulletType::PlayerBullet => 3,
        _ => 1,
    };
    let sprite_index: u8 = match ty {
        BulletType::BasicBullet => 0,
        BulletType::AimedBullet => 1,
        BulletType::PredictBullet => 2,
        BulletType::TrackingBullet(_) => 3,
        BulletType::PlayerBullet => 1,
        BulletType::BouncingBullet(_) => 4,
    };
    let hitbox = Hitbox(Point { x: 5 * SUBPIXELS, y: 5 * SUBPIXELS }, 15 * SUBPIXELS, 15 * SUBPIXELS);
    let bullet = Bullet { damage, ty, damages_who };
    let pos = Point { x: pos.x, y: add_clamped(pos.y, -16 * SUBPIXELS) };
    (Position(pos), hitbox, Velocity(vel), bullet, sprite_index)
}

#[derive(Clone, Copy, Debug, PartialEq, Eq, Structural, Hash)]
pub enum EnemyType {
    BasicEnemy,
    BasicEnemy2,
    AimEnemy,
    PredictEnemy,
    TrackingEnemy,
    AimEnemy2,
    BounceEnemy,
}

/// How an enemy moves: back and forth along one axis within a span, at a speed.
#[derive(Clone, Copy, Debug, PartialEq, Eq, Structural)]
pub enum MovementType {
    HLine(Span, i64),
    VLine(Span, i64),
}

pub open spec fn centered_span(center: int, extent: int) -> Span {
    let h = div_toward_zero(extent, 2);
    Span { start: clamp_coord(center - h) as i64, end: clamp_coord(center + h) as i64 }
}

fn centered(center: i64, extent: i64) -> (r: Span)
    ensures
        r == centered_span(center as int, extent as int),
{
    let h = half(extent);
    Span {
        start: clamp_wide(center as i128 - h as i128),
        end: clamp_wide(center as i128 + h as i128),
    }
}

impl MovementType {
    /// Oscillation along x over `width` centred on `center`.
    pub fn horizontal(center: i64, width: i64, speed: i64) -> (r: MovementType)
        ensures
            r == MovementType::HLine(centered_span(center as int, width as int), speed),
    {
        MovementType::HLine(centered(center, width), speed)
    }

    /// Oscillation along y over `height` centred on `center`.
    pub fn vertical(center: i64, height: i64, speed: i64) -> (r: MovementType)
        ensures
            r == MovementType::VLine(centered_span(center as int, height as int), speed),
    {
        MovementType::VLine(centered(center, height), speed)
    }
}

#[derive(Clone, Copy, Debug, PartialEq, Eq, Structural)]
pub struct Enemy {
    pub ty: EnemyType,
    pub movement: MovementType,
    pub bullet_type: BulletType,
    pub reload_timer: u32,
    pub reload_speed: u32,
}

pub type EnemyTuple = (Position, Velocity, Enemy, HP, Hitbox, u8);

pub open spec fn enemy_hp(ty: EnemyType) -> u32 {
    match ty {
        EnemyType::BasicEnemy2 | EnemyType::AimEnemy2 => 5,
        _ => 3,
    }
}

pub open spec fn enemy_bullet(ty: EnemyType) -> BulletType {
    match ty {
        EnemyType::BasicEnemy | EnemyType::BasicEnemy2 => BulletType::BasicBullet,
        EnemyType::AimEnemy | EnemyType::AimEnemy2 => BulletType::AimedBullet,
        EnemyType::PredictEnemy => BulletType::PredictBullet,
        EnemyType::TrackingEnemy => BulletType::TrackingBullet(210),
        EnemyType::BounceEnemy => BulletType::BouncingBullet(2),
    }
}

pub open spec fn enemy_reload(ty: EnemyType) -> u32 {
    match ty {
        EnemyType::BasicEnemy2 | EnemyType::PredictEnemy | EnemyType::AimEnemy2 => 90,
        _ => 180,
    }
}

pub open spec fn enemy_sprite_index(ty: EnemyType) -> u8 {
    match ty {
        EnemyType::BasicEnemy => 0,
        EnemyType::AimEnemy => 1,
        EnemyType::PredictEnemy => 2,
        EnemyType::TrackingEnemy => 3,
        EnemyType::BasicEnemy2 => 4,
        EnemyType::AimEnemy2 => 5,
        EnemyType::BounceEnemy => 7,
    }
}

/// Every enemy has a 55 by 43 pixel hitbox offset by (21, 32) pixels.
pub open spec fn enemy_hitbox() -> Hitbox {
    Hitbox(
        Point { x: (21 * SUBPIXELS) as i64, y: (32 * SUBPIXELS) as i64 },
        (55 * SUBPIXELS) as i64,
        (43 * SUBPIXELS) as i64,
    )
}

/// The velocity an enemy starts with: its speed along its axis.
pub open spec fn movement_velocity(m: MovementType) -> Vector {
    match m {
        MovementType::HLine(_, speed) => Point { x: speed, y: 0 },
        MovementType::VLine(_, speed) => Point { x: 0, y: speed },
    }
}

/// The components of a new enemy whose reload timer starts at `reload_timer`.
pub open spec fn enemy_tuple(ty: EnemyType, pos: Point, movement: MovementType, reload_timer: u32) -> EnemyTuple {
    (
        Position(pos),
        Velocity(movement_velocity(movement)),
        Enemy {
            ty,
            movement,
            bullet_type: enemy_bullet(ty),
            reload_timer,
            reload_speed: enemy_reload(ty),
        },
        HP { remaining: enemy_hp(ty), iframes: 0 },
        enemy_hitbox(),
        enemy_sprite_index(ty),
    )
}

/// A new enemy of type `ty`; its first shot comes after a random delay below
/// half its reload time, so that a wave does not fire in unison.
pub fn new_enemy(ty: EnemyType, pos: Point, movement: MovementType) -> (r: EnemyTuple)
    ensures
        r == enemy_tuple(ty, pos, movement, r.2.reload_timer),
        r.2.reload_timer < enemy_reload(ty) / 2,
{
    let reload_speed: u32 = match ty {
        EnemyType::BasicEnemy2 | EnemyType::PredictEnemy | EnemyType::AimEnemy2 => 90,
        _ => 180,
    };
    let reload_offset = random_u32_in(0, reload_speed / 2);
    enemy_with_reload(ty, pos, movement, reload_offset)
}

/// A new enemy of type `ty` whose reload timer starts at `reload_timer`.
pub fn enemy_with_reload(ty: EnemyType, pos: Point, movement: MovementType, reload_timer: u32) -> (r:
    EnemyTuple)
    ensures
        r == enemy_tuple(ty, pos, movement, reload_timer),
{
    let (hp, bullet_type, reload_speed): (u32, BulletType, u32) = match ty {
        EnemyType::BasicEnemy => (3, BulletType::BasicBullet, 180),
        EnemyType::BasicEnemy2 => (5, BulletType::BasicBullet, 90),
        EnemyType::AimEnemy => (3, BulletType::AimedBullet, 180),
        EnemyType::PredictEnemy => (3, BulletType::PredictBullet, 90),
        EnemyType::TrackingEnemy => (3, BulletType::TrackingBullet(210), 180),
        EnemyType::AimEnemy2 => (5, BulletType::AimedBullet, 90),
        EnemyType::BounceEnemy => (3, BulletType::BouncingBullet(2), 180),
    };
    let vel = match movement {
        MovementType::HLine(_, speed) => Point { x: speed, y: 0 },
        MovementType::VLine(_, speed) => Point { x: 0, y: speed },
    };
    let sprite_index: u8 = match ty {
        EnemyType::BasicEnemy => 0,
        EnemyType::AimEnemy => 1,
        EnemyType::PredictEnemy => 2,
        EnemyType::TrackingEnemy => 3,
        EnemyType::BasicEnemy2 => 4,
        EnemyType::AimEnemy2 => 5,
        EnemyType::BounceEnemy => 7,
    };
    (
        Position(pos),
        Velocity(vel),
        Enemy { ty, movement, bullet_type, reload_timer, reload_speed },
        HP::new(hp),
        Hitbox(Point { x: 21 * SUBPIXELS, y: 32 * SUBPIXELS }, 55 * SUBPIXELS, 43 * SUBPIXELS),
        sprite_index,
    )
}

#[derive(Clone, Copy, Debug, PartialEq, Eq, Structural)]
pub struct Player {
    pub bullet_type: BulletType,
    pub reload_speed: u32,
    pub reload_timer: u32,
    /// Frames left with the deflector up.
    pub deflector_timer: u32,
    /// Frames left before the deflector can be raised again.
    pub deflector_cooldown: u32,
    /// How long the deflector stays up.
    pub deflector_frames: u32,
    /// How long the deflector takes to recharge.
    pub deflector_reload_frames: u32,
}

/// A fresh player: player bullets every 12 ticks, ready to fire, deflector idle.
pub open spec fn default_player() -> Player {
    Player {
        bullet_type: BulletType::PlayerBullet,
        reload_speed: 12,
        reload_timer: 0,
        deflector_timer: 0,
        deflector_cooldown: 0,
        deflector_frames: 20,
        deflector_reload_frames: 120,
    }
}

impl Default for Player {
    fn default() -> (r: Player)
        ensures
            r == default_player(),
    {
        Player {
            bullet_type: BulletType::PlayerBullet,
            reload_speed: 12,
            reload_timer: 0,
            deflector_timer: 0,
            deflector_cooldown: 0,
            deflector_frames: 20,
            deflector_reload_frames: 120,
        }
    }
}

pub type PlayerTuple = (Position, Velocity, HP, Sprite, Player, Hitbox);

/// Where the player starts: centred horizontally, three quarters down.
pub open spec fn player_start() -> Point {
    Point {
        x: (SCREEN_WIDTH / 2 - 25 * SUBPIXELS) as i64,
        y: (SCREEN_HEIGHT * 3 / 4) as i64,
    }
}

/// A new player with `hp` hit points, at rest at its starting point.
pub fn new_player(sprite: ImageId, hp: u32) -> (r: PlayerTuple)
    ensures
        r.0 == Position(player_start()),
        r.1 == Velocity(Point { x: 0, y: 0 }),
        r.2 == (HP { remaining: hp, iframes: 0 }),
        r.3 == Sprite::Img(sprite),
        r.4 == default_player(),
        r.5 == Hitbox(Point { x: 0, y: 0 }, (45 * SUBPIXELS) as i64, (45 * SUBPIXELS) as i64),
{
    let pos = Position(Point { x: SCREEN_WIDTH / 2 - 25 * SUBPIXELS, y: SCREEN_HEIGHT * 3 / 4 });
    (
        pos,
        Velocity::default(),
        HP::new(hp),
        Sprite::Img(sprite),
        Player::default(),
        Hitbox(Point { x: 0, y: 0 }, 45 * SUBPIXELS, 45 * SUBPIXELS),
    )
}

} // verus!
