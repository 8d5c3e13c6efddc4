use vstd::prelude::*;

verus! {

pub const STAGE_WIDTH: i32 = 1200;
pub const STAGE_HEIGHT: i32 = 600;
pub const GROUND_Y: i32 = 500;

/// 4 pixels/frame, in fixed-point units.
pub const PLAYER_SPEED: i32 = 4000;
/// -12 pixels/frame (upward), in fixed-point units.
pub const JUMP_VELOCITY: i32 = -12000;
/// 0.5 pixels/frame^2, in fixed-point units.
pub const GRAVITY: i32 = 500;

pub const MAX_HEALTH: i32 = 1000;
pub const MAX_ENERGY: i32 = 100;
pub const ROUND_TIME_SECONDS: i32 = 90;
pub const TICKS_PER_SECOND: i32 = 60;
/// Ticks in one round: 90 seconds at 60 ticks per second.
pub const ROUND_TICKS: i32 = 5400;
pub const BUFFER_SIZE: usize = 8;
pub const INPUT_BUFFER_SIZE: usize = 120;

/// Energy spent by a Fireball or a Dash Strike.
pub const SPECIAL_ENERGY_COST: i32 = 30;
/// Dash Strike speed as a multiple of the walking speed.
pub const DASH_STRIKE_SPEED_MULT: i32 = 2;
/// Percentage of an attack's damage that still lands on a blocking player.
pub const BLOCK_CHIP_PERCENT: i32 = 10;
/// Blockstun as a fraction (per mille) of the attack's hitstun.
pub const BLOCKSTUN_RATIO: i32 = 600;
/// Damage at or above which a grounded defender is knocked down.
pub const KNOCKDOWN_THRESHOLD: i32 = 70;
/// Frames a knocked-down player stays on the floor.
pub const KNOCKDOWN_FRAMES: i32 = 40;
/// Projectile speed in pixels per frame.
pub const PROJECTILE_SPEED: i32 = 8;
pub const PROJECTILE_DAMAGE: i32 = 45;
pub const PROJECTILE_HITSTUN: i32 = 16;
/// Frames a projectile lives before it fades.
pub const PROJECTILE_LIFETIME: i32 = 90;
/// Energy gained by the attacker on every hit.
pub const ENERGY_PER_HIT: i32 = 5;

} // verus!
