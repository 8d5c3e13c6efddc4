pub mod collision;
pub mod combo;
pub mod constants;
pub mod crc32;
pub mod fixed;
pub mod input;
pub mod reachable;
pub mod player;
pub mod ring_buffer;
pub mod state;

pub use player::Element;
pub use state::{GamePhase, GameState, Projectile, MAX_PROJECTILES};
