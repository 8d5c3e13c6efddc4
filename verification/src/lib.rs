pub mod client;
pub mod collision;
pub mod fixed_point;
pub mod game_sim;
pub mod game_state;
pub mod input;
pub mod jump_arc;
pub mod rollback;
pub mod animation;
pub mod reachable;
pub mod relay;
pub mod simulation;
pub mod text;
