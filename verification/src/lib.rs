//! The rules of a top-down action game: the tile map and its collisions,
//! character animation, aiming, enemy waves, scoring and the saved best
//! score.
pub mod animation;
pub mod combat;
pub mod enemy;
pub mod game_state;
pub mod game_ui;
pub mod player;
pub mod timer;
pub mod weapon;
pub mod world;
