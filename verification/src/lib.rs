//! Rules engine of a terminal helicopter combat game: the discrete state of the
//! game (camera, helicopter systems, carrier, explosions, damage, waves, lock-on
//! selection, the choice of what a round strikes, keyboard decisions, HUD
//! readouts, sprite layouts), each with its contract. Continuous motion is kept
//! by the caller and enters here as rounded cells, flags and ordering keys.

pub mod types;
pub mod dice;
pub mod game;
pub mod camera;
pub mod explosions;
pub mod heli;
pub mod controls;
pub mod pool;
pub mod hull;
pub mod targeting;
pub mod battle;
pub mod sound;
pub mod terrain;
pub mod hud;
pub mod sprites;
pub mod layout;
pub mod strike;
