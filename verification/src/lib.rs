//! StatusForge core logic: configuration, the game library, category
//! routing, detection decisions and the companion apps' rules.
pub mod assoc;
pub mod blipy;
pub mod commands;
pub mod config;
pub mod engine;
pub mod float_bits;
pub mod host;
pub mod joystick;
pub mod joystick_oauth;
pub mod library;
pub mod metadata;
pub mod pusher;
pub mod rng;
pub mod scanner;
pub mod server;
pub mod signer;
pub mod spark;
pub mod text;
