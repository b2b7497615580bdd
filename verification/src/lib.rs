//! Game engine of a memory-matching game whose board patterns come from the
//! core usage of a relay chain: one block per cell, matched by the occupancy
//! pattern of its cores.
pub mod account;
pub mod app;
pub mod block;
pub mod block_timer;
pub mod board;
pub mod corespace;
pub mod feed;
pub mod game;
pub mod hashing;
pub mod invariants;
pub mod keyboard;
pub mod laws;
pub mod matches;
pub mod model;
pub mod network;
pub mod router;
pub mod subscription;
pub mod support;
pub mod text;
pub mod utils;
pub mod views;
pub mod window;
