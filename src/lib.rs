//! Playback and rendering engine for an addressable LED matrix sign.
//!
//! Fractions are fixed-point values over [`fixed::ONE`]; time is counted in
//! milliseconds.
pub mod animation;
pub mod border;
pub mod canvas;
pub mod clock;
pub mod color;
pub mod config;
pub mod fixed;
pub mod ids;
pub mod image;
pub mod manager;
pub mod models;
pub mod noise;
pub mod plasma;
pub mod renderer;
pub mod storage;
pub mod strobe;
pub mod text;
pub mod waves;
