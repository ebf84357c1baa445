//! Core of a two-player Pong match: arena geometry, ball motion, paddle
//! control, paddle/ball and wall/ball collision resolution, scoring, and the
//! game-phase state machine.  All coordinates are integer pixel counts; the
//! host shell owns windowing, rendering and input polling and drives the
//! simulation one tick at a time.

pub mod collision;
pub mod config;
pub mod direction;
pub mod entities;
pub mod geometry;
pub mod motion;
pub mod paddle;
pub mod phase;
pub mod scoring;
pub mod tick;
pub mod world;
