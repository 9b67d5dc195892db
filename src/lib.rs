//! Controller for a dropdown overlay terminal under a tiling window manager:
//! geometry, window-list lookup, command vocabulary and the decisions of the
//! open / close / toggle / focus-watch cycle, all verified.
pub mod commands;
pub mod controller;
pub mod error;
pub mod geometry;
pub mod session;
pub mod text;
pub mod windows;
