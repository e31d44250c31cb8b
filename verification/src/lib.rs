//! Core of a tile-grid puzzle GUI: the value types that describe what must be
//! drawn (colors, symbols, grids, buttons), the hit-testing model that maps
//! pointer positions to logical elements, and the coordination protocol
//! between a controller thread and a dedicated render/event-loop thread.
//!
//! The native window, graphics surface and platform event loop live outside
//! this crate; every decision they depend on is made here, by verified
//! functions over plain values.

pub mod action;
pub mod button;
pub mod color;
pub mod event_loop;
pub mod grid;
pub mod gui_config;
pub mod protocol;
pub mod symbol;
