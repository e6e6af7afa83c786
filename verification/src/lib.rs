//! Frame pacing, surface negotiation and event dispatch for a window that
//! shows one rendered scene with an immediate-mode overlay on top of it.

pub mod app;
pub mod gui;
pub mod surface;
pub mod timing;
