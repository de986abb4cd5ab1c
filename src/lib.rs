//! Decisions behind a pixel-perfect camera: the whole-number factor at
//! which a low-resolution canvas is drawn in a window, and the switch that
//! starts and stops dragging the orbit camera with the mouse.

pub mod camera;
pub mod input;
