//! Desktop-integration engine of an ambient rain overlay: pixel-space
//! conversions, the virtual desktop spanning all monitors, classification of
//! foreign windows into collision rectangles, supervision of the render
//! surfaces and detection of monitor hot-swaps.

pub mod commands;
pub mod desktop;
pub mod display;
pub mod health;
pub mod hotswap;
pub mod logging;
pub mod panel;
pub mod platform;
pub mod rainscape;
pub mod rounding;
pub mod text;
pub mod tray;
pub mod types;
pub mod window_detector;
