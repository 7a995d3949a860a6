//! Verified core of a region-capture and annotation tool: the undo/redo
//! annotation engine, the selection-overlay state machine, the toolbar
//! session, pixel cropping and conversion, and the decisions taken on
//! window, tray and hot-key messages.

pub mod annotation;
pub mod bitmap;
pub mod capture;
pub mod config;
pub mod geometry;
pub mod hotkey;
pub mod message;
pub mod overlay;
pub mod save;
pub mod toolbar;
pub mod tray;
