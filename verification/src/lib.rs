//! Region selection and timed screen recording: the geometry of a dragged
//! rectangle, the commands that turn gestures into captures, and the
//! bookkeeping of a recording session.

pub mod region;
pub mod selector;
pub mod window;
pub mod config;
pub mod action;
pub mod event;
pub mod dispatch;
pub mod overlay;
pub mod keys;
pub mod input;
pub mod shortcut;
pub mod shortcut_builder;
pub mod naming;
pub mod error;
pub mod frame;
pub mod raster;
pub mod encoder;
pub mod consumer;
pub mod producer;
pub mod capture;
pub mod pipeline;
