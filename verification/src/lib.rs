//! The decisions of the workspace sidebar: how a workspace is labelled,
//! which rows the sidebar shows and how they look, which project events
//! make it refresh, and which workspace a removal targets.

pub mod digits;
pub mod label;
pub mod model;
pub mod events;
