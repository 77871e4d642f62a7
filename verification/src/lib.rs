//! The decision logic of a Granblue Fantasy desktop wrapper with a native
//! sidebar: the per-window sidebar state machine, the saved layout and its
//! restore, the startup reveal latch, the page-load and tray decisions, the
//! scripts pushed into the webviews, and the Linux environment checks made
//! before any window exists.

#[allow(unused_imports)]
use vstd::prelude::*;

pub mod text;
pub mod linux_env;
pub mod labels;
pub mod startup;
pub mod label_map;
pub mod json;
pub mod theme;
pub mod scripts;
pub mod state;
pub mod page_scripts;
pub mod layout_store;
pub mod tray;
pub mod laws;
