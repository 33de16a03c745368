//! Layout, state-versioning, and compositing core of an immediate-mode UI
//! framework.
//!
//! Each frame a descriptor tree is rebuilt from persistent widget state and
//! converted into a fully resolved pixel-space layout and a tree of render
//! instructions that drive compositing, with caching keyed by identity and
//! version to avoid re-rendering unchanged subtrees.

pub mod compose;
pub mod dimensions;
pub mod dispatch;
pub mod display;
pub mod event;
pub mod identity;
pub mod instruction;
pub mod flatten;
pub mod frame;
pub mod layout;
pub mod length;
pub mod model;
pub mod node;
pub mod unified;
pub mod visual;
pub mod widget_build;
pub mod widget_state;
