//! Verified presentation and interaction decisions for one native Orbit client window.

pub mod platform;
pub mod presentation;
pub mod queue;
pub mod render;
pub mod timing;
pub mod selection;
pub mod shortcuts;
pub mod status;
pub mod surface;
pub mod accessibility;
pub mod attachment;
pub mod clipboard;
pub mod input;
pub mod interaction;
pub mod launch;
pub mod links;
pub mod model;
pub mod text;
pub mod transport;
pub mod viewer;
pub mod workspace;
pub mod tree;
pub mod keys;
