//! A verified protocol layer for applying declarative node streams to live
//! object trees.
//!
//! A UI document is parsed elsewhere into a flat, tree-shaped *node stream*:
//! a sequence of identifier/value nodes where nested objects appear as
//! matching open/close markers.  This crate provides the contracts and the
//! machinery by which any object becomes "live-appliable": the apply
//! protocol that consumes one subtree of the stream and mutates the object
//! in place, the construction protocol that builds objects from documents,
//! a type-erasure layer for heterogeneous components and user actions, and
//! a small animation bridge.

pub mod animate;
pub mod components;
pub mod context;
pub mod erase;
pub mod frame;
pub mod live_node;
pub mod live_traits;
