//! Verified core of an automatic PipeWire connection controller.
//!
//! The controller watches a PipeWire graph, matches nodes by application
//! name against user supplied regular expressions, and links the ports of
//! matched nodes to a central pass-through node of its own.
pub mod dict;
pub mod object;

pub mod constants;
pub mod text;
pub mod matching;
pub mod shared;
pub mod handlers;
pub mod actions;
pub mod controller;
