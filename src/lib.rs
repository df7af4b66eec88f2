//! Ownership and lifecycle model of a declarative-UI application engine.
//!
//! The library never touches the native engine itself. Every operation on a
//! [`QmlEngine`] queues the native calls it stands for, in the order in which
//! they must be made; the embedding program takes them with
//! [`QmlEngine::take_pending`] and performs them against the native layer.
//! What is proved here is the part that can go wrong on the host side: the
//! order of creation and teardown, that each native object is released exactly
//! once, and that every value published by a retaining property set stays
//! owned by the handle for as long as the handle exists.
use vstd::prelude::*;

pub mod engine;
pub mod host;
pub mod native;
pub mod uri;

verus! {

} // verus!
