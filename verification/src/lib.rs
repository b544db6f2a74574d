//! State-ownership, event-propagation and windowing core for a widget
//! gallery screen.
//!
//! The crate provides the pieces that glue many independently stateful
//! widgets into one consistent, responsive view:
//!
//! * an entity store that owns each widget's mutable state behind stable
//!   handles ([`store`]),
//! * a subscription router that delivers widget-emitted events to
//!   registered observers in registration order ([`router`]),
//! * a virtual-list windower that computes the visible slice of a large
//!   item set from scroll position and per-item sizes ([`windower`]),
//! * a responsive layout selector that picks one of two arrangements from
//!   the viewport width ([`layout`]),
//! * a settings registry for process-wide, low-frequency configuration
//!   ([`settings`]),
//! * and the gallery orchestrator that composes all of the above
//!   ([`gallery`]).
//!
//! Rendering, input handling and the platform lifecycle are external
//! collaborators: the core only computes what to draw and how state
//! changes, and performs no drawing of its own.

use vstd::prelude::*;

pub mod gallery;
pub mod layout;
pub mod router;
pub mod settings;
pub mod store;
pub mod widgets;
pub mod windower;

verus! {

/// Error conditions of the core.
///
/// `NotFound` reports a stale or unknown entity handle; callers treat it
/// as "ignore this stale reference". `AlreadyInitialized` reports a second
/// initialization of the settings registry, which is harmless.
#[derive(Clone, Copy, Debug, PartialEq, Eq, Structural)]
pub enum CoreError {
    NotFound,
    AlreadyInitialized,
}

} // verus!
