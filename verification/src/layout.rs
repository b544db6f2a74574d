//! Responsive layout selection.
//!
//! A render pass reads the current viewport once and classifies it as
//! `Compact` or `Wide` against a fixed breakpoint. The classification is a
//! pure function of the width, so one pass can thread a single consistent
//! decision through every section it renders.

use vstd::prelude::*;

verus! {

/// Viewport width (logical pixels) at or below which the compact
/// arrangement is used.
pub const COMPACT_BREAKPOINT: u64 = 680;

/// One of the two content arrangements of the gallery.
#[derive(Clone, Copy, Debug, PartialEq, Eq, Structural)]
pub enum Layout {
    Compact,
    Wide,
}

/// The drawable area and scroll position, refreshed once per render pass
/// from the platform. Sizes and offsets are in logical pixels.
#[derive(Clone, Copy, Debug, PartialEq, Eq, Structural)]
pub struct Viewport {
    pub width: u64,
    pub height: u64,
    pub scroll_offset: u64,
}

/// The arrangement chosen for a viewport of width `width` against
/// `breakpoint`.
pub open spec fn select_spec(width: u64, breakpoint: u64) -> Layout {
    if width <= breakpoint {
        Layout::Compact
    } else {
        Layout::Wide
    }
}

/// Picks the arrangement for the given viewport width: `Compact` when the
/// width is at or below the breakpoint, `Wide` otherwise.
pub fn select(width: u64, breakpoint: u64) -> (arrangement: Layout)
    ensures
        arrangement == select_spec(width, breakpoint),
        arrangement == Layout::Compact <==> width <= breakpoint,
        arrangement == Layout::Wide <==> width > breakpoint,
{
    if width <= breakpoint {
        Layout::Compact
    } else {
        Layout::Wide
    }
}

/// The selection is a total classification: every width at or below the
/// breakpoint maps to `Compact`, every width above it to `Wide`, and no
/// width maps to both; repeating the classification never changes it, and
/// it is monotonic in the width (shrinking a compact viewport keeps it
/// compact, widening a wide one keeps it wide).
pub proof fn lemma_select_classifies(breakpoint: u64)
    ensures
        forall|w: u64| w <= breakpoint ==> #[trigger] select_spec(w, breakpoint) == Layout::Compact,
        forall|w: u64| w > breakpoint ==> #[trigger] select_spec(w, breakpoint) == Layout::Wide,
        forall|w: u64| #[trigger] select_spec(w, breakpoint) != Layout::Compact
            || select_spec(w, breakpoint) != Layout::Wide,
        forall|w1: u64, w2: u64|
            w1 <= w2 && #[trigger] select_spec(w2, breakpoint) == Layout::Compact
                ==> #[trigger] select_spec(w1, breakpoint) == Layout::Compact,
        forall|w1: u64, w2: u64|
            w1 >= w2 && #[trigger] select_spec(w2, breakpoint) == Layout::Wide
                ==> #[trigger] select_spec(w1, breakpoint) == Layout::Wide,
{
}

} // verus!
