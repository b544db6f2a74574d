use gallery_core::layout::{select, Layout, COMPACT_BREAKPOINT};

#[test]
fn width_at_breakpoint_is_compact() {
    assert_eq!(select(COMPACT_BREAKPOINT, COMPACT_BREAKPOINT), Layout::Compact);
    assert_eq!(select(0, COMPACT_BREAKPOINT), Layout::Compact);
    assert_eq!(select(679, 680), Layout::Compact);
}

#[test]
fn width_above_breakpoint_is_wide() {
    assert_eq!(select(COMPACT_BREAKPOINT + 1, COMPACT_BREAKPOINT), Layout::Wide);
    assert_eq!(select(u64::MAX, COMPACT_BREAKPOINT), Layout::Wide);
}

#[test]
fn selection_is_idempotent_across_repeated_passes() {
    for width in [0u64, 100, 679, 680, 681, 960, 4096] {
        let first = select(width, COMPACT_BREAKPOINT);
        for _ in 0..3 {
            assert_eq!(select(width, COMPACT_BREAKPOINT), first);
        }
    }
}

#[test]
fn selection_is_monotonic_in_width() {
    let widths = [0u64, 340, 679, 680, 681, 960, 2000];
    for (i, &w1) in widths.iter().enumerate() {
        for &w2 in &widths[i..] {
            // w1 <= w2: a wide w1 forces a wide w2, a compact w2 forces a
            // compact w1.
            if select(w1, COMPACT_BREAKPOINT) == Layout::Wide {
                assert_eq!(select(w2, COMPACT_BREAKPOINT), Layout::Wide);
            }
            if select(w2, COMPACT_BREAKPOINT) == Layout::Compact {
                assert_eq!(select(w1, COMPACT_BREAKPOINT), Layout::Compact);
            }
        }
    }
}
