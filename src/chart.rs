//! The population chart: once a second a bar as tall as the number of
//! hoppers is drawn, one bar further to the right each time.

use vstd::prelude::*;
use crate::arena::{FIELD_HEIGHT, FIELD_WIDTH};

verus! {

/// Width of a bar, in pixels.
pub const BAR_WIDTH: i64 = 10;

/// Distance between the centres of two bars, in pixels.
pub const BAR_SPACING: i64 = 20;

/// Gap between the bottom of a bar and its label, in pixels.
pub const LABEL_GAP: i64 = 5;

/// Largest count or number of bars that the chart accepts.
pub const CHART_LIMIT: u64 = 1_000_000_000_000;

/// One bar of the chart. Vertical places are given in half pixels, since a
/// bar of odd height has its centre between two pixels.
#[derive(Clone, Copy, Debug, PartialEq, Eq)]
pub struct Bar {
    /// Number of the bar, from one.
    pub step: u64,
    /// Hoppers counted; also the bar's height in pixels.
    pub count: u64,
    /// Horizontal centre, in pixels.
    pub center_x: i64,
    /// Vertical centre, in half pixels: the bar stands on the bottom wall.
    pub center_y_halves: i64,
    /// Place of the label below the bar, relative to the bar's centre, in
    /// half pixels.
    pub label_dy_halves: i64,
}

/// The bars drawn so far.
pub struct Chart {
    pub step: u64,
}

impl Chart {
    /// A chart with no bar.
    pub fn new() -> (r: Chart)
        ensures
            r.step == 0,
    {
        Chart { step: 0 }
    }

    /// Adds the bar for `count` hoppers next to the last one.
    pub fn record(&mut self, count: u64) -> (r: Bar)
        requires
            old(self).step < CHART_LIMIT,
            count <= CHART_LIMIT,
        ensures
            final(self).step == old(self).step + 1,
            r.step == final(self).step,
            r.count == count,
            r.center_x == BAR_SPACING * r.step - FIELD_WIDTH / 2,
            r.center_y_halves == count - FIELD_HEIGHT,
            r.label_dy_halves == -(count as int) - 2 * LABEL_GAP,
    {
        self.step = self.step + 1;
        let step = self.step;
        let c = count as i64;
        Bar {
            step,
            count,
            center_x: BAR_SPACING * (step as i64) - FIELD_WIDTH / 2,
            center_y_halves: c - FIELD_HEIGHT,
            label_dy_halves: -c - 2 * LABEL_GAP,
        }
    }
}

} // verus!
