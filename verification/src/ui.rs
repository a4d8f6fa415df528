//! Layout arithmetic for pop-ups and gauges.

use vstd::prelude::*;

verus! {

pub struct UI;

/// The share of a length, in percent, that lies on either side of a centred
/// part that takes `percent` of it.
pub open spec fn margin_percent(percent: u16) -> int {
    (100 - percent) / 2
}

impl UI {
    pub fn new() -> (ui: UI) {
        UI
    }

    /// The three shares, in percent, into which a length is split to centre a
    /// part that takes `percent` of it: the margin, the part, the margin.
    pub fn centered_percentages(percent: u16) -> (shares: (u16, u16, u16))
        requires
            percent <= 100,
        ensures
            shares.0 == margin_percent(percent),
            shares.1 == percent,
            shares.2 == margin_percent(percent),
    {
        let margin: u16 = (100 - percent) / 2;
        (margin, percent, margin)
    }
}

impl Default for UI {
    fn default() -> (ui: UI) {
        UI::new()
    }
}

} // verus!
