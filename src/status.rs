use vstd::prelude::*;
use crate::effects::EffectView;

verus! {

/// The period of the session's timer, in milliseconds.
pub const TICKS_MS: u64 = 100;

/// How long a status message stays on screen, in milliseconds.
pub const STATUS_DELAY_MS: u64 = 3000;

/// How long a status message stays on screen, in ticks of the timer.
pub const STATUS_DELAY_TICKS: u64 = STATUS_DELAY_MS / TICKS_MS;

/// The text on the status line and the ticks it has left; it shows while
/// ticks are left.
pub struct StatusView {
    pub text: Seq<char>,
    pub ticks_left: nat,
}

impl StatusView {
    pub open spec fn visible(self) -> bool {
        self.ticks_left > 0
    }

    /// The status line with nothing on it.
    pub open spec fn hidden() -> StatusView {
        StatusView { text: seq![], ticks_left: 0 }
    }

    /// A fresh message, shown for the full delay.
    pub open spec fn showing(text: Seq<char>) -> StatusView {
        StatusView { text, ticks_left: STATUS_DELAY_TICKS as nat }
    }

    /// The status line after one tick of the timer: a shown message loses a
    /// tick and is hidden when none is left. The effects are what the tick
    /// draws.
    pub open spec fn ticked(self) -> (StatusView, Seq<EffectView>) {
        if self.ticks_left == 0 {
            (self, seq![])
        } else if self.ticks_left == 1 {
            (StatusView::hidden(), seq![EffectView::HideStatus])
        } else {
            (StatusView { ticks_left: (self.ticks_left - 1) as nat, ..self }, seq![])
        }
    }
}

} // verus!
