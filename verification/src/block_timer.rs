//! The countdown to the next block, in tenths of a second.
use vstd::prelude::*;
use vstd::string::StringExecFns;
use crate::text::{decimal, decimal_string};

verus! {

/// The seconds between two blocks.
pub const SIX_SECS_TARGET: u32 = 6;

/// A countdown: whole seconds, and tenths of a second on top.
#[derive(Debug, Clone, Copy, PartialEq, Eq, Structural)]
pub struct BlockTimer {
    pub seconds: u32,
    pub milliseconds: u32,
}

impl BlockTimer {
    /// The tenths of a second that are left.
    pub open spec fn tenths(&self) -> nat {
        (self.seconds * 10 + self.milliseconds) as nat
    }

    /// What holds of every countdown: the tenths on top are below a full
    /// second.
    pub open spec fn wf(&self) -> bool {
        self.milliseconds <= 9
    }

    /// The text that shows the countdown.
    pub open spec fn spec_label(&self) -> Seq<char> {
        " "@ + decimal(self.seconds as nat) + "."@ + decimal(self.milliseconds as nat) + "s"@
    }

    /// A countdown from six seconds.
    pub fn new() -> (timer: Self)
        ensures
            timer.wf(),
            timer == (BlockTimer { seconds: SIX_SECS_TARGET, milliseconds: 0 }),
    {
        Self { seconds: SIX_SECS_TARGET, milliseconds: 0 }
    }

    /// Starts the countdown again from six seconds.
    pub fn reset(&mut self)
        ensures
            final(self).wf(),
            *final(self) == (BlockTimer { seconds: SIX_SECS_TARGET, milliseconds: 0 }),
    {
        self.seconds = SIX_SECS_TARGET;
        self.milliseconds = 0;
    }

    /// The countdown one tenth of a second later; a countdown at zero
    /// stays there.
    pub open spec fn ticked(&self) -> BlockTimer {
        if self.seconds == 0 && self.milliseconds == 0 {
            *self
        } else if self.milliseconds == 0 {
            BlockTimer { seconds: (self.seconds - 1) as u32, milliseconds: 9 }
        } else {
            BlockTimer { seconds: self.seconds, milliseconds: (self.milliseconds - 1) as u32 }
        }
    }

    /// Counts one tenth of a second down, and tells whether anything
    /// changed: a countdown at zero stays there.
    pub fn update(&mut self) -> (changed: bool)
        ensures
            *final(self) == old(self).ticked(),
            changed == (old(self).seconds != 0 || old(self).milliseconds != 0),
            old(self).wf() ==> final(self).wf() && final(self).tenths() == if changed {
                (old(self).tenths() - 1) as nat
            } else {
                0
            },
    {
        if self.seconds == 0 && self.milliseconds == 0 {
            return false;
        }
        if self.milliseconds == 0 {
            self.milliseconds = 9;
            self.seconds = self.seconds - 1;
        } else {
            self.milliseconds = self.milliseconds - 1;
        }
        true
    }

    /// Starts the countdown again as a new block is shown, and asks for
    /// it to be drawn.
    pub fn changed(&mut self) -> (render: bool)
        ensures
            render,
            final(self).wf(),
            *final(self) == (BlockTimer { seconds: SIX_SECS_TARGET, milliseconds: 0 }),
    {
        self.reset();
        true
    }

    /// The text that shows the countdown.
    pub fn label(&self) -> (text: String)
        ensures
            text@ == self.spec_label(),
    {
        let mut text = String::from_str(" ");
        let seconds = decimal_string(self.seconds as u64);
        text.append(seconds.as_str());
        text.append(".");
        let tenths = decimal_string(self.milliseconds as u64);
        text.append(tenths.as_str());
        text.append("s");
        text
    }
}

} // verus!
