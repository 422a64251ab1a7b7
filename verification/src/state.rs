//! What a conversion is asked to do and what it tells its caller.

use vstd::prelude::*;
use vstd::string::StringExecFns;

verus! {

/// Largest progress value: the conversion is done.
pub const FULL_PROGRESS: u8 = 100;

/// One conversion: which clip, how much of it, and where the animation goes.
/// A request does not change once the conversion has started.
pub struct ConversionRequest {
    /// The clip to convert.
    pub source_path: String,
    /// How much of the clip is taken, as the extraction tool reads a duration
    /// (`HH:MM:SS`).
    pub duration_limit: String,
    /// The file that receives the animation.
    pub destination_path: String,
}

/// What a conversion shows of itself: a status line, a percentage, and whether
/// the caller has asked it to stop. The percentage never exceeds 100.
pub struct ConversionState {
    status_text: String,
    progress_percent: u8,
    cancel_requested: bool,
}

impl ConversionState {
    #[verifier::type_invariant]
    spec fn bounded(self) -> bool {
        self.progress_percent <= FULL_PROGRESS
    }

    /// The status line.
    pub closed spec fn status(self) -> Seq<char> {
        self.status_text@
    }

    /// The percentage, from 0 to 100.
    pub closed spec fn progress(self) -> u8 {
        self.progress_percent
    }

    /// Whether the caller has asked the conversion to stop.
    pub closed spec fn cancelling(self) -> bool {
        self.cancel_requested
    }

    /// The state before any conversion: status `Idle`, no progress, no
    /// request to stop.
    pub fn idle() -> (state: ConversionState)
        ensures
            state.status() == "Idle"@,
            state.progress() == 0,
            !state.cancelling(),
    {
        ConversionState {
            status_text: String::from_str("Idle"),
            progress_percent: 0,
            cancel_requested: false,
        }
    }

    /// The state at the start of a run: status `Processing...`, no progress,
    /// no request to stop.
    pub fn started() -> (state: ConversionState)
        ensures
            state.status() == "Processing..."@,
            state.progress() == 0,
            !state.cancelling(),
    {
        ConversionState {
            status_text: String::from_str("Processing..."),
            progress_percent: 0,
            cancel_requested: false,
        }
    }

    /// The status line.
    pub fn status_text(&self) -> (text: String)
        ensures
            text@ == self.status(),
    {
        self.status_text.clone()
    }

    /// The percentage, from 0 to 100.
    pub fn progress_percent(&self) -> (percent: u8)
        ensures
            percent == self.progress(),
            percent <= FULL_PROGRESS,
    {
        proof {
            use_type_invariant(self);
        }
        self.progress_percent
    }

    /// Whether the caller has asked the conversion to stop.
    pub fn cancel_requested(&self) -> (requested: bool)
        ensures
            requested == self.cancelling(),
    {
        self.cancel_requested
    }

    /// Replaces the status line.
    pub fn set_status(&mut self, text: String)
        ensures
            final(self).status() == text@,
            final(self).progress() == old(self).progress(),
            final(self).cancelling() == old(self).cancelling(),
    {
        proof {
            use_type_invariant(&*self);
        }
        self.status_text = text;
    }

    /// Shows a new percentage. Progress never goes back and never passes 100:
    /// a smaller value changes nothing, a larger one counts as 100.
    pub fn raise_progress(&mut self, percent: u8)
        ensures
            final(self).progress() == raised(old(self).progress(), percent),
            final(self).status() == old(self).status(),
            final(self).cancelling() == old(self).cancelling(),
    {
        let capped: u8 = if percent > FULL_PROGRESS {
            FULL_PROGRESS
        } else {
            percent
        };
        if capped > self.progress_percent {
            self.progress_percent = capped;
        }
    }

    /// Asks the conversion to stop. The request cannot be taken back.
    pub fn request_cancellation(&mut self)
        ensures
            final(self).cancelling(),
            final(self).status() == old(self).status(),
            final(self).progress() == old(self).progress(),
    {
        proof {
            use_type_invariant(&*self);
        }
        self.cancel_requested = true;
    }
}

/// The percentage that is shown after `percent` was reported while `shown`
/// stood there.
pub open spec fn raised(shown: u8, percent: u8) -> u8 {
    let capped = if percent > FULL_PROGRESS {
        FULL_PROGRESS
    } else {
        percent
    };
    if capped > shown {
        capped
    } else {
        shown
    }
}

} // verus!
