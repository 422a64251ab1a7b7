//! What the form of the program knows and decides.
//!
//! The form holds the input, the duration and a default output path, starts
//! and cancels conversions, and shows what the running conversion reports.
//! While a conversion is under way, status and percentage are the
//! conversion's alone: the form takes them as they are reported and adds
//! nothing of its own but the request to stop. Drawing the form and running
//! the conversion in the background are the caller's part.

use crate::error::prefixed;
use crate::output::{resolve_output_path, resolved_output};
use crate::state::{raised, ConversionRequest, ConversionState, FULL_PROGRESS};
use vstd::prelude::*;
use vstd::string::StringExecFns;

verus! {

/// Where the form stands between two conversions or within one.
#[derive(Clone, Copy, Debug, PartialEq, Eq, Structural)]
pub enum FormPhase {
    /// No conversion is under way.
    Idle,
    /// A conversion is under way.
    Running,
    /// A conversion was asked to stop and has not ended yet.
    Cancelling,
}

/// The form: what the user has entered and what is shown of the conversion.
pub struct GifMakerApp {
    input_path: Option<String>,
    output_path: String,
    duration: String,
    is_running: bool,
    winding_down: bool,
    state: ConversionState,
}

/// The status line that asks for an input.
pub open spec fn prompt_text() -> Seq<char> {
    "Please select an input video file."@
}

/// The line that names the input, or says that there is none.
pub open spec fn input_label_text(input: Option<Seq<char>>) -> Seq<char> {
    match input {
        Some(path) => "Input: "@ + path,
        None => "Input: Not selected"@,
    }
}

impl GifMakerApp {
    /// The clip that was selected, if any.
    pub closed spec fn input(self) -> Option<Seq<char>> {
        match self.input_path {
            Some(path) => Some(path@),
            None => None,
        }
    }

    /// The output path that is used when the input is no regular file.
    pub closed spec fn output(self) -> Seq<char> {
        self.output_path@
    }

    /// How much of the clip is taken.
    pub closed spec fn clip_duration(self) -> Seq<char> {
        self.duration@
    }

    /// Whether a conversion is under way and was not asked to stop.
    pub open spec fn running(self) -> bool {
        self.phase() == FormPhase::Running
    }

    /// Where the form stands.
    pub closed spec fn phase(self) -> FormPhase {
        if self.is_running {
            FormPhase::Running
        } else if self.winding_down {
            FormPhase::Cancelling
        } else {
            FormPhase::Idle
        }
    }

    /// The status line.
    pub closed spec fn status(self) -> Seq<char> {
        self.state.status()
    }

    /// The percentage.
    pub closed spec fn progress(self) -> u8 {
        self.state.progress()
    }

    /// Whether the running conversion was asked to stop.
    pub closed spec fn cancelling(self) -> bool {
        self.state.cancelling()
    }

    /// What holds of every form: a cancelled conversion that has not ended
    /// yet never counts as running.
    pub closed spec fn wf(self) -> bool {
        !(self.is_running && self.winding_down)
    }

    /// The form as the program opens it: no input, the output `output.gif`, a
    /// duration of five seconds, nothing running, the status `Idle`.
    pub fn new() -> (form: GifMakerApp)
        ensures
            form.wf(),
            form.input() is None,
            form.output() == "output.gif"@,
            form.clip_duration() == "00:00:05"@,
            form.phase() == FormPhase::Idle,
            !form.running(),
            form.status() == "Idle"@,
            form.progress() == 0,
            !form.cancelling(),
    {
        GifMakerApp {
            input_path: None,
            output_path: String::from_str("output.gif"),
            duration: String::from_str("00:00:05"),
            is_running: false,
            winding_down: false,
            state: ConversionState::idle(),
        }
    }

    /// Takes the clip that the user has picked.
    pub fn select_input(&mut self, path: String)
        ensures
            final(self).input() == Some(path@),
            final(self).output() == old(self).output(),
            final(self).clip_duration() == old(self).clip_duration(),
            final(self).phase() == old(self).phase(),
            final(self).running() == old(self).running(),
            final(self).status() == old(self).status(),
            final(self).progress() == old(self).progress(),
            final(self).cancelling() == old(self).cancelling(),
            final(self).wf() == old(self).wf(),
    {
        self.input_path = Some(path);
    }

    /// Takes the duration that the user has entered.
    pub fn set_duration(&mut self, duration: String)
        ensures
            final(self).clip_duration() == duration@,
            final(self).input() == old(self).input(),
            final(self).output() == old(self).output(),
            final(self).phase() == old(self).phase(),
            final(self).running() == old(self).running(),
            final(self).status() == old(self).status(),
            final(self).progress() == old(self).progress(),
            final(self).cancelling() == old(self).cancelling(),
            final(self).wf() == old(self).wf(),
    {
        self.duration = duration;
    }

    /// Starts a conversion of the selected clip and hands out what the
    /// background worker is to convert.
    ///
    /// Without an input nothing starts and the status asks for one. While a
    /// conversion is under way nothing changes. Otherwise the form shows a
    /// fresh run, and the output goes beside an input that is a regular file,
    /// whatever output path the form holds.
    pub fn spawn_worker(&mut self, input_is_file: bool) -> (request: Option<ConversionRequest>)
        requires
            old(self).wf(),
        ensures
            final(self).wf(),
            final(self).input() == old(self).input(),
            final(self).output() == old(self).output(),
            final(self).clip_duration() == old(self).clip_duration(),
            request is Some <==> old(self).phase() == FormPhase::Idle && old(self).input() is Some,
            request matches Some(request) ==> {
                &&& old(self).input() == Some(request.source_path@)
                &&& request.duration_limit@ == old(self).clip_duration()
                &&& request.destination_path@ == resolved_output(
                    request.source_path@,
                    input_is_file,
                    old(self).output(),
                )
                &&& final(self).phase() == FormPhase::Running
                &&& final(self).running()
                &&& final(self).status() == "Processing..."@
                &&& final(self).progress() == 0
                &&& !final(self).cancelling()
            },
            request is None ==> {
                &&& final(self).phase() == old(self).phase()
                &&& final(self).running() == old(self).running()
                &&& final(self).progress() == old(self).progress()
                &&& final(self).cancelling() == old(self).cancelling()
                &&& final(self).status() == if old(self).phase() == FormPhase::Idle {
                    prompt_text()
                } else {
                    old(self).status()
                }
            },
    {
        if self.is_running || self.winding_down {
            return None;
        }
        match &self.input_path {
            None => {
                self.state.set_status(String::from_str("Please select an input video file."));
                None
            },
            Some(input) => {
                let destination = resolve_output_path(
                    input.as_str(),
                    input_is_file,
                    self.output_path.clone(),
                );
                let request = ConversionRequest {
                    source_path: input.clone(),
                    duration_limit: self.duration.clone(),
                    destination_path: destination,
                };
                self.state = ConversionState::started();
                self.is_running = true;
                Some(request)
            },
        }
    }

    /// Asks the running conversion to stop: the request is recorded, and the
    /// form no longer counts the conversion as running. Status and percentage
    /// stay as the conversion reported them; the conversion itself stops when
    /// it next looks. Without a running conversion nothing changes.
    pub fn cancel(&mut self) -> (asked: bool)
        requires
            old(self).wf(),
        ensures
            final(self).wf(),
            asked == old(self).running(),
            final(self).input() == old(self).input(),
            final(self).output() == old(self).output(),
            final(self).clip_duration() == old(self).clip_duration(),
            final(self).status() == old(self).status(),
            final(self).progress() == old(self).progress(),
            !final(self).running(),
            asked ==> {
                &&& final(self).phase() == FormPhase::Cancelling
                &&& final(self).cancelling()
            },
            !asked ==> {
                &&& final(self).phase() == old(self).phase()
                &&& final(self).cancelling() == old(self).cancelling()
            },
    {
        if !self.is_running {
            return false;
        }
        self.state.request_cancellation();
        self.is_running = false;
        self.winding_down = true;
        true
    }

    /// Takes in what the conversion reports: its status line, its percentage,
    /// and whether it has ended. The status shown is the one reported, and the
    /// percentage is the one reported unless that would take it back. A
    /// conversion that has ended, or has reached 100, no longer counts as
    /// running; one that was asked to stop is over for the form once it has
    /// ended. A report changes nothing while the form is idle.
    pub fn update(&mut self, status: String, percent: u8, ended: bool)
        requires
            old(self).wf(),
        ensures
            final(self).wf(),
            final(self).input() == old(self).input(),
            final(self).output() == old(self).output(),
            final(self).clip_duration() == old(self).clip_duration(),
            final(self).cancelling() == old(self).cancelling(),
            match old(self).phase() {
                FormPhase::Idle => {
                    &&& final(self).phase() == FormPhase::Idle
                    &&& final(self).status() == old(self).status()
                    &&& final(self).progress() == old(self).progress()
                },
                FormPhase::Running => {
                    &&& final(self).status() == status@
                    &&& final(self).progress() == raised(old(self).progress(), percent)
                    &&& final(self).phase() == if ended || final(self).progress()
                        >= FULL_PROGRESS {
                        FormPhase::Idle
                    } else {
                        FormPhase::Running
                    }
                },
                FormPhase::Cancelling => {
                    &&& final(self).status() == status@
                    &&& final(self).progress() == raised(old(self).progress(), percent)
                    &&& final(self).phase() == if ended {
                        FormPhase::Idle
                    } else {
                        FormPhase::Cancelling
                    }
                },
            },
    {
        if !self.is_running && !self.winding_down {
            return ;
        }
        self.state.set_status(status);
        self.state.raise_progress(percent);
        if ended {
            self.is_running = false;
            self.winding_down = false;
        } else if self.state.progress_percent() >= FULL_PROGRESS {
            self.is_running = false;
        }
    }

    /// Whether a conversion is under way and was not asked to stop.
    pub fn is_running(&self) -> (running: bool)
        ensures
            running == self.running(),
    {
        self.is_running
    }

    /// Where the form stands.
    pub fn current_phase(&self) -> (phase: FormPhase)
        ensures
            phase == self.phase(),
    {
        if self.is_running {
            FormPhase::Running
        } else if self.winding_down {
            FormPhase::Cancelling
        } else {
            FormPhase::Idle
        }
    }

    /// The status line.
    pub fn status_text(&self) -> (text: String)
        ensures
            text@ == self.status(),
    {
        self.state.status_text()
    }

    /// The percentage, from 0 to 100.
    pub fn progress_percent(&self) -> (percent: u8)
        ensures
            percent == self.progress(),
            percent <= FULL_PROGRESS,
    {
        self.state.progress_percent()
    }

    /// Whether the running conversion was asked to stop.
    pub fn cancel_requested(&self) -> (requested: bool)
        ensures
            requested == self.cancelling(),
    {
        self.state.cancel_requested()
    }

    /// The output path that is used when the input is no regular file.
    pub fn output_path(&self) -> (path: String)
        ensures
            path@ == self.output(),
    {
        self.output_path.clone()
    }

    /// How much of the clip is taken.
    pub fn duration(&self) -> (duration: String)
        ensures
            duration@ == self.clip_duration(),
    {
        self.duration.clone()
    }

    /// The line that names the input, or says that there is none.
    pub fn input_label(&self) -> (label: String)
        ensures
            label@ == input_label_text(self.input()),
    {
        match &self.input_path {
            Some(path) => prefixed("Input: ", path.as_str()),
            None => String::from_str("Input: Not selected"),
        }
    }
}

} // verus!
