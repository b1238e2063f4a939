//! The main window's decisions: what closing it does while music plays, and
//! which size is remembered for the next start.

use vstd::prelude::*;

use crate::pages::AppEvent;
use crate::text::str_equals;

verus! {

/// What closing the window does while audio is playing.
#[derive(Clone, Copy, Debug, PartialEq, Eq, Structural)]
pub enum CloseWindowBehavior {
    Ask,
    MinimizeToBackground,
    StopAndQuit,
}

impl CloseWindowBehavior {
    /// The behaviour for a stored enumeration value (its position in the
    /// settings list: ask, minimize to background, stop and quit).
    pub fn from_gsettings_enum(value: i32) -> (r: CloseWindowBehavior)
        ensures
            r == if value == 1 {
                CloseWindowBehavior::MinimizeToBackground
            } else if value == 2 {
                CloseWindowBehavior::StopAndQuit
            } else {
                CloseWindowBehavior::Ask
            },
    {
        match value {
            1 => CloseWindowBehavior::MinimizeToBackground,
            2 => CloseWindowBehavior::StopAndQuit,
            _ => CloseWindowBehavior::Ask,
        }
    }

    /// The stored enumeration value of the behaviour.
    pub fn to_gsettings_enum(&self) -> (r: i32)
        ensures
            CloseWindowBehavior::from_gsettings_enum_spec(r) == *self,
    {
        match self {
            CloseWindowBehavior::Ask => 0,
            CloseWindowBehavior::MinimizeToBackground => 1,
            CloseWindowBehavior::StopAndQuit => 2,
        }
    }

    pub open spec fn from_gsettings_enum_spec(value: i32) -> CloseWindowBehavior {
        if value == 1 {
            CloseWindowBehavior::MinimizeToBackground
        } else if value == 2 {
            CloseWindowBehavior::StopAndQuit
        } else {
            CloseWindowBehavior::Ask
        }
    }
}

/// What a request to close the window leads to.
#[derive(Clone, Copy, Debug, PartialEq, Eq, Structural)]
pub enum CloseRequestOutcome {
    /// Let the window close (and the application quit).
    Proceed,
    /// Keep playing with the window hidden.
    HideToBackground,
    /// Keep the window and ask the user what to do.
    AskUser,
}

pub open spec fn close_request_spec(playing: bool, behavior: CloseWindowBehavior) -> CloseRequestOutcome {
    if !playing {
        CloseRequestOutcome::Proceed
    } else {
        match behavior {
            CloseWindowBehavior::MinimizeToBackground => CloseRequestOutcome::HideToBackground,
            CloseWindowBehavior::StopAndQuit => CloseRequestOutcome::Proceed,
            CloseWindowBehavior::Ask => CloseRequestOutcome::AskUser,
        }
    }
}

/// Closing while nothing plays always closes; while playing, the stored
/// behaviour decides.
pub fn on_close_request(playing: bool, behavior: CloseWindowBehavior) -> (r: CloseRequestOutcome)
    ensures
        r == close_request_spec(playing, behavior),
{
    if !playing {
        return CloseRequestOutcome::Proceed;
    }
    match behavior {
        CloseWindowBehavior::MinimizeToBackground => CloseRequestOutcome::HideToBackground,
        CloseWindowBehavior::StopAndQuit => CloseRequestOutcome::Proceed,
        CloseWindowBehavior::Ask => CloseRequestOutcome::AskUser,
    }
}

/// The user's answer to the "still playing" dialog.
#[derive(Clone, Copy, Debug, PartialEq, Eq, Structural)]
pub struct CloseDialogOutcome {
    /// Quit the application (otherwise the window is hidden).
    pub quit: bool,
    /// The behaviour to store, when "remember my choice" was ticked.
    pub remember: Option<CloseWindowBehavior>,
}

/// "quit" stops audio and quits; any other response (also dismissing the
/// dialog) continues in the background. A ticked "remember my choice" stores
/// the chosen behaviour.
pub fn close_dialog_outcome(response: &str, remember_choice: bool) -> (r: CloseDialogOutcome)
    ensures
        r.quit == (response@ == "quit"@),
        r.remember == if remember_choice {
            Some(
                if response@ == "quit"@ {
                    CloseWindowBehavior::StopAndQuit
                } else {
                    CloseWindowBehavior::MinimizeToBackground
                },
            )
        } else {
            None
        },
{
    let quit = str_equals(response, "quit");
    let behavior = if quit {
        CloseWindowBehavior::StopAndQuit
    } else {
        CloseWindowBehavior::MinimizeToBackground
    };
    CloseDialogOutcome { quit, remember: if remember_choice {
        Some(behavior)
    } else {
        None
    } }
}

/// A remembered answer is what later closes do without asking: quitting
/// proceeds, continuing in the background hides the window.
pub proof fn law_remembered_choice_is_applied(quit: bool)
    ensures
        close_request_spec(
            true,
            if quit {
                CloseWindowBehavior::StopAndQuit
            } else {
                CloseWindowBehavior::MinimizeToBackground
            },
        ) == if quit {
            CloseRequestOutcome::Proceed
        } else {
            CloseRequestOutcome::HideToBackground
        },
{
}

/// The window size remembered for the next start.
#[derive(Clone, Copy, Debug, PartialEq, Eq, Structural)]
pub struct WindowGeometry {
    pub width: i32,
    pub height: i32,
    pub is_maximized: bool,
}

impl WindowGeometry {
    /// Take in the window's current size and state: the maximized state is
    /// always recorded, the size only while not maximized, so the size to
    /// restore survives maximizing.
    pub fn record(&mut self, width: i32, height: i32, is_maximized: bool)
        ensures
            final(self).is_maximized == is_maximized,
            is_maximized ==> final(self).width == old(self).width && final(self).height == old(self).height,
            !is_maximized ==> final(self).width == width && final(self).height == height,
    {
        self.is_maximized = is_maximized;
        if !is_maximized {
            self.width = width;
            self.height = height;
        }
    }
}

/// What the main window does with an event.
#[derive(Clone, Copy, Debug, PartialEq, Eq, Structural)]
pub enum WindowStep {
    /// Restore the remembered size (maximizing if it was) and show the window.
    Start,
    /// Bring the window to the front.
    Raise,
    Nothing,
}

pub fn window_step(event: &AppEvent) -> (r: WindowStep)
    ensures
        r == match event {
            AppEvent::Started => WindowStep::Start,
            AppEvent::Raised => WindowStep::Raise,
            _ => WindowStep::Nothing,
        },
{
    match event {
        AppEvent::Started => WindowStep::Start,
        AppEvent::Raised => WindowStep::Raise,
        _ => WindowStep::Nothing,
    }
}

} // verus!
