//! The global hotkey that toggles recording.
//!
//! The caller registers the hotkey with the system and polls for its
//! events; the handler decides what each poll means.

use vstd::prelude::*;

verus! {

/// What a hotkey asks for.
#[derive(Debug, Clone, Copy, PartialEq, Eq, Structural)]
pub enum HotkeyCommand {
    ToggleRecording,
}

/// What one poll of the system's hotkey events brought.
#[derive(Debug, Clone, Copy, PartialEq, Eq, Structural)]
pub enum HotkeyPoll {
    /// The hotkey with this identifier was pressed.
    Pressed { id: u32 },
    /// No event is waiting.
    Empty,
    /// The source of events is gone.
    Disconnected,
}

/// What the caller has to do after a poll.
#[derive(Debug, Clone, Copy, PartialEq, Eq, Structural)]
pub enum HotkeyAction {
    /// Deliver the command, then poll again.
    Send(HotkeyCommand),
    /// Poll again at once.
    Ignore,
    /// Wait for `POLL_INTERVAL_MS` milliseconds, then poll again.
    Sleep,
    /// Stop polling.
    Stop,
}

/// The pause between two polls that found nothing, in milliseconds.
pub const POLL_INTERVAL_MS: u64 = 50;

pub struct HotkeyHandler {
    hotkey_id: u32,
    is_running: bool,
}

/// The action that a poll calls for.
pub open spec fn spec_on_poll(hotkey_id: u32, running: bool, poll: HotkeyPoll) -> HotkeyAction {
    if !running {
        HotkeyAction::Stop
    } else {
        match poll {
            HotkeyPoll::Pressed { id } => if id == hotkey_id {
                HotkeyAction::Send(HotkeyCommand::ToggleRecording)
            } else {
                HotkeyAction::Ignore
            },
            HotkeyPoll::Empty => HotkeyAction::Sleep,
            HotkeyPoll::Disconnected => HotkeyAction::Stop,
        }
    }
}

impl HotkeyHandler {
    pub closed spec fn hotkey_id(&self) -> u32 {
        self.hotkey_id
    }

    pub closed spec fn running(&self) -> bool {
        self.is_running
    }

    /// A handler for the registered hotkey with the identifier `hotkey_id`.
    /// It is not running yet.
    pub fn new(hotkey_id: u32) -> (handler: HotkeyHandler)
        ensures
            handler.hotkey_id() == hotkey_id,
            !handler.running(),
    {
        HotkeyHandler { hotkey_id, is_running: false }
    }

    /// Starts handling polls.
    pub fn run(&mut self)
        ensures
            final(self).running(),
            final(self).hotkey_id() == old(self).hotkey_id(),
    {
        self.is_running = true;
    }

    /// Decides what a poll means.
    pub fn on_poll(&self, poll: HotkeyPoll) -> (action: HotkeyAction)
        ensures
            action == spec_on_poll(self.hotkey_id(), self.running(), poll),
    {
        if !self.is_running {
            return HotkeyAction::Stop;
        }
        match poll {
            HotkeyPoll::Pressed { id } => if id == self.hotkey_id {
                HotkeyAction::Send(HotkeyCommand::ToggleRecording)
            } else {
                HotkeyAction::Ignore
            },
            HotkeyPoll::Empty => HotkeyAction::Sleep,
            HotkeyPoll::Disconnected => HotkeyAction::Stop,
        }
    }

    /// Stops handling polls: the next poll ends the loop.
    pub fn stop(&mut self)
        ensures
            !final(self).running(),
            final(self).hotkey_id() == old(self).hotkey_id(),
    {
        self.is_running = false;
    }
}

} // verus!
