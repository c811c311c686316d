//! The consumer side of the command bridge: the single worker's dedup
//! state and its decision rule. The worker is the only writer of this
//! state and the only caller of the device session, so at most one device
//! write is ever in flight.

use vstd::prelude::*;

use crate::ColorCommand;

verus! {

/// The HSV triple the consumer last wrote to the device, or `Never` before
/// any successful write: the sentinel makes the first command always
/// write.
#[derive(Debug, Clone, Copy, PartialEq, Eq, Structural)]
pub enum LastApplied {
    Never,
    Applied { hue: u16, saturation: u16, brightness: u16 },
}

/// The record left by a successful write of `cmd`.
pub open spec fn applied_of(cmd: ColorCommand) -> LastApplied {
    LastApplied::Applied {
        hue: cmd.hue,
        saturation: cmd.saturation,
        brightness: cmd.brightness,
    }
}

/// Whether `last` makes `cmd` redundant: only an identical HSV triple is
/// suppressed; the `immediate` flag alone never triggers a write.
pub open spec fn suppresses(last: LastApplied, cmd: ColorCommand) -> bool {
    match last {
        LastApplied::Never => false,
        LastApplied::Applied { hue, saturation, brightness } => hue == cmd.hue && saturation
            == cmd.saturation && brightness == cmd.brightness,
    }
}

/// What the consumer does with a dequeued command.
#[derive(Debug, Clone, Copy, PartialEq, Eq, Structural)]
pub enum ConsumerAction {
    /// Drop the command without a device write.
    Discard,
    /// Write the command through the device session.
    Write,
}

/// The consumer worker's own state: whether the bridge went inert because
/// its one startup connect failed, and the dedup record of the last
/// successful write.
pub struct ConsumerState {
    inert: bool,
    last: LastApplied,
}

impl ConsumerState {
    /// An inert bridge dequeues commands but never writes: its one startup
    /// connect failed, and it has no reconnect loop of its own.
    pub closed spec fn is_inert(&self) -> bool {
        self.inert
    }

    pub closed spec fn last_applied(&self) -> LastApplied {
        self.last
    }

    pub fn new() -> (s: ConsumerState)
        ensures
            !s.is_inert(),
            s.last_applied() == LastApplied::Never,
    {
        ConsumerState { inert: false, last: LastApplied::Never }
    }

    /// Records the outcome of the worker's single startup connect; a
    /// failure leaves the bridge inert for its lifetime.
    pub fn on_startup_connect(&mut self, connected: bool)
        ensures
            final(self).is_inert() == !connected,
            final(self).last_applied() == old(self).last_applied(),
    {
        self.inert = !connected;
    }

    /// Decides a dequeued command: an inert bridge discards everything,
    /// and a command whose HSV triple equals the last applied one is
    /// discarded without a device write.
    pub fn decide(&self, cmd: &ColorCommand) -> (a: ConsumerAction)
        ensures
            a == ConsumerAction::Write <==> (!self.is_inert() && !suppresses(
                self.last_applied(),
                *cmd,
            )),
    {
        if self.inert {
            return ConsumerAction::Discard;
        }
        match self.last {
            LastApplied::Never => ConsumerAction::Write,
            LastApplied::Applied { hue, saturation, brightness } => {
                if hue == cmd.hue && saturation == cmd.saturation && brightness == cmd.brightness {
                    ConsumerAction::Discard
                } else {
                    ConsumerAction::Write
                }
            },
        }
    }

    /// Records a successful device write. A failed write records nothing:
    /// the consumer logs it and moves to the next queued command.
    pub fn on_write_success(&mut self, cmd: &ColorCommand)
        ensures
            final(self).last_applied() == applied_of(*cmd),
            final(self).is_inert() == old(self).is_inert(),
    {
        self.last = LastApplied::Applied {
            hue: cmd.hue,
            saturation: cmd.saturation,
            brightness: cmd.brightness,
        };
    }
}

/// Law: once a command has been written and recorded, a second command
/// with the same HSV triple is suppressed, whatever its `immediate` flag:
/// two identical back-to-back commands cause exactly one device write.
pub proof fn lemma_duplicate_suppressed(first: ColorCommand, second: ColorCommand)
    requires
        first.same_color(second),
    ensures
        suppresses(applied_of(first), second),
{
}

} // verus!
