//! The device session: the lifecycle and retry rules of the one
//! authenticated transport connection. The transport itself (connection
//! establishment, framing, handshake) is an outside collaborator driven by
//! the caller; the session decides, from each transport outcome, the next
//! transport call and the resulting lifecycle state, and builds the
//! payload for every write.

use vstd::prelude::*;

use crate::BulbConfig;
use crate::BulbError;
use crate::ColorCommand;
use crate::codec::decimal_digits;
use crate::codec::decimal_string;
use crate::codec::encode_color;
use crate::codec::encoded_color;

verus! {

/// The session lifecycle callers see: a connect moves it to `Connected`;
/// an unrecoverable failure leaves it `Disconnected`.
#[derive(Debug, Clone, Copy, PartialEq, Eq, Structural)]
pub enum ConnState {
    Disconnected,
    Connected,
}

/// One send interaction, advanced one transport outcome at a time. The
/// worker performs the transport call the step names and hands the
/// outcome back to `send_advance`; `Succeeded` and `Failed` end the
/// interaction.
#[derive(Debug, Clone, Copy, PartialEq, Eq, Structural)]
pub enum SendStep {
    /// Write the payload through the current transport handle (attempt 1).
    WriteFirst,
    /// The first write failed: re-establish the transport session.
    Reconnect,
    /// Write a freshly built payload (attempt 2, the only retry).
    WriteSecond,
    Succeeded,
    Failed(BulbError),
}

/// The session's whole send protocol as one transition function: from the
/// lifecycle state, the step just performed and its outcome, to the new
/// lifecycle state and the next step. A failed second write ends the
/// interaction: exactly one retry per send, never more.
pub open spec fn send_transition(state: ConnState, step: SendStep, ok: bool) -> (ConnState,
    SendStep) {
    match step {
        SendStep::WriteFirst => if ok {
            (ConnState::Connected, SendStep::Succeeded)
        } else {
            (ConnState::Disconnected, SendStep::Reconnect)
        },
        SendStep::Reconnect => if ok {
            (ConnState::Connected, SendStep::WriteSecond)
        } else {
            (ConnState::Disconnected, SendStep::Failed(BulbError::DeviceUnreachable))
        },
        SendStep::WriteSecond => if ok {
            (ConnState::Connected, SendStep::Succeeded)
        } else {
            (ConnState::Disconnected, SendStep::Failed(BulbError::ConnectionLost))
        },
        _ => (state, step),
    }
}

/// The transport-facing message for one color command, built fresh per
/// send. `gw_id` always repeats the device id; the wire protocol's `uid`
/// and `dp_id` fields are absent and so not represented. The two data
/// points carried are power-on (key "20", always true) and the encoded
/// color string (key "28").
pub struct WirePayload {
    pub dev_id: String,
    pub gw_id: String,
    /// Seconds since the epoch, decimal-string encoded.
    pub t: String,
    pub power_on: bool,
    pub color: String,
}

/// The data-point key under which the power-on flag travels.
pub fn dps_power_key() -> (r: &'static str)
    ensures
        r@ == "20"@,
{
    "20"
}

/// The data-point key under which the encoded color travels.
pub fn dps_color_key() -> (r: &'static str)
    ensures
        r@ == "28"@,
{
    "28"
}

/// Owns the configuration of one bulb and the lifecycle of its transport
/// session. Mutated only by the one consumer worker.
pub struct DeviceSession {
    pub config: BulbConfig,
    state: ConnState,
}

impl DeviceSession {
    pub closed spec fn lifecycle(&self) -> ConnState {
        self.state
    }

    pub closed spec fn device_config(&self) -> BulbConfig {
        self.config
    }

    pub fn new(config: BulbConfig) -> (s: DeviceSession)
        ensures
            s.lifecycle() == ConnState::Disconnected,
            s.device_config() == config,
    {
        DeviceSession { config, state: ConnState::Disconnected }
    }

    /// Records the outcome of a transport connect: the session is
    /// `Connected` exactly when the connect succeeded; a failure is
    /// surfaced as `DeviceUnreachable`. Safe to call from either state,
    /// so a connect may simply be retried or re-established.
    pub fn on_connect_result(&mut self, ok: bool) -> (r: Result<(), BulbError>)
        ensures
            final(self).device_config() == old(self).device_config(),
            ok ==> final(self).lifecycle() == ConnState::Connected && r is Ok,
            !ok ==> final(self).lifecycle() == ConnState::Disconnected && r == Err::<
                (),
                BulbError,
            >(BulbError::DeviceUnreachable),
    {
        if ok {
            self.state = ConnState::Connected;
            Ok(())
        } else {
            self.state = ConnState::Disconnected;
            Err(BulbError::DeviceUnreachable)
        }
    }

    pub fn is_connected(&self) -> (b: bool)
        ensures
            b == (self.lifecycle() == ConnState::Connected),
    {
        match self.state {
            ConnState::Connected => true,
            ConnState::Disconnected => false,
        }
    }

    /// Starts a send interaction: the first transport write is always
    /// attempted.
    pub fn begin_send(&self) -> (s: SendStep)
        ensures
            s == SendStep::WriteFirst,
    {
        SendStep::WriteFirst
    }

    /// Advances a send interaction by the outcome of the transport call
    /// the current step asked for; exactly `send_transition`. Whatever
    /// the outcomes, the interaction performs at most two writes and one
    /// reconnect, which bounds a send to two transport round-trips.
    pub fn send_advance(&mut self, step: SendStep, ok: bool) -> (next: SendStep)
        requires
            step == SendStep::WriteFirst || step == SendStep::Reconnect || step
                == SendStep::WriteSecond,
        ensures
            final(self).device_config() == old(self).device_config(),
            (final(self).lifecycle(), next) == send_transition(old(self).lifecycle(), step, ok),
    {
        match step {
            SendStep::WriteFirst => {
                if ok {
                    self.state = ConnState::Connected;
                    SendStep::Succeeded
                } else {
                    self.state = ConnState::Disconnected;
                    SendStep::Reconnect
                }
            },
            SendStep::Reconnect => {
                if ok {
                    self.state = ConnState::Connected;
                    SendStep::WriteSecond
                } else {
                    self.state = ConnState::Disconnected;
                    SendStep::Failed(BulbError::DeviceUnreachable)
                }
            },
            _ => {
                if ok {
                    self.state = ConnState::Connected;
                    SendStep::Succeeded
                } else {
                    self.state = ConnState::Disconnected;
                    SendStep::Failed(BulbError::ConnectionLost)
                }
            },
        }
    }

    /// Builds the payload for one command with the given timestamp.
    /// Rejects a command whose components are out of range; a malformed
    /// payload can never be built.
    pub fn build_payload(&self, cmd: &ColorCommand, unix_seconds: u64) -> (r: Result<
        WirePayload,
        BulbError,
    >)
        ensures
            r is Ok <==> cmd.valid(),
            r is Ok ==> r->Ok_0.dev_id@ == self.device_config().device_id@,
            r is Ok ==> r->Ok_0.gw_id@ == self.device_config().device_id@,
            r is Ok ==> r->Ok_0.t@ == decimal_digits(unix_seconds as int),
            r is Ok ==> r->Ok_0.power_on == true,
            r is Ok ==> r->Ok_0.color@ == encoded_color(
                cmd.hue as int,
                cmd.saturation as int,
                cmd.brightness as int,
                cmd.immediate,
            ),
            r is Err ==> r->Err_0 == BulbError::InvalidInput,
    {
        let color = match encode_color(cmd.hue, cmd.saturation, cmd.brightness, cmd.immediate) {
            Ok(c) => c,
            Err(e) => {
                return Err(e);
            },
        };
        Ok(
            WirePayload {
                dev_id: self.config.device_id.clone(),
                gw_id: self.config.device_id.clone(),
                t: decimal_string(unix_seconds),
                power_on: true,
                color,
            },
        )
    }
}

/// Law: a send whose first write fails, whose reconnect succeeds and
/// whose second write succeeds ends successfully, with the session
/// `Connected`, from any starting state.
pub proof fn lemma_retry_recovers(s0: ConnState)
    ensures
        ({
            let (s1, step1) = send_transition(s0, SendStep::WriteFirst, false);
            let (s2, step2) = send_transition(s1, step1, true);
            let (s3, step3) = send_transition(s2, step2, true);
            step1 == SendStep::Reconnect && step2 == SendStep::WriteSecond && step3
                == SendStep::Succeeded && s3 == ConnState::Connected
        }),
{
}

/// Law: a send whose both writes fail (the reconnect between them
/// succeeding) ends in `ConnectionLost`, with the session left
/// `Disconnected`, from any starting state.
pub proof fn lemma_double_failure_loses_connection(s0: ConnState)
    ensures
        ({
            let (s1, step1) = send_transition(s0, SendStep::WriteFirst, false);
            let (s2, step2) = send_transition(s1, step1, true);
            let (s3, step3) = send_transition(s2, step2, false);
            step3 == SendStep::Failed(BulbError::ConnectionLost) && s3 == ConnState::Disconnected
        }),
{
}

} // verus!
