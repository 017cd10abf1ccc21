//! The decisions the two interrupt handlers make: a received byte may complete
//! a payload, which preempts the encoder; a timer tick advances the encoder.
use vstd::prelude::*;
use crate::irsender::{preempt_model, tick_model, SenderModel, TCLIRSender, TCLIRSenderStatus};
use crate::receiver::{receive_step, receiver_wf, Receiver, ReceiverModel};

verus! {

/// State the handlers share: the encoder and the fixed-width decoder.
pub struct Controller {
    irsender: TCLIRSender,
    receiver: Receiver,
}

/// What the handlers' state holds.
pub struct ControllerModel {
    pub sender: SenderModel<TCLIRSenderStatus>,
    pub receiver: ReceiverModel,
}

impl View for Controller {
    type V = ControllerModel;

    closed spec fn view(&self) -> ControllerModel {
        ControllerModel { sender: self.irsender@, receiver: self.receiver@ }
    }
}

impl Controller {
    pub open spec fn wf(&self) -> bool {
        receiver_wf(self@.receiver)
    }

    /// Idle encoder, decoder waiting for a frame.
    pub fn new() -> (r: Self)
        ensures
            r.wf(),
            r@.sender == (SenderModel {
                phase: TCLIRSenderStatus::Standby,
                remaining: None,
                payload: 0,
            }),
            r@.receiver.state == crate::receiver::ReceiverState::Idle,
    {
        Controller { irsender: TCLIRSender::new(), receiver: Receiver::new() }
    }

    /// Handles one received byte. When it completes a frame, the encoder starts
    /// sending the frame's value and the level to apply at once is returned.
    pub fn on_serial_byte(&mut self, byte: u8) -> (r: Option<bool>)
        requires
            old(self).wf(),
        ensures
            final(self).wf(),
            final(self)@.receiver == receive_step(old(self)@.receiver, byte).0,
            match receive_step(old(self)@.receiver, byte).1 {
                Some(v) => final(self)@.sender == preempt_model(old(self)@.sender, v) && r == Some(
                    true,
                ),
                None => final(self)@.sender == old(self)@.sender && r is None,
            },
    {
        match self.receiver.receive(byte) {
            Some(value) => Some(self.irsender.set_value(value)),
            None => None,
        }
    }

    /// Handles one timer tick: returns the level to switch to, if it changes.
    pub fn on_tick(&mut self) -> (r: Option<bool>)
        requires
            old(self).wf(),
        ensures
            final(self).wf(),
            final(self)@.receiver == old(self)@.receiver,
            (final(self)@.sender, r) == tick_model(old(self)@.sender),
    {
        self.irsender.next()
    }
}

/// PWM duty for an output level: a quarter of the full duty while the level
/// is high, none while it is low.
pub fn pwm_duty(level: bool, max_duty: u16) -> (r: u16)
    ensures
        r == (if level {
            max_duty / 4
        } else {
            0
        }),
{
    if level {
        max_duty / 4
    } else {
        0
    }
}

} // verus!
