//! Decoding LTC from an audio input: the on/off switch of the decoder and
//! the watchdog that restarts it when no frame comes through.

pub mod config;

use vstd::prelude::*;
use vstd::string::StringExecFns;

use crate::ltc::InputChannel;
use crate::ltc_decoder::config::LTCDevice;
use crate::utils::single_val_channel::ChannelErr;

verus! {

/// Whether frames are being decoded.
#[derive(Clone, Copy, Debug, PartialEq, Eq, Structural)]
pub enum DecodeState {
    On,
    Off,
}

/// Why no timecode frame could be had.
#[derive(Debug)]
pub enum DecodeErr {
    /// No frame was waiting.
    NoVal(String),
    /// Anything else, with its message.
    Anyhow(String),
    /// No frame came in time.
    Timedout,
}

impl DecodeErr {
    /// The decode error that a channel error stands for.
    pub fn from_channel_err(value: ChannelErr) -> (r: DecodeErr)
        ensures
            match value {
                ChannelErr::Lock => r matches DecodeErr::Anyhow(m) && m@ == value.message_spec(),
                ChannelErr::NoVal => r matches DecodeErr::NoVal(m) && m@ == value.message_spec(),
            },
    {
        match value {
            ChannelErr::Lock => DecodeErr::Anyhow(String::from_str(value.message())),
            ChannelErr::NoVal => DecodeErr::NoVal(String::from_str(value.message())),
        }
    }
}

/// How many audio buffers may pass without a frame before the decoder is
/// restarted.
pub const MAX_ITERS_WITHOUT_FRAME: u16 = 30;

/// What the audio callback does after feeding a buffer to the decoder.
#[derive(Clone, Copy, Debug, PartialEq, Eq, Structural)]
pub enum DecodeAction {
    /// Decoding is off: the buffer was not decoded.
    Skip,
    /// A frame was decoded: hand it on.
    SendFrame,
    /// No frame yet: keep buffering.
    Wait,
    /// Too long without a frame: start a fresh decoder.
    ResetDecoder,
}

/// The decoder's switch and the count of buffers since its last frame.
pub struct DecodeTracker {
    decode_state: DecodeState,
    iters_since_last_decode: u16,
}

impl DecodeTracker {
    pub closed spec fn state(&self) -> DecodeState {
        self.decode_state
    }

    pub closed spec fn iters(&self) -> u16 {
        self.iters_since_last_decode
    }

    /// The count stays within one more than the limit.
    pub open spec fn wf(&self) -> bool {
        self.iters() <= MAX_ITERS_WITHOUT_FRAME + 1
    }

    /// Decoding off, nothing counted.
    pub fn new() -> (t: Self)
        ensures
            t.wf(),
            t.state() == DecodeState::Off,
            t.iters() == 0,
    {
        DecodeTracker { decode_state: DecodeState::Off, iters_since_last_decode: 0 }
    }

    /// A message turned decoding on or off; the caller drops any waiting
    /// frame and starts a fresh decoder.
    pub fn set_state(&mut self, state: DecodeState)
        ensures
            final(self).state() == state,
            final(self).iters() == old(self).iters(),
    {
        self.decode_state = state;
    }

    /// Whether the next buffer is to be decoded.
    pub fn is_on(&self) -> (b: bool)
        ensures
            b == (self.state() == DecodeState::On),
    {
        match self.decode_state {
            DecodeState::On => true,
            DecodeState::Off => false,
        }
    }

    /// The outcome of decoding one buffer: a frame resets the count and is
    /// sent; otherwise the count grows, and past the limit the decoder is
    /// restarted and the count reset.
    pub fn after_buffer(&mut self, decoded_frame: bool) -> (a: DecodeAction)
        requires
            old(self).wf(),
        ensures
            final(self).wf(),
            final(self).state() == old(self).state(),
            old(self).state() == DecodeState::Off ==> a == DecodeAction::Skip,
            old(self).state() == DecodeState::Off ==> final(self).iters() == old(self).iters(),
            old(self).state() == DecodeState::On && decoded_frame ==> a == DecodeAction::SendFrame,
            old(self).state() == DecodeState::On && decoded_frame ==> final(self).iters() == 0,
            old(self).state() == DecodeState::On && !decoded_frame && old(self).iters()
                > MAX_ITERS_WITHOUT_FRAME ==> a == DecodeAction::ResetDecoder,
            old(self).state() == DecodeState::On && !decoded_frame && old(self).iters()
                > MAX_ITERS_WITHOUT_FRAME ==> final(self).iters() == 0,
            old(self).state() == DecodeState::On && !decoded_frame && old(self).iters()
                <= MAX_ITERS_WITHOUT_FRAME ==> a == DecodeAction::Wait,
            old(self).state() == DecodeState::On && !decoded_frame && old(self).iters()
                <= MAX_ITERS_WITHOUT_FRAME ==> final(self).iters() == old(self).iters() + 1,
    {
        if !self.is_on() {
            return DecodeAction::Skip;
        }
        if decoded_frame {
            self.iters_since_last_decode = 0;
            DecodeAction::SendFrame
        } else if self.iters_since_last_decode > MAX_ITERS_WITHOUT_FRAME {
            self.iters_since_last_decode = 0;
            DecodeAction::ResetDecoder
        } else {
            self.iters_since_last_decode = self.iters_since_last_decode + 1;
            DecodeAction::Wait
        }
    }
}

/// Why listening for timecode cannot start.
#[derive(Clone, Copy, Debug, PartialEq, Eq, Structural)]
pub enum ListenerError {
    /// No input device is chosen.
    NoDevice,
    /// No input channel is chosen.
    NoChannel,
    /// The chosen channel, taken as a 16-bit number, exceeds the channels
    /// of the device.
    InvalidInputChannel(usize, u16),
}

/// The channel to decode from on `device`: the chosen `input_channel`,
/// unless it exceeds the device's channel count once taken as a 16-bit
/// number.
pub fn input_channel_for(device: Option<&LTCDevice>, input_channel: Option<usize>) -> (r: Result<
    InputChannel,
    ListenerError,
>)
    ensures
        match (device, input_channel) {
            (None, _) => r == Err::<InputChannel, ListenerError>(ListenerError::NoDevice),
            (Some(_), None) => r == Err::<InputChannel, ListenerError>(ListenerError::NoChannel),
            (Some(d), Some(n)) => if (n as u16) > d.channels {
                r == Err::<InputChannel, ListenerError>(
                    ListenerError::InvalidInputChannel(n, d.channels),
                )
            } else {
                r == Ok::<InputChannel, ListenerError>(
                    InputChannel { input_channel: n, device_channels: d.channels as usize },
                )
            },
        },
{
    let d = match device {
        Some(d) => d,
        None => return Err(ListenerError::NoDevice),
    };
    let n = match input_channel {
        Some(n) => n,
        None => return Err(ListenerError::NoChannel),
    };
    if (n as u16) > d.channels {
        Err(ListenerError::InvalidInputChannel(n, d.channels))
    } else {
        Ok(InputChannel { input_channel: n, device_channels: d.channels as usize })
    }
}

} // verus!
