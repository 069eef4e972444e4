//! Capture policy of the audio service: the decisions the audio worker
//! takes between touching the sound hardware and handing frames to the
//! encoder.
//!
//! The hardware device, its callback and the codec are collaborators
//! outside this crate; they hand in plain values — the device's sample
//! rate and channel count, whether a captured frame was all silence — and
//! take plain decisions back: the encoder rate to open, how many samples
//! make one frame, whether a frame is still worth encoding. The shared
//! audio-input override chosen for a voice call, and the cooperative
//! restart flag the worker polls at its safe points (never interrupting an
//! in-flight capture callback), live here too.

use vstd::prelude::*;

use crate::connection::OutboundMessage;

verus! {

/// How many consecutive all-silent frames are still forwarded before
/// suppression starts.
pub const MAX_AUDIO_ZERO_COUNT: u16 = 800;

/// The encoder sample rate for a device rate: the next supported encoder
/// rate at or below the device's, and the lowest one for anything slower.
pub open spec fn spec_target_sample_rate(device_rate: u32) -> u32 {
    if device_rate < 12000 {
        8000
    } else if device_rate < 16000 {
        12000
    } else if device_rate < 24000 {
        16000
    } else if device_rate < 48000 {
        24000
    } else {
        48000
    }
}

/// Pick the encoder sample rate for a device rate. The encoder accepts
/// exactly five rates; the result is always one of them.
pub fn target_sample_rate(device_rate: u32) -> (r: u32)
    ensures
        r == spec_target_sample_rate(device_rate),
        r == 8000 || r == 12000 || r == 16000 || r == 24000 || r == 48000,
{
    if device_rate < 12000 {
        8000
    } else if device_rate < 16000 {
        12000
    } else if device_rate < 24000 {
        16000
    } else if device_rate < 48000 {
        24000
    } else {
        48000
    }
}

/// Pick the encoder channel count: stereo for any multi-channel device,
/// mono otherwise.
pub fn encode_channels(device_channels: u16) -> (r: u16)
    ensures
        r == (if device_channels > 1 {
            2u16
        } else {
            1u16
        }),
{
    if device_channels > 1 {
        2
    } else {
        1
    }
}

/// The sample counts of one capture cycle: how many frames the device
/// produces in ten milliseconds, how many samples the encoder takes per
/// frame, and how many device samples must be buffered to yield one
/// encoder frame after rechannelling.
pub fn frame_geometry(device_rate: u32, device_channels: u16, encoder_channels: u16) -> (r: (
    u64,
    u64,
    u64,
))
    requires
        encoder_channels == 1 || encoder_channels == 2,
    ensures
        r.0 == device_rate as u64 / 100,
        r.1 == r.0 * encoder_channels as u64,
        r.2 == (r.1 * device_channels as u64) / (encoder_channels as int),
{
    let frame_size: u64 = device_rate as u64 / 100;
    proof {
        assert(frame_size * encoder_channels as u64 <= 85899344) by (nonlinear_arith)
            requires
                frame_size <= 42949672,
                encoder_channels as u64 <= 2,
        ;
    }
    let encode_len: u64 = frame_size * encoder_channels as u64;
    proof {
        assert(encode_len * (device_channels as u64) <= 85899344u64 * 65535) by (nonlinear_arith)
            requires
                encode_len <= 85899344,
                device_channels as u64 <= 65535,
        ;
    }
    let rechannel_len: u64 = encode_len * device_channels as u64 / encoder_channels as u64;
    (frame_size, encode_len, rechannel_len)
}

/// Byte length of one complete capture frame as the push-based audio
/// backend hands it over: ten milliseconds of 48 kHz stereo samples, four
/// bytes each.
pub const AUDIO_DATA_SIZE_U8: usize = 960 * 4;

/// What the audio worker does with one raw read from the capture backend.
#[derive(Clone, Copy, Debug, PartialEq, Eq, Structural)]
pub enum FrameAdmission {
    /// An empty read stands for a silent source: feed the encoder one
    /// all-zero frame so the stream keeps its cadence.
    EncodeSilence,
    /// A complete frame: hand it to the encoder.
    Encode,
    /// A partial or oversized read: drop it.
    Skip,
}

/// Admit one raw read from the capture backend by its byte length: empty
/// is encoded as one all-zero frame, exactly one frame is encoded as it
/// is, and any other length is dropped.
pub fn admit_capture_read(len: usize) -> (r: FrameAdmission)
    ensures
        r == (if len == 0 {
            FrameAdmission::EncodeSilence
        } else if len == AUDIO_DATA_SIZE_U8 {
            FrameAdmission::Encode
        } else {
            FrameAdmission::Skip
        }),
{
    if len == 0 {
        FrameAdmission::EncodeSilence
    } else if len == AUDIO_DATA_SIZE_U8 {
        FrameAdmission::Encode
    } else {
        FrameAdmission::Skip
    }
}

/// The audio-format header announcing the negotiated encoder parameters
/// to a subscriber.
pub fn create_format_msg(sample_rate: u32, channels: u16) -> (r: OutboundMessage)
    ensures
        r == (OutboundMessage::AudioFormat { sample_rate, channels }),
{
    OutboundMessage::AudioFormat { sample_rate, channels }
}

/// The silence suppressor on the capture stream: it counts consecutive
/// all-silent frames and, once too many went by, stops handing frames to
/// the encoder until sound returns. The first frames of a silence are
/// still forwarded, so a pause decays naturally at the peer instead of
/// cutting off.
pub struct SilenceFilter {
    /// How many all-silent frames arrived since the last audible one;
    /// saturates just past the suppression threshold.
    pub zero_count: u16,
}

impl SilenceFilter {
    /// A fresh suppressor that has heard no silence yet.
    pub fn new() -> (g: SilenceFilter)
        ensures
            g.zero_count == 0,
    {
        SilenceFilter { zero_count: 0 }
    }

    /// Account one captured frame and decide whether to encode and send
    /// it. Sound resets the count and is always forwarded; silence is
    /// forwarded until the threshold is crossed, after which every further
    /// silent frame is swallowed.
    pub fn step(&mut self, silent: bool) -> (send: bool)
        ensures
            !silent ==> final(self).zero_count == 0 && send,
            silent && old(self).zero_count <= MAX_AUDIO_ZERO_COUNT ==> final(self).zero_count
                == old(self).zero_count + 1 && send,
            silent && old(self).zero_count > MAX_AUDIO_ZERO_COUNT ==> final(self).zero_count == (
            if old(self).zero_count == MAX_AUDIO_ZERO_COUNT + 1 {
                (MAX_AUDIO_ZERO_COUNT + 2) as u16
            } else {
                old(self).zero_count
            }) && !send,
    {
        if !silent {
            self.zero_count = 0;
            return true;
        }
        if self.zero_count > MAX_AUDIO_ZERO_COUNT {
            if self.zero_count == MAX_AUDIO_ZERO_COUNT + 1 {
                self.zero_count += 1;
            }
            return false;
        }
        self.zero_count += 1;
        true
    }
}

/// The view of a possibly absent device name: its characters.
pub open spec fn device_view(d: Option<String>) -> Option<Seq<char>> {
    match d {
        Some(s) => Some(s@),
        None => None,
    }
}

/// The process-wide audio-input control: the input-device override chosen
/// for a voice call, and the cooperative restart flag the audio worker
/// polls between capture cycles.
pub struct AudioControl {
    /// The voice-call input-device override, if a call chose one.
    pub voice_call_device: Option<String>,
    /// Set to ask the worker to reopen the device at its next safe point.
    pub restarting: bool,
}

impl AudioControl {
    /// No override, no restart pending.
    pub fn new() -> (c: AudioControl)
        ensures
            c.voice_call_device matches Option::None,
            !c.restarting,
    {
        AudioControl { voice_call_device: None, restarting: false }
    }

    /// The current voice-call input-device override.
    pub fn get_voice_call_input_device(&self) -> (r: Option<String>)
        ensures
            device_view(r) == device_view(self.voice_call_device),
    {
        match &self.voice_call_device {
            Some(d) => Some(d.clone()),
            None => None,
        }
    }

    /// Install (or clear) the voice-call input-device override. With
    /// `set_if_present` clear, an existing override is never replaced.
    /// Setting the value it already has changes nothing; an actual change
    /// asks the audio worker to restart so it reopens the right device.
    pub fn set_voice_call_input_device(&mut self, device: Option<String>, set_if_present: bool)
        ensures
            !set_if_present && (old(self).voice_call_device matches Option::Some(_))
                ==> *final(self) == *old(self),
            (set_if_present || (old(self).voice_call_device matches Option::None)) ==> {
                if device_view(old(self).voice_call_device) == device_view(device) {
                    *final(self) == *old(self)
                } else {
                    final(self).voice_call_device == device && final(self).restarting
                }
            },
    {
        if !set_if_present && self.voice_call_device.is_some() {
            return;
        }
        let same = match (&self.voice_call_device, &device) {
            (Some(a), Some(b)) => *a == *b,
            (None, None) => true,
            _ => false,
        };
        if same {
            return;
        }
        self.voice_call_device = device;
        self.restart();
    }

    /// Ask the audio worker to restart at its next safe point. Asking
    /// again while a restart is already pending changes nothing.
    pub fn restart(&mut self)
        ensures
            *final(self) == (AudioControl { restarting: true, ..*old(self) }),
    {
        if self.restarting {
            return;
        }
        self.restarting = true;
    }

    /// Whether a restart is pending.
    pub fn is_restarting(&self) -> (r: bool)
        ensures
            r == self.restarting,
    {
        self.restarting
    }

    /// The worker observed the restart request and reopened the device.
    pub fn clear_restart(&mut self)
        ensures
            *final(self) == (AudioControl { restarting: false, ..*old(self) }),
    {
        self.restarting = false;
    }

    /// The device the capture loop should open: the voice-call override
    /// when one is set, the configured default otherwise.
    pub fn get_audio_input(&self, config_default: String) -> (r: String)
        ensures
            r@ == (match device_view(self.voice_call_device) {
                Some(v) => v,
                None => config_default@,
            }),
    {
        match &self.voice_call_device {
            Some(d) => d.clone(),
            None => config_default,
        }
    }
}

} // verus!
