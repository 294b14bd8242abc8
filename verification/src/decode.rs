//! The decisions taken while a track is decoded, packet by packet: which
//! packets are decoded, which errors are passed over, when decoding ends,
//! and how many frames were decoded.

use vstd::prelude::*;

verus! {

/// What reading the next packet of the container gave.
#[derive(Clone, Copy, Debug, PartialEq, Eq, Structural)]
pub enum PacketRead {
    /// A packet of the given track.
    Packet { track_id: u32 },
    /// The container asks the decoder to be reset.
    ResetRequired,
    /// Any other error, the end of the stream among them.
    Failed,
}

/// What decoding a packet gave.
#[derive(Clone, Copy, Debug, PartialEq, Eq, Structural)]
pub enum DecodeResult {
    /// Audio with this many frames.
    Decoded { frames: u64 },
    /// A read error.
    IoError,
    /// Malformed data.
    DecodeError,
    /// Any other error.
    Failed,
}

/// What to do with a packet that was read.
#[derive(Clone, Copy, Debug, PartialEq, Eq, Structural)]
pub enum PacketAction {
    /// Decode it.
    Decode,
    /// Pass over it: it belongs to another track.
    Skip,
    /// Stop decoding.
    Stop,
}

/// The progress of decoding one track.
#[derive(Clone, Copy, Debug, PartialEq, Eq, Structural)]
pub struct DecodeProgress {
    /// The track of the container that is decoded.
    pub track_id: u32,
    /// The frames decoded so far.
    pub total_frames: u64,
}

/// A reset request is not handled: decoding a track stops the program there.
pub open spec fn packet_handled(read: PacketRead) -> bool {
    !(read is ResetRequired)
}

/// Adding the decoded frames keeps the count within `u64`.
pub open spec fn frames_fit(p: DecodeProgress, result: DecodeResult) -> bool {
    result matches DecodeResult::Decoded { frames } ==> p.total_frames + frames <= u64::MAX
}

impl DecodeProgress {
    /// The start of decoding the given track: no frame yet.
    pub fn new(track_id: u32) -> (r: DecodeProgress)
        ensures
            r == (DecodeProgress { track_id, total_frames: 0 }),
    {
        DecodeProgress { track_id, total_frames: 0 }
    }

    /// What to do with what reading a packet gave: a packet of the decoded
    /// track is decoded, one of another track is passed over, and an error
    /// ends decoding.
    pub fn on_packet(&self, read: PacketRead) -> (r: PacketAction)
        requires
            packet_handled(read),
        ensures
            r == match read {
                PacketRead::Packet { track_id } => if track_id == self.track_id {
                    PacketAction::Decode
                } else {
                    PacketAction::Skip
                },
                _ => PacketAction::Stop,
            },
    {
        match read {
            PacketRead::Packet { track_id } => {
                if track_id == self.track_id {
                    PacketAction::Decode
                } else {
                    PacketAction::Skip
                }
            },
            _ => PacketAction::Stop,
        }
    }

    /// Takes what decoding a packet gave and says whether decoding goes on:
    /// decoded frames are counted, read and data errors are passed over, any
    /// other error ends decoding.
    pub fn on_decoded(&mut self, result: DecodeResult) -> (go_on: bool)
        requires
            frames_fit(*old(self), result),
        ensures
            final(self).track_id == old(self).track_id,
            final(self).total_frames == match result {
                DecodeResult::Decoded { frames } => old(self).total_frames + frames,
                _ => old(self).total_frames as int,
            },
            go_on == !(result is Failed),
    {
        match result {
            DecodeResult::Decoded { frames } => {
                self.total_frames = self.total_frames + frames;
                true
            },
            DecodeResult::IoError => true,
            DecodeResult::DecodeError => true,
            DecodeResult::Failed => false,
        }
    }
}

/// The channel count of a decoded stream: the number of channels that the
/// codec announces, or one when it announces none.
pub fn channel_count_or_mono(announced: Option<usize>) -> (r: usize)
    ensures
        r == match announced {
            Some(c) => c,
            None => 1,
        },
{
    match announced {
        Some(c) => c,
        None => 1,
    }
}

} // verus!
