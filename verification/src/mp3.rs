//! Decoding MP3 data into a track, frame by frame, with the `minimp3`
//! decoder.

use vstd::prelude::*;
use crate::error::EngineError;
use crate::track::Track;
use crate::track::TrackView;

verus! {

/// The decoder of the `minimp3` crate. Nothing is known of what it holds.
#[verifier::external_type_specification]
#[verifier::external_body]
#[verifier::reject_recursive_types(R)]
pub struct ExDecoder<R>(minimp3::Decoder<R>);

/// One decoded frame of audio: its interleaved samples and their format.
#[derive(Debug)]
pub struct Frame {
    /// The samples, interleaved by `channels`.
    pub data: Vec<i16>,
    /// Frames a second.
    pub sample_rate: i32,
    /// Samples in a frame.
    pub channels: usize,
}

/// Calls `minimp3::Decoder::new` on the bytes. Nothing is claimed of the
/// decoder that comes back.
#[verifier::external_body]
fn open_decoder<'a>(bytes: &'a [u8]) -> (decoder: minimp3::Decoder<&'a [u8]>) {
    minimp3::Decoder::new(bytes)
}

/// Calls `minimp3::Decoder::next_frame` and hands on the frame that it
/// decoded, or nothing where it reports the end of the data or a fault.
/// Nothing is claimed of the frame, and the samples of given bytes have no
/// name here: the decoder picks its arithmetic by the processor it runs
/// on, and its roundings need not agree from one machine to the next.
#[verifier::external_body]
fn next_frame(decoder: &mut minimp3::Decoder<&[u8]>) -> (frame: Option<Frame>) {
    match decoder.next_frame() {
        Ok(frame) => Some(
            Frame { data: frame.data, sample_rate: frame.sample_rate, channels: frame.channels },
        ),
        Err(_) => None,
    }
}

/// The format of decoded samples.
pub ghost struct Format {
    /// Samples in a frame.
    pub channels: nat,
    /// Frames a second.
    pub sample_rate: nat,
}

/// What a [`TrackBuilder`] holds: the samples so far and, once a frame was
/// taken, the format of all of them.
pub ghost struct BuilderView {
    pub samples: Seq<i16>,
    pub format: Option<Format>,
}

impl BuilderView {
    /// Whether the frame can be taken: it has between one and 65535
    /// channels and a rate above zero, its samples are whole frames, it
    /// has the format of the frames before it, and the samples still fit
    /// in memory.
    pub open spec fn accepts(self, frame: Frame) -> bool {
        &&& 1 <= frame.channels <= u16::MAX
        &&& 1 <= frame.sample_rate
        &&& frame.data@.len() % (frame.channels as nat) == 0
        &&& self.format matches Some(format) ==> format.channels == frame.channels
            && format.sample_rate == frame.sample_rate
        &&& self.samples.len() + frame.data@.len() <= usize::MAX
    }

    /// The builder after it took the frame.
    pub open spec fn pushed(self, frame: Frame) -> BuilderView {
        BuilderView {
            samples: self.samples + frame.data@,
            format: Some(
                Format {
                    channels: frame.channels as nat,
                    sample_rate: frame.sample_rate as nat,
                },
            ),
        }
    }
}

/// Gathers decoded frames into one track.
#[derive(Debug)]
pub struct TrackBuilder {
    samples: Vec<i16>,
    channels: u16,
    sample_rate: u32,
}

impl View for TrackBuilder {
    type V = BuilderView;

    closed spec fn view(&self) -> BuilderView {
        BuilderView {
            samples: self.samples@,
            format: if self.channels == 0 || self.sample_rate == 0 {
                None
            } else {
                Some(
                    Format {
                        channels: self.channels as nat,
                        sample_rate: self.sample_rate as nat,
                    },
                )
            },
        }
    }
}

impl TrackBuilder {
    /// A builder that holds nothing.
    pub fn new() -> (r: TrackBuilder)
        ensures
            r@ == (BuilderView { samples: Seq::empty(), format: None }),
    {
        TrackBuilder { samples: Vec::new(), channels: 0, sample_rate: 0 }
    }

    /// Takes the frame if it can be taken, and says whether it did. A
    /// frame that is refused leaves the builder as it was.
    pub fn push(&mut self, frame: Frame) -> (taken: bool)
        ensures
            taken == old(self)@.accepts(frame),
            taken ==> final(self)@ == old(self)@.pushed(frame),
            !taken ==> final(self)@ == old(self)@,
    {
        let mut frame = frame;
        if frame.channels < 1 || frame.channels > u16::MAX as usize || frame.sample_rate < 1 {
            return false;
        }
        let channels = frame.channels as u16;
        let sample_rate = frame.sample_rate as u32;
        if frame.data.len() % frame.channels != 0 {
            return false;
        }
        if self.channels != 0 && self.sample_rate != 0 && (self.channels != channels
            || self.sample_rate != sample_rate) {
            return false;
        }
        if frame.data.len() > usize::MAX - self.samples.len() {
            return false;
        }
        self.samples.append(&mut frame.data);
        self.channels = channels;
        self.sample_rate = sample_rate;
        true
    }

    /// The track of the frames that were taken, at its start and to be
    /// played as it is. There is none, and decoding has failed, where no
    /// frame was taken.
    pub fn finish(self) -> (r: Result<Track, EngineError>)
        ensures
            r is Ok <==> self@.format is Some,
            r matches Ok(track) ==> track@.wf() && track@ == (TrackView {
                samples: self@.samples,
                channels: self@.format->0.channels,
                sample_rate: self@.format->0.sample_rate,
                out_channels: self@.format->0.channels,
                out_rate: self@.format->0.sample_rate,
                speed: 1000,
                cursor: 0,
                phase: 0,
                lane: 0,
            }),
            r matches Err(e) ==> e == EngineError::DecodeError,
    {
        match Track::new(self.samples, self.channels, self.sample_rate) {
            Some(track) => Ok(track),
            None => Err(EngineError::DecodeError),
        }
    }
}

/// Decodes MP3 data into a track. The frames are taken in the order in
/// which the decoder finds them, up to the end of the data, a fault of the
/// decoder, or the first frame that does not go with the ones before it;
/// what follows is left out, as if the data ended there. Decoding fails
/// where not one frame was taken, as it does on empty data.
pub fn decode_mp3(bytes: &[u8]) -> (r: Result<Track, EngineError>)
    ensures
        bytes@.len() == 0 ==> r is Err,
        r matches Ok(track) ==> {
            &&& track@.wf()
            &&& track@.cursor == 0
            &&& track@.phase == 0
            &&& track@.lane == 0
            &&& track@.speed == 1000
            &&& track@.out_channels == track@.channels
            &&& track@.out_rate == track@.sample_rate
            &&& track@.samples.len() % track@.channels == 0
        },
        r matches Err(e) ==> e == EngineError::DecodeError,
{
    let mut decoder = open_decoder(bytes);
    let mut builder = TrackBuilder::new();
    // A frame takes up at least one byte, so there are no more frames
    // than bytes.
    let limit = bytes.len();
    let mut asked: usize = 0;
    let mut open = true;
    while open && asked < limit
        invariant
            builder@.format is None ==> builder@.samples.len() == 0,
            builder@.format matches Some(format) ==> format.channels >= 1
                && builder@.samples.len() % format.channels == 0,
            asked <= limit,
            limit == bytes@.len(),
            limit == 0 ==> builder@.format is None,
        decreases limit - asked,
    {
        match next_frame(&mut decoder) {
            Some(frame) => {
                proof {
                    if builder@.accepts(frame) {
                        let channels = frame.channels as int;
                        let before = builder@.samples.len() as int;
                        let more = frame.data@.len() as int;
                        vstd::arithmetic::div_mod::lemma_mod_adds(before, more, channels);
                    }
                }
                open = builder.push(frame);
            },
            None => {
                open = false;
            },
        }
        asked = asked + 1;
    }
    builder.finish()
}

} // verus!
