//! One slice of interleaved 16-bit PCM audio, the capture parameters that
//! produce it, and its little-endian wire encoding.

use vstd::prelude::*;
use vstd::arithmetic::div_mod::lemma_div_multiples_vanish_quotient;
use vstd::arithmetic::mul::{lemma_mul_is_associative, lemma_mul_is_commutative};
use crate::clock::{millis_since_epoch, spec_timestamp_millis, timestamp_millis};

verus! {

/// The two bytes that carry one sample on the wire, low byte first
/// (two's complement).
pub open spec fn sample_to_le(sample: i16) -> Seq<u8> {
    seq![((sample as int) % 256) as u8, (((sample as int) / 256) % 256) as u8]
}

/// The sample that a low byte and a high byte carry.
pub open spec fn sample_from_le(lo: u8, hi: u8) -> i16 {
    let unsigned = lo as int + 256 * (hi as int);
    if unsigned < 32768 {
        unsigned as i16
    } else {
        (unsigned - 65536) as i16
    }
}

/// Wire form of a run of samples: each sample's two bytes, in sample order.
pub open spec fn encode_samples(data: Seq<i16>) -> Seq<u8> {
    Seq::new(2 * data.len(), |i: int| sample_to_le(data[i / 2])[i % 2])
}

/// Samples carried by a byte buffer: one per complete pair of bytes. A
/// trailing odd byte carries nothing.
pub open spec fn decode_samples(bytes: Seq<u8>) -> Seq<i16> {
    Seq::new(bytes.len() / 2, |i: int| sample_from_le(bytes[2 * i], bytes[2 * i + 1]))
}

/// Playing time in milliseconds of `samples` interleaved samples.
pub open spec fn spec_duration_ms(samples: nat, sample_rate: nat, channels: nat) -> nat {
    (samples * 1000) / (sample_rate * channels)
}

/// Decoding the two bytes of a sample gives the sample back.
pub proof fn lemma_sample_round_trip(sample: i16)
    ensures
        sample_to_le(sample).len() == 2,
        sample_from_le(sample_to_le(sample)[0], sample_to_le(sample)[1]) == sample,
{
    let v = sample as int;
    let lo = v % 256;
    let hi = (v / 256) % 256;
    assert(v == 256 * (v / 256) + lo);
    if v >= 0 {
        assert(v / 256 < 128);
        assert(hi == v / 256);
    } else {
        assert(-128 <= v / 256 < 0);
        assert(hi == v / 256 + 256);
    }
}

/// Decoding what `encode_samples` produced gives the samples back.
pub proof fn lemma_encode_decode_round_trip(data: Seq<i16>)
    ensures
        encode_samples(data).len() == 2 * data.len(),
        decode_samples(encode_samples(data)) == data,
{
    let bytes = encode_samples(data);
    assert forall|i: int| 0 <= i < data.len() implies decode_samples(bytes)[i] == data[i] by {
        lemma_sample_round_trip(data[i]);
        assert(bytes[2 * i] == sample_to_le(data[i])[0]);
        assert(bytes[2 * i + 1] == sample_to_le(data[i])[1]);
    }
    assert(decode_samples(bytes) =~= data);
}

/// A buffer of odd length decodes as the buffer without its last byte.
pub proof fn lemma_decode_drops_trailing_byte(bytes: Seq<u8>)
    requires
        bytes.len() % 2 == 1,
    ensures
        decode_samples(bytes).len() == (bytes.len() - 1) / 2,
        decode_samples(bytes) == decode_samples(bytes.drop_last()),
{
    assert(decode_samples(bytes) =~= decode_samples(bytes.drop_last()));
}

/// A chunk of whole frames lasts `frames * 1000 / sample_rate` milliseconds,
/// whatever the channel count.
pub proof fn lemma_duration_of_whole_frames(sample_rate: nat, channels: nat, frames: nat)
    requires
        sample_rate > 0,
        channels > 0,
    ensures
        spec_duration_ms(frames * channels, sample_rate, channels) == (frames * 1000) / sample_rate,
{
    let c = channels as int;
    let f = frames as int;
    let s = sample_rate as int;
    lemma_div_multiples_vanish_quotient(c, f * 1000, s);
    assert((f * c) * 1000 == c * (f * 1000)) by {
        lemma_mul_is_commutative(f, c);
        lemma_mul_is_associative(c, f, 1000);
    }
    assert(s * c == c * s) by {
        lemma_mul_is_commutative(s, c);
    }
}

/// Capture parameters.
#[derive(Debug, Clone, Copy, PartialEq, Eq, Structural)]
pub struct AudioConfig {
    /// Sample rate in Hz.
    pub sample_rate: u32,
    /// Number of interleaved channels.
    pub channels: u16,
    /// Frames per internal buffer.
    pub buffer_size: u32,
}

impl AudioConfig {
    /// The canonical speech-recognition format: 16 kHz, mono, 4096 frames.
    pub open spec fn spec_default() -> AudioConfig {
        AudioConfig { sample_rate: 16000, channels: 1, buffer_size: 4096 }
    }
}

impl Default for AudioConfig {
    fn default() -> (config: Self)
        ensures
            config == AudioConfig::spec_default(),
    {
        AudioConfig { sample_rate: 16000, channels: 1, buffer_size: 4096 }
    }
}

/// Mathematical content of an [`AudioChunk`].
pub struct AudioChunkView {
    pub data: Seq<i16>,
    pub sample_rate: u32,
    pub channels: u16,
    pub timestamp: i64,
}

/// One slice of captured audio.
#[derive(Debug, Clone)]
pub struct AudioChunk {
    /// Interleaved 16-bit signed PCM samples.
    pub data: Vec<i16>,
    /// Sample rate in Hz.
    pub sample_rate: u32,
    /// Number of interleaved channels.
    pub channels: u16,
    /// Capture instant, milliseconds since the Unix epoch.
    pub timestamp: i64,
}

impl View for AudioChunk {
    type V = AudioChunkView;

    open spec fn view(&self) -> AudioChunkView {
        AudioChunkView {
            data: self.data@,
            sample_rate: self.sample_rate,
            channels: self.channels,
            timestamp: self.timestamp,
        }
    }
}

impl AudioChunk {
    /// The format is usable: a positive rate and at least one channel.
    pub open spec fn has_valid_format(&self) -> bool {
        self.sample_rate > 0 && self.channels > 0
    }

    /// The samples make up whole frames of `channels` samples each.
    pub open spec fn is_frame_aligned(&self) -> bool {
        self.channels > 0 && self.data@.len() % (self.channels as nat) == 0
    }

    /// A chunk holding `data`, stamped with the clock reading `elapsed`
    /// (milliseconds since the Unix epoch, `None` for a clock before it).
    pub fn stamped(data: Vec<i16>, sample_rate: u32, channels: u16, elapsed: Option<u128>) -> (chunk:
        Self)
        ensures
            chunk@ == (AudioChunkView {
                data: data@,
                sample_rate,
                channels,
                timestamp: spec_timestamp_millis(elapsed),
            }),
    {
        AudioChunk { data, sample_rate, channels, timestamp: timestamp_millis(elapsed) }
    }

    /// A chunk holding `data`, stamped with the current time.
    pub fn new(data: Vec<i16>, sample_rate: u32, channels: u16) -> (chunk: Self)
        ensures
            chunk.data@ == data@,
            chunk.sample_rate == sample_rate,
            chunk.channels == channels,
    {
        let elapsed = millis_since_epoch();
        AudioChunk::stamped(data, sample_rate, channels, elapsed)
    }

    /// Playing time of this chunk in milliseconds, rounded down.
    pub fn duration_ms(&self) -> (ms: u64)
        requires
            self.has_valid_format(),
            self.data@.len() * 1000 <= u64::MAX,
        ensures
            ms == spec_duration_ms(
                self.data@.len(),
                self.sample_rate as nat,
                self.channels as nat,
            ),
    {
        let rate: u64 = self.sample_rate as u64;
        let channels: u64 = self.channels as u64;
        assert(1 <= rate * channels <= 0xffff_ffff * 0xffff) by (nonlinear_arith)
            requires
                1 <= rate <= 0xffff_ffff,
                1 <= channels <= 0xffff,
        ;
        (self.data.len() as u64 * 1000) / (rate * channels)
    }

    /// Wire form of the samples: two bytes per sample, low byte first.
    pub fn to_bytes(&self) -> (bytes: Vec<u8>)
        ensures
            bytes@ == encode_samples(self.data@),
            bytes@.len() == 2 * self.data@.len(),
    {
        let n: usize = self.data.len();
        let mut bytes: Vec<u8> = Vec::new();
        let mut i: usize = 0;
        while i < n
            invariant
                n == self.data@.len(),
                i <= n,
                bytes@.len() == 2 * i,
                forall|k: int| 0 <= k < 2 * i ==> bytes@[k] == encode_samples(self.data@)[k],
            decreases n - i,
        {
            let sample: i16 = self.data[i];
            let unsigned: u32 = if sample < 0 {
                (sample as i32 + 65536) as u32
            } else {
                sample as u32
            };
            let lo: u8 = (unsigned % 256) as u8;
            let hi: u8 = (unsigned / 256) as u8;
            proof {
                let v = sample as int;
                assert(lo == v % 256);
                assert(hi == (v / 256) % 256);
                assert((2 * i) / 2 == i && (2 * i) % 2 == 0);
                assert((2 * i + 1) / 2 == i && (2 * i + 1) % 2 == 1);
            }
            bytes.push(lo);
            bytes.push(hi);
            i += 1;
        }
        assert(bytes@ =~= encode_samples(self.data@));
        bytes
    }

    /// The samples that a byte buffer carries, stamped with the clock
    /// reading `elapsed`.
    pub fn from_bytes_stamped(
        bytes: &[u8],
        sample_rate: u32,
        channels: u16,
        elapsed: Option<u128>,
    ) -> (chunk: Self)
        ensures
            chunk@ == (AudioChunkView {
                data: decode_samples(bytes@),
                sample_rate,
                channels,
                timestamp: spec_timestamp_millis(elapsed),
            }),
    {
        let data = decode_bytes(bytes);
        AudioChunk::stamped(data, sample_rate, channels, elapsed)
    }

    /// The chunk that a byte buffer carries, stamped with the current time.
    /// A trailing odd byte is dropped.
    pub fn from_bytes(bytes: &[u8], sample_rate: u32, channels: u16) -> (chunk: Self)
        ensures
            chunk.data@ == decode_samples(bytes@),
            chunk.data@.len() == bytes@.len() / 2,
            chunk.sample_rate == sample_rate,
            chunk.channels == channels,
    {
        let data = decode_bytes(bytes);
        AudioChunk::new(data, sample_rate, channels)
    }
}

/// Decodes each complete pair of bytes into one sample.
pub fn decode_bytes(bytes: &[u8]) -> (data: Vec<i16>)
    ensures
        data@ == decode_samples(bytes@),
{
    let n: usize = bytes.len() / 2;
    let mut data: Vec<i16> = Vec::new();
    let mut i: usize = 0;
    while i < n
        invariant
            n == bytes@.len() / 2,
            bytes@.len() <= usize::MAX,
            i <= n,
            data@.len() == i,
            forall|k: int| 0 <= k < i ==> data@[k] == decode_samples(bytes@)[k],
        decreases n - i,
    {
        let lo: u8 = bytes[2 * i];
        let hi: u8 = bytes[2 * i + 1];
        let unsigned: i32 = lo as i32 + 256 * (hi as i32);
        let sample: i16 = if unsigned < 32768 {
            unsigned as i16
        } else {
            (unsigned - 65536) as i16
        };
        data.push(sample);
        i += 1;
    }
    assert(data@ =~= decode_samples(bytes@));
    data
}

} // verus!
