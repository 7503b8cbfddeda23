//! The capture session state machine and its synthetic chunk producer.
//!
//! A session is started and stopped through [`MockAudioCapture`]; starting
//! hands out a [`Producer`], which the caller drives once per tick with the
//! current value of the capturing flag. Timers, tasks and callbacks are the
//! caller's business: every decision is made here.

use vstd::prelude::*;
use crate::audio_chunk::{AudioChunk, AudioChunkView, AudioConfig};
use crate::clock::spec_timestamp_millis;

verus! {

/// Length of one producer tick in milliseconds.
pub const TICK_MS: u64 = 100;

/// Generator state of a freshly started producer.
pub const RNG_SEED: u64 = 1;

/// Why a capture operation was refused.
#[derive(Debug, Clone)]
pub enum AudioError {
    /// The session could not be started.
    Capture(String),
}

pub type AudioResult<T> = Result<T, AudioError>;

/// The message carried by the error for a second start.
pub open spec fn already_capturing_message() -> Seq<char> {
    "Already capturing"@
}

/// One xorshift step on the generator state.
pub open spec fn xorshift(x: u64) -> u64 {
    let a = x ^ (x << 13);
    let b = a ^ (a >> 7);
    b ^ (b << 17)
}

/// The number drawn from generator state `state`: the low 16 bits of the
/// next state.
pub open spec fn random_output(state: u64) -> u16 {
    (xorshift(state) & 0xffff) as u16
}

/// Generator state after `n` draws.
pub open spec fn rng_after(state: u64, n: nat) -> u64
    decreases n,
{
    if n == 0 {
        state
    } else {
        xorshift(rng_after(state, (n - 1) as nat))
    }
}

/// The synthetic sample made from a drawn number: the number read as a
/// signed 16-bit value, its remainder by 100 (with the sign of the value),
/// less 50.
pub open spec fn synth_sample(drawn: u16) -> i16 {
    let value: int = if drawn < 32768 {
        drawn as int
    } else {
        drawn - 65536
    };
    let rem: int = if value >= 0 {
        value % 100
    } else {
        -((-value) % 100)
    };
    (rem - 50) as i16
}

/// The `n` samples synthesised from generator state `state` on.
pub open spec fn synth_samples(state: u64, n: nat) -> Seq<i16> {
    Seq::new(n, |i: int| synth_sample(random_output(rng_after(state, i as nat))))
}

/// Samples in one tick's chunk: the frames in a tick, times the channels.
pub open spec fn spec_samples_per_tick(config: AudioConfig) -> nat {
    ((((config.sample_rate as nat) * (TICK_MS as nat)) / 1000) * (config.channels as nat)) as nat
}

/// A tick's chunk is made of whole frames.
pub proof fn lemma_tick_is_frame_aligned(config: AudioConfig)
    requires
        config.channels > 0,
    ensures
        spec_samples_per_tick(config) % (config.channels as nat) == 0,
{
    let frames = ((config.sample_rate as nat) * (TICK_MS as nat)) / 1000;
    vstd::arithmetic::div_mod::lemma_mod_multiples_basic(frames as int, config.channels as int);
}

/// Draws the next 16-bit number and advances the generator.
pub fn random(state: &mut u64) -> (drawn: u16)
    ensures
        *final(state) == xorshift(*old(state)),
        drawn == random_output(*old(state)),
{
    let mut x: u64 = *state;
    x = x ^ (x << 13);
    x = x ^ (x >> 7);
    x = x ^ (x << 17);
    *state = x;
    let low: u64 = x & 0xffff;
    assert(low <= 0xffff) by (bit_vector)
        requires
            low == x & 0xffff,
    ;
    low as u16
}

/// Makes one synthetic sample from a drawn number.
pub fn sample_from_draw(drawn: u16) -> (sample: i16)
    ensures
        sample == synth_sample(drawn),
        -149 <= sample <= 49,
{
    let value: i32 = if drawn < 32768 {
        drawn as i32
    } else {
        drawn as i32 - 65536
    };
    let rem: i32 = if value >= 0 {
        (value as u32 % 100) as i32
    } else {
        -(((-value) as u32 % 100) as i32)
    };
    (rem - 50) as i16
}

/// Samples in one tick's chunk for `config`.
pub fn samples_per_tick(config: &AudioConfig) -> (n: u64)
    ensures
        n == spec_samples_per_tick(*config),
{
    let frames: u64 = (config.sample_rate as u64 * TICK_MS) / 1000;
    let channels: u64 = config.channels as u64;
    assert(frames * channels <= 0xffff_ffff * 0xffff) by (nonlinear_arith)
        requires
            frames <= 0xffff_ffff,
            channels <= 0xffff,
    ;
    frames * channels
}

/// Synthesises `n` samples, advancing the generator once per sample.
pub fn synthesize(state: &mut u64, n: u64) -> (data: Vec<i16>)
    ensures
        data@ == synth_samples(*old(state), n as nat),
        *final(state) == rng_after(*old(state), n as nat),
{
    let ghost start = *state;
    let mut data: Vec<i16> = Vec::new();
    let mut i: u64 = 0;
    while i < n
        invariant
            i <= n,
            data@.len() == i,
            *state == rng_after(start, i as nat),
            forall|k: int| 0 <= k < i ==> data@[k] == synth_samples(start, n as nat)[k],
        decreases n - i,
    {
        let drawn = random(state);
        data.push(sample_from_draw(drawn));
        i += 1;
    }
    assert(data@ =~= synth_samples(start, n as nat));
    data
}

/// What a producer does on one tick.
#[derive(Debug)]
pub enum TickOutcome {
    /// Hand this chunk to the delivery callback and wait for the next tick.
    Deliver(AudioChunk),
    /// The session was stopped: end the producer.
    Stop,
}

/// Mathematical content of a [`Producer`].
pub struct ProducerView {
    pub config: AudioConfig,
    pub rng: u64,
}

/// The chunk source of one capture session. It holds the configuration as
/// it was when the session started and the state of its sample generator.
#[derive(Debug)]
pub struct Producer {
    config: AudioConfig,
    rng: u64,
}

impl View for Producer {
    type V = ProducerView;

    closed spec fn view(&self) -> ProducerView {
        ProducerView { config: self.config, rng: self.rng }
    }
}

impl Producer {
    /// The configuration snapshot this producer works from.
    pub fn config(&self) -> (config: AudioConfig)
        ensures
            config == self@.config,
    {
        self.config
    }

    /// One tick of the producer. `capturing` is the session flag as read at
    /// the tick, `elapsed` the clock reading taken for the chunk's stamp.
    /// With the flag down the producer ends and nothing is drawn; with it up
    /// exactly one tick's worth of samples is synthesised and delivered.
    pub fn on_tick(&mut self, capturing: bool, elapsed: Option<u128>) -> (outcome: TickOutcome)
        ensures
            final(self)@.config == old(self)@.config,
            !capturing ==> outcome is Stop && final(self)@ == old(self)@,
            capturing ==> {
                let n = spec_samples_per_tick(old(self)@.config);
                &&& outcome matches TickOutcome::Deliver(chunk)
                &&& chunk@ == (AudioChunkView {
                    data: synth_samples(old(self)@.rng, n),
                    sample_rate: old(self)@.config.sample_rate,
                    channels: old(self)@.config.channels,
                    timestamp: spec_timestamp_millis(elapsed),
                })
                &&& final(self)@.rng == rng_after(old(self)@.rng, n)
                &&& old(self)@.config.channels > 0 ==> chunk.is_frame_aligned()
            },
    {
        if !capturing {
            return TickOutcome::Stop;
        }
        let n = samples_per_tick(&self.config);
        proof {
            if self.config.channels > 0 {
                lemma_tick_is_frame_aligned(self.config);
            }
        }
        let data = synthesize(&mut self.rng, n);
        TickOutcome::Deliver(
            AudioChunk::stamped(data, self.config.sample_rate, self.config.channels, elapsed),
        )
    }
}

/// Mathematical content of a [`MockAudioCapture`]: the stored configuration
/// and whether a session is active.
pub struct CaptureState {
    pub config: AudioConfig,
    pub capturing: bool,
}

impl CaptureState {
    /// State of a new instance: default configuration, no session.
    pub open spec fn initial() -> CaptureState {
        CaptureState { config: AudioConfig::spec_default(), capturing: false }
    }

    /// A start is accepted exactly when no session is active.
    pub open spec fn can_start(self) -> bool {
        !self.capturing
    }

    /// State after an accepted start.
    pub open spec fn started(self) -> CaptureState {
        CaptureState { config: self.config, capturing: true }
    }

    /// State after a start request, accepted or refused.
    pub open spec fn after_start(self) -> CaptureState {
        if self.can_start() {
            self.started()
        } else {
            self
        }
    }

    /// State after a stop.
    pub open spec fn stopped(self) -> CaptureState {
        CaptureState { config: self.config, capturing: false }
    }

    /// State after storing a configuration.
    pub open spec fn initialized(self, config: AudioConfig) -> CaptureState {
        CaptureState { config, capturing: self.capturing }
    }

    /// State after `n` rounds of start then stop.
    pub open spec fn cycled(self, n: nat) -> CaptureState
        decreases n,
    {
        if n == 0 {
            self
        } else {
            self.cycled((n - 1) as nat).after_start().stopped()
        }
    }
}

/// A second start is refused and changes nothing.
pub proof fn lemma_double_start_is_refused(s: CaptureState)
    requires
        s.can_start(),
    ensures
        !s.after_start().can_start(),
        s.after_start().after_start() == s.after_start(),
{
}

/// After a stop a start is accepted, whether or not a session was active;
/// stopping an idle instance changes nothing.
pub proof fn lemma_stop_leaves_startable(s: CaptureState)
    ensures
        s.stopped().can_start(),
        !s.capturing ==> s.stopped() == s,
{
}

/// From an idle instance every round of start then stop is accepted and
/// comes back to the same state, however many rounds are made.
pub proof fn lemma_start_stop_cycles(s: CaptureState, n: nat)
    requires
        s.can_start(),
    ensures
        s.cycled(n) == s,
        forall|k: nat| k <= n ==> (#[trigger] s.cycled(k)).can_start(),
    decreases n,
{
    if n > 0 {
        lemma_start_stop_cycles(s, (n - 1) as nat);
        assert forall|k: nat| k <= n implies (#[trigger] s.cycled(k)).can_start() by {
            if k == n {
                assert(s.cycled(n) == s.cycled((n - 1) as nat).after_start().stopped());
            }
        }
    }
}

/// Capture backend that synthesises audio instead of reading a device.
#[derive(Debug)]
pub struct MockAudioCapture {
    config: AudioConfig,
    capturing: bool,
}

impl View for MockAudioCapture {
    type V = CaptureState;

    closed spec fn view(&self) -> CaptureState {
        CaptureState { config: self.config, capturing: self.capturing }
    }
}

impl MockAudioCapture {
    /// An idle instance with the default configuration.
    pub fn new() -> (capture: Self)
        ensures
            capture@ == CaptureState::initial(),
    {
        MockAudioCapture { config: AudioConfig::default(), capturing: false }
    }

    /// Stores `config` for the sessions started from now on. A running
    /// session keeps the configuration it was started with.
    pub fn initialize(&mut self, config: AudioConfig) -> (result: AudioResult<()>)
        ensures
            result is Ok,
            final(self)@ == old(self)@.initialized(config),
    {
        self.config = config;
        Ok(())
    }

    /// Starts a session. With a session already active the call is refused
    /// with `Capture("Already capturing")` and nothing changes; otherwise the
    /// flag goes up and the producer for the session is handed out, working
    /// from the configuration as it is now and a freshly seeded generator.
    pub fn start_capture(&mut self) -> (result: AudioResult<Producer>)
        ensures
            final(self)@ == old(self)@.after_start(),
            old(self)@.can_start() <==> result is Ok,
            result matches Ok(producer) ==> producer@ == (ProducerView {
                config: old(self)@.config,
                rng: RNG_SEED,
            }),
            result matches Err(error) ==> error matches AudioError::Capture(message)
                && message@ == already_capturing_message(),
    {
        if self.capturing {
            return Err(AudioError::Capture("Already capturing".to_owned()));
        }
        self.capturing = true;
        Ok(Producer { config: self.config, rng: RNG_SEED })
    }

    /// Stops the session, if there is one. Never fails.
    pub fn stop_capture(&mut self) -> (result: AudioResult<()>)
        ensures
            result is Ok,
            final(self)@ == old(self)@.stopped(),
    {
        self.capturing = false;
        Ok(())
    }

    /// Whether a session is active.
    pub fn is_capturing(&self) -> (capturing: bool)
        ensures
            capturing == self@.capturing,
    {
        self.capturing
    }

    /// The configuration stored last, or the default one.
    pub fn config(&self) -> (config: AudioConfig)
        ensures
            config == self@.config,
    {
        self.config
    }
}

impl Default for MockAudioCapture {
    fn default() -> (capture: Self)
        ensures
            capture@ == CaptureState::initial(),
    {
        MockAudioCapture::new()
    }
}

} // verus!
