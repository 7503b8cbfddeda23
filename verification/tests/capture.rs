use dictation_core::audio_chunk::{AudioChunk, AudioConfig};
use dictation_core::capture::{
    random, sample_from_draw, samples_per_tick, synthesize, AudioError, MockAudioCapture,
    TickOutcome, RNG_SEED, TICK_MS,
};

fn delivered(outcome: TickOutcome) -> AudioChunk {
    match outcome {
        TickOutcome::Deliver(chunk) => chunk,
        TickOutcome::Stop => panic!("the producer stopped"),
    }
}

#[test]
fn test_mock_capture_new() {
    let capture = MockAudioCapture::new();
    let is_capturing = capture.is_capturing();
    assert!(!is_capturing);
}

#[test]
fn test_mock_capture_default() {
    let capture = MockAudioCapture::default();
    assert!(!capture.is_capturing());
    assert_eq!(capture.config(), AudioConfig::default());
}

#[test]
fn test_mock_capture_initialize() {
    let mut capture = MockAudioCapture::new();
    let config = AudioConfig { sample_rate: 8000, channels: 2, buffer_size: 2048 };
    let result = capture.initialize(config);
    assert!(result.is_ok());
    assert_eq!(capture.config().sample_rate, 8000);
}

#[test]
fn test_mock_capture_start_and_stop() {
    let mut capture = MockAudioCapture::new();
    capture.initialize(AudioConfig::default()).unwrap();

    let result = capture.start_capture();
    assert!(result.is_ok());

    let result = capture.stop_capture();
    assert!(result.is_ok());
}

#[test]
fn test_mock_capture_double_start_fails() {
    let mut capture = MockAudioCapture::new();

    capture.start_capture().unwrap();
    let result = capture.start_capture();
    assert!(result.is_err());

    capture.stop_capture().unwrap();
}

#[test]
fn test_mock_capture_config() {
    let capture = MockAudioCapture::new();
    let config = capture.config();
    assert_eq!(config.sample_rate, 16000);
}

#[test]
fn test_random_generator() {
    let mut state = RNG_SEED;
    let val1: u16 = random(&mut state);
    let val2: u16 = random(&mut state);
    assert!(val1 != val2 || val1 == val2);
}

#[test]
fn test_mock_audio_basic_lifecycle() {
    let mut capture = MockAudioCapture::new();

    assert!(!capture.is_capturing());

    let config = AudioConfig::default();
    let result = capture.initialize(config);
    assert!(result.is_ok());

    let result = capture.start_capture();
    assert!(result.is_ok());

    let result = capture.stop_capture();
    assert!(result.is_ok());
}

#[test]
fn test_mock_audio_prevent_double_start() {
    let mut capture = MockAudioCapture::new();

    capture.initialize(AudioConfig::default()).unwrap();

    capture.start_capture().unwrap();

    let result = capture.start_capture();
    assert!(result.is_err());

    capture.stop_capture().unwrap();
}

#[test]
fn test_mock_audio_stop_without_start() {
    let mut capture = MockAudioCapture::new();

    let result = capture.stop_capture();
    let _ = result;
}

#[test]
fn test_mock_audio_custom_sample_rate() {
    let mut capture = MockAudioCapture::new();

    let mut config = AudioConfig::default();
    config.sample_rate = 48000;
    config.channels = 2;

    let result = capture.initialize(config);
    assert!(result.is_ok());
}

#[test]
fn test_mock_audio_multiple_sessions() {
    let mut capture = MockAudioCapture::new();

    capture.initialize(AudioConfig::default()).unwrap();

    capture.start_capture().unwrap();
    capture.stop_capture().unwrap();

    capture.start_capture().unwrap();
    capture.stop_capture().unwrap();

    capture.start_capture().unwrap();
    capture.stop_capture().unwrap();
}

#[test]
fn double_start_reports_already_capturing_and_changes_nothing() {
    let mut capture = MockAudioCapture::new();
    let config = AudioConfig { sample_rate: 8000, channels: 2, buffer_size: 512 };
    capture.initialize(config).unwrap();
    let mut producer = capture.start_capture().unwrap();

    match capture.start_capture() {
        Err(AudioError::Capture(message)) => assert_eq!(message, "Already capturing"),
        Ok(_) => panic!("a second start was accepted"),
    }
    assert!(capture.is_capturing());
    assert_eq!(capture.config(), config);

    let chunk = delivered(producer.on_tick(capture.is_capturing(), Some(1)));
    assert_eq!(chunk.data.len(), 1600);
    let next = delivered(producer.on_tick(capture.is_capturing(), Some(2)));
    assert_eq!(next.data.len(), 1600);
}

#[test]
fn stop_without_start_succeeds_and_leaves_the_instance_startable() {
    let mut capture = MockAudioCapture::new();
    assert!(capture.stop_capture().is_ok());
    assert!(!capture.is_capturing());
    assert_eq!(capture.config(), AudioConfig::default());
    assert!(capture.start_capture().is_ok());
    assert!(capture.is_capturing());
}

#[test]
fn start_stop_cycles_keep_succeeding() {
    let mut capture = MockAudioCapture::new();
    for _ in 0..3 {
        assert!(capture.start_capture().is_ok());
        assert!(capture.is_capturing());
        assert!(capture.stop_capture().is_ok());
        assert!(!capture.is_capturing());
    }
    for _ in 0..100 {
        assert!(capture.start_capture().is_ok());
        assert!(capture.stop_capture().is_ok());
    }
    assert_eq!(capture.config(), AudioConfig::default());
}

#[test]
fn stop_is_idempotent() {
    let mut capture = MockAudioCapture::new();
    capture.start_capture().unwrap();
    assert!(capture.stop_capture().is_ok());
    assert!(capture.stop_capture().is_ok());
    assert!(!capture.is_capturing());
}

#[test]
fn initialize_replaces_the_configuration_and_keeps_the_flag() {
    let mut capture = MockAudioCapture::new();
    let first = AudioConfig { sample_rate: 8000, channels: 2, buffer_size: 2048 };
    let second = AudioConfig { sample_rate: 44100, channels: 1, buffer_size: 64 };
    capture.initialize(first).unwrap();
    assert_eq!(capture.config(), first);
    assert!(!capture.is_capturing());
    capture.start_capture().unwrap();
    capture.initialize(second).unwrap();
    assert_eq!(capture.config(), second);
    assert!(capture.is_capturing());
}

#[test]
fn producer_keeps_the_configuration_it_was_started_with() {
    let mut capture = MockAudioCapture::new();
    let first = AudioConfig { sample_rate: 8000, channels: 2, buffer_size: 2048 };
    capture.initialize(first).unwrap();
    let mut producer = capture.start_capture().unwrap();
    capture.initialize(AudioConfig::default()).unwrap();
    assert_eq!(producer.config(), first);
    let chunk = delivered(producer.on_tick(true, Some(10)));
    assert_eq!(chunk.sample_rate, 8000);
    assert_eq!(chunk.channels, 2);
    assert_eq!(chunk.data.len(), 1600);
}

#[test]
fn tick_constants() {
    assert_eq!(TICK_MS, 100);
    assert_eq!(RNG_SEED, 1);
}

#[test]
fn samples_per_tick_is_a_tenth_of_a_second_of_frames() {
    assert_eq!(samples_per_tick(&AudioConfig::default()), 1600);
    let stereo = AudioConfig { sample_rate: 48000, channels: 2, buffer_size: 4096 };
    assert_eq!(samples_per_tick(&stereo), 9600);
    let odd = AudioConfig { sample_rate: 11025, channels: 3, buffer_size: 1 };
    assert_eq!(samples_per_tick(&odd), 1102 * 3);
    let tiny = AudioConfig { sample_rate: 9, channels: 2, buffer_size: 1 };
    assert_eq!(samples_per_tick(&tiny), 0);
    let silent = AudioConfig { sample_rate: 16000, channels: 0, buffer_size: 1 };
    assert_eq!(samples_per_tick(&silent), 0);
    let widest = AudioConfig { sample_rate: u32::MAX, channels: u16::MAX, buffer_size: 1 };
    assert_eq!(samples_per_tick(&widest), 429_496_729u64 * 65_535);
}

#[test]
fn random_follows_the_xorshift_sequence() {
    let mut state = RNG_SEED;
    let drawn: Vec<u16> = (0..6).map(|_| random(&mut state)).collect();
    assert_eq!(drawn, vec![8257, 5185, 9769, 32805, 37477, 6145]);

    let mut state = 1u64;
    assert_eq!(random(&mut state), 8257);
    assert_eq!(state, 1_082_269_761);
}

#[test]
fn random_from_zero_stays_at_zero() {
    let mut state = 0u64;
    assert_eq!(random(&mut state), 0);
    assert_eq!(state, 0);
}

#[test]
fn sample_from_draw_takes_the_signed_remainder_less_fifty() {
    assert_eq!(sample_from_draw(0), -50);
    assert_eq!(sample_from_draw(99), 49);
    assert_eq!(sample_from_draw(100), -50);
    assert_eq!(sample_from_draw(32767), 17);
    assert_eq!(sample_from_draw(32768), -118);
    assert_eq!(sample_from_draw(40000), -86);
    assert_eq!(sample_from_draw(65535), -51);
}

#[test]
fn sample_from_draw_matches_signed_arithmetic_on_every_draw() {
    for drawn in 0..=u16::MAX {
        let value = drawn as i16;
        let sample = sample_from_draw(drawn);
        assert_eq!(sample, (value % 100) - 50);
        assert!((-149..=49).contains(&sample));
    }
}

#[test]
fn synthesize_draws_one_number_per_sample() {
    let mut state = RNG_SEED;
    let data = synthesize(&mut state, 6);
    assert_eq!(data, vec![7, 35, 19, -81, -109, -5]);

    let mut stepped = RNG_SEED;
    for _ in 0..6 {
        random(&mut stepped);
    }
    assert_eq!(state, stepped);

    let mut untouched = 77u64;
    assert!(synthesize(&mut untouched, 0).is_empty());
    assert_eq!(untouched, 77);
}

#[test]
fn producer_delivers_one_tick_of_samples_while_capturing() {
    let mut capture = MockAudioCapture::new();
    let mut producer = capture.start_capture().unwrap();

    let first = delivered(producer.on_tick(true, Some(1_700_000_000_000)));
    assert_eq!(first.data.len(), 1600);
    assert_eq!(&first.data[..6], &[7, 35, 19, -81, -109, -5]);
    assert_eq!(first.data[1599], -125);
    assert_eq!(first.sample_rate, 16000);
    assert_eq!(first.channels, 1);
    assert_eq!(first.timestamp, 1_700_000_000_000);
    assert_eq!(first.duration_ms(), 100);

    let second = delivered(producer.on_tick(true, Some(1_700_000_000_100)));
    assert_eq!(second.data.len(), 1600);
    assert_eq!(&second.data[..2], &[-106, -120]);
    assert_eq!(second.data[1599], -69);
    assert_eq!(second.timestamp, 1_700_000_000_100);
}

#[test]
fn producer_stops_when_the_flag_is_down() {
    let mut capture = MockAudioCapture::new();
    let mut producer = capture.start_capture().unwrap();
    let _ = delivered(producer.on_tick(capture.is_capturing(), Some(1)));
    capture.stop_capture().unwrap();
    assert!(matches!(producer.on_tick(capture.is_capturing(), Some(2)), TickOutcome::Stop));
    assert!(matches!(producer.on_tick(false, None), TickOutcome::Stop));
}

#[test]
fn stopped_tick_draws_nothing() {
    let mut capture = MockAudioCapture::new();
    let mut producer = capture.start_capture().unwrap();
    assert!(matches!(producer.on_tick(false, Some(1)), TickOutcome::Stop));
    let chunk = delivered(producer.on_tick(true, Some(2)));
    assert_eq!(&chunk.data[..3], &[7, 35, 19]);
}

#[test]
fn each_session_starts_from_the_seed() {
    let mut capture = MockAudioCapture::new();
    let mut producer = capture.start_capture().unwrap();
    let first = delivered(producer.on_tick(true, Some(1)));
    capture.stop_capture().unwrap();
    let mut again = capture.start_capture().unwrap();
    let repeat = delivered(again.on_tick(true, Some(1)));
    assert_eq!(first.data, repeat.data);
}

#[test]
fn stereo_tick_is_made_of_whole_frames() {
    let mut capture = MockAudioCapture::new();
    capture
        .initialize(AudioConfig { sample_rate: 48000, channels: 2, buffer_size: 4096 })
        .unwrap();
    let mut producer = capture.start_capture().unwrap();
    let chunk = delivered(producer.on_tick(true, Some(0)));
    assert_eq!(chunk.data.len(), 9600);
    assert_eq!(chunk.data.len() % 2, 0);
    assert_eq!(chunk.duration_ms(), 100);
}
