use dictation_core::transcription::{RecordingStatus, Transcription};

#[test]
fn test_transcription_new() {
    let t = Transcription::new("hello".to_string(), true);
    assert_eq!(t.text, "hello");
    assert!(t.is_final);
    assert!(t.confidence.is_none());
    assert!(t.language.is_none());
    assert!(t.timestamp > 0);
}

#[test]
fn test_transcription_partial() {
    let t = Transcription::partial("test".to_string());
    assert_eq!(t.text, "test");
    assert!(!t.is_final);
}

#[test]
fn test_transcription_final_result() {
    let t = Transcription::final_result("done".to_string());
    assert_eq!(t.text, "done");
    assert!(t.is_final);
}

#[test]
fn test_transcription_with_confidence() {
    let t = Transcription::new("test".to_string(), true).with_confidence(0.95f32.to_bits());
    assert_eq!(t.confidence.map(f32::from_bits), Some(0.95));
}

#[test]
fn test_transcription_with_language() {
    let t = Transcription::new("test".to_string(), true).with_language("en".to_string());
    assert_eq!(t.language, Some("en".to_string()));
}

#[test]
fn test_transcription_builder_chain() {
    let t = Transcription::new("hello".to_string(), true)
        .with_confidence(0.8f32.to_bits())
        .with_language("ru".to_string());
    assert_eq!(t.text, "hello");
    assert_eq!(t.confidence.map(f32::from_bits), Some(0.8));
    assert_eq!(t.language, Some("ru".to_string()));
}

#[test]
fn test_transcription_clone() {
    let t1 = Transcription::new("test".to_string(), true);
    let t2 = t1.clone();
    assert_eq!(t1.text, t2.text);
    assert_eq!(t1.is_final, t2.is_final);
}

#[test]
fn test_recording_status_default() {
    assert_eq!(RecordingStatus::default(), RecordingStatus::Idle);
}

#[test]
fn test_recording_status_equality() {
    assert_eq!(RecordingStatus::Idle, RecordingStatus::Idle);
    assert_ne!(RecordingStatus::Idle, RecordingStatus::Recording);
}

#[test]
fn new_transcription_has_zero_timing() {
    let t = Transcription::new("x".to_string(), false);
    assert_eq!(f64::from_bits(t.start), 0.0);
    assert_eq!(f64::from_bits(t.duration), 0.0);
}

#[test]
fn stamped_transcription_counts_whole_seconds() {
    let t = Transcription::stamped("x".to_string(), true, Some(1_700_000_000_999));
    assert_eq!(t.timestamp, 1_700_000_000);
    assert_eq!(t.text, "x");
    assert!(t.is_final);
    assert_eq!(t.confidence, None);
    assert_eq!(t.language, None);
    let early = Transcription::stamped("x".to_string(), true, None);
    assert_eq!(early.timestamp, 0);
}

#[test]
fn with_timing_sets_both_and_nothing_else() {
    let t = Transcription::stamped("seg".to_string(), false, Some(5000))
        .with_confidence(0.5f32.to_bits())
        .with_language("de".to_string())
        .with_timing(1.25f64.to_bits(), 0.75f64.to_bits());
    assert_eq!(f64::from_bits(t.start), 1.25);
    assert_eq!(f64::from_bits(t.duration), 0.75);
    assert_eq!(t.text, "seg");
    assert!(!t.is_final);
    assert_eq!(t.confidence.map(f32::from_bits), Some(0.5));
    assert_eq!(t.language, Some("de".to_string()));
    assert_eq!(t.timestamp, 5);
}

#[test]
fn later_decoration_replaces_earlier() {
    let t = Transcription::stamped("a".to_string(), true, Some(0))
        .with_confidence(0.1f32.to_bits())
        .with_confidence(0.9f32.to_bits())
        .with_language("en".to_string())
        .with_language("fr".to_string());
    assert_eq!(t.confidence.map(f32::from_bits), Some(0.9));
    assert_eq!(t.language, Some("fr".to_string()));
}

#[test]
fn recording_status_variants_differ() {
    let all = [
        RecordingStatus::Idle,
        RecordingStatus::Starting,
        RecordingStatus::Recording,
        RecordingStatus::Processing,
        RecordingStatus::Error,
    ];
    for (i, a) in all.iter().enumerate() {
        for (j, b) in all.iter().enumerate() {
            assert_eq!(a == b, i == j);
        }
    }
}
