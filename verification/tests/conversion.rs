use yomiage::converter::{
    hash_file, Conversion, ConversionAction, ConversionError, ConversionEvent, ConversionStatus,
};
use yomiage::store::TargetState;

const EMPTY_HASH: &str = "af1349b9f5f9a1a6a0404dea36dcc9499bcb25c9adc112b7cc9a93cae41f3262";

fn state(input_hash: &str, speaker: u32, wav_hash: &str) -> TargetState {
    TargetState { input_hash: input_hash.to_string(), speaker, wav_hash: wav_hash.to_string() }
}

#[test]
fn hashes_are_blake3_hex() {
    assert_eq!(hash_file(b""), EMPTY_HASH);
    let h = hash_file("こんにちは".as_bytes());
    assert_eq!(h.len(), 64);
    assert!(h.chars().all(|c| c.is_ascii_hexdigit() && !c.is_ascii_uppercase()));
    assert_ne!(h, EMPTY_HASH);
}

#[test]
fn matching_state_with_existing_audio_is_unchanged() {
    let input = b"hello".to_vec();
    let input_hash = hash_file(&input);
    let (c, a) = Conversion::new(3);
    assert!(matches!(a, ConversionAction::ReadInput));
    let (c, a) = c.step(ConversionEvent::InputRead(input));
    assert!(matches!(a, ConversionAction::LoadState));
    let (c, a) = c.step(ConversionEvent::StateLoaded(Some(state(&input_hash, 3, "oldwav"))));
    assert!(matches!(&a, ConversionAction::CheckWav(h) if h == "oldwav"));
    let (_, a) = c.step(ConversionEvent::WavChecked(true));
    assert!(matches!(a, ConversionAction::Finish(Ok(ConversionStatus::Unchanged))));
}

#[test]
fn a_full_conversion_records_and_cleans_up() {
    let input = "line one\nline two".as_bytes().to_vec();
    let input_hash = hash_file(&input);
    let (c, _) = Conversion::new(7);
    let (c, _) = c.step(ConversionEvent::InputRead(input));
    // Same input, other speaker: converted again.
    let (c, a) = c.step(ConversionEvent::StateLoaded(Some(state(&input_hash, 1, "oldwav"))));
    assert!(matches!(a, ConversionAction::PrepareTemporary));
    let (c, a) = c.step(ConversionEvent::TemporaryPrepared);
    assert!(matches!(&a, ConversionAction::WriteWav(t) if t == "line one\nline two"));
    let (c, a) = c.step(ConversionEvent::WavWritten);
    assert!(matches!(a, ConversionAction::ReadTemporary));
    let (c, a) = c.step(ConversionEvent::TemporaryRead(b"RIFF".to_vec()));
    let wav_hash = hash_file(b"RIFF");
    assert!(matches!(&a, ConversionAction::CommitWav(h) if *h == wav_hash));
    let (c, a) = c.step(ConversionEvent::Committed);
    match &a {
        ConversionAction::SaveState(s) => {
            assert_eq!(s.input_hash, input_hash);
            assert_eq!(s.speaker, 7);
            assert_eq!(s.wav_hash, wav_hash);
        },
        _ => panic!("expected the state to be saved"),
    }
    let (c, a) = c.step(ConversionEvent::Saved);
    assert!(matches!(&a, ConversionAction::RemoveWav(h) if h == "oldwav"));
    let (_, a) = c.step(ConversionEvent::OldWavRemoved);
    assert!(matches!(a, ConversionAction::Finish(Ok(ConversionStatus::Converted))));
}

#[test]
fn same_audio_is_not_removed() {
    let (c, _) = Conversion::new(1);
    let (c, _) = c.step(ConversionEvent::InputRead(b"x".to_vec()));
    let wav_hash = hash_file(b"W");
    let (c, _) = c.step(ConversionEvent::StateLoaded(Some(state("other", 1, &wav_hash))));
    let (c, _) = c.step(ConversionEvent::TemporaryPrepared);
    let (c, _) = c.step(ConversionEvent::WavWritten);
    let (c, _) = c.step(ConversionEvent::TemporaryRead(b"W".to_vec()));
    let (c, _) = c.step(ConversionEvent::Committed);
    let (_, a) = c.step(ConversionEvent::Saved);
    assert!(matches!(a, ConversionAction::Finish(Ok(ConversionStatus::Converted))));
}

#[test]
fn first_conversion_and_missing_audio_convert() {
    let (c, _) = Conversion::new(1);
    let (c, _) = c.step(ConversionEvent::InputRead(b"x".to_vec()));
    let (_, a) = c.step(ConversionEvent::StateLoaded(None));
    assert!(matches!(a, ConversionAction::PrepareTemporary));

    let input_hash = hash_file(b"x");
    let (c, _) = Conversion::new(1);
    let (c, _) = c.step(ConversionEvent::InputRead(b"x".to_vec()));
    let (c, _) = c.step(ConversionEvent::StateLoaded(Some(state(&input_hash, 1, "gone"))));
    let (_, a) = c.step(ConversionEvent::WavChecked(false));
    assert!(matches!(a, ConversionAction::PrepareTemporary));
}

#[test]
fn failures_end_the_conversion() {
    let (c, _) = Conversion::new(1);
    let (_, a) = c.step(ConversionEvent::InputFailed);
    assert!(matches!(a, ConversionAction::Finish(Err(ConversionError::ReadInput))));

    let (c, _) = Conversion::new(1);
    let (c, _) = c.step(ConversionEvent::InputRead(vec![0xff, 0xfe]));
    let (_, a) = c.step(ConversionEvent::StateLoaded(None));
    assert!(matches!(a, ConversionAction::Finish(Err(ConversionError::DecodeInput))));

    let (c, _) = Conversion::new(1);
    let (c, _) = c.step(ConversionEvent::InputRead(b"t".to_vec()));
    let (_, a) = c.step(ConversionEvent::StateFailed);
    assert!(matches!(a, ConversionAction::Finish(Err(ConversionError::LoadState))));

    let (c, _) = Conversion::new(1);
    let (c, _) = c.step(ConversionEvent::InputRead(b"t".to_vec()));
    let (c, _) = c.step(ConversionEvent::StateLoaded(None));
    let (c, _) = c.step(ConversionEvent::TemporaryPrepared);
    let (c, a) = c.step(ConversionEvent::WavFailed);
    assert!(matches!(a, ConversionAction::RemoveTemporary));
    let (_, a) = c.step(ConversionEvent::TemporaryRemoved);
    assert!(matches!(a, ConversionAction::Finish(Err(ConversionError::WriteWav))));

    let (c, _) = Conversion::new(1);
    let (_, a) = c.step(ConversionEvent::Saved);
    assert!(matches!(a, ConversionAction::Finish(Err(ConversionError::OutOfOrder))));
}
