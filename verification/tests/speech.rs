use std::io::Cursor;

use yomiage::progress::{Progress, Status};
use yomiage::synthesis::{
    line_samples, Synthesis, SAMPLING_RATE_HZ,
    accept_speech, WavFormat,
    audio_query_url, output_format, plan_lines, silence, speech_samples, synthesis_url, LinePlan,
    SpeechError, GAP_SAMPLES, PAUSE_SAMPLES,
};

fn wav(channels: u16, sample_rate: u32, bits: u16, float: bool, samples: &[i32]) -> Vec<u8> {
    let spec = hound::WavSpec {
        channels,
        sample_rate,
        bits_per_sample: bits,
        sample_format: if float { hound::SampleFormat::Float } else { hound::SampleFormat::Int },
    };
    let mut cursor = Cursor::new(Vec::new());
    {
        let mut writer = hound::WavWriter::new(&mut cursor, spec).unwrap();
        for &s in samples {
            if float {
                writer.write_sample(s as f32).unwrap();
            } else if bits == 16 {
                writer.write_sample(s as i16).unwrap();
            } else {
                writer.write_sample(s).unwrap();
            }
        }
        writer.finalize().unwrap();
    }
    cursor.into_inner()
}

#[test]
fn speech_is_followed_by_a_gap() {
    let samples = speech_samples(wav(1, 24000, 16, false, &[5, -7, 300])).ok().unwrap();
    assert_eq!(samples.len(), 3 + GAP_SAMPLES as usize);
    assert_eq!(&samples[..3], &[5, -7, 300]);
    assert!(samples[3..].iter().all(|&s| s == 0));
}

#[test]
fn speech_in_another_format_is_refused() {
    match speech_samples(wav(2, 24000, 16, false, &[1, 2])) {
        Err(SpeechError::UnexpectedFormat(f)) => assert_eq!((f.channels, f.sample_rate), (2, 24000)),
        _ => panic!("expected a format error"),
    }
    assert!(matches!(
        speech_samples(wav(1, 44100, 16, false, &[1])),
        Err(SpeechError::UnexpectedFormat(_))
    ));
    assert!(matches!(
        speech_samples(wav(1, 24000, 32, true, &[1])),
        Err(SpeechError::UnexpectedFormat(_))
    ));
}

#[test]
fn bytes_that_are_not_wav_are_refused() {
    assert!(matches!(speech_samples(b"not a wav".to_vec()), Err(SpeechError::InvalidWav(_))));
    assert!(matches!(speech_samples(Vec::new()), Err(SpeechError::InvalidWav(_))));
}

#[test]
fn lines_become_pauses_or_speech() {
    let plans = plan_lines("こんにちは\n\n  \r\n  world \r\nlast");
    assert_eq!(plans.len(), 5);
    assert!(matches!(&plans[0], LinePlan::Speak(t) if t == "こんにちは"));
    assert!(matches!(&plans[1], LinePlan::Pause));
    assert!(matches!(&plans[2], LinePlan::Pause));
    assert!(matches!(&plans[3], LinePlan::Speak(t) if t == "world"));
    assert!(matches!(&plans[4], LinePlan::Speak(t) if t == "last"));
    assert!(plan_lines("").is_empty());
    assert_eq!(plan_lines("a\n").len(), 1);
}

#[test]
fn silence_lengths() {
    assert_eq!(PAUSE_SAMPLES, 24000);
    assert_eq!(GAP_SAMPLES, 12000);
    let s = silence(PAUSE_SAMPLES);
    assert_eq!(s.len(), 24000);
    assert!(s.iter().all(|&x| x == 0));
    assert!(silence(0).is_empty());
}

#[test]
fn output_is_mono_24khz_16bit() {
    let f = output_format();
    assert_eq!((f.channels, f.sample_rate, f.bits_per_sample, f.integer_samples), (1, 24000, 16, true));
}

#[test]
fn voicevox_endpoints() {
    assert_eq!(audio_query_url("http://127.0.0.1:50021"), "http://127.0.0.1:50021/audio_query");
    assert_eq!(synthesis_url("http://127.0.0.1:50021"), "http://127.0.0.1:50021/synthesis");
}

#[test]
fn read_speech_is_checked_before_use() {
    let good = WavFormat { channels: 1, sample_rate: 24000, bits_per_sample: 16, integer_samples: true };
    let samples = accept_speech(Ok((good, Ok(vec![9, 8])))).ok().unwrap();
    assert_eq!(samples.len(), 2 + 12000);
    assert_eq!(&samples[..2], &[9, 8]);
    let float = WavFormat { integer_samples: false, ..good };
    assert!(matches!(accept_speech(Ok((float, Ok(vec![])))), Err(SpeechError::UnexpectedFormat(f)) if f == float));
    assert!(matches!(
        accept_speech(Ok((good, Err(hound::Error::FormatError("bad sample"))))),
        Err(SpeechError::InvalidSample(_))
    ));
    assert!(matches!(
        accept_speech(Err(hound::Error::FormatError("bad header"))),
        Err(SpeechError::InvalidWav(_))
    ));
}

#[test]
fn a_pause_is_one_second_of_silence() {
    let pause = line_samples(&LinePlan::Pause, b"ignored".to_vec()).ok().unwrap();
    assert_eq!(pause.len(), SAMPLING_RATE_HZ as usize);
    assert!(pause.iter().all(|&s| s == 0));
    let spoken = line_samples(&LinePlan::Speak("x".to_string()), wav(1, 24000, 16, false, &[4]))
        .ok()
        .unwrap();
    assert_eq!(spoken.len(), 1 + 12000);
    assert!(matches!(
        line_samples(&LinePlan::Speak("x".to_string()), Vec::new()),
        Err(SpeechError::InvalidWav(_))
    ));
}

#[test]
fn synthesis_records_progress_line_by_line() {
    let ids = vec!["a".to_string()];
    let mut progress = Progress::new(&ids);
    progress.start("a", 0);
    let mut synthesis = Synthesis::start(&mut progress, "a", "hello\n\nworld");
    assert_eq!(synthesis.line_count(), 3);
    let state = progress.get("a", 0);
    assert_eq!((state.status, state.total_lines, state.completed_lines), (Status::Synthesizing, 3, 0));

    assert_eq!(synthesis.pending_text(), Some("hello".to_string()));
    let first = synthesis.line_audio(wav(1, 24000, 16, false, &[1, 2])).ok().unwrap();
    assert_eq!(first.len(), 2 + 12000);
    assert!(synthesis.is_prepared());
    synthesis.line_written(&mut progress, "a");
    assert_eq!(progress.get("a", 0).completed_lines, 1);

    assert_eq!(synthesis.pending_text(), None);
    let second = synthesis.line_audio(Vec::new()).ok().unwrap();
    assert_eq!(second.len(), 24000);
    synthesis.line_written(&mut progress, "a");

    assert_eq!(synthesis.pending_text(), Some("world".to_string()));
    assert!(synthesis.line_audio(b"bad".to_vec()).is_err());
    assert!(!synthesis.is_prepared());
    assert_eq!(progress.get("a", 0).completed_lines, 2);
    let third = synthesis.line_audio(wav(1, 24000, 16, false, &[3])).ok().unwrap();
    assert_eq!(third[0], 3);
    synthesis.line_written(&mut progress, "a");
    assert!(synthesis.is_done());
    synthesis.finish(&mut progress, "a");
    let state = progress.get("a", 0);
    assert_eq!((state.status, state.completed_lines), (Status::Saving, 3));
}
