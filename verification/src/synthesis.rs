//! Speech synthesis decisions: which lines are spoken and which are pauses,
//! the samples that each line contributes, and the VOICEVOX endpoints.

use vstd::prelude::*;

use crate::progress::{Progress, Status, TargetProgress};
use crate::text::{is_blank, lemma_trim_empty_iff_blank, lines_of, split_lines, string_of, trim, trim_chars};

verus! {

/// Sampling rate of the generated audio and of the speech it accepts.
pub const SAMPLING_RATE_HZ: u32 = 24000;

/// Samples of silence for an empty line: one second.
pub const PAUSE_SAMPLES: u32 = SAMPLING_RATE_HZ;

/// Samples of silence after each spoken line: half a second.
pub const GAP_SAMPLES: u32 = SAMPLING_RATE_HZ / 2;

/// Shape of a WAV stream.
#[derive(Clone, Copy, Debug, PartialEq, Eq, Structural)]
pub struct WavFormat {
    pub channels: u16,
    pub sample_rate: u32,
    pub bits_per_sample: u16,
    /// Samples are integers (PCM), not floating point.
    pub integer_samples: bool,
}

/// The format's fields as a tuple.
pub open spec fn format_fields(f: WavFormat) -> (u16, u32, u16, bool) {
    (f.channels, f.sample_rate, f.bits_per_sample, f.integer_samples)
}

/// The format of the generated audio, which synthesized speech must have:
/// mono, 24 kHz, 16-bit integer samples.
pub open spec fn expected_format() -> (u16, u32, u16, bool) {
    (1, 24000, 16, true)
}

/// The format of the generated audio.
pub fn output_format() -> (f: WavFormat)
    ensures
        format_fields(f) == expected_format(),
{
    WavFormat { channels: 1, sample_rate: SAMPLING_RATE_HZ, bits_per_sample: 16, integer_samples: true }
}

#[verifier::external_type_specification]
#[verifier::external_body]
pub struct ExWavError(hound::Error);

/// What `hound` reads from the WAV bytes: `None` when the header is refused;
/// else the format and, as 16-bit samples, all the samples (`None` when one
/// of them cannot be read so).
pub uninterp spec fn wav_contents(bytes: Seq<u8>) -> Option<((u16, u32, u16, bool), Option<Seq<i16>>)>;

/// Reads WAV bytes with `hound::WavReader::new`, `WavReader::spec` and
/// `WavReader::into_samples::<i16>`; what comes back is `wav_contents(bytes)`.
#[verifier::external_body]
fn read_wav(bytes: Vec<u8>) -> (res: WavRead)
    ensures
        match res {
            Err(_) => wav_contents(bytes@) is None,
            Ok((format, samples)) => wav_contents(bytes@) matches Some((fields, all)) && fields
                == format_fields(format) && match samples {
                Ok(v) => all == Some(v@),
                Err(_) => all is None,
            },
        },
{
    let reader = hound::WavReader::new(std::io::Cursor::new(bytes))?;
    let spec = reader.spec();
    let integer_samples = match spec.sample_format {
        hound::SampleFormat::Int => true,
        hound::SampleFormat::Float => false,
    };
    let format = WavFormat { channels: spec.channels, sample_rate: spec.sample_rate, bits_per_sample: spec.bits_per_sample, integer_samples };
    Ok((format, reader.into_samples::<i16>().collect()))
}

/// `n` samples of silence.
pub open spec fn silence_of(n: nat) -> Seq<i16> {
    Seq::new(n, |i: int| 0i16)
}

/// `count` samples of silence.
pub fn silence(count: u32) -> (samples: Vec<i16>)
    ensures
        samples@ == silence_of(count as nat),
{
    let mut samples: Vec<i16> = Vec::new();
    let mut i: u32 = 0;
    while i < count
        invariant
            i <= count,
            samples@ == silence_of(i as nat),
        decreases count - i,
    {
        samples.push(0);
        proof {
            assert(samples@ =~= silence_of(i as nat + 1));
        }
        i = i + 1;
    }
    samples
}

/// Why synthesized speech cannot be used.
pub enum SpeechError {
    /// The WAV header could not be read.
    InvalidWav(hound::Error),
    /// The speech is not in the format of the generated audio.
    UnexpectedFormat(WavFormat),
    /// A sample could not be read as a 16-bit sample.
    InvalidSample(hound::Error),
}

/// What `hound` read from speech: the refused header's error, or the format
/// and the samples (or the error of the first sample that could not be read).
pub type WavRead = Result<(WavFormat, Result<Vec<i16>, hound::Error>), hound::Error>;

/// The samples that speech read as `read` adds: an error when the header was
/// refused, when the format differs from the generated audio's, or when a
/// sample could not be read; else its samples followed by the gap.
pub open spec fn accepted_speech(read: WavRead, res: Result<Vec<i16>, SpeechError>) -> bool {
    match read {
        Err(_) => res matches Err(SpeechError::InvalidWav(_)),
        Ok((format, samples)) => if format_fields(format) != expected_format() {
            res matches Err(SpeechError::UnexpectedFormat(f)) && f == format
        } else {
            match samples {
                Err(_) => res matches Err(SpeechError::InvalidSample(_)),
                Ok(v) => res matches Ok(w) && w@ == v@ + silence_of(GAP_SAMPLES as nat),
            }
        },
    }
}

/// The outcome for speech whose WAV bytes are `bytes`, in terms of what
/// `hound` reads from them.
pub open spec fn speech_result(bytes: Seq<u8>, res: Result<Vec<i16>, SpeechError>) -> bool {
    match wav_contents(bytes) {
        None => res matches Err(SpeechError::InvalidWav(_)),
        Some((fields, all)) => if fields != expected_format() {
            res matches Err(SpeechError::UnexpectedFormat(f)) && format_fields(f) == fields
        } else {
            match all {
                None => res matches Err(SpeechError::InvalidSample(_)),
                Some(samples) => res matches Ok(v) && v@ == samples + silence_of(
                    GAP_SAMPLES as nat,
                ),
            }
        },
    }
}

/// Checks speech that `hound` has read: it must be in the generated audio's
/// format; its samples are followed by half a second of silence.
pub fn accept_speech(read: WavRead) -> (res: Result<Vec<i16>, SpeechError>)
    ensures
        accepted_speech(read, res),
{
    let (format, samples) = match read {
        Ok(r) => r,
        Err(e) => {
            return Err(SpeechError::InvalidWav(e));
        },
    };
    if !(format.channels == 1 && format.sample_rate == SAMPLING_RATE_HZ && format.bits_per_sample
        == 16 && format.integer_samples) {
        return Err(SpeechError::UnexpectedFormat(format));
    }
    let mut samples = match samples {
        Ok(v) => v,
        Err(e) => {
            return Err(SpeechError::InvalidSample(e));
        },
    };
    let ghost speech = samples@;
    let mut gap = silence(GAP_SAMPLES);
    samples.append(&mut gap);
    assert(samples@ =~= speech + silence_of(GAP_SAMPLES as nat));
    Ok(samples)
}

/// The samples that a spoken line adds to the audio: the synthesized speech,
/// checked to be in the generated audio's format, then half a second of silence.
pub fn speech_samples(wav: Vec<u8>) -> (res: Result<Vec<i16>, SpeechError>)
    ensures
        speech_result(wav@, res),
{
    accept_speech(read_wav(wav))
}

/// What a line of the input becomes in the audio.
pub enum LinePlan {
    /// An empty or blank line: one second of silence.
    Pause,
    /// A line with text: its trimmed text is spoken.
    Speak(String),
}

/// `plan` is what the line `line` becomes.
pub open spec fn plans_line(plan: LinePlan, line: Seq<char>) -> bool {
    match plan {
        LinePlan::Pause => trim(line).len() == 0,
        LinePlan::Speak(t) => t@ == trim(line) && t@.len() > 0,
    }
}

/// `plans` holds, in order, what each line of `text` becomes.
pub open spec fn plans_text(plans: Seq<LinePlan>, text: Seq<char>) -> bool {
    &&& plans.len() == lines_of(text).len()
    &&& forall|i: int| 0 <= i < plans.len() ==> plans_line(#[trigger] plans[i], lines_of(text)[i])
}

/// What each line of `text` becomes, in order; its length is the number of
/// lines that progress counts.
pub fn plan_lines(text: &str) -> (plans: Vec<LinePlan>)
    ensures
        plans_text(plans@, text@),
        forall|i: int|
            0 <= i < plans@.len() ==> ((#[trigger] plans@[i] is Pause) <==> is_blank(
                lines_of(text@)[i],
            )),
{
    let lines = split_lines(text);
    let mut plans: Vec<LinePlan> = Vec::new();
    let mut i: usize = 0;
    while i < lines.len()
        invariant
            i <= lines@.len(),
            lines@.len() == lines_of(text@).len(),
            forall|j: int| 0 <= j < lines@.len() ==> #[trigger] lines@[j]@ == lines_of(text@)[j],
            plans@.len() == i,
            forall|j: int| 0 <= j < i ==> plans_line(#[trigger] plans@[j], lines_of(text@)[j]),
        decreases lines@.len() - i,
    {
        let trimmed = trim_chars(lines[i].as_slice());
        if trimmed.len() == 0 {
            plans.push(LinePlan::Pause);
        } else {
            plans.push(LinePlan::Speak(string_of(trimmed.as_slice())));
        }
        i = i + 1;
    }
    proof {
        assert forall|i: int| 0 <= i < plans@.len() implies ((#[trigger] plans@[i] is Pause)
            <==> is_blank(lines_of(text@)[i])) by {
            lemma_blank_lines_pause(plans@[i], lines_of(text@)[i]);
        }
    }
    plans
}

/// A line becomes a pause exactly when all its characters are whitespace
/// (an empty line among them); a line with any other character is spoken,
/// as its trimmed text.
pub proof fn lemma_blank_lines_pause(plan: LinePlan, line: Seq<char>)
    requires
        plans_line(plan, line),
    ensures
        plan is Pause <==> is_blank(line),
        (exists|k: int| 0 <= k < line.len() && !crate::text::whitespace_char(#[trigger] line[k]))
            ==> (plan matches LinePlan::Speak(t) && t@ == trim(line)),
{
    lemma_trim_empty_iff_blank(line);
}

/// The samples that the line planned as `plan` adds: one second of silence
/// for a pause; for a spoken line, what `speech_result` gives for its
/// synthesized speech `speech`.
pub open spec fn line_result(plan: LinePlan, speech: Seq<u8>, res: Result<Vec<i16>, SpeechError>) -> bool {
    match plan {
        LinePlan::Pause => res matches Ok(v) && v@ == silence_of(SAMPLING_RATE_HZ as nat),
        LinePlan::Speak(_) => speech_result(speech, res),
    }
}

/// The samples that the line planned as `plan` adds to the audio; `speech`
/// is the synthesized speech of a spoken line and is not read for a pause.
pub fn line_samples(plan: &LinePlan, speech: Vec<u8>) -> (res: Result<Vec<i16>, SpeechError>)
    ensures
        line_result(*plan, speech@, res),
{
    match plan {
        LinePlan::Pause => Ok(silence(PAUSE_SAMPLES)),
        LinePlan::Speak(_) => speech_samples(speech),
    }
}

/// The synthesis of one text into audio, line by line. It records its
/// progress: the number of lines when it starts, each line once its samples
/// are written, and the saving stage at the end.
pub struct Synthesis {
    plans: Vec<LinePlan>,
    next: usize,
    prepared: bool,
}

impl Synthesis {
    /// What each line becomes, in order.
    pub closed spec fn plans(&self) -> Seq<LinePlan> {
        self.plans@
    }

    /// Number of lines whose samples are written.
    pub closed spec fn written(&self) -> nat {
        self.next as nat
    }

    /// The samples of the next line have been handed out and not yet written.
    pub closed spec fn prepared(&self) -> bool {
        self.prepared
    }

    #[verifier::type_invariant]
    closed spec fn in_range(&self) -> bool {
        &&& self.next <= self.plans@.len()
        &&& self.prepared ==> self.next < self.plans@.len()
    }

    /// Plans the lines of `text` and records that `id` is synthesizing that
    /// many lines.
    pub fn start(progress: &mut Progress, id: &str, text: &str) -> (synthesis: Synthesis)
        requires
            old(progress)@.contains_key(id@),
        ensures
            plans_text(synthesis.plans(), text@),
            synthesis.written() == 0,
            !synthesis.prepared(),
            final(progress)@ == old(progress)@.insert(
                id@,
                TargetProgress {
                    status: Status::Synthesizing,
                    total_lines: synthesis.plans().len() as usize,
                    ..old(progress)@[id@]
                },
            ),
    {
        let plans = plan_lines(text);
        progress.synthesizing(id, plans.len());
        Synthesis { plans, next: 0, prepared: false }
    }

    /// Number of lines of the text.
    pub fn line_count(&self) -> (n: usize)
        ensures
            n == self.plans().len(),
    {
        self.plans.len()
    }

    /// Whether every line has been written.
    pub fn is_done(&self) -> (b: bool)
        ensures
            b == (self.written() >= self.plans().len()),
    {
        proof {
            use_type_invariant(self);
        }
        self.next >= self.plans.len()
    }

    /// Whether the samples of the next line await being written.
    pub fn is_prepared(&self) -> (b: bool)
        ensures
            b == self.prepared(),
    {
        self.prepared
    }

    /// The text of the next line when it is spoken; `None` for a pause or
    /// when no line remains.
    pub fn pending_text(&self) -> (text: Option<String>)
        ensures
            match text {
                Some(t) => self.written() < self.plans().len() && (self.plans()[self.written() as int] matches LinePlan::Speak(s) && t@ == s@),
                None => self.written() >= self.plans().len() || self.plans()[self.written() as int] is Pause,
            },
    {
        proof {
            use_type_invariant(self);
        }
        if self.next >= self.plans.len() {
            return None;
        }
        match &self.plans[self.next] {
            LinePlan::Speak(t) => Some(t.clone()),
            LinePlan::Pause => None,
        }
    }

    /// The samples of the next line, given its synthesized speech (not read
    /// for a pause). Once they are handed out they must be written before the
    /// following line.
    pub fn line_audio(&mut self, speech: Vec<u8>) -> (res: Result<Vec<i16>, SpeechError>)
        requires
            old(self).written() < old(self).plans().len(),
            !old(self).prepared(),
        ensures
            line_result(old(self).plans()[old(self).written() as int], speech@, res),
            final(self).plans() == old(self).plans(),
            final(self).written() == old(self).written(),
            final(self).prepared() == res is Ok,
    {
        let res = line_samples(&self.plans[self.next], speech);
        match &res {
            Ok(_) => {
                self.prepared = true;
            },
            Err(_) => {},
        }
        res
    }

    /// Records that the samples of the next line were written: the line
    /// counts as completed for `id`.
    pub fn line_written(&mut self, progress: &mut Progress, id: &str)
        requires
            old(self).prepared(),
            old(progress)@.contains_key(id@),
            old(progress)@[id@].completed_lines < usize::MAX,
        ensures
            final(self).plans() == old(self).plans(),
            final(self).written() == old(self).written() + 1,
            !final(self).prepared(),
            final(progress)@ == old(progress)@.insert(
                id@,
                TargetProgress {
                    completed_lines: (old(progress)@[id@].completed_lines + 1) as usize,
                    ..old(progress)@[id@]
                },
            ),
    {
        proof {
            use_type_invariant(&*self);
        }
        progress.line_completed(id);
        let count = self.plans.len();
        assert(self.next < count);
        let next = self.next + 1;
        self.prepared = false;
        self.next = next;
    }

    /// Ends the synthesis once every line is written: `id` is saving its audio.
    pub fn finish(self, progress: &mut Progress, id: &str)
        requires
            self.written() >= self.plans().len(),
            old(progress)@.contains_key(id@),
        ensures
            final(progress)@ == old(progress)@.insert(
                id@,
                TargetProgress { status: Status::Saving, ..old(progress)@[id@] },
            ),
    {
        progress.saving(id);
    }
}

/// URL of VOICEVOX's audio query endpoint under `base`.
pub fn audio_query_url(base: &str) -> (url: String)
    ensures
        url@ == base@ + "/audio_query"@,
{
    String::from_str(base).concat("/audio_query")
}

/// URL of VOICEVOX's synthesis endpoint under `base`.
pub fn synthesis_url(base: &str) -> (url: String)
    ensures
        url@ == base@ + "/synthesis"@,
{
    String::from_str(base).concat("/synthesis")
}

} // verus!
