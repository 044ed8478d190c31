//! The decisions of one conversion of a target: whether the stored audio is
//! still current, and the order of the file operations that replace it.
//!
//! A `Conversion` is a state machine. Its caller performs each action that a
//! step returns (reading files, calling VOICEVOX, writing audio) and hands the
//! outcome back as the next event.

use vstd::prelude::*;
use vstd::utf8::{decode_utf8, valid_utf8};

use crate::store::TargetState;

verus! {

/// The lowercase hexadecimal BLAKE3 hash of `bytes`, as `blake3::hash(..).to_hex()` spells it.
pub uninterp spec fn blake3_hex(bytes: Seq<u8>) -> Seq<char>;

/// `c` is a lowercase hexadecimal digit.
pub open spec fn is_lower_hex_digit(c: char) -> bool {
    ('0' <= c && c <= '9') || ('a' <= c && c <= 'f')
}

/// `s` is a BLAKE3 digest in lowercase hex: 64 hex digits.
pub open spec fn is_hex_digest(s: Seq<char>) -> bool {
    &&& s.len() == 64
    &&& forall|i: int| 0 <= i < 64 ==> is_lower_hex_digit(#[trigger] s[i])
}

/// Hashes `bytes` with `blake3::hash` and spells the hash with `Hash::to_hex`:
/// the result is `blake3_hex(bytes)`, 64 lowercase hex digits (the hash has
/// 32 bytes, each written as two digits from `0123456789abcdef`).
#[verifier::external_body]
fn blake3_hash_hex(bytes: &[u8]) -> (h: String)
    ensures
        h@ == blake3_hex(bytes@),
        is_hex_digest(h@),
{
    blake3::hash(bytes).to_hex().to_string()
}

/// The BLAKE3 hash of a file's contents, in lowercase hex.
pub fn hash_file(contents: &[u8]) -> (h: String)
    ensures
        h@ == blake3_hex(contents@),
        is_hex_digest(h@),
{
    blake3_hash_hex(contents)
}

/// Calls `String::from_utf8`, which accepts exactly the valid UTF-8 byte
/// sequences and decodes them.
#[verifier::external_body]
fn utf8_text(bytes: Vec<u8>) -> (res: Option<String>)
    ensures
        res is Some <==> valid_utf8(bytes@),
        res matches Some(s) ==> s@ == decode_utf8(bytes@),
{
    String::from_utf8(bytes).ok()
}

/// How a conversion that succeeded ended.
#[derive(Clone, Copy, Debug, PartialEq, Eq, Structural)]
pub enum ConversionStatus {
    /// New audio was generated and recorded.
    Converted,
    /// The stored audio is still current.
    Unchanged,
}

/// The step at which a conversion failed.
#[derive(Clone, Copy, Debug, PartialEq, Eq, Structural)]
pub enum ConversionError {
    ReadInput,
    LoadState,
    DecodeInput,
    PrepareTemporary,
    WriteWav,
    HashWav,
    CommitWav,
    SaveState,
    /// An event came that the current stage does not expect.
    OutOfOrder,
}

/// The outcome of an action, handed to the next step.
pub enum ConversionEvent {
    /// The input file was read.
    InputRead(Vec<u8>),
    InputFailed,
    /// The recorded state was read: `None` when the target was never converted.
    StateLoaded(Option<TargetState>),
    StateFailed,
    /// Whether the recorded audio file exists.
    WavChecked(bool),
    TemporaryPrepared,
    TemporaryFailed,
    WavWritten,
    WavFailed,
    /// The temporary audio file was removed, or that was tried.
    TemporaryRemoved,
    /// The temporary audio file was read back.
    TemporaryRead(Vec<u8>),
    TemporaryReadFailed,
    Committed,
    CommitFailed,
    Saved,
    SaveFailed,
    /// The replaced audio file was removed, or that was tried.
    OldWavRemoved,
}

/// What the caller does next.
pub enum ConversionAction {
    /// Read the target's input file; answer `InputRead` or `InputFailed`.
    ReadInput,
    /// Read the target's recorded state; answer `StateLoaded` or `StateFailed`.
    LoadState,
    /// Ask whether the audio with this hash is stored; answer `WavChecked`.
    CheckWav(String),
    /// Make the target's directory ready for the temporary audio file;
    /// answer `TemporaryPrepared` or `TemporaryFailed`.
    PrepareTemporary,
    /// Synthesize this text into the temporary audio file; answer `WavWritten` or `WavFailed`.
    WriteWav(String),
    /// Remove the temporary audio file; answer `TemporaryRemoved`.
    RemoveTemporary,
    /// Read the temporary audio file; answer `TemporaryRead` or `TemporaryReadFailed`.
    ReadTemporary,
    /// Store the temporary audio under this hash; answer `Committed` or `CommitFailed`.
    CommitWav(String),
    /// Record this state; answer `Saved` or `SaveFailed`.
    SaveState(TargetState),
    /// Remove the stored audio with this hash, which the new one replaces; answer `OldWavRemoved`.
    RemoveWav(String),
    /// The conversion is over.
    Finish(Result<ConversionStatus, ConversionError>),
}

/// Where a conversion stands.
pub enum Stage {
    Reading,
    Loading { input: Vec<u8>, input_hash: String },
    Checking { input: Vec<u8>, input_hash: String, recorded: TargetState },
    Preparing { text: String, input_hash: String, previous: Option<TargetState> },
    Writing { input_hash: String, previous: Option<TargetState> },
    Discarding { error: ConversionError },
    Hashing { input_hash: String, previous: Option<TargetState> },
    Committing { input_hash: String, previous: Option<TargetState>, wav_hash: String },
    Saving { previous: Option<TargetState>, wav_hash: String },
    Cleaning,
    Done,
}

/// The recorded state `previous` was made from the same input with the same speaker.
pub open spec fn same_source(previous: TargetState, input_hash: Seq<char>, speaker: u32) -> bool {
    previous.input_hash@ == input_hash && previous.speaker == speaker
}

/// The stage is over and the action reports `result`.
pub open spec fn ends_with(
    after: Stage,
    action: ConversionAction,
    result: Result<ConversionStatus, ConversionError>,
) -> bool {
    after is Done && action == ConversionAction::Finish(result)
}

/// After the input is known to need conversion: decode it as UTF-8, then
/// prepare the temporary file; an undecodable input fails.
pub open spec fn decoded(
    input: Vec<u8>,
    input_hash: String,
    previous: Option<TargetState>,
    after: Stage,
    action: ConversionAction,
) -> bool {
    if valid_utf8(input@) {
        &&& after matches Stage::Preparing { text, input_hash: h, previous: p } && text@
            == decode_utf8(input@) && h == input_hash && p == previous
        &&& action is PrepareTemporary
    } else {
        ends_with(after, action, Err(ConversionError::DecodeInput))
    }
}

/// The step from `before` on `event` goes to `after` and asks for `action`.
pub open spec fn transition(
    speaker: u32,
    before: Stage,
    event: ConversionEvent,
    after: Stage,
    action: ConversionAction,
) -> bool {
    let out_of_order = ends_with(after, action, Err(ConversionError::OutOfOrder));
    match before {
        Stage::Reading => match event {
            ConversionEvent::InputRead(input) => {
                &&& after matches Stage::Loading { input: i, input_hash: h } && i == input && h@
                    == blake3_hex(input@)
                &&& action is LoadState
            },
            ConversionEvent::InputFailed => ends_with(
                after,
                action,
                Err(ConversionError::ReadInput),
            ),
            _ => out_of_order,
        },
        Stage::Loading { input, input_hash } => match event {
            ConversionEvent::StateLoaded(loaded) => match loaded {
                Some(p) => if same_source(p, input_hash@, speaker) {
                    &&& after == Stage::Checking { input, input_hash, recorded: p }
                    &&& action matches ConversionAction::CheckWav(h) && h@ == p.wav_hash@
                } else {
                    decoded(input, input_hash, Some(p), after, action)
                },
                None => decoded(input, input_hash, None, after, action),
            },
            ConversionEvent::StateFailed => ends_with(
                after,
                action,
                Err(ConversionError::LoadState),
            ),
            _ => out_of_order,
        },
        Stage::Checking { input, input_hash, recorded } => match event {
            ConversionEvent::WavChecked(exists) => if exists {
                ends_with(after, action, Ok(ConversionStatus::Unchanged))
            } else {
                decoded(input, input_hash, Some(recorded), after, action)
            },
            _ => out_of_order,
        },
        Stage::Preparing { text, input_hash, previous } => match event {
            ConversionEvent::TemporaryPrepared => {
                &&& after == Stage::Writing { input_hash, previous }
                &&& action matches ConversionAction::WriteWav(t) && t == text
            },
            ConversionEvent::TemporaryFailed => ends_with(
                after,
                action,
                Err(ConversionError::PrepareTemporary),
            ),
            _ => out_of_order,
        },
        Stage::Writing { input_hash, previous } => match event {
            ConversionEvent::WavWritten => {
                &&& after == Stage::Hashing { input_hash, previous }
                &&& action is ReadTemporary
            },
            ConversionEvent::WavFailed => {
                &&& after == Stage::Discarding { error: ConversionError::WriteWav }
                &&& action is RemoveTemporary
            },
            _ => out_of_order,
        },
        Stage::Discarding { error } => match event {
            ConversionEvent::TemporaryRemoved => ends_with(after, action, Err(error)),
            _ => out_of_order,
        },
        Stage::Hashing { input_hash, previous } => match event {
            ConversionEvent::TemporaryRead(wav) => {
                &&& after matches Stage::Committing { input_hash: h, previous: p, wav_hash: w }
                    && h == input_hash && p == previous && w@ == blake3_hex(wav@)
                &&& action matches ConversionAction::CommitWav(w) && w@ == blake3_hex(wav@)
            },
            ConversionEvent::TemporaryReadFailed => ends_with(
                after,
                action,
                Err(ConversionError::HashWav),
            ),
            _ => out_of_order,
        },
        Stage::Committing { input_hash, previous, wav_hash } => match event {
            ConversionEvent::Committed => {
                &&& after == Stage::Saving { previous, wav_hash }
                &&& action matches ConversionAction::SaveState(st) && st.input_hash == input_hash
                    && st.speaker == speaker && st.wav_hash@ == wav_hash@
            },
            ConversionEvent::CommitFailed => ends_with(
                after,
                action,
                Err(ConversionError::CommitWav),
            ),
            _ => out_of_order,
        },
        Stage::Saving { previous, wav_hash } => match event {
            ConversionEvent::Saved => match previous {
                Some(p) => if p.wav_hash@ != wav_hash@ {
                    &&& after is Cleaning
                    &&& action matches ConversionAction::RemoveWav(h) && h == p.wav_hash
                } else {
                    ends_with(after, action, Ok(ConversionStatus::Converted))
                },
                None => ends_with(after, action, Ok(ConversionStatus::Converted)),
            },
            ConversionEvent::SaveFailed => ends_with(
                after,
                action,
                Err(ConversionError::SaveState),
            ),
            _ => out_of_order,
        },
        Stage::Cleaning => match event {
            ConversionEvent::OldWavRemoved => ends_with(
                after,
                action,
                Ok(ConversionStatus::Converted),
            ),
            _ => out_of_order,
        },
        Stage::Done => out_of_order,
    }
}

/// One conversion of a target, by a speaker.
pub struct Conversion {
    speaker: u32,
    input: Ghost<Seq<u8>>,
    stage: Stage,
}

impl Conversion {
    /// The speaker that reads the text.
    pub closed spec fn speaker(&self) -> u32 {
        self.speaker
    }

    /// The bytes of the input file, once read.
    pub closed spec fn input_bytes(&self) -> Seq<u8> {
        self.input@
    }

    /// Where the conversion stands.
    pub closed spec fn stage(&self) -> Stage {
        self.stage
    }

    /// Every hash the conversion holds is the hash of what it was computed
    /// from, and a text to speak is the decoded input.
    #[verifier::type_invariant]
    closed spec fn consistent(&self) -> bool {
        let hash = blake3_hex(self.input@);
        match self.stage {
            Stage::Loading { input, input_hash } => input@ == self.input@ && input_hash@ == hash
                && is_hex_digest(hash),
            Stage::Checking { input, input_hash, recorded } => input@ == self.input@
                && input_hash@ == hash && is_hex_digest(hash) && same_source(
                recorded,
                hash,
                self.speaker,
            ),
            Stage::Preparing { text, input_hash, previous } => input_hash@ == hash
                && is_hex_digest(hash) && valid_utf8(self.input@) && text@ == decode_utf8(
                self.input@,
            ),
            Stage::Writing { input_hash, previous } => input_hash@ == hash && is_hex_digest(hash),
            Stage::Hashing { input_hash, previous } => input_hash@ == hash && is_hex_digest(hash),
            Stage::Committing { input_hash, previous, wav_hash } => input_hash@ == hash
                && is_hex_digest(hash) && is_hex_digest(wav_hash@),
            Stage::Saving { previous, wav_hash } => is_hex_digest(wav_hash@),
            _ => true,
        }
    }

    /// A conversion for `speaker` that starts by reading the input file.
    pub fn new(speaker: u32) -> (res: (Conversion, ConversionAction))
        ensures
            res.0.speaker() == speaker,
            res.0.stage() is Reading,
            res.1 is ReadInput,
    {
        (Conversion { speaker, input: Ghost(Seq::empty()), stage: Stage::Reading }, ConversionAction::ReadInput)
    }

    fn finish(
        speaker: u32,
        input: Ghost<Seq<u8>>,
        result: Result<ConversionStatus, ConversionError>,
    ) -> (res: (Conversion, ConversionAction))
        ensures
            res.0.speaker() == speaker,
            res.0.input_bytes() == input@,
            ends_with(res.0.stage(), res.1, result),
    {
        (Conversion { speaker, input, stage: Stage::Done }, ConversionAction::Finish(result))
    }

    fn decode(
        speaker: u32,
        input_bytes: Ghost<Seq<u8>>,
        input: Vec<u8>,
        input_hash: String,
        previous: Option<TargetState>,
    ) -> (res: (Conversion, ConversionAction))
        requires
            input@ == input_bytes@,
            input_hash@ == blake3_hex(input@),
            is_hex_digest(input_hash@),
        ensures
            res.0.speaker() == speaker,
            res.0.input_bytes() == input_bytes@,
            decoded(input, input_hash, previous, res.0.stage(), res.1),
    {
        match utf8_text(input) {
            Some(text) => (
                Conversion {
                    speaker,
                    input: input_bytes,
                    stage: Stage::Preparing { text, input_hash, previous },
                },
                ConversionAction::PrepareTemporary,
            ),
            None => Self::finish(speaker, input_bytes, Err(ConversionError::DecodeInput)),
        }
    }

    /// Takes the outcome of the last action and decides the next one.
    pub fn step(self, event: ConversionEvent) -> (res: (Conversion, ConversionAction))
        ensures
            res.0.speaker() == self.speaker(),
            transition(self.speaker(), self.stage(), event, res.0.stage(), res.1),
            res.0.input_bytes() == (match (self.stage(), event) {
                (Stage::Reading, ConversionEvent::InputRead(input)) => input@,
                _ => self.input_bytes(),
            }),
            // Audio counts as current only when the recorded state names the
            // same input hash and speaker and its audio file exists.
            res.1 == ConversionAction::Finish(Ok(ConversionStatus::Unchanged)) ==> {
                &&& self.stage() matches Stage::Checking { recorded, .. } && same_source(
                    recorded,
                    blake3_hex(self.input_bytes()),
                    self.speaker(),
                )
                &&& event == ConversionEvent::WavChecked(true)
            },
            // The text sent to synthesis is the input file, decoded.
            res.1 matches ConversionAction::WriteWav(text) ==> valid_utf8(res.0.input_bytes())
                && text@ == decode_utf8(res.0.input_bytes()),
            // The recorded state names the input that was read, the speaker,
            // and the audio that was written, by their hashes.
            res.1 matches ConversionAction::SaveState(st) ==> {
                &&& st.input_hash@ == blake3_hex(res.0.input_bytes())
                &&& is_hex_digest(st.input_hash@)
                &&& st.speaker == self.speaker()
                &&& is_hex_digest(st.wav_hash@)
            },
    {
        proof {
            use_type_invariant(&self);
        }
        let Conversion { speaker, input: input_bytes, stage } = self;
        match stage {
            Stage::Reading => match event {
                ConversionEvent::InputRead(input) => {
                    let input_hash = blake3_hash_hex(input.as_slice());
                    let ghost bytes = input@;
                    (
                        Conversion {
                            speaker,
                            input: Ghost(bytes),
                            stage: Stage::Loading { input, input_hash },
                        },
                        ConversionAction::LoadState,
                    )
                },
                ConversionEvent::InputFailed => Self::finish(
                    speaker,
                    input_bytes,
                    Err(ConversionError::ReadInput),
                ),
                _ => Self::finish(speaker, input_bytes, Err(ConversionError::OutOfOrder)),
            },
            Stage::Loading { input, input_hash } => match event {
                ConversionEvent::StateLoaded(loaded) => match loaded {
                    Some(previous) => {
                        if previous.input_hash == input_hash && previous.speaker == speaker {
                            let wav_hash = previous.wav_hash.clone();
                            (
                                Conversion {
                                    speaker,
                                    input: input_bytes,
                                    stage: Stage::Checking { input, input_hash, recorded: previous },
                                },
                                ConversionAction::CheckWav(wav_hash),
                            )
                        } else {
                            Self::decode(speaker, input_bytes, input, input_hash, Some(previous))
                        }
                    },
                    None => Self::decode(speaker, input_bytes, input, input_hash, None),
                },
                ConversionEvent::StateFailed => Self::finish(
                    speaker,
                    input_bytes,
                    Err(ConversionError::LoadState),
                ),
                _ => Self::finish(speaker, input_bytes, Err(ConversionError::OutOfOrder)),
            },
            Stage::Checking { input, input_hash, recorded } => match event {
                ConversionEvent::WavChecked(exists) => {
                    if exists {
                        Self::finish(speaker, input_bytes, Ok(ConversionStatus::Unchanged))
                    } else {
                        Self::decode(speaker, input_bytes, input, input_hash, Some(recorded))
                    }
                },
                _ => Self::finish(speaker, input_bytes, Err(ConversionError::OutOfOrder)),
            },
            Stage::Preparing { text, input_hash, previous } => match event {
                ConversionEvent::TemporaryPrepared => (
                    Conversion {
                        speaker,
                        input: input_bytes,
                        stage: Stage::Writing { input_hash, previous },
                    },
                    ConversionAction::WriteWav(text),
                ),
                ConversionEvent::TemporaryFailed => Self::finish(
                    speaker,
                    input_bytes,
                    Err(ConversionError::PrepareTemporary),
                ),
                _ => Self::finish(speaker, input_bytes, Err(ConversionError::OutOfOrder)),
            },
            Stage::Writing { input_hash, previous } => match event {
                ConversionEvent::WavWritten => (
                    Conversion {
                        speaker,
                        input: input_bytes,
                        stage: Stage::Hashing { input_hash, previous },
                    },
                    ConversionAction::ReadTemporary,
                ),
                ConversionEvent::WavFailed => (
                    Conversion {
                        speaker,
                        input: input_bytes,
                        stage: Stage::Discarding { error: ConversionError::WriteWav },
                    },
                    ConversionAction::RemoveTemporary,
                ),
                _ => Self::finish(speaker, input_bytes, Err(ConversionError::OutOfOrder)),
            },
            Stage::Discarding { error } => match event {
                ConversionEvent::TemporaryRemoved => Self::finish(speaker, input_bytes, Err(error)),
                _ => Self::finish(speaker, input_bytes, Err(ConversionError::OutOfOrder)),
            },
            Stage::Hashing { input_hash, previous } => match event {
                ConversionEvent::TemporaryRead(wav) => {
                    let wav_hash = hash_file(wav.as_slice());
                    let committed = wav_hash.clone();
                    (
                        Conversion {
                            speaker,
                            input: input_bytes,
                            stage: Stage::Committing { input_hash, previous, wav_hash },
                        },
                        ConversionAction::CommitWav(committed),
                    )
                },
                ConversionEvent::TemporaryReadFailed => Self::finish(
                    speaker,
                    input_bytes,
                    Err(ConversionError::HashWav),
                ),
                _ => Self::finish(speaker, input_bytes, Err(ConversionError::OutOfOrder)),
            },
            Stage::Committing { input_hash, previous, wav_hash } => match event {
                ConversionEvent::Committed => {
                    let state = TargetState { input_hash, speaker, wav_hash: wav_hash.clone() };
                    (
                        Conversion {
                            speaker,
                            input: input_bytes,
                            stage: Stage::Saving { previous, wav_hash },
                        },
                        ConversionAction::SaveState(state),
                    )
                },
                ConversionEvent::CommitFailed => Self::finish(
                    speaker,
                    input_bytes,
                    Err(ConversionError::CommitWav),
                ),
                _ => Self::finish(speaker, input_bytes, Err(ConversionError::OutOfOrder)),
            },
            Stage::Saving { previous, wav_hash } => match event {
                ConversionEvent::Saved => match previous {
                    Some(p) => {
                        if p.wav_hash != wav_hash {
                            (
                                Conversion { speaker, input: input_bytes, stage: Stage::Cleaning },
                                ConversionAction::RemoveWav(p.wav_hash),
                            )
                        } else {
                            Self::finish(speaker, input_bytes, Ok(ConversionStatus::Converted))
                        }
                    },
                    None => Self::finish(speaker, input_bytes, Ok(ConversionStatus::Converted)),
                },
                ConversionEvent::SaveFailed => Self::finish(
                    speaker,
                    input_bytes,
                    Err(ConversionError::SaveState),
                ),
                _ => Self::finish(speaker, input_bytes, Err(ConversionError::OutOfOrder)),
            },
            Stage::Cleaning => match event {
                ConversionEvent::OldWavRemoved => Self::finish(
                    speaker,
                    input_bytes,
                    Ok(ConversionStatus::Converted),
                ),
                _ => Self::finish(speaker, input_bytes, Err(ConversionError::OutOfOrder)),
            },
            Stage::Done => Self::finish(speaker, input_bytes, Err(ConversionError::OutOfOrder)),
        }
    }
}

/// Audio is regenerated when the input or the speaker has changed: a recorded
/// state from another input or speaker leads to a new synthesis (or to the
/// input's decoding error), while one from the same input and speaker leads
/// to checking that its audio file still exists.
pub proof fn lemma_changed_source_regenerates(
    speaker: u32,
    input: Vec<u8>,
    input_hash: String,
    recorded: TargetState,
    after: Stage,
    action: ConversionAction,
)
    requires
        transition(
            speaker,
            Stage::Loading { input, input_hash },
            ConversionEvent::StateLoaded(Some(recorded)),
            after,
            action,
        ),
    ensures
        same_source(recorded, input_hash@, speaker) ==> (action matches ConversionAction::CheckWav(
            h,
        ) && h@ == recorded.wav_hash@),
        !same_source(recorded, input_hash@, speaker) ==> (action is PrepareTemporary || action
            == ConversionAction::Finish(Err(ConversionError::DecodeInput))),
        !(action == ConversionAction::Finish(Ok(ConversionStatus::Unchanged))),
{
}

/// A failed synthesis removes the temporary audio before the conversion
/// reports the failure.
pub proof fn lemma_failed_write_discards_temporary(
    speaker: u32,
    input_hash: String,
    previous: Option<TargetState>,
    after: Stage,
    action: ConversionAction,
    next: Stage,
    last: ConversionAction,
)
    requires
        transition(
            speaker,
            Stage::Writing { input_hash, previous },
            ConversionEvent::WavFailed,
            after,
            action,
        ),
        transition(speaker, after, ConversionEvent::TemporaryRemoved, next, last),
    ensures
        action is RemoveTemporary,
        last == ConversionAction::Finish(Err(ConversionError::WriteWav)),
{
}

/// The state recorded after new audio is stored names that audio: its hash
/// is the hash of the written file, under which the audio was committed.
pub proof fn lemma_recorded_hash_names_committed_audio(
    speaker: u32,
    input_hash: String,
    previous: Option<TargetState>,
    wav: Vec<u8>,
    committing: Stage,
    commit: ConversionAction,
    saving: Stage,
    save: ConversionAction,
)
    requires
        transition(
            speaker,
            Stage::Hashing { input_hash, previous },
            ConversionEvent::TemporaryRead(wav),
            committing,
            commit,
        ),
        transition(speaker, committing, ConversionEvent::Committed, saving, save),
    ensures
        commit matches ConversionAction::CommitWav(h) && h@ == blake3_hex(wav@),
        save matches ConversionAction::SaveState(st) && st.wav_hash@ == blake3_hex(wav@)
            && st.input_hash == input_hash && st.speaker == speaker,
{
}

/// A loaded recorded state is carried unchanged to the end of a
/// regeneration, whatever changed (the input, the speaker or both): once the
/// new audio is stored and its state saved, audio recorded under another hash
/// is removed before the conversion reports `Converted`, and audio recorded
/// under the same hash is kept.
pub proof fn lemma_replaced_audio_is_removed(
    speaker: u32,
    input: Vec<u8>,
    input_hash: String,
    recorded: TargetState,
    wav: Vec<u8>,
    s1: Stage,
    a1: ConversionAction,
    s2: Stage,
    a2: ConversionAction,
    s3: Stage,
    a3: ConversionAction,
    s4: Stage,
    a4: ConversionAction,
    s5: Stage,
    a5: ConversionAction,
    s6: Stage,
    a6: ConversionAction,
    s7: Stage,
    a7: ConversionAction,
)
    requires
        !same_source(recorded, input_hash@, speaker),
        valid_utf8(input@),
        transition(
            speaker,
            Stage::Loading { input, input_hash },
            ConversionEvent::StateLoaded(Some(recorded)),
            s1,
            a1,
        ),
        transition(speaker, s1, ConversionEvent::TemporaryPrepared, s2, a2),
        transition(speaker, s2, ConversionEvent::WavWritten, s3, a3),
        transition(speaker, s3, ConversionEvent::TemporaryRead(wav), s4, a4),
        transition(speaker, s4, ConversionEvent::Committed, s5, a5),
        transition(speaker, s5, ConversionEvent::Saved, s6, a6),
        transition(speaker, s6, ConversionEvent::OldWavRemoved, s7, a7),
    ensures
        recorded.wav_hash@ != blake3_hex(wav@) ==> {
            &&& a6 matches ConversionAction::RemoveWav(h) && h@ == recorded.wav_hash@
            &&& a7 == ConversionAction::Finish(Ok(ConversionStatus::Converted))
        },
        recorded.wav_hash@ == blake3_hex(wav@) ==> a6 == ConversionAction::Finish(
            Ok(ConversionStatus::Converted),
        ),
{
}

/// The same holds when the recorded state names the same input and speaker
/// but its audio file is missing.
pub proof fn lemma_replaced_missing_audio_is_removed(
    speaker: u32,
    input: Vec<u8>,
    input_hash: String,
    recorded: TargetState,
    wav: Vec<u8>,
    s1: Stage,
    a1: ConversionAction,
    s2: Stage,
    a2: ConversionAction,
    s3: Stage,
    a3: ConversionAction,
    s4: Stage,
    a4: ConversionAction,
    s5: Stage,
    a5: ConversionAction,
    s6: Stage,
    a6: ConversionAction,
    s7: Stage,
    a7: ConversionAction,
)
    requires
        same_source(recorded, input_hash@, speaker),
        valid_utf8(input@),
        transition(
            speaker,
            Stage::Checking { input, input_hash, recorded },
            ConversionEvent::WavChecked(false),
            s1,
            a1,
        ),
        transition(speaker, s1, ConversionEvent::TemporaryPrepared, s2, a2),
        transition(speaker, s2, ConversionEvent::WavWritten, s3, a3),
        transition(speaker, s3, ConversionEvent::TemporaryRead(wav), s4, a4),
        transition(speaker, s4, ConversionEvent::Committed, s5, a5),
        transition(speaker, s5, ConversionEvent::Saved, s6, a6),
        transition(speaker, s6, ConversionEvent::OldWavRemoved, s7, a7),
    ensures
        recorded.wav_hash@ != blake3_hex(wav@) ==> {
            &&& a6 matches ConversionAction::RemoveWav(h) && h@ == recorded.wav_hash@
            &&& a7 == ConversionAction::Finish(Ok(ConversionStatus::Converted))
        },
        recorded.wav_hash@ == blake3_hex(wav@) ==> a6 == ConversionAction::Finish(
            Ok(ConversionStatus::Converted),
        ),
{
}

} // verus!
