//! The render operation, stage by stage.
//!
//! A render alternates decisions with work that only the caller can do:
//! reading files, running the parsers, running the synthesizer, writing the
//! result. The decisions stand here. In order:
//!
//! 1. [`RenderRequest::config`] validates the options, before any file.
//! 2. [`InstrumentBank::from_parsed`] takes the parsed bank.
//! 3. [`Performance::check_header`] looks at the MIDI header and
//!    [`Performance::from_parsed`] takes the parsed performance.
//! 4. [`prepare`] builds the engine, fixes the number of frames and starts
//!    playback.
//! 5. [`assemble`] takes the rendered channels and makes the container.
//! 6. [`completion`] takes the outcome of writing the destination.
//!
//! Each stage fails with its own error and the caller stops at the first
//! failure, so nothing is written unless every stage before has succeeded.

use vstd::prelude::*;
use crate::config::{sample_rate_of, RenderConfig};
use crate::encode::{container_fits, encode, interleaved, is_container, u32_at, DATA_LENGTH_AT, HEADER_BYTES, MAX_FRAMES, SAMPLE_RATE_AT};
use crate::engine::{engine_accepts, Engine, InstrumentBank, Performance, SampleBuffers};
use crate::error::{RenderError, ResourceKind};
use crate::frames::{frame_count, frame_count_of, lemma_zero_duration_takes_no_frames};

verus! {

/// The state of a three-state checkbox.
#[derive(Clone, Copy, Debug, PartialEq, Eq, Structural)]
pub enum CheckBoxState {
    Checked,
    Unchecked,
    Indeterminate,
}

/// A checkbox switches its option on only when it is fully checked.
pub fn checkbox_state_as_bool(state: CheckBoxState) -> (enabled: bool)
    ensures
        enabled == (state == CheckBoxState::Checked),
{
    match state {
        CheckBoxState::Checked => true,
        CheckBoxState::Unchecked | CheckBoxState::Indeterminate => false,
    }
}

/// What a caller asks for: where the inputs are, where the output goes, and
/// the two options as entered.
pub struct RenderRequest {
    /// The path of the MIDI file.
    pub performance_path: String,
    /// The path of the instrument bank.
    pub bank_path: String,
    /// The path of the audio file to write.
    pub destination_path: String,
    /// The sample rate as text.
    pub sample_rate: String,
    /// Whether reverb and chorus are switched on.
    pub effects_enabled: bool,
}

impl RenderRequest {
    /// Validates the options. This needs neither input file, so a caller can
    /// refuse a bad sample rate before touching the disk.
    pub fn config(&self) -> (config: Result<RenderConfig, RenderError>)
        ensures
            match sample_rate_of(self.sample_rate@) {
                Some(value) => config is Ok && config->Ok_0.rate() == value
                    && config->Ok_0.effects() == self.effects_enabled,
                None => config == Err::<RenderConfig, RenderError>(RenderError::InputError),
            },
    {
        RenderConfig::from_text(self.sample_rate.as_str(), self.effects_enabled)
    }
}

/// The number of frames that a performance of this duration takes at `rate`.
pub open spec fn frames_for(rate: int, duration: u64) -> nat {
    frame_count_of(rate as u32, duration)
}

/// Whether a render at `rate` of a performance of this duration can go
/// ahead: the engine takes the rate and a container holds the frames.
pub open spec fn can_render(rate: int, duration: u64) -> bool {
    engine_accepts(rate) && frames_for(rate, duration) <= MAX_FRAMES
}

/// Builds the engine, fixes the number of frames to render, and starts the
/// performance from its beginning, once, without looping.
///
/// Hands out the started sequencer and the number of frames that the caller
/// is to render from it into each channel. Fails with
/// [`RenderError::EngineError`] exactly where the engine does not take the
/// sample rate, and otherwise with [`RenderError::OutputError`] exactly
/// where the frames are more than a container holds.
pub fn prepare(config: &RenderConfig, bank: &InstrumentBank, performance: &Performance) -> (playback: Result<(rustysynth::MidiFileSequencer, usize), RenderError>)
    ensures
        playback is Ok == can_render(config.rate(), performance.duration()),
        playback is Ok ==> playback->Ok_0.1 == frames_for(config.rate(), performance.duration()),
        !engine_accepts(config.rate()) ==> playback.err() == Some(RenderError::EngineError),
        engine_accepts(config.rate()) && playback is Err ==> playback.err() == Some(
            RenderError::OutputError,
        ),
{
    let engine = match Engine::build(bank, config) {
        Ok(built) => built,
        Err(error) => {
            return Err(error);
        },
    };
    let rate: i32 = config.sample_rate();
    let frames: u64 = frame_count(rate as u32, performance.duration_bits());
    if frames > MAX_FRAMES as u64 {
        return Err(RenderError::OutputError);
    }
    Ok((engine.play(performance), frames as usize))
}

/// Makes the output file from the two rendered channels.
///
/// `frames` is the number that [`prepare`] fixed. An engine that hands back
/// a channel of another length has failed; a container that cannot hold the
/// frames or express the rate is an output failure; everything else is the
/// complete file.
pub fn assemble(config: &RenderConfig, frames: usize, left: Vec<u32>, right: Vec<u32>) -> (container: Result<Vec<u8>, RenderError>)
    ensures
        container is Ok == (left@.len() == frames && right@.len() == frames && container_fits(
            config.rate(),
            frames as nat,
        )),
        container is Ok ==> is_container(container->Ok_0@, config.rate() as u32, interleaved(left@, right@)),
        (left@.len() != frames || right@.len() != frames) ==> container.err() == Some(
            RenderError::EngineError,
        ),
        left@.len() == frames && right@.len() == frames && container is Err ==> container.err() == Some(
            RenderError::OutputError,
        ),
{
    if left.len() != frames || right.len() != frames {
        return Err(RenderError::EngineError);
    }
    match SampleBuffers::new(left, right) {
        Some(buffers) => encode(config, &buffers),
        None => Err(RenderError::EngineError),
    }
}

/// What [`assemble`] makes of two channels, as a relation: the complete
/// file of exactly these samples where the channels have the length asked
/// for, an engine failure where they have not.
pub open spec fn assembled(
    rate: int,
    frames: nat,
    left: Seq<u32>,
    right: Seq<u32>,
    outcome: Result<Vec<u8>, RenderError>,
) -> bool {
    if left.len() == frames && right.len() == frames {
        outcome is Ok && is_container(outcome->Ok_0@, rate as u32, interleaved(left, right))
    } else {
        outcome == Err::<Vec<u8>, RenderError>(RenderError::EngineError)
    }
}

/// The failure that stands before a single sample is rendered, if any:
/// the bank first, then the performance, then the engine's limits on the
/// sample rate, then whether a container can hold the frames.
pub open spec fn early_failure(rate: int, bank_loaded: bool, duration: Option<u64>) -> Option<RenderError> {
    if !bank_loaded {
        Some(RenderError::ResourceError { kind: ResourceKind::Bank })
    } else if duration is None {
        Some(RenderError::ResourceError { kind: ResourceKind::Performance })
    } else if !engine_accepts(rate) {
        Some(RenderError::EngineError)
    } else if frames_for(rate, duration->Some_0) > MAX_FRAMES {
        Some(RenderError::OutputError)
    } else {
        None
    }
}

/// The duration of the performance that a load ended in, if it ended in one.
pub open spec fn loaded_duration(performance: Result<Performance, RenderError>) -> Option<u64> {
    match performance {
        Ok(loaded) => Some(loaded.duration()),
        Err(_) => None,
    }
}

/// What a render at `rate` returns, given what loading ended in and the
/// function that does the engine's part: the first failure where a stage
/// failed, else the file of exactly the channels that `synthesize` handed
/// back for the started sequencer and the number of frames.
pub open spec fn render_outcome<F: FnOnce(rustysynth::MidiFileSequencer, usize) -> (Vec<u32>, Vec<u32>)>(
    rate: int,
    bank_loaded: bool,
    duration: Option<u64>,
    synthesize: F,
    outcome: Result<Vec<u8>, RenderError>,
) -> bool {
    match early_failure(rate, bank_loaded, duration) {
        Some(error) => outcome == Err::<Vec<u8>, RenderError>(error),
        None => exists|sequencer: rustysynth::MidiFileSequencer, left: Vec<u32>, right: Vec<u32>|
            {
                &&& #[trigger] synthesize.ensures(
                    (sequencer, frames_for(rate, duration->Some_0) as usize),
                    (left, right),
                )
                &&& assembled(rate, frames_for(rate, duration->Some_0), left@, right@, outcome)
            },
    }
}

/// Renders a loaded performance through a loaded bank into the bytes of the
/// output file.
///
/// `bank` and `performance` are what loading ended in. `synthesize` does
/// the engine's part: it is handed the started sequencer and the number of
/// frames, and hands back the left and the right channel. The first stage
/// that failed decides the error; with every stage in order the result is
/// the container of exactly the channels that `synthesize` handed back.
pub fn render<F: FnOnce(rustysynth::MidiFileSequencer, usize) -> (Vec<u32>, Vec<u32>)>(
    config: &RenderConfig,
    bank: Result<InstrumentBank, RenderError>,
    performance: Result<Performance, RenderError>,
    synthesize: F,
) -> (outcome: Result<Vec<u8>, RenderError>)
    requires
        forall|sequencer: rustysynth::MidiFileSequencer, frames: usize| synthesize.requires((sequencer, frames)),
    ensures
        render_outcome(config.rate(), bank is Ok, loaded_duration(performance), synthesize, outcome),
{
    let loaded_bank = match bank {
        Ok(loaded) => loaded,
        Err(_) => {
            return Err(RenderError::ResourceError { kind: ResourceKind::Bank });
        },
    };
    let loaded_performance = match performance {
        Ok(loaded) => loaded,
        Err(_) => {
            return Err(RenderError::ResourceError { kind: ResourceKind::Performance });
        },
    };
    let (sequencer, frames) = match prepare(config, &loaded_bank, &loaded_performance) {
        Ok(started) => started,
        Err(error) => {
            return Err(error);
        },
    };
    let ghost started = sequencer;
    let (left, right) = synthesize(sequencer, frames);
    let ghost channels = (left, right);
    let outcome = assemble(config, frames, left, right);
    proof {
        let count = frames_for(config.rate(), loaded_duration(performance)->Some_0);
        assert(loaded_duration(performance) == Some(loaded_performance.duration()));
        assert(count as usize == frames);
        assert(container_fits(config.rate(), count));
        assert(synthesize.ensures((started, count as usize), (channels.0, channels.1)));
        assert(assembled(config.rate(), count, channels.0@, channels.1@, outcome));
    }
    outcome
}

/// Validates a request's options and renders.
///
/// A sample rate that is not a positive number is refused whatever loading
/// ended in.
pub fn render_request<F: FnOnce(rustysynth::MidiFileSequencer, usize) -> (Vec<u32>, Vec<u32>)>(
    request: &RenderRequest,
    bank: Result<InstrumentBank, RenderError>,
    performance: Result<Performance, RenderError>,
    synthesize: F,
) -> (outcome: Result<Vec<u8>, RenderError>)
    requires
        forall|sequencer: rustysynth::MidiFileSequencer, frames: usize| synthesize.requires((sequencer, frames)),
    ensures
        match sample_rate_of(request.sample_rate@) {
            Some(rate) => render_outcome(rate as int, bank is Ok, loaded_duration(performance), synthesize, outcome),
            None => outcome == Err::<Vec<u8>, RenderError>(RenderError::InputError),
        },
{
    match request.config() {
        Ok(config) => render(&config, bank, performance, synthesize),
        Err(error) => Err(error),
    }
}

/// A render succeeds exactly when every stage does: the bank loaded, the
/// performance loaded, the engine takes the rate, a container holds the
/// frames, and the engine handed back both channels at full length. Its
/// file then has exactly the frames that the performance takes.
pub proof fn lemma_success_needs_every_stage<F: FnOnce(rustysynth::MidiFileSequencer, usize) -> (Vec<u32>, Vec<u32>)>(
    rate: int,
    bank_loaded: bool,
    duration: Option<u64>,
    synthesize: F,
    outcome: Result<Vec<u8>, RenderError>,
)
    requires
        render_outcome(rate, bank_loaded, duration, synthesize, outcome),
    ensures
        outcome is Ok ==> bank_loaded && duration is Some && can_render(rate, duration->Some_0),
        outcome is Ok ==> outcome->Ok_0@.len() == HEADER_BYTES + 8 * frames_for(rate, duration->Some_0),
        outcome is Err && bank_loaded && duration is Some && can_render(rate, duration->Some_0)
            ==> outcome == Err::<Vec<u8>, RenderError>(RenderError::EngineError),
        !bank_loaded ==> outcome == Err::<Vec<u8>, RenderError>(
            RenderError::ResourceError { kind: ResourceKind::Bank },
        ),
        bank_loaded && duration is None ==> outcome == Err::<Vec<u8>, RenderError>(
            RenderError::ResourceError { kind: ResourceKind::Performance },
        ),
{
}

/// What a render reports once the destination has been written, or could
/// not be: success only for a file that is complete and closed.
pub fn completion(written: bool) -> (report: Result<(), RenderError>)
    ensures
        written ==> report == Ok::<(), RenderError>(()),
        !written ==> report == Err::<(), RenderError>(RenderError::OutputError),
{
    if written {
        Ok(())
    } else {
        Err(RenderError::OutputError)
    }
}

/// A container of `frames` frames is the header and eight bytes a frame,
/// with that length and the sample rate written in the header.
pub proof fn lemma_frame_count_is_exact(bytes: Seq<u8>, sample_rate: u32, left: Seq<u32>, right: Seq<u32>)
    requires
        left.len() == right.len(),
        is_container(bytes, sample_rate, interleaved(left, right)),
    ensures
        bytes.len() == HEADER_BYTES + 8 * left.len(),
        u32_at(bytes, DATA_LENGTH_AT as int) == 8 * left.len(),
        u32_at(bytes, SAMPLE_RATE_AT as int) == sample_rate,
{
}

/// For one sample rate and one run of samples there is one container: two
/// encodings of the same samples are the same bytes.
pub proof fn lemma_container_is_determined(first: Seq<u8>, second: Seq<u8>, sample_rate: u32, samples: Seq<u32>)
    requires
        is_container(first, sample_rate, samples),
        is_container(second, sample_rate, samples),
    ensures
        first == second,
{
    assert forall|i: int| 0 <= i < first.len() implies first[i] == second[i] by {
        if i < HEADER_BYTES {
            assert(first[i] == first.subrange(0, HEADER_BYTES as int)[i]);
            assert(second[i] == second.subrange(0, HEADER_BYTES as int)[i]);
        } else {
            assert(first[i] == first.subrange(HEADER_BYTES as int, first.len() as int)[i - HEADER_BYTES]);
            assert(second[i] == second.subrange(HEADER_BYTES as int, second.len() as int)[i - HEADER_BYTES]);
        }
    }
    assert(first =~= second);
}

/// A performance of no duration is no error: where both files loaded and
/// the engine takes the rate, nothing fails before the engine is asked, it
/// is asked for no frames, and a render that succeeds returns a bare header.
pub proof fn lemma_empty_performance_renders_empty<F: FnOnce(rustysynth::MidiFileSequencer, usize) -> (Vec<u32>, Vec<u32>)>(
    rate: int,
    synthesize: F,
    outcome: Result<Vec<u8>, RenderError>,
)
    requires
        engine_accepts(rate),
        render_outcome(rate, true, Some(0u64), synthesize, outcome),
    ensures
        early_failure(rate, true, Some(0u64)) is None,
        frames_for(rate, 0) == 0,
        outcome is Ok ==> outcome->Ok_0@.len() == HEADER_BYTES,
        outcome is Err ==> outcome == Err::<Vec<u8>, RenderError>(RenderError::EngineError),
{
    lemma_zero_duration_takes_no_frames(rate as u32);
}

/// Whatever the engine takes, a container can express: once the engine is
/// built and the frames are within bounds, the container fits.
pub proof fn lemma_prepared_renders_fit(rate: int, duration: u64)
    requires
        can_render(rate, duration),
    ensures
        container_fits(rate, frames_for(rate, duration)),
{
}

} // verus!
