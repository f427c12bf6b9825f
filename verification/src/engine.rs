//! The instrument bank, the performance and the synthesis engine.
//!
//! Parsing and synthesis are the work of the `rustysynth` crate. Its parsers
//! and its renderer index and allocate by numbers that they read from the
//! files, and may panic on a file that is malformed in those. The library
//! does not panic, so it makes none of these three calls: the caller makes
//! them and hands in what came back. This module holds the handles, maps
//! failures onto [`RenderError`], and builds and starts the engine, which
//! does not depend on what the files hold. Samples cross this boundary as
//! the bit patterns of 32-bit floats, a duration as the bit pattern of a
//! double.

use vstd::prelude::*;
use std::sync::Arc;
use crate::config::RenderConfig;
use crate::error::{RenderError, ResourceKind};

verus! {

/// `rustysynth::SoundFont`, a parsed bank: opaque here.
#[verifier::external_type_specification]
#[verifier::external_body]
pub struct ExSoundFont(rustysynth::SoundFont);

/// `rustysynth::MidiFile`, a parsed performance: opaque here.
#[verifier::external_type_specification]
#[verifier::external_body]
pub struct ExMidiFile(rustysynth::MidiFile);

/// `rustysynth::Synthesizer`: opaque here.
#[verifier::external_type_specification]
#[verifier::external_body]
pub struct ExSynthesizer(rustysynth::Synthesizer);

/// `rustysynth::MidiFileSequencer`: opaque here.
#[verifier::external_type_specification]
#[verifier::external_body]
pub struct ExMidiFileSequencer(rustysynth::MidiFileSequencer);

/// `rustysynth::SoundFontError`: only its presence is looked at.
#[verifier::external_type_specification]
#[verifier::external_body]
pub struct ExSoundFontError(rustysynth::SoundFontError);

/// `rustysynth::MidiFileError`: only its presence is looked at.
#[verifier::external_type_specification]
#[verifier::external_body]
pub struct ExMidiFileError(rustysynth::MidiFileError);

/// `rustysynth::SynthesizerError`: only its presence is looked at.
#[verifier::external_type_specification]
#[verifier::external_body]
pub struct ExSynthesizerError(rustysynth::SynthesizerError);

/// The lowest sample rate that the engine can be built for.
pub const ENGINE_MIN_RATE: i32 = 16_000;

/// The highest sample rate that the engine can be built for.
pub const ENGINE_MAX_RATE: i32 = 192_000;

/// Whether the engine can be built for this sample rate.
pub open spec fn engine_accepts(rate: int) -> bool {
    ENGINE_MIN_RATE <= rate <= ENGINE_MAX_RATE
}

/// The number of tracks that a MIDI header announces: the signed big-endian
/// 16-bit number at offset 10.
pub open spec fn declared_tracks(bytes: Seq<u8>) -> int
    recommends
        bytes.len() >= 12,
{
    let raw = bytes[10] as int * 256 + bytes[11] as int;
    if raw >= 32768 {
        raw - 65536
    } else {
        raw
    }
}

/// Whether the bytes are long enough to hold a MIDI header's track count and
/// that count is at least one. A performance without tracks has no events
/// and therefore no duration.
pub open spec fn has_tracks(bytes: Seq<u8>) -> bool {
    bytes.len() >= 12 && declared_tracks(bytes) > 0
}

/// Calls `rustysynth::SynthesizerSettings::new` with the sample rate, sets
/// its `enable_reverb_and_chorus` field, and calls
/// `rustysynth::Synthesizer::new`. Beside the outcome it hands back the
/// sample rate and the effects flag as the settings held them when the
/// synthesizer was built. Trusted: those two are the arguments; and with the
/// block size and polyphony left at their defaults, construction fails
/// exactly when the sample rate is outside 16000 to 192000.
#[verifier::external_body]
fn new_synthesizer(bank: &Arc<rustysynth::SoundFont>, sample_rate: i32, effects: bool) -> (built: (Result<rustysynth::Synthesizer, rustysynth::SynthesizerError>, i32, bool))
    ensures
        built.0.is_ok() == engine_accepts(sample_rate as int),
        built.1 == sample_rate,
        built.2 == effects,
{
    let mut settings = rustysynth::SynthesizerSettings::new(sample_rate);
    settings.enable_reverb_and_chorus = effects;
    let built = rustysynth::Synthesizer::new(bank, &settings);
    (built, settings.sample_rate, settings.enable_reverb_and_chorus)
}

/// Calls `rustysynth::MidiFileSequencer::new`. Nothing is claimed of the
/// sequencer that comes back.
#[verifier::external_body]
fn new_sequencer(synthesizer: rustysynth::Synthesizer) -> (sequencer: rustysynth::MidiFileSequencer)
{
    rustysynth::MidiFileSequencer::new(synthesizer)
}

/// Calls `rustysynth::MidiFileSequencer::play`, which rewinds the sequencer
/// to the start of the given performance. Nothing is claimed of its state.
#[verifier::external_body]
fn start_playback(sequencer: &mut rustysynth::MidiFileSequencer, midi: &Arc<rustysynth::MidiFile>, looping: bool)
{
    sequencer.play(midi, looping)
}

/// A parsed instrument bank.
pub struct InstrumentBank {
    font: Arc<rustysynth::SoundFont>,
}

/// A parsed MIDI performance and its total duration.
pub struct Performance {
    midi: Arc<rustysynth::MidiFile>,
    duration_bits: u64,
}

/// The two channels of a rendered performance, each sample held as the bits
/// of a 32-bit float.
pub struct SampleBuffers {
    left: Vec<u32>,
    right: Vec<u32>,
}

/// A synthesis engine built for one bank and one configuration. It keeps
/// the sample rate and the effects flag that its synthesizer was built with.
pub struct Engine {
    sequencer: rustysynth::MidiFileSequencer,
    sample_rate: i32,
    effects_enabled: bool,
}

impl InstrumentBank {
    /// Takes what came of reading and parsing the bank file: `None` where
    /// the file could not be read, else the parser's verdict.
    pub fn from_parsed(parsed: Option<Result<Arc<rustysynth::SoundFont>, rustysynth::SoundFontError>>) -> (bank: Result<InstrumentBank, RenderError>)
        ensures
            bank.is_ok() == (parsed is Some && parsed->Some_0 is Ok),
            bank is Err ==> bank.err() == Some(RenderError::ResourceError { kind: ResourceKind::Bank }),
    {
        match parsed {
            Some(Ok(font)) => Ok(InstrumentBank { font }),
            _ => Err(RenderError::ResourceError { kind: ResourceKind::Bank }),
        }
    }
}

/// Reads the track count out of a MIDI header.
pub fn announces_tracks(bytes: &[u8]) -> (found: bool)
    ensures
        found == has_tracks(bytes@),
{
    if bytes.len() < 12 {
        return false;
    }
    let high: u8 = bytes[10];
    let low: u8 = bytes[11];
    high < 128 && (high > 0 || low > 0)
}

impl Performance {
    /// The bits of the duration in seconds, as a double.
    pub closed spec fn duration(&self) -> u64 {
        self.duration_bits
    }

    /// Whether the contents of a MIDI file are worth parsing: `None` stands
    /// for a file that could not be read, and a header without a track for
    /// a performance that has no duration to ask for.
    pub fn check_header(contents: Option<&[u8]>) -> (verdict: Result<(), RenderError>)
        ensures
            verdict.is_ok() == (contents is Some && has_tracks(contents->Some_0@)),
            verdict is Err ==> verdict.err() == Some(
                RenderError::ResourceError { kind: ResourceKind::Performance },
            ),
    {
        match contents {
            Some(bytes) => {
                if announces_tracks(bytes) {
                    Ok(())
                } else {
                    Err(RenderError::ResourceError { kind: ResourceKind::Performance })
                }
            },
            None => Err(RenderError::ResourceError { kind: ResourceKind::Performance }),
        }
    }

    /// Takes the parser's verdict on a file whose header passed, with the bits of the
    /// performance's length in seconds.
    pub fn from_parsed(parsed: Result<(Arc<rustysynth::MidiFile>, u64), rustysynth::MidiFileError>) -> (performance: Result<Performance, RenderError>)
        ensures
            performance.is_ok() == parsed.is_ok(),
            performance is Ok ==> performance->Ok_0.duration() == parsed->Ok_0.1,
            performance is Err ==> performance.err() == Some(
                RenderError::ResourceError { kind: ResourceKind::Performance },
            ),
    {
        match parsed {
            Ok((midi, duration_bits)) => Ok(Performance { midi, duration_bits }),
            Err(_) => Err(RenderError::ResourceError { kind: ResourceKind::Performance }),
        }
    }

    /// The bits of the duration in seconds, as a double.
    pub fn duration_bits(&self) -> (bits: u64)
        ensures
            bits == self.duration(),
    {
        self.duration_bits
    }
}

impl SampleBuffers {
    /// Both channels hold the same number of samples.
    #[verifier::type_invariant]
    spec fn well_formed(&self) -> bool {
        self.left@.len() == self.right@.len()
    }

    /// The samples of the left channel.
    pub closed spec fn left_samples(&self) -> Seq<u32> {
        self.left@
    }

    /// The samples of the right channel.
    pub closed spec fn right_samples(&self) -> Seq<u32> {
        self.right@
    }

    /// Pairs two channels; they must be of one length.
    pub fn new(left: Vec<u32>, right: Vec<u32>) -> (buffers: Option<SampleBuffers>)
        ensures
            buffers is Some == (left@.len() == right@.len()),
            buffers is Some ==> buffers->Some_0.left_samples() == left@
                && buffers->Some_0.right_samples() == right@,
    {
        if left.len() != right.len() {
            return None;
        }
        Some(SampleBuffers { left, right })
    }

    /// The number of frames held.
    pub fn frames(&self) -> (count: usize)
        ensures
            count == self.left_samples().len(),
            count == self.right_samples().len(),
    {
        proof {
            use_type_invariant(self);
        }
        self.left.len()
    }

    /// The left channel.
    pub fn left(&self) -> (samples: &Vec<u32>)
        ensures
            samples@ == self.left_samples(),
    {
        &self.left
    }

    /// The right channel.
    pub fn right(&self) -> (samples: &Vec<u32>)
        ensures
            samples@ == self.right_samples(),
    {
        &self.right
    }
}

/// What building an engine gives for each outcome of the synthesizer's
/// constructor, with the sample rate and the effects flag that its settings
/// held.
pub fn engine_from(built: Result<rustysynth::Synthesizer, rustysynth::SynthesizerError>, sample_rate: i32, effects_enabled: bool) -> (engine: Result<Engine, RenderError>)
    ensures
        engine.is_ok() == built.is_ok(),
        built is Ok ==> engine->Ok_0.rate() == sample_rate && engine->Ok_0.effects() == effects_enabled,
        built is Err ==> engine.err() == Some(RenderError::EngineError),
{
    match built {
        Ok(synthesizer) => Ok(Engine { sequencer: new_sequencer(synthesizer), sample_rate, effects_enabled }),
        Err(_) => Err(RenderError::EngineError),
    }
}

impl Engine {
    /// The sample rate that the engine was built for.
    pub closed spec fn rate(&self) -> int {
        self.sample_rate as int
    }

    /// Whether the engine was built with reverb and chorus.
    pub closed spec fn effects(&self) -> bool {
        self.effects_enabled
    }

    /// Builds the engine for a bank and a configuration.
    pub fn build(bank: &InstrumentBank, config: &RenderConfig) -> (engine: Result<Engine, RenderError>)
        ensures
            engine.is_ok() == engine_accepts(config.rate()),
            engine is Ok ==> engine->Ok_0.rate() == config.rate() && engine->Ok_0.effects()
                == config.effects(),
            engine is Err ==> engine.err() == Some(RenderError::EngineError),
    {
        let (built, sample_rate, effects_enabled) = new_synthesizer(
            &bank.font,
            config.sample_rate(),
            config.effects_enabled(),
        );
        engine_from(built, sample_rate, effects_enabled)
    }

    /// The sample rate that the engine was built for.
    pub fn sample_rate(&self) -> (rate: i32)
        ensures
            rate == self.rate(),
    {
        self.sample_rate
    }

    /// Whether the engine was built with reverb and chorus.
    pub fn effects_enabled(&self) -> (enabled: bool)
        ensures
            enabled == self.effects(),
    {
        self.effects_enabled
    }

    /// Starts the performance once from its beginning, without looping, and
    /// hands out the sequencer for the caller to render from.
    pub(crate) fn play(self, performance: &Performance) -> (sequencer: rustysynth::MidiFileSequencer)
    {
        let mut sequencer = self.sequencer;
        start_playback(&mut sequencer, &performance.midi, false);
        sequencer
    }
}

} // verus!
