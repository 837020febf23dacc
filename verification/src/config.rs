//! The fixed settings of a run: where the model and the recording are, and
//! how the engine is asked to decode.

use crate::single::{exponent_field, fraction_field, rounds, scaled_value, sign_bit, spacing};
use vstd::arithmetic::power2::{lemma2_to64, lemma_pow2_adds, pow2};
use vstd::prelude::*;

verus! {

/// Where the engine's model is read from.
pub const MODEL_PATH: &'static str = "models/ggml-model.bin";

/// Where the recording is read from.
pub const AUDIO_PATH: &'static str = "output.wav";

/// The language of the recording; naming it turns language detection off.
pub const LANGUAGE: &'static str = "vi";

/// The upper bound on the engine's worker threads.
pub const THREADS: i32 = 8;

/// The single-precision pattern of the decoding temperature, 0.1.
pub const TEMPERATURE: u32 = 0x3DCC_CCCD;

/// How the engine picks tokens.
#[derive(Clone, Copy, Debug, PartialEq, Eq)]
pub enum SamplingStrategy {
    /// The most probable token at each step, out of `best_of` candidates.
    Greedy { best_of: i32 },
}

/// The options handed to the engine with the samples.
#[derive(Clone, Copy, Debug, PartialEq, Eq)]
pub struct TranscriptionConfig {
    pub strategy: SamplingStrategy,
    /// Upper bound on the engine's worker threads.
    pub n_threads: i32,
    /// Translate to English instead of transcribing in the source language.
    pub translate: bool,
    /// Let the engine's control tokens appear in the text.
    pub print_special: bool,
    /// The language of the recording.
    pub language: &'static str,
    /// The decoding temperature, as a single-precision pattern.
    pub temperature: u32,
}

impl TranscriptionConfig {
    /// The options of every run: greedy decoding with one candidate, eight
    /// threads, no translation, no control tokens, Vietnamese, and a
    /// temperature of 0.1.
    pub open spec fn is_fixed(&self) -> bool {
        &&& self.strategy == (SamplingStrategy::Greedy { best_of: 1 })
        &&& self.n_threads == 8
        &&& !self.translate
        &&& !self.print_special
        &&& self.language@ == "vi"@
        &&& self.temperature == 0x3DCC_CCCDu32
    }
}

impl Default for TranscriptionConfig {
    fn default() -> (config: Self)
        ensures
            config.is_fixed(),
    {
        TranscriptionConfig {
            strategy: SamplingStrategy::Greedy { best_of: 1 },
            n_threads: THREADS,
            translate: false,
            print_special: false,
            language: LANGUAGE,
            temperature: TEMPERATURE,
        }
    }
}

/// Everything a run is parameterised by.
#[derive(Clone, Copy, Debug, PartialEq, Eq)]
pub struct Settings {
    pub model_path: &'static str,
    pub audio_path: &'static str,
    pub config: TranscriptionConfig,
}

impl Settings {
    /// The settings of every run: the fixed paths and the fixed options.
    pub open spec fn is_fixed(&self) -> bool {
        &&& self.model_path@ == "models/ggml-model.bin"@
        &&& self.audio_path@ == "output.wav"@
        &&& self.config.is_fixed()
    }
}

impl Default for Settings {
    fn default() -> (settings: Self)
        ensures
            settings.is_fixed(),
    {
        Settings {
            model_path: MODEL_PATH,
            audio_path: AUDIO_PATH,
            config: TranscriptionConfig::default(),
        }
    }
}

/// The temperature is a positive number that differs from one tenth by at
/// most half the spacing of the single-precision numbers around it.
pub proof fn lemma_temperature_rounds_a_tenth()
    ensures
        !sign_bit(TEMPERATURE),
        rounds(TEMPERATURE, 1, 10),
{
    lemma2_to64();
    lemma_pow2_adds(27, 122);
    assert(exponent_field(TEMPERATURE) == 123);
    assert(fraction_field(TEMPERATURE) == 0x4C_CCCD);
    let p = pow2(122) as int;
    assert(pow2(149) == 0x800_0000 * p);
    assert(scaled_value(TEMPERATURE) == 0xCC_CCCD * p);
    assert(spacing(TEMPERATURE) == p);
}

} // verus!
