//! Decoding of a WAV recording into normalised samples.
//!
//! The container is parsed by the `hound` crate. Each 16-bit sample `s` it
//! yields becomes the single-precision number `s / 32768`, so the largest
//! sample maps just below +1 and the smallest to exactly -1.

use crate::single::{
    from_q15, in_unit_interval, is_q15, lemma_q15_in_unit_interval,
    lemma_value_determines_pattern,
};
use vstd::prelude::*;

verus! {

/// Why no samples could be had from a recording.
#[derive(Clone, Debug, PartialEq, Eq)]
pub enum DecodeError {
    /// The file could not be opened or read.
    Unreadable { message: String },
    /// The bytes are not a WAV stream of integer samples of at most 16 bits,
    /// or the stream ends before its last sample.
    Malformed { message: String },
}

impl DecodeError {
    /// The text that describes the failure.
    pub open spec fn text(&self) -> Seq<char> {
        match self {
            DecodeError::Unreadable { message } => message@,
            DecodeError::Malformed { message } => message@,
        }
    }

    pub fn message(&self) -> (text: String)
        ensures
            text@ == self.text(),
    {
        match self {
            DecodeError::Unreadable { message } => message.clone(),
            DecodeError::Malformed { message } => message.clone(),
        }
    }
}

/// Normalised samples in temporal order, each held as the pattern of a
/// single-precision number.
#[derive(Clone, Debug, PartialEq, Eq)]
pub struct SampleBuffer {
    bits: Vec<u32>,
}

impl View for SampleBuffer {
    type V = Seq<u32>;

    closed spec fn view(&self) -> Seq<u32> {
        self.bits@
    }
}

impl SampleBuffer {
    /// Every sample is a finite number in the closed interval [-1, 1].
    pub open spec fn wf(&self) -> bool {
        forall|i: int| 0 <= i < self@.len() ==> in_unit_interval(#[trigger] self@[i])
    }

    /// The buffer holds one sample per element of `pcm`, in the same order,
    /// and the value of each is exactly the element divided by 32768.
    pub open spec fn encodes(&self, pcm: Seq<i16>) -> bool {
        &&& self@.len() == pcm.len()
        &&& forall|i: int| 0 <= i < pcm.len() ==> is_q15(#[trigger] self@[i], pcm[i] as int)
    }

    /// The number of samples.
    pub fn len(&self) -> (n: usize)
        ensures
            n == self@.len(),
    {
        self.bits.len()
    }

    /// The pattern of the sample at `index`.
    pub fn get(&self, index: usize) -> (bits: u32)
        requires
            index < self@.len(),
        ensures
            bits == self@[index as int],
    {
        self.bits[index]
    }

    /// The patterns of all samples, in order.
    pub fn as_bits(&self) -> (bits: &Vec<u32>)
        ensures
            bits@ == self@,
    {
        &self.bits
    }
}

/// What `hound` decodes from a byte stream read as a WAV file with 16-bit
/// integer samples: the samples of the data chunk in file order, channels
/// interleaved, or `None` where it reports an error.
pub uninterp spec fn wav_pcm16(bytes: Seq<u8>) -> Option<Seq<i16>>;

#[verifier::external_type_specification]
#[verifier::external_body]
pub struct ExHoundError(hound::Error);

/// Runs `hound::WavReader::new` on the bytes and collects what
/// `into_samples::<i16>` yields, stopping at the first error. Reading from
/// memory, the outcome depends on the bytes alone; the contract gives it the
/// name `wav_pcm16` and claims nothing else of it.
#[verifier::external_body]
fn decode_pcm16(bytes: &[u8]) -> (decoded: Result<Vec<i16>, hound::Error>)
    ensures
        match decoded {
            Ok(pcm) => wav_pcm16(bytes@) == Some(pcm@),
            Err(_) => wav_pcm16(bytes@) is None,
        },
{
    hound::WavReader::new(bytes)?.into_samples::<i16>().collect()
}

/// The text of a `hound::Error`, as its `Display` impl writes it. Nothing is
/// claimed of the text.
#[verifier::external_body]
fn describe(error: &hound::Error) -> (text: String) {
    error.to_string()
}

/// Maps each 16-bit sample `s` to the single-precision number `s / 32768`.
pub fn normalize(pcm: &[i16]) -> (buffer: SampleBuffer)
    ensures
        buffer.encodes(pcm@),
        buffer.wf(),
{
    let mut bits: Vec<u32> = Vec::new();
    let mut i: usize = 0;
    while i < pcm.len()
        invariant
            i <= pcm.len(),
            bits@.len() == i,
            forall|j: int| 0 <= j < i ==> is_q15(#[trigger] bits@[j], pcm@[j] as int),
            forall|j: int| 0 <= j < i ==> in_unit_interval(#[trigger] bits@[j]),
        decreases pcm.len() - i,
    {
        let sample = from_q15(pcm[i]);
        proof {
            lemma_q15_in_unit_interval(sample, pcm@[i as int] as int);
        }
        bits.push(sample);
        i = i + 1;
    }
    SampleBuffer { bits }
}

/// Decodes the bytes of a WAV file into normalised samples.
///
/// Succeeds exactly on the streams that `hound` decodes as 16-bit integer
/// samples. The buffer then has one sample per decoded value, in file order;
/// the channels of a multi-channel file stay interleaved. On failure no
/// samples are returned.
pub fn load_wav_to_f32(bytes: &[u8]) -> (loaded: Result<SampleBuffer, DecodeError>)
    ensures
        match loaded {
            Ok(buffer) => wav_pcm16(bytes@) matches Some(pcm) && buffer.encodes(pcm)
                && buffer.wf(),
            Err(error) => wav_pcm16(bytes@) is None && error is Malformed,
        },
{
    match decode_pcm16(bytes) {
        Ok(pcm) => Ok(normalize(pcm.as_slice())),
        Err(error) => Err(DecodeError::Malformed { message: describe(&error) }),
    }
}

/// Two buffers that encode the same samples hold the same patterns.
pub proof fn lemma_encoding_unique(a: SampleBuffer, b: SampleBuffer, pcm: Seq<i16>)
    requires
        a.encodes(pcm),
        b.encodes(pcm),
    ensures
        a@ == b@,
{
    assert forall|i: int| 0 <= i < pcm.len() implies a@[i] == b@[i] by {
        assert(is_q15(a@[i], pcm[i] as int));
        assert(is_q15(b@[i], pcm[i] as int));
        lemma_value_determines_pattern(a@[i], b@[i]);
    }
    assert(a@ =~= b@);
}

/// A buffer that encodes 16-bit samples has all its values in [-1, 1].
pub proof fn lemma_encoded_samples_in_unit_interval(buffer: SampleBuffer, pcm: Seq<i16>)
    requires
        buffer.encodes(pcm),
    ensures
        buffer.wf(),
{
    assert forall|i: int| 0 <= i < buffer@.len() implies in_unit_interval(
        #[trigger] buffer@[i],
    ) by {
        lemma_q15_in_unit_interval(buffer@[i], pcm[i] as int);
    }
}

} // verus!
