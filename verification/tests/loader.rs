use std::io::Cursor;
use wav_transcribe::audio::{load_wav_to_f32, DecodeError};

/// A WAV stream with a 16-byte format chunk and one data chunk.
fn wav_bytes(format_tag: u16, channels: u16, bits: u16, declared_len: u32, data: &[u8]) -> Vec<u8> {
    let rate: u32 = 16000;
    let block_align: u16 = channels * (bits / 8);
    let mut out: Vec<u8> = Vec::new();
    out.extend_from_slice(b"RIFF");
    out.extend_from_slice(&(36 + declared_len).to_le_bytes());
    out.extend_from_slice(b"WAVE");
    out.extend_from_slice(b"fmt ");
    out.extend_from_slice(&16u32.to_le_bytes());
    out.extend_from_slice(&format_tag.to_le_bytes());
    out.extend_from_slice(&channels.to_le_bytes());
    out.extend_from_slice(&rate.to_le_bytes());
    out.extend_from_slice(&(rate * block_align as u32).to_le_bytes());
    out.extend_from_slice(&block_align.to_le_bytes());
    out.extend_from_slice(&bits.to_le_bytes());
    out.extend_from_slice(b"data");
    out.extend_from_slice(&declared_len.to_le_bytes());
    out.extend_from_slice(data);
    out
}

fn pcm16_bytes(channels: u16, samples: &[i16]) -> Vec<u8> {
    let mut data: Vec<u8> = Vec::new();
    for s in samples {
        data.extend_from_slice(&s.to_le_bytes());
    }
    wav_bytes(1, channels, 16, data.len() as u32, &data)
}

fn malformed_message(loaded: Result<wav_transcribe::audio::SampleBuffer, DecodeError>) -> String {
    match loaded {
        Err(DecodeError::Malformed { message }) => message,
        other => panic!("expected a malformed stream, got {:?}", other),
    }
}

#[test]
fn loads_one_sample_per_frame() {
    let pcm: Vec<i16> = vec![2, -3, 5, -7];
    let buffer = load_wav_to_f32(&pcm16_bytes(1, &pcm)).unwrap();
    assert_eq!(buffer.len(), 4);
    let values: Vec<f32> = buffer.as_bits().iter().map(|b| f32::from_bits(*b)).collect();
    assert_eq!(values, vec![2.0 / 32768.0, -3.0 / 32768.0, 5.0 / 32768.0, -7.0 / 32768.0]);
}

#[test]
fn loaded_values_lie_in_the_unit_interval() {
    let pcm: Vec<i16> = vec![i16::MIN, -1, 0, 1, i16::MAX, 12345, -12345];
    let buffer = load_wav_to_f32(&pcm16_bytes(1, &pcm)).unwrap();
    assert_eq!(buffer.len(), pcm.len());
    for i in 0..pcm.len() {
        let v = f32::from_bits(buffer.get(i));
        assert!(-1.0 <= v && v <= 1.0);
        assert_eq!(v, pcm[i] as f32 / 32768.0);
    }
    assert_eq!(f32::from_bits(buffer.get(0)), -1.0);
    assert!(f32::from_bits(buffer.get(4)) < 1.0);
}

#[test]
fn loads_an_empty_data_chunk() {
    let buffer = load_wav_to_f32(&pcm16_bytes(1, &[])).unwrap();
    assert_eq!(buffer.len(), 0);
}

#[test]
fn stereo_stays_interleaved() {
    let pcm: Vec<i16> = vec![100, -100, 200, -200, 300, -300];
    let buffer = load_wav_to_f32(&pcm16_bytes(2, &pcm)).unwrap();
    assert_eq!(buffer.len(), 6);
    for i in 0..pcm.len() {
        assert_eq!(f32::from_bits(buffer.get(i)), pcm[i] as f32 / 32768.0);
    }
}

#[test]
fn loads_what_the_wav_writer_wrote() {
    let spec = hound::WavSpec {
        channels: 1,
        sample_rate: 16000,
        bits_per_sample: 16,
        sample_format: hound::SampleFormat::Int,
    };
    let pcm: Vec<i16> = vec![0, 1000, -1000, 32767, -32768];
    let mut cursor = Cursor::new(Vec::new());
    {
        let mut writer = hound::WavWriter::new(&mut cursor, spec).unwrap();
        for s in &pcm {
            writer.write_sample(*s).unwrap();
        }
        writer.finalize().unwrap();
    }
    let buffer = load_wav_to_f32(cursor.get_ref()).unwrap();
    assert_eq!(buffer.len(), pcm.len());
    for i in 0..pcm.len() {
        assert_eq!(buffer.get(i), (pcm[i] as f32 / 32768.0).to_bits());
    }
}

#[test]
fn eight_bit_samples_are_taken_as_small_sixteen_bit_ones() {
    let bytes = wav_bytes(1, 1, 8, 3, &[0x00, 0x80, 0xFF]);
    let buffer = load_wav_to_f32(&bytes).unwrap();
    let values: Vec<f32> = buffer.as_bits().iter().map(|b| f32::from_bits(*b)).collect();
    assert_eq!(values, vec![-128.0 / 32768.0, 0.0, 127.0 / 32768.0]);
}

#[test]
fn text_is_not_a_wav_stream() {
    let loaded = load_wav_to_f32(b"this is a text file that was renamed to .wav\n");
    assert_eq!(malformed_message(loaded), "Ill-formed WAVE file: no RIFF tag found");
}

#[test]
fn riff_of_another_kind_is_not_a_wav_stream() {
    let loaded = load_wav_to_f32(b"RIFF\x04\x00\x00\x00AVI LIST");
    assert_eq!(malformed_message(loaded), "Ill-formed WAVE file: no WAVE tag found");
}

#[test]
fn nothing_is_not_a_wav_stream() {
    let loaded = load_wav_to_f32(&[]);
    assert_eq!(malformed_message(loaded), "Failed to read enough bytes.");
}

#[test]
fn truncated_stream_gives_no_partial_buffer() {
    let mut bytes = pcm16_bytes(1, &[1, 2, 3, 4]);
    bytes.truncate(bytes.len() - 3);
    let loaded = load_wav_to_f32(&bytes);
    assert_eq!(malformed_message(loaded), "Failed to read enough bytes.");
}

#[test]
fn header_without_data_chunk_is_malformed() {
    let mut bytes = pcm16_bytes(1, &[1, 2]);
    bytes.truncate(36);
    assert!(matches!(load_wav_to_f32(&bytes), Err(DecodeError::Malformed { .. })));
}

#[test]
fn odd_data_length_is_malformed() {
    let bytes = wav_bytes(1, 1, 16, 3, &[1, 0, 2]);
    let loaded = load_wav_to_f32(&bytes);
    assert_eq!(
        malformed_message(loaded),
        "Ill-formed WAVE file: data chunk length is not a multiple of sample size"
    );
}

#[test]
fn wider_samples_are_refused() {
    let bytes = wav_bytes(1, 1, 24, 3, &[1, 2, 3]);
    let loaded = load_wav_to_f32(&bytes);
    assert_eq!(malformed_message(loaded), "The sample has more bits than the destination type.");
}

#[test]
fn float_samples_are_refused() {
    let bytes = wav_bytes(3, 1, 32, 4, &[0, 0, 0, 0]);
    let loaded = load_wav_to_f32(&bytes);
    assert_eq!(malformed_message(loaded), "The sample format differs from the destination format.");
}

#[test]
fn compressed_formats_are_refused() {
    let bytes = wav_bytes(2, 1, 16, 2, &[0, 0]);
    let loaded = load_wav_to_f32(&bytes);
    assert_eq!(malformed_message(loaded), "The wave format of the file is not supported.");
}

#[test]
fn decode_error_gives_its_message() {
    let unreadable = DecodeError::Unreadable { message: String::from("no such file") };
    assert_eq!(unreadable.message(), "no such file");
    let malformed = DecodeError::Malformed { message: String::from("bad header") };
    assert_eq!(malformed.message(), "bad header");
}
