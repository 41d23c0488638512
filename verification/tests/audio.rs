use dectalk_tts::wav::normalize_wav;

/// A minimal mono 16-bit PCM WAV buffer around the given samples.
fn wav_bytes(samples: &[i16]) -> Vec<u8> {
    let data_len = (samples.len() * 2) as u32;
    let mut b: Vec<u8> = Vec::new();
    b.extend_from_slice(b"RIFF");
    b.extend_from_slice(&(36 + data_len).to_le_bytes());
    b.extend_from_slice(b"WAVE");
    b.extend_from_slice(b"fmt ");
    b.extend_from_slice(&16u32.to_le_bytes());
    b.extend_from_slice(&1u16.to_le_bytes()); // PCM
    b.extend_from_slice(&1u16.to_le_bytes()); // mono
    b.extend_from_slice(&44100u32.to_le_bytes());
    b.extend_from_slice(&88200u32.to_le_bytes());
    b.extend_from_slice(&2u16.to_le_bytes());
    b.extend_from_slice(&16u16.to_le_bytes());
    b.extend_from_slice(b"data");
    b.extend_from_slice(&data_len.to_le_bytes());
    for s in samples {
        b.extend_from_slice(&s.to_le_bytes());
    }
    b
}

fn samples_of(b: &[u8]) -> Vec<i16> {
    // sample data starts after the fixed 44-byte header built above
    b[44..]
        .chunks(2)
        .map(|c| i16::from_le_bytes([c[0], c[1]]))
        .collect()
}

#[test]
fn scales_every_sample_by_the_global_gain() {
    let input = wav_bytes(&[100, -200, 300]);
    let out = normalize_wav(&input, 16383).unwrap();
    // gain = 16383 / 300, rounded half away from zero per sample
    assert_eq!(samples_of(&out), vec![5461, -10922, 16383]);
    // header untouched
    assert_eq!(&out[..44], &input[..44]);
}

#[test]
fn rounds_half_away_from_zero() {
    let input = wav_bytes(&[1, 2, -1]);
    let out = normalize_wav(&input, 32767).unwrap();
    // 1 * 32767 / 2 = 16383.5 rounds to 16384
    assert_eq!(samples_of(&out), vec![16384, 32767, -16384]);
}

#[test]
fn peak_already_at_target_is_bit_identical() {
    let input = wav_bytes(&[1000, -500, 250]);
    let out = normalize_wav(&input, 1000).unwrap();
    assert_eq!(out, input);
}

#[test]
fn silence_stays_silence() {
    let input = wav_bytes(&[0, 0, 0, 0]);
    let out = normalize_wav(&input, 32767).unwrap();
    assert_eq!(samples_of(&out), vec![0, 0, 0, 0]);
    assert_eq!(out, input);
}

#[test]
fn empty_sample_data_is_accepted() {
    let input = wav_bytes(&[]);
    let out = normalize_wav(&input, 16000).unwrap();
    assert_eq!(out, input);
}

#[test]
fn extra_chunk_before_data_is_walked_over() {
    // RIFF / fmt / LIST / data
    let data: [i16; 2] = [10, -20];
    let mut b: Vec<u8> = Vec::new();
    b.extend_from_slice(b"RIFF");
    b.extend_from_slice(&(36u32 + 5 + 8 + 1 + 4).to_le_bytes());
    b.extend_from_slice(b"WAVE");
    b.extend_from_slice(b"fmt ");
    b.extend_from_slice(&16u32.to_le_bytes());
    b.extend_from_slice(&1u16.to_le_bytes());
    b.extend_from_slice(&1u16.to_le_bytes());
    b.extend_from_slice(&44100u32.to_le_bytes());
    b.extend_from_slice(&88200u32.to_le_bytes());
    b.extend_from_slice(&2u16.to_le_bytes());
    b.extend_from_slice(&16u16.to_le_bytes());
    // an odd-sized stray chunk, padded to even
    b.extend_from_slice(b"LIST");
    b.extend_from_slice(&5u32.to_le_bytes());
    b.extend_from_slice(&[1, 2, 3, 4, 5, 0]);
    b.extend_from_slice(b"data");
    b.extend_from_slice(&4u32.to_le_bytes());
    for s in &data {
        b.extend_from_slice(&s.to_le_bytes());
    }
    let out = normalize_wav(&b, 20).unwrap();
    let n = out.len();
    let s0 = i16::from_le_bytes([out[n - 4], out[n - 3]]);
    let s1 = i16::from_le_bytes([out[n - 2], out[n - 1]]);
    assert_eq!((s0, s1), (10, -20));
}

#[test]
fn malformed_buffers_are_rejected() {
    assert!(normalize_wav(&Vec::new(), 1000).is_err());
    assert!(normalize_wav(&b"not a wav at all".to_vec(), 1000).is_err());

    // truncated data chunk: declared longer than the buffer
    let mut input = wav_bytes(&[1, 2, 3]);
    let len = input.len();
    input.truncate(len - 2);
    assert!(normalize_wav(&input, 1000).is_err());

    // non-PCM format code
    let mut input = wav_bytes(&[1, 2, 3]);
    input[20] = 3;
    assert!(normalize_wav(&input, 1000).is_err());

    // 8-bit samples declared
    let mut input = wav_bytes(&[1, 2, 3]);
    input[34] = 8;
    assert!(normalize_wav(&input, 1000).is_err());
}
