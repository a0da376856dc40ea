use qwen3_tts::error::Qwen3TtsError;
use qwen3_tts::wav::{encode_wav, wav_fits, written_wav};

#[test]
fn files_are_laid_out_as_canonical_wave() {
    let bytes = encode_wav(24_000, &vec![1, -2, 32_767]).unwrap();
    let expected: Vec<u8> = [
        b"RIFF".to_vec(),
        42u32.to_le_bytes().to_vec(),
        b"WAVEfmt ".to_vec(),
        16u32.to_le_bytes().to_vec(),
        1u16.to_le_bytes().to_vec(),
        1u16.to_le_bytes().to_vec(),
        24_000u32.to_le_bytes().to_vec(),
        48_000u32.to_le_bytes().to_vec(),
        2u16.to_le_bytes().to_vec(),
        16u16.to_le_bytes().to_vec(),
        b"data".to_vec(),
        6u32.to_le_bytes().to_vec(),
        vec![1, 0, 0xfe, 0xff, 0xff, 0x7f],
    ]
    .concat();
    assert_eq!(bytes, expected);
}

#[test]
fn files_are_read_back() {
    let samples: Vec<i16> = (-300..300).map(|n| (n * 97) as i16).collect();
    let bytes = encode_wav(16_000, &samples).unwrap();
    assert_eq!(bytes.len(), 44 + 2 * samples.len());
    let mut reader = hound::WavReader::new(std::io::Cursor::new(bytes)).unwrap();
    let spec = reader.spec();
    assert_eq!((spec.channels, spec.sample_rate, spec.bits_per_sample), (1, 16_000, 16));
    let read: Vec<i16> = reader.samples::<i16>().map(|s| s.unwrap()).collect();
    assert_eq!(read, samples);
    assert_eq!(encode_wav(16_000, &Vec::new()).unwrap().len(), 44);
}

#[test]
fn synthesised_audio_is_written() {
    let audio = [0.0f32, 0.5, 1.0, -1.0, 2.0, -3.0];
    let samples: Vec<i16> =
        audio.iter().map(|x| (x.clamp(-1.0, 1.0) * i16::MAX as f32) as i16).collect();
    let bytes = encode_wav(24_000, &samples).unwrap();
    let mut reader = hound::WavReader::new(std::io::Cursor::new(bytes)).unwrap();
    let read: Vec<i16> = reader.samples::<i16>().map(|s| s.unwrap()).collect();
    assert_eq!(read, [0, 16_383, 32_767, -32_767, 32_767, -32_767]);
}

#[test]
fn what_a_file_cannot_hold_is_told() {
    assert!(wav_fits(24_000, 0));
    assert!(!wav_fits(0, 0));
    assert!(wav_fits(0x7fff_ffff, 1));
    assert!(!wav_fits(0x8000_0000, 1));
    assert!(wav_fits(1, 0x7fff_ffed));
    assert!(!wav_fits(1, 0x7fff_ffee));
}

#[test]
fn failures_to_write_are_reported() {
    assert_eq!(written_wav(Ok(vec![1, 2])).unwrap(), vec![1, 2]);
    match written_wav(Err(hound::Error::Unsupported)) {
        Err(Qwen3TtsError::InvalidInput(text)) => assert_eq!(text, "failed to write WAV"),
        _ => panic!("expected an error"),
    }
}
