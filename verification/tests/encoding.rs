use openai_whisper::provider::OpenAIWhisperProvider;
use openai_whisper::sample::quantize;
use openai_whisper::wav::can_encode;

fn bits_of(samples: &[f32]) -> Vec<u32> {
    samples.iter().map(|sample| sample.to_bits()).collect()
}

fn encode(samples: &[f32], sample_rate: u32) -> Vec<u8> {
    OpenAIWhisperProvider::samples_to_wav(&bits_of(samples), sample_rate)
}

fn float_quantize(sample: f32) -> i16 {
    (sample.clamp(-1.0, 1.0) * 32767.0) as i16
}

#[test]
fn container_length_is_header_plus_two_bytes_per_sample() {
    for count in [0usize, 1, 2, 3, 1599, 1600, 16000] {
        let samples = vec![0.25f32; count];
        assert_eq!(encode(&samples, 16000).len(), 44 + 2 * count);
        assert_eq!(encode(&samples, 44100).len(), 44 + 2 * count);
    }
}

#[test]
fn container_tags_stand_at_their_offsets() {
    for count in [0usize, 1, 7, 1600] {
        let wav = encode(&vec![-0.5f32; count], 8000);
        assert_eq!(&wav[0..4], b"RIFF");
        assert_eq!(&wav[8..12], b"WAVE");
        assert_eq!(&wav[12..16], b"fmt ");
        assert_eq!(&wav[36..40], b"data");
    }
}

#[test]
fn header_fields_are_exact() {
    let wav = encode(&[0.0, 0.0, 0.0], 16000);
    let expected: Vec<u8> = vec![
        b'R', b'I', b'F', b'F', 42, 0, 0, 0, b'W', b'A', b'V', b'E', b'f', b'm', b't', b' ', 16, 0,
        0, 0, 1, 0, 1, 0, 0x80, 0x3e, 0, 0, 0x00, 0x7d, 0, 0, 2, 0, 16, 0, b'd', b'a', b't', b'a',
        6, 0, 0, 0,
    ];
    assert_eq!(&wav[..44], &expected[..]);
    assert_eq!(&wav[44..], &[0u8; 6][..]);
}

#[test]
fn header_sizes_follow_the_sample_count() {
    let count = 70_000usize;
    let wav = encode(&vec![0.0f32; count], 48000);
    let data_size = (2 * count) as u32;
    assert_eq!(&wav[4..8], &(36 + data_size).to_le_bytes());
    assert_eq!(&wav[40..44], &data_size.to_le_bytes());
    assert_eq!(&wav[24..28], &48000u32.to_le_bytes());
    assert_eq!(&wav[28..32], &96000u32.to_le_bytes());
}

#[test]
fn full_scale_and_zero_samples() {
    let wav = encode(&[1.0, -1.0, 0.0], 16000);
    assert_eq!(&wav[44..46], &32767i16.to_le_bytes());
    assert_eq!(&wav[46..48], &(-32767i16).to_le_bytes());
    assert_eq!(&wav[48..50], &0i16.to_le_bytes());
    assert_eq!(&wav[44..50], &[0xff, 0x7f, 0x01, 0x80, 0x00, 0x00]);
    assert_eq!(quantize(1.0f32.to_bits()), 32767);
    assert_eq!(quantize((-1.0f32).to_bits()), -32767);
    assert_eq!(quantize(0.0f32.to_bits()), 0);
    assert_eq!(quantize((-0.0f32).to_bits()), 0);
}

#[test]
fn samples_out_of_range_are_clamped() {
    assert_eq!(quantize(2.5f32.to_bits()), 32767);
    assert_eq!(quantize((-7.0f32).to_bits()), -32767);
    assert_eq!(quantize(f32::INFINITY.to_bits()), 32767);
    assert_eq!(quantize(f32::NEG_INFINITY.to_bits()), -32767);
    assert_eq!(quantize(f32::MAX.to_bits()), 32767);
    assert_eq!(quantize(f32::MIN.to_bits()), -32767);
}

#[test]
fn nan_quantizes_to_zero() {
    assert_eq!(quantize(f32::NAN.to_bits()), 0);
    assert_eq!(quantize(0x7f80_0001), 0);
    assert_eq!(quantize(0xffc0_0000), 0);
    assert_eq!(quantize(0xffff_ffff), 0);
}

#[test]
fn quantization_truncates_toward_zero() {
    assert_eq!(quantize(0.5f32.to_bits()), 16383);
    assert_eq!(quantize((-0.5f32).to_bits()), -16383);
    assert_eq!(quantize(0.25f32.to_bits()), 8191);
    assert_eq!(quantize(0.99999f32.to_bits()), 32766);
    assert_eq!(quantize((-0.99999f32).to_bits()), -32766);
    assert_eq!(quantize((1.0f32 / 32767.0).to_bits()), float_quantize(1.0 / 32767.0));
    assert_eq!(quantize(0.00003f32.to_bits()), 0);
}

#[test]
fn quantization_rounds_the_product_before_truncating() {
    // The exact products lie just below 79 and 101; single precision rounds
    // them up to the integers.
    assert_eq!(quantize(0x3b1e_013c), 79);
    assert_eq!(quantize(0x3b4a_0194), 101);
    assert_eq!(quantize(0xbb1e_013c), -79);
    assert_eq!(float_quantize(f32::from_bits(0x3b1e_013c)), 79);
}

#[test]
fn tiny_and_subnormal_samples_quantize_to_zero() {
    for bits in [1u32, 0x007f_ffff, 0x0080_0000, 0x3700_0000, 0x377f_ffff, 0x8000_0001] {
        assert_eq!(quantize(bits), 0);
        assert_eq!(float_quantize(f32::from_bits(bits)), 0);
    }
}

#[test]
fn quantize_agrees_with_float_arithmetic_across_all_patterns() {
    let mut bits: u32 = 0;
    loop {
        assert_eq!(quantize(bits), float_quantize(f32::from_bits(bits)), "bits {:#010x}", bits);
        match bits.checked_add(4099) {
            Some(next) => bits = next,
            None => break,
        }
    }
}

#[test]
fn quantize_agrees_with_float_arithmetic_below_one() {
    for sign in [0u32, 0x8000_0000] {
        for exponent in 108u32..=127 {
            let mut fraction: u32 = 0;
            while fraction < 0x80_0000 {
                let bits = sign | (exponent << 23) | fraction;
                assert_eq!(
                    quantize(bits),
                    float_quantize(f32::from_bits(bits)),
                    "bits {:#010x}",
                    bits
                );
                fraction += 61;
            }
        }
    }
}

#[test]
fn quantize_agrees_with_float_arithmetic_near_integers() {
    for target in 1u32..=32767 {
        let centre = (target as f32 / 32767.0).to_bits();
        for bits in centre - 3..=centre + 3 {
            assert_eq!(
                quantize(bits),
                float_quantize(f32::from_bits(bits)),
                "bits {:#010x}",
                bits
            );
            assert_eq!(
                quantize(bits | 0x8000_0000),
                float_quantize(f32::from_bits(bits | 0x8000_0000))
            );
        }
    }
}

#[test]
fn quantized_values_are_symmetric_and_never_minus_32768() {
    let mut bits: u32 = 0;
    while bits < 0x8000_0000 {
        let positive = quantize(bits);
        let negative = quantize(bits | 0x8000_0000);
        assert_eq!(negative, -positive);
        assert!((0..=32767).contains(&positive));
        bits += 65_537;
    }
}

#[test]
fn encoding_is_deterministic() {
    let samples: Vec<f32> = (0..2000).map(|i| ((i as f32) * 0.37).sin()).collect();
    let first = encode(&samples, 16000);
    let second = encode(&samples.clone(), 16000);
    assert_eq!(first, second);
    assert_ne!(first, encode(&samples, 22050));
}

#[test]
fn encoded_samples_follow_the_header_in_order() {
    let samples: Vec<f32> = (0..500).map(|i| ((i as f32) * 0.11).cos() * 1.2).collect();
    let wav = encode(&samples, 16000);
    for (index, sample) in samples.iter().enumerate() {
        let expected = float_quantize(*sample).to_le_bytes();
        assert_eq!(&wav[44 + 2 * index..46 + 2 * index], &expected);
    }
}

#[test]
fn encodable_sizes() {
    assert!(can_encode(0, 16000));
    assert!(can_encode(1600, 16000));
    assert!(can_encode(1600, 0x7fff_ffff));
    assert!(!can_encode(1600, 0x8000_0000));
    assert!(!can_encode(1600, u32::MAX));
    let most = ((u32::MAX as u64 - 36) / 2) as usize;
    assert!(can_encode(most, 16000));
    assert!(!can_encode(most + 1, 16000));
    assert!(!can_encode(usize::MAX, 16000));
}

#[test]
fn quantized_magnitude_is_the_exact_floor_or_one_more() {
    let mut above = 0u32;
    let mut bits: u32 = 0x3700_0000;
    while bits < 0x3f80_0000 {
        let exact = (f32::from_bits(bits) as f64 * 32767.0).floor() as i16;
        let pcm = quantize(bits);
        assert!(pcm == exact || pcm == exact + 1, "bits {:#010x}", bits);
        if pcm != exact {
            above += 1;
        }
        bits += 97;
    }
    assert!(above > 0);
}
