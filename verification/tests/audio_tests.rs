use doubao_voice_input::pcm::{downmix_stereo, pcm_frames, push_samples_le, AudioFileReader};

fn le(samples: &[i16]) -> Vec<u8> {
    samples.iter().flat_map(|s| s.to_le_bytes()).collect()
}

// The source positions of a rate conversion, in single precision.
fn positions(samples: usize, from_rate: u32, to_rate: u32) -> Vec<usize> {
    let ratio = from_rate as f32 / to_rate as f32;
    let new_len = (samples as f32 / ratio) as usize;
    (0..new_len).map(|i| (i as f32 * ratio) as usize).collect()
}

#[test]
fn resample_picks_the_given_positions() {
    let data = le(&[10, 20, 30, 40, 50, 60]);
    // 6 samples from 3 Hz to 2 Hz: 4 samples, from positions 0, 1, 3, 4
    assert_eq!(positions(6, 3, 2), vec![0, 1, 3, 4]);
    assert_eq!(AudioFileReader::resample(&data, &positions(6, 3, 2)), le(&[10, 20, 40, 50]));
    // upsampling doubles each sample
    assert_eq!(AudioFileReader::resample(&le(&[1, -2]), &positions(2, 1, 2)), le(&[1, 1, -2, -2]));
    // positions past the end are skipped
    assert_eq!(AudioFileReader::resample(&le(&[1, 2]), &[1, 5, 0]), le(&[2, 1]));
}

#[test]
fn resample_48k_to_16k_takes_every_third_sample() {
    let samples: Vec<i16> = (0..30).collect();
    let out = AudioFileReader::resample(&le(&samples), &positions(30, 48000, 16000));
    let expect: Vec<i16> = (0..10).map(|i| i * 3).collect();
    assert_eq!(out, le(&expect));
}

#[test]
fn resample_at_44100_follows_single_precision() {
    let samples: Vec<i16> = (0..4000).map(|i| i as i16).collect();
    let p = positions(4000, 44100, 16000);
    assert_eq!(p[1440], 3968);
    let out = AudioFileReader::resample(&le(&samples), &p);
    assert_eq!(out.len(), 2 * p.len());
    assert_eq!(&out[2 * 1440..2 * 1441], &le(&[3968])[..]);
}

#[test]
fn resample_edge_cases() {
    assert!(AudioFileReader::resample(&[], &positions(0, 44100, 16000)).is_empty());
    assert!(AudioFileReader::resample(&le(&[1, 2]), &positions(2, 44100, 0)).is_empty());
    // fewer samples than one output period
    assert!(AudioFileReader::resample(&le(&[1, 2]), &positions(2, 48000, 16000)).is_empty());
    assert!(AudioFileReader::resample(&le(&[1, 2]), &[]).is_empty());
}

#[test]
fn target_rate_conversion() {
    let data = le(&[1, 2, 3, 4]);
    let (same, rate) = AudioFileReader::to_target_rate(data.clone(), 16000, &[]);
    assert_eq!(rate, 16000);
    assert_eq!(same, data);
    let (half, rate) = AudioFileReader::to_target_rate(data, 32000, &positions(4, 32000, 16000));
    assert_eq!(rate, 16000);
    assert_eq!(half, le(&[1, 3]));
}

#[test]
fn samples_to_little_endian() {
    let mut out = vec![0xAA];
    push_samples_le(&mut out, &[1, -1, 256, i16::MIN]);
    assert_eq!(out, vec![0xAA, 1, 0, 0xFF, 0xFF, 0, 1, 0, 0x80]);
}

#[test]
fn frames_are_full_320_sample_blocks() {
    let samples: Vec<i16> = (0..700).map(|i| (i as i16) - 350).collect();
    let frames = pcm_frames(&le(&samples));
    assert_eq!(frames.len(), 2);
    assert_eq!(frames[0], samples[0..320].to_vec());
    assert_eq!(frames[1], samples[320..640].to_vec());
    assert!(pcm_frames(&le(&samples[..319])).is_empty());
}

#[test]
fn stereo_downmix_averages_toward_zero() {
    assert_eq!(downmix_stereo(&[2, 4, -3, 0, 32767, 32767, -32768, -32767]), vec![3, -1, 32767, -32767]);
    assert!(downmix_stereo(&[]).is_empty());
}
