use qsp_agent::audio::{
    find_audio_config, frame_duration_ms, AudioEncodedFrame, AudioError, FrameAccumulator,
    InputConfigRange, SampleFormat, FRAME_SIZE,
};

#[test]
fn frames_hold_exactly_frame_size_samples() {
    let mut acc: FrameAccumulator<f32> = FrameAccumulator::new();
    let data: Vec<f32> = (0..2000).map(|i| i as f32).collect();
    let frames = acc.push_samples(&data);
    assert_eq!(frames.len(), 2);
    assert!(frames.iter().all(|f| f.len() == FRAME_SIZE));
    let rest = acc.push_samples(&vec![0.0f32; 880]);
    assert_eq!(rest.len(), 1);
    assert_eq!(rest[0].len(), 960);
}

#[test]
fn frames_keep_capture_order_across_calls() {
    let mut acc: FrameAccumulator<u32> = FrameAccumulator::new();
    let mut out: Vec<u32> = Vec::new();
    let mut next: u32 = 0;
    for size in [100usize, 959, 1, 3000, 0, 1920] {
        let chunk: Vec<u32> = (next..next + size as u32).collect();
        next += size as u32;
        for f in acc.push_samples(&chunk) {
            assert_eq!(f.len(), 960);
            out.extend(f);
        }
    }
    assert_eq!(out.len(), 5760);
    assert!(out.iter().enumerate().all(|(i, v)| *v == i as u32));
}

#[test]
fn short_input_emits_no_frame() {
    let mut acc: FrameAccumulator<i16> = FrameAccumulator::new();
    assert!(acc.push_samples(&[]).is_empty());
    assert!(acc.push_samples(&vec![1i16; 959]).is_empty());
    assert_eq!(acc.push_samples(&[2i16]).len(), 1);
}

#[test]
fn duration_follows_sample_count() {
    assert_eq!(frame_duration_ms(960), 20);
    assert_eq!(frame_duration_ms(48000), 1000);
    assert_eq!(frame_duration_ms(47), 0);
    assert_eq!(frame_duration_ms(0), 0);
    assert_eq!(frame_duration_ms(1440), 30);
    assert_eq!(frame_duration_ms(u64::MAX), u64::MAX / 48);
}

#[test]
fn encoded_frame_keeps_bytes_and_duration() {
    let f = AudioEncodedFrame::new(vec![7, 8, 9], 960);
    assert_eq!(f.bytes, vec![7, 8, 9]);
    assert_eq!(f.duration_ms, 20);
}

fn range(channels: u16, min: u32, max: u32, sample_format: SampleFormat) -> InputConfigRange {
    InputConfigRange { channels, min_sample_rate: min, max_sample_rate: max, sample_format }
}

#[test]
fn first_usable_config_is_chosen() {
    let configs = vec![
        range(2, 8000, 96000, SampleFormat::Float32),
        range(1, 8000, 44100, SampleFormat::Float32),
        range(1, 48000, 48000, SampleFormat::Other),
        range(1, 44100, 48000, SampleFormat::Float32),
        range(1, 8000, 192000, SampleFormat::Float32),
    ];
    assert_eq!(find_audio_config(&configs), Ok(3));
}

#[test]
fn no_usable_config_is_an_error() {
    let configs = vec![range(2, 48000, 48000, SampleFormat::Float32), range(1, 48001, 96000, SampleFormat::Float32)];
    assert_eq!(find_audio_config(&configs), Err(AudioError::DeviceConfigurationUnsupported));
    assert_eq!(find_audio_config(&Vec::new()), Err(AudioError::DeviceConfigurationUnsupported));
}
