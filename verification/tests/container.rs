use firesynth::config::RenderConfig;
use firesynth::encode::{
    encode, interleave, CHANNELS, CHANNELS_AT, CONTAINER_BITS_AT, DATA_LENGTH_AT, FORMAT_EXTENSIBLE, FORMAT_IEEE_FLOAT,
    FORMAT_TAG_AT, HEADER_BYTES, MAX_RATE, SAMPLE_RATE_AT, SUB_FORMAT_AT, VALID_BITS_AT,
};
use firesynth::engine::SampleBuffers;
use firesynth::error::RenderError;

fn bits(samples: &[f32]) -> Vec<u32> {
    samples.iter().map(|s| s.to_bits()).collect()
}

#[test]
fn buffers_need_equal_channels() {
    assert!(SampleBuffers::new(vec![1, 2, 3], vec![4, 5, 6]).is_some());
    assert!(SampleBuffers::new(vec![], vec![]).is_some());
    assert!(SampleBuffers::new(vec![1, 2, 3], vec![4, 5]).is_none());
    assert!(SampleBuffers::new(vec![], vec![1]).is_none());
}

#[test]
fn buffers_hand_back_their_channels() {
    let buffers = SampleBuffers::new(vec![1, 2, 3], vec![4, 5, 6]).unwrap();
    assert_eq!(buffers.frames(), 3);
    assert_eq!(buffers.left(), &vec![1, 2, 3]);
    assert_eq!(buffers.right(), &vec![4, 5, 6]);
}

#[test]
fn interleaves_left_then_right() {
    let buffers = SampleBuffers::new(vec![1, 2, 3], vec![10, 20, 30]).unwrap();
    assert_eq!(interleave(&buffers), vec![1, 10, 2, 20, 3, 30]);
    let empty = SampleBuffers::new(vec![], vec![]).unwrap();
    assert_eq!(interleave(&empty), Vec::<u32>::new());
}

#[test]
fn empty_container_is_a_bare_header() {
    let config = RenderConfig::new(44100, false).unwrap();
    let buffers = SampleBuffers::new(vec![], vec![]).unwrap();
    let bytes = encode(&config, &buffers).unwrap();
    assert_eq!(bytes.len(), HEADER_BYTES);
    assert_eq!(&bytes[0..4], b"RIFF");
    assert_eq!(&bytes[8..12], b"WAVE");
    assert_eq!(&bytes[60..64], b"data");
    assert_eq!(&bytes[64..68], &[0, 0, 0, 0]);
    let reader = hound::WavReader::new(std::io::Cursor::new(bytes)).unwrap();
    assert_eq!(reader.len(), 0);
    assert_eq!(reader.duration(), 0);
}

#[test]
fn container_describes_stereo_float() {
    let config = RenderConfig::new(48000, true).unwrap();
    let buffers = SampleBuffers::new(bits(&[0.5, -0.5]), bits(&[0.25, -0.25])).unwrap();
    let bytes = encode(&config, &buffers).unwrap();
    let reader = hound::WavReader::new(std::io::Cursor::new(bytes)).unwrap();
    let spec = reader.spec();
    assert_eq!(spec.channels, 2);
    assert_eq!(spec.sample_rate, 48000);
    assert_eq!(spec.bits_per_sample, 32);
    assert_eq!(spec.sample_format, hound::SampleFormat::Float);
    assert_eq!(reader.duration(), 2);
    assert_eq!(reader.len(), 4);
}

#[test]
fn container_holds_the_samples_in_frame_order() {
    let config = RenderConfig::new(44100, false).unwrap();
    let left = [0.0_f32, 0.5, -1.0, 0.125];
    let right = [1.0_f32, -0.5, 0.75, -0.0];
    let buffers = SampleBuffers::new(bits(&left), bits(&right)).unwrap();
    let bytes = encode(&config, &buffers).unwrap();
    assert_eq!(bytes.len(), HEADER_BYTES + 8 * 4);
    let mut reader = hound::WavReader::new(std::io::Cursor::new(bytes)).unwrap();
    let read: Vec<u32> = reader.samples::<f32>().map(|s| s.unwrap().to_bits()).collect();
    let expected = bits(&[0.0, 1.0, 0.5, -0.5, -1.0, 0.75, 0.125, -0.0]);
    assert_eq!(read, expected);
}

#[test]
fn payload_is_little_endian() {
    let config = RenderConfig::new(16000, false).unwrap();
    let buffers = SampleBuffers::new(vec![0x0403_0201], vec![0xA0B0_C0D0]).unwrap();
    let bytes = encode(&config, &buffers).unwrap();
    assert_eq!(&bytes[HEADER_BYTES..], &[0x01, 0x02, 0x03, 0x04, 0xD0, 0xC0, 0xB0, 0xA0]);
    assert_eq!(&bytes[4..8], &(60_u32 + 8).to_le_bytes());
    assert_eq!(&bytes[CHANNELS_AT..CHANNELS_AT + 2], &CHANNELS.to_le_bytes());
    assert_eq!(&bytes[SAMPLE_RATE_AT..SAMPLE_RATE_AT + 4], &16000_u32.to_le_bytes());
    assert_eq!(&bytes[DATA_LENGTH_AT..DATA_LENGTH_AT + 4], &8_u32.to_le_bytes());
}

#[test]
fn the_header_announces_rate_and_length() {
    for (rate, frames) in [(16000_u32, 0_usize), (44100, 1), (192000, 1000), (536_870_911, 3)] {
        let config = RenderConfig::new(rate as i32, false).unwrap();
        let buffers = SampleBuffers::new(vec![7; frames], vec![9; frames]).unwrap();
        let bytes = encode(&config, &buffers).unwrap();
        assert_eq!(bytes.len(), HEADER_BYTES + 8 * frames);
        assert_eq!(&bytes[CHANNELS_AT..CHANNELS_AT + 2], &[2, 0]);
        assert_eq!(&bytes[SAMPLE_RATE_AT..SAMPLE_RATE_AT + 4], &rate.to_le_bytes());
        assert_eq!(&bytes[DATA_LENGTH_AT..DATA_LENGTH_AT + 4], &((8 * frames) as u32).to_le_bytes());
    }
}

#[test]
fn the_header_announces_float_samples() {
    let config = RenderConfig::new(44100, false).unwrap();
    let buffers = SampleBuffers::new(vec![1, 2], vec![3, 4]).unwrap();
    let bytes = encode(&config, &buffers).unwrap();
    assert_eq!(&bytes[FORMAT_TAG_AT..FORMAT_TAG_AT + 2], &FORMAT_EXTENSIBLE.to_le_bytes());
    assert_eq!(&bytes[CONTAINER_BITS_AT..CONTAINER_BITS_AT + 2], &[32, 0]);
    assert_eq!(&bytes[VALID_BITS_AT..VALID_BITS_AT + 2], &[32, 0]);
    assert_eq!(&bytes[SUB_FORMAT_AT..SUB_FORMAT_AT + 2], &FORMAT_IEEE_FLOAT.to_le_bytes());
}

#[test]
fn encoding_succeeds_wherever_the_container_fits() {
    for rate in [1, 16000, 44100, MAX_RATE] {
        for frames in [0_usize, 1, 2, 3, 1000, 65537] {
            let config = RenderConfig::new(rate, false).unwrap();
            let buffers = SampleBuffers::new(vec![5; frames], vec![6; frames]).unwrap();
            assert_eq!(encode(&config, &buffers).unwrap().len(), HEADER_BYTES + 8 * frames);
        }
    }
}

#[test]
fn encoding_twice_gives_the_same_bytes() {
    let config = RenderConfig::new(22050, true).unwrap();
    let buffers = SampleBuffers::new(bits(&[0.1, 0.2, 0.3]), bits(&[-0.1, -0.2, -0.3])).unwrap();
    assert_eq!(encode(&config, &buffers), encode(&config, &buffers));
}

#[test]
fn a_rate_beyond_the_header_is_an_output_error() {
    let buffers = SampleBuffers::new(vec![1], vec![2]).unwrap();
    let config = RenderConfig::new(MAX_RATE, false).unwrap();
    assert!(encode(&config, &buffers).is_ok());
    let config = RenderConfig::new(MAX_RATE + 1, false).unwrap();
    assert_eq!(encode(&config, &buffers), Err(RenderError::OutputError));
    let config = RenderConfig::new(i32::MAX, false).unwrap();
    assert_eq!(encode(&config, &buffers), Err(RenderError::OutputError));
}
