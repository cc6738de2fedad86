use adc_spectrum::buffer::{SampleBuffer, UninitBuffer, SAMPLE_COUNT};

#[test]
fn block_holds_1024_samples() {
    assert_eq!(SAMPLE_COUNT, 1024);
    assert_eq!(SampleBuffer::zeroed().len(), 1024);
}

#[test]
fn zeroed_block_reads_zero_in_every_slot() {
    let buffer = SampleBuffer::zeroed();
    for index in 0..SAMPLE_COUNT {
        assert_eq!(buffer.get(index), Some(0));
    }
    assert_eq!(buffer.as_slice(), &[0u16; 1024][..]);
}

#[test]
fn reading_past_the_block_gives_nothing() {
    let buffer = SampleBuffer::zeroed();
    assert_eq!(buffer.get(SAMPLE_COUNT), None);
    assert_eq!(buffer.get(usize::MAX), None);
}

#[test]
fn fresh_handle_is_not_complete() {
    let raw = UninitBuffer::new();
    assert!(!raw.is_complete());
    assert!(raw.finish().is_err());
}

#[test]
fn handle_with_one_slot_left_does_not_finish() {
    let mut raw = UninitBuffer::new();
    for index in 0..SAMPLE_COUNT - 1 {
        raw = raw.write(index, 7);
    }
    assert!(!raw.is_complete());
    let raw = match raw.finish() {
        Ok(_) => panic!("a block with an unwritten slot must not be handed out"),
        Err(raw) => raw,
    };
    let raw = raw.write(SAMPLE_COUNT - 1, 9);
    assert!(raw.is_complete());
    let buffer = raw.finish().unwrap();
    assert_eq!(buffer.get(0), Some(7));
    assert_eq!(buffer.get(SAMPLE_COUNT - 2), Some(7));
    assert_eq!(buffer.get(SAMPLE_COUNT - 1), Some(9));
}

#[test]
fn slots_may_be_written_in_any_order_and_again() {
    let mut raw = UninitBuffer::new();
    for index in (0..SAMPLE_COUNT).rev() {
        raw = raw.write(index, index as u16);
    }
    raw = raw.write(3, 65535);
    let buffer = raw.finish().unwrap();
    assert_eq!(buffer.get(0), Some(0));
    assert_eq!(buffer.get(3), Some(65535));
    assert_eq!(buffer.get(1023), Some(1023));
}

#[test]
fn write_past_the_block_changes_nothing() {
    let mut raw = UninitBuffer::new();
    raw = raw.write(SAMPLE_COUNT, 5);
    raw = raw.write(usize::MAX, 5);
    assert!(!raw.is_complete());
    for index in 0..SAMPLE_COUNT {
        raw = raw.write(index, 1);
    }
    raw = raw.write(SAMPLE_COUNT, 5);
    let buffer = raw.finish().unwrap();
    assert_eq!(buffer.as_slice(), &[1u16; 1024][..]);
}

#[test]
fn from_samples_takes_exactly_one_block() {
    let samples: Vec<u16> = (0..1024).map(|n| (n * 3) as u16).collect();
    let buffer = SampleBuffer::from_samples(samples.clone()).unwrap();
    assert_eq!(buffer.as_slice(), &samples[..]);
    assert_eq!(buffer.get(1023), Some(3069));
}

#[test]
fn from_samples_hands_back_a_wrong_length() {
    assert_eq!(SampleBuffer::from_samples(vec![1, 2, 3]).unwrap_err(), vec![1, 2, 3]);
    assert_eq!(SampleBuffer::from_samples(Vec::new()).unwrap_err(), Vec::<u16>::new());
    assert_eq!(SampleBuffer::from_samples(vec![0; 1025]).unwrap_err().len(), 1025);
}

#[test]
fn overwrite_replaces_every_slot() {
    let mut buffer = SampleBuffer::zeroed();
    let captured: Vec<u16> = (0..1024).map(|n| 65535 - n as u16).collect();
    assert!(buffer.overwrite(&captured));
    assert_eq!(buffer.as_slice(), &captured[..]);
}

#[test]
fn overwrite_refuses_a_wrong_length() {
    let mut buffer = SampleBuffer::from_samples(vec![4; 1024]).unwrap();
    assert!(!buffer.overwrite(&[1, 2, 3]));
    assert!(!buffer.overwrite(&[9; 1025]));
    assert_eq!(buffer.as_slice(), &[4u16; 1024][..]);
}
