use sensit_audio_cli::ring::{sample_buffer, write_audio, SILENCE};

#[test]
fn silence_is_the_zero_sample() {
    assert_eq!(SILENCE, 0);
    assert_eq!(f32::from_bits(SILENCE), 0.0);
}

#[test]
fn buffer_needs_a_capacity_that_can_be_had() {
    assert!(sample_buffer(0).is_none());
    assert!(sample_buffer(usize::MAX).is_none());
    assert!(sample_buffer(usize::MAX / 4).is_none());
    assert!(sample_buffer(1).is_some());
    assert!(sample_buffer(8192).is_some());
}

#[test]
fn new_buffer_is_empty() {
    let (_producer, mut consumer) = sample_buffer(4).expect("capacity is valid");
    let mut out = [7u32; 3];
    assert_eq!(write_audio(&mut out, &mut consumer), 0);
    assert_eq!(out, [SILENCE; 3]);
}

#[test]
fn block_is_pushed_whole_or_not_at_all() {
    let (mut producer, mut consumer) = sample_buffer(4).expect("capacity is valid");
    assert!(producer.push_block(&[1, 2, 3]));
    assert!(!producer.push_block(&[4, 5]));
    let mut out = [9u32; 5];
    let copied = write_audio(&mut out, &mut consumer);
    assert_eq!(copied, 3);
    assert_eq!(out, [1, 2, 3, SILENCE, SILENCE]);
    assert!(producer.push_block(&[4, 5]));
    let mut out = [9u32; 2];
    assert_eq!(write_audio(&mut out, &mut consumer), 2);
    assert_eq!(out, [4, 5]);
}

#[test]
fn block_larger_than_the_buffer_is_never_pushed() {
    let (mut producer, mut consumer) = sample_buffer(2).expect("capacity is valid");
    assert!(!producer.push_block(&[1, 2, 3]));
    let mut out = [9u32; 3];
    assert_eq!(write_audio(&mut out, &mut consumer), 0);
    assert_eq!(out, [SILENCE; 3]);
    assert!(producer.push_block(&[1, 2]));
}

#[test]
fn empty_block_is_always_pushed() {
    let (mut producer, mut consumer) = sample_buffer(1).expect("capacity is valid");
    assert!(producer.push_block(&[]));
    assert!(producer.push_block(&[5]));
    assert!(producer.push_block(&[]));
    let mut out = [9u32; 2];
    assert_eq!(write_audio(&mut out, &mut consumer), 1);
    assert_eq!(out, [5, SILENCE]);
}

#[test]
fn producer_waits_until_the_consumer_has_made_room() {
    let (mut producer, mut consumer) = sample_buffer(4).expect("capacity is valid");
    assert!(producer.push_block(&[1, 2, 3, 4]));
    assert!(!producer.push_block(&[5, 6]));
    let mut out = [0u32; 1];
    assert_eq!(write_audio(&mut out, &mut consumer), 1);
    assert_eq!(out, [1]);
    assert!(!producer.push_block(&[5, 6]));
    assert_eq!(write_audio(&mut out, &mut consumer), 1);
    assert_eq!(out, [2]);
    assert!(producer.push_block(&[5, 6]));
    let mut out = [0u32; 4];
    assert_eq!(write_audio(&mut out, &mut consumer), 4);
    assert_eq!(out, [3, 4, 5, 6]);
}

#[test]
fn write_audio_takes_no_more_than_it_is_asked_for() {
    let (mut producer, mut consumer) = sample_buffer(8).expect("capacity is valid");
    assert!(producer.push_block(&[10, 20, 30, 40, 50]));
    let mut out = [0u32; 2];
    assert_eq!(write_audio(&mut out, &mut consumer), 2);
    assert_eq!(out, [10, 20]);
    let mut out = [0u32; 2];
    assert_eq!(write_audio(&mut out, &mut consumer), 2);
    assert_eq!(out, [30, 40]);
    let mut out = [1u32; 2];
    assert_eq!(write_audio(&mut out, &mut consumer), 1);
    assert_eq!(out, [50, SILENCE]);
}

#[test]
fn write_audio_into_nothing_takes_nothing() {
    let (mut producer, mut consumer) = sample_buffer(2).expect("capacity is valid");
    assert!(producer.push_block(&[1, 2]));
    let mut out: [u32; 0] = [];
    assert_eq!(write_audio(&mut out, &mut consumer), 0);
    let mut out = [0u32; 2];
    assert_eq!(write_audio(&mut out, &mut consumer), 2);
    assert_eq!(out, [1, 2]);
}

#[test]
fn samples_keep_their_bits() {
    let (mut producer, mut consumer) = sample_buffer(4).expect("capacity is valid");
    let block: Vec<u32> = [0.5f32, -1.0, 0.0, 1.0].iter().map(|sample| sample.to_bits()).collect();
    assert!(producer.push_block(&block));
    let mut out = [1u32; 4];
    assert_eq!(write_audio(&mut out, &mut consumer), 4);
    let samples: Vec<f32> = out.iter().map(|bits| f32::from_bits(*bits)).collect();
    assert_eq!(samples, vec![0.5, -1.0, 0.0, 1.0]);
}

#[test]
fn consumer_observes_whole_blocks_only() {
    let block_len = 3;
    for capacity in 3..10usize {
        let (mut producer, mut consumer) = sample_buffer(capacity).expect("capacity is valid");
        let mut taken = 0;
        let mut next_sample = 0u32;
        for round in 0..40usize {
            let block: Vec<u32> = (0..block_len).map(|i| next_sample + i).collect();
            if producer.push_block(&block) {
                next_sample += block_len;
            }
            let mut out = vec![0u32; round % 4];
            taken += write_audio(&mut out, &mut consumer);
            let mut rest = vec![0u32; capacity];
            let held = write_audio(&mut rest, &mut consumer);
            assert_eq!((taken + held) % 3, 0);
            assert_eq!(taken + held, next_sample as usize);
            assert!(held <= capacity);
            taken += held;
        }
    }
}

#[test]
fn samples_come_out_in_the_order_they_went_in() {
    let (mut producer, mut consumer) = sample_buffer(5).expect("capacity is valid");
    let mut expected = 0u32;
    let mut next_sample = 0u32;
    for _ in 0..50 {
        if producer.push_block(&[next_sample, next_sample + 1]) {
            next_sample += 2;
        }
        let mut out = [0u32; 1];
        if write_audio(&mut out, &mut consumer) == 1 {
            assert_eq!(out[0], expected);
            expected += 1;
        } else {
            assert_eq!(out[0], SILENCE);
        }
    }
    assert!(expected > 0);
}
