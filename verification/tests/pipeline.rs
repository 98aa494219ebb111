use playground::channel::FrameChannel;
use playground::codec::{decode_frame, encode_frame};
use playground::consumer::update_bars;
use playground::smoothing::smooth_frame;
use playground::visualizer::{ReadOutcome, Visualizer, WorkerAction};

#[test]
fn decode_reads_little_endian_pairs() {
    let bytes: Vec<u8> = vec![0x34, 0x12, 0xff, 0xff, 0x00, 0x00];
    let frame = decode_frame(&bytes);
    assert_eq!(frame, vec![0x1234, 0xffff, 0x0000]);
}

#[test]
fn decode_produces_one_bar_per_byte_pair() {
    for bar_count in 1..16usize {
        let bytes: Vec<u8> = (0..2 * bar_count).map(|i| i as u8).collect();
        let frame = decode_frame(&bytes);
        assert_eq!(frame.len(), bar_count);
        for (i, &value) in frame.iter().enumerate() {
            let expected = bytes[2 * i] as u16 | (bytes[2 * i + 1] as u16) << 8;
            assert_eq!(value, expected);
        }
    }
}

#[test]
fn decode_is_inverse_of_encode() {
    let frame: Vec<u16> = vec![0, 1, 255, 256, 65535, 4242];
    let bytes = encode_frame(&frame);
    assert_eq!(decode_frame(&bytes), frame);

    let bytes: Vec<u8> = vec![9, 0, 0, 9, 127, 128];
    let roundtrip = encode_frame(&decode_frame(&bytes));
    assert_eq!(roundtrip, bytes);
}

#[test]
fn smoothing_keeps_flat_input_flat_twice() {
    let flat: Vec<u16> = vec![5, 5, 5, 5, 5];
    let once = smooth_frame(&flat);
    assert_eq!(once, flat);
    let twice = smooth_frame(&once);
    assert_eq!(twice, flat);
}

#[test]
fn smoothing_averages_clipped_windows() {
    let spike: Vec<u16> = vec![0, 100, 0];
    assert_eq!(smooth_frame(&spike), vec![50, 33, 50]);
}

#[test]
fn smoothing_single_bar_is_identity() {
    let one: Vec<u16> = vec![4711];
    assert_eq!(smooth_frame(&one), vec![4711]);
}

#[test]
fn channel_delivers_frames_in_send_order() {
    let f1: Vec<u16> = vec![1, 1, 1];
    let f2: Vec<u16> = vec![2, 2, 2];
    let f3: Vec<u16> = vec![3, 3, 3];
    let mut ch = FrameChannel::new();
    ch.send(f1.clone()).unwrap();
    ch.send(f2.clone()).unwrap();
    ch.send(f3.clone()).unwrap();
    assert_eq!(ch.recv(), Some(f1));
    assert_eq!(ch.recv(), Some(f2));
    assert_eq!(ch.recv(), Some(f3));
    assert_eq!(ch.recv(), None);
}

#[test]
fn send_fails_after_receiver_is_gone() {
    let mut ch = FrameChannel::new();
    ch.send(vec![7, 7]).unwrap();
    ch.close();
    let frame = vec![8, 8];
    match ch.send(frame.clone()) {
        Ok(()) => panic!("send succeeded on a closed channel"),
        Err(back) => assert_eq!(back, frame),
    }
    assert_eq!(ch.recv(), Some(vec![7, 7]));
}

#[test]
fn pipeline_end_to_end_two_frames() {
    let vis = Visualizer::new(3);
    let raw_frames: [Vec<u16>; 2] = [vec![100, 0, 100], vec![0, 100, 0]];
    let mut ch = FrameChannel::new();
    for raw in &raw_frames {
        let bytes = encode_frame(raw);
        assert_eq!(bytes.len(), vis.frame_len());
        let smoothed = vis.process_frame(&bytes);
        ch.send(smoothed).unwrap();
    }
    assert_eq!(ch.recv(), Some(vec![50, 66, 50]));
    assert_eq!(ch.recv(), Some(vec![50, 33, 50]));
    assert_eq!(ch.recv(), None);
}

#[test]
fn worker_delivers_full_frames() {
    let vis = Visualizer::new(2);
    let bytes = encode_frame(&vec![6, 6]);
    match vis.worker_step(ReadOutcome::Frame(bytes)) {
        WorkerAction::Deliver(frame) => assert_eq!(frame, vec![6, 6]),
        WorkerAction::Abort(_) => panic!("full frame aborted"),
    }
}

#[test]
fn worker_aborts_on_short_read() {
    let vis = Visualizer::new(2);
    match vis.worker_step(ReadOutcome::Frame(vec![1, 2, 3])) {
        WorkerAction::Deliver(_) => panic!("short read delivered a frame"),
        WorkerAction::Abort(_) => {}
    }
}

#[test]
fn worker_aborts_with_stream_diagnostics() {
    let vis = Visualizer::new(2);
    let diag = String::from("analyzer exited");
    match vis.worker_step(ReadOutcome::Failed(diag.clone())) {
        WorkerAction::Deliver(_) => panic!("failed read delivered a frame"),
        WorkerAction::Abort(text) => assert_eq!(text, diag),
    }
}

#[test]
fn consumer_redraws_only_on_change() {
    let mut current: Vec<u16> = vec![1, 2, 3];
    let changed = update_bars(&mut current, &vec![1, 2, 3]);
    assert!(!changed);
    assert_eq!(current, vec![1, 2, 3]);

    let changed = update_bars(&mut current, &vec![1, 9, 3]);
    assert!(changed);
    assert_eq!(current, vec![1, 9, 3]);
}
