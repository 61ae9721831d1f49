use std::collections::VecDeque;

use selector4nix::chunks::{ChunkOutput, ChunkPhase, ChunkSchedule, LaunchDecision};

const PIECE_LEN: usize = 8;

fn make_bytes(len: usize) -> Vec<u8> {
    (0..len).map(|i| (i % 251) as u8).collect()
}

enum Handle {
    Connecting { offset: usize, len: usize },
    Streaming { pos: usize, end: usize, fail: bool },
    Done,
}

struct Outcome {
    out: Vec<u8>,
    error: bool,
    launched: Vec<(usize, usize)>,
    ended_after_error: bool,
}

/// Drives a schedule the way the chunked stream does, with chunk bodies that come in
/// pieces of eight bytes, one piece per poll.
fn run(
    data_len: usize,
    chunk_max_len: usize,
    window_max_len: usize,
    max_concurrent_requests: usize,
    fail_connect_at: Option<usize>,
    fail_stream_at: Option<usize>,
) -> (Outcome, Vec<u8>) {
    let data = make_bytes(data_len);
    let mut free_permits = max_concurrent_requests - 1;
    let mut held_permits = 1usize;
    let mut s = ChunkSchedule::new(chunk_max_len, data.len(), window_max_len);
    let mut handles: VecDeque<(usize, Handle)> = VecDeque::new();
    if data.len() > 0 {
        handles.push_back((
            0,
            Handle::Streaming { pos: 0, end: chunk_max_len.min(data.len()), fail: fail_stream_at == Some(0) },
        ));
    }
    let mut outcome = Outcome { out: Vec::new(), error: false, launched: Vec::new(), ended_after_error: false };
    for _ in 0..1_000_000 {
        let stripped = s.strip_exhausted();
        for _ in 0..stripped {
            handles.pop_front();
        }
        s.begin_launches();
        loop {
            match s.next_launch() {
                LaunchDecision::Done => break,
                LaunchDecision::Launch { offset, len } => {
                    outcome.launched.push((offset, len));
                    handles.push_back((offset / chunk_max_len, Handle::Connecting { offset, len }));
                }
                LaunchDecision::NeedPermit => {
                    if free_permits > 0 {
                        free_permits -= 1;
                        held_permits += 1;
                        let (offset, len) = s.launch_with_new_permit();
                        outcome.launched.push((offset, len));
                        handles.push_back((offset / chunk_max_len, Handle::Connecting { offset, len }));
                    } else {
                        break;
                    }
                }
            }
        }
        let mut failed = false;
        for i in 0..s.window_len() {
            let idx = handles[i].0;
            if s.phase(i) == ChunkPhase::Connecting {
                if let Handle::Connecting { offset, len } = handles[i].1 {
                    if fail_connect_at == Some(idx) {
                        failed = true;
                        break;
                    }
                    handles[i].1 = Handle::Streaming { pos: offset, end: offset + len, fail: fail_stream_at == Some(idx) };
                    s.on_connected(i);
                }
            }
            if s.phase(i) == ChunkPhase::Transferring {
                if let Handle::Streaming { pos, end, fail } = handles[i].1 {
                    let start = pos - (idx * chunk_max_len);
                    if fail && start > 0 {
                        failed = true;
                        break;
                    }
                    if pos >= end {
                        handles[i].1 = Handle::Done;
                        if s.on_finished(i) && held_permits > 0 {
                            held_permits -= 1;
                            free_permits += 1;
                        }
                    } else {
                        let next = (pos + PIECE_LEN).min(end);
                        s.on_piece(i, data[pos..next].to_vec());
                        handles[i].1 = Handle::Streaming { pos: next, end, fail };
                    }
                }
            }
        }
        if failed {
            s.clear();
            handles.clear();
            free_permits += held_permits;
            held_permits = 0;
            outcome.error = true;
            outcome.ended_after_error = s.consume() == ChunkOutput::End;
            return (outcome, data);
        }
        match s.consume() {
            ChunkOutput::Bytes(b) => outcome.out.extend_from_slice(&b),
            ChunkOutput::Pending => {}
            ChunkOutput::End => return (outcome, data),
        }
    }
    panic!("the stream did not end");
}

#[test]
fn single_chunk_when_chunk_larger_than_total() {
    let (outcome, data) = run(100, 256, 4, 8, None, None);
    assert_eq!(outcome.out, data);
}

#[test]
fn multi_chunk_reassembles_in_order() {
    let (outcome, data) = run(100000, 100, 4, 8, None, None);
    assert_eq!(outcome.out, data);
}

#[test]
fn last_chunk_is_partial() {
    let (outcome, data) = run(997, 100, 4, 8, None, None);
    assert_eq!(outcome.out.len(), 997);
    assert_eq!(outcome.out, data);
    assert_eq!(outcome.launched.last(), Some(&(900, 97)));
}

#[test]
fn window_of_one() {
    let (outcome, data) = run(500, 50, 1, 8, None, None);
    assert_eq!(outcome.out, data);
}

#[test]
fn single_permit() {
    let (outcome, data) = run(500, 50, 8, 1, None, None);
    assert_eq!(outcome.out, data);
}

#[test]
fn connect_error_propagates_and_terminates() {
    let (outcome, data) = run(500, 50, 8, 8, Some(2), None);
    assert!(outcome.error);
    assert!(data.starts_with(&outcome.out));
    assert!(outcome.ended_after_error);
}

#[test]
fn stream_error_propagates_partial_then_terminates() {
    let (outcome, data) = run(500, 50, 8, 8, None, Some(3));
    assert!(outcome.error);
    assert!(data.starts_with(&outcome.out));
    assert!(outcome.ended_after_error);
}

#[test]
fn launched_ranges_tile_the_file() {
    let (outcome, _) = run(1234, 100, 3, 2, None, None);
    let mut expected = 100;
    for (offset, len) in &outcome.launched {
        assert_eq!(*offset, expected);
        expected += len;
    }
    assert_eq!(expected, 1234);
}

#[test]
fn empty_download_ends_at_once() {
    let mut s = ChunkSchedule::new(10, 0, 4);
    assert_eq!(s.window_len(), 0);
    s.begin_launches();
    assert_eq!(s.next_launch(), LaunchDecision::Done);
    assert_eq!(s.consume(), ChunkOutput::End);
}

#[test]
fn chunks_total_counts_partial_chunk() {
    assert_eq!(ChunkSchedule::new(100, 997, 4).chunks_total_exec(), 10);
    assert_eq!(ChunkSchedule::new(100, 1000, 4).chunks_total_exec(), 10);
    assert_eq!(ChunkSchedule::new(256, 100, 4).chunks_total_exec(), 1);
}

#[test]
fn held_permit_is_used_before_asking_for_another() {
    // 300 bytes in chunks of 100: the initial chunk runs under the initial permit.
    let mut s = ChunkSchedule::new(100, 300, 4);
    s.begin_launches();
    assert_eq!(s.next_launch(), LaunchDecision::NeedPermit);
    assert_eq!(s.launch_with_new_permit(), (100, 100));
    // The initial chunk finishes but keeps its permit while bytes are missing.
    s.on_piece(0, vec![1; 100]);
    assert!(s.on_finished(0));
    s.begin_launches();
    assert_eq!(s.next_launch(), LaunchDecision::NeedPermit);

    // With a single permit that is kept back, the next round reuses it.
    let mut s = ChunkSchedule::new(100, 300, 4);
    s.on_piece(0, vec![1; 100]);
    assert!(!s.on_finished(0));
    s.begin_launches();
    assert_eq!(s.next_launch(), LaunchDecision::Launch { offset: 100, len: 100 });
    assert_eq!(s.next_launch(), LaunchDecision::NeedPermit);
}

#[test]
fn waiting_pieces_are_passed_on_oldest_first() {
    let mut s = ChunkSchedule::new(10, 10, 1);
    assert_eq!(s.consume(), ChunkOutput::Pending);
    s.on_piece(0, vec![1, 2]);
    s.on_piece(0, vec![3]);
    assert_eq!(s.consume(), ChunkOutput::Bytes(vec![1, 2]));
    assert_eq!(s.consume(), ChunkOutput::Bytes(vec![3]));
    assert_eq!(s.consume(), ChunkOutput::Pending);
    s.on_finished(0);
    assert_eq!(s.strip_exhausted(), 1);
    assert_eq!(s.consume(), ChunkOutput::End);
}

#[test]
fn each_chunk_is_requested_once_in_order_within_the_window() {
    for (total, chunk, window, permits) in [(997, 100, 4, 8), (500, 50, 8, 1), (1234, 100, 3, 2), (100, 256, 4, 8)] {
        let (outcome, _) = run(total, chunk, window, permits, None, None);
        let indices: Vec<usize> = outcome.launched.iter().map(|(o, _)| o / chunk).collect();
        let expected: Vec<usize> = (1..total.div_ceil(chunk)).collect();
        assert_eq!(indices, expected);
        for (offset, len) in &outcome.launched {
            assert_eq!(offset % chunk, 0);
            assert_eq!(*len, chunk.min(total - offset));
        }
    }
}

#[test]
fn emptied_window_with_bytes_missing_still_launches() {
    let mut s = ChunkSchedule::new(4, 8, 2);
    s.on_piece(0, vec![1, 2, 3, 4]);
    assert!(!s.on_finished(0));
    assert_eq!(s.consume(), ChunkOutput::Bytes(vec![1, 2, 3, 4]));
    assert_eq!(s.strip_exhausted(), 1);
    assert_eq!(s.window_len(), 0);
    s.begin_launches();
    assert_eq!(s.next_launch(), LaunchDecision::Launch { offset: 4, len: 4 });
    assert_eq!(s.consume(), ChunkOutput::Pending);
}
