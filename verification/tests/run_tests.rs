use craftgif::run::{CountingWriter, RunState, Scheduler};

#[test]
fn dispatch_hands_out_ordinals_in_order() {
    let mut s = Scheduler::new(3);
    assert_eq!(s.dispatch_next(), Some(0));
    assert_eq!(s.dispatch_next(), Some(1));
    assert_eq!(s.state, RunState::Dispatching);
    assert_eq!(s.dispatch_next(), Some(2));
    assert_eq!(s.state, RunState::Collecting);
}

#[test]
fn writer_receives_frames_in_order_despite_reverse_completion() {
    let n = 5u32;
    let mut s = Scheduler::new(n);
    let mut launched = Vec::new();
    while let Some(i) = s.dispatch_next() {
        launched.push(i);
    }
    assert_eq!(launched, vec![0, 1, 2, 3, 4]);

    // Workers finish in reverse order: frame 4 first, frame 0 last.
    let mut finished: Vec<Option<u32>> = vec![None; n as usize];
    for i in (0..n).rev() {
        finished[i as usize] = Some(i);
    }

    // Collection still blocks on ordinal 0 first, so the writer sees
    // 0, 1, 2, 3, 4.
    let mut written = Vec::new();
    while s.state == RunState::Collecting {
        let i = s.next_collect();
        let frame = finished[i as usize].take().expect("worker joined twice");
        written.push(frame);
        s.frame_written(i);
    }
    assert_eq!(written, vec![0, 1, 2, 3, 4]);
    assert_eq!(s.state, RunState::Finalizing);
    s.finalized();
    assert_eq!(s.state, RunState::Done);
}

#[test]
fn single_frame_run_writes_exactly_one_frame() {
    let mut s = Scheduler::new(1);
    assert_eq!(s.dispatch_next(), Some(0));
    assert_eq!(s.dispatch_next(), None);
    assert_eq!(s.state, RunState::Collecting);
    let mut writes = 0;
    while s.state == RunState::Collecting {
        let i = s.next_collect();
        assert_eq!(i, 0);
        writes += 1;
        s.frame_written(i);
    }
    assert_eq!(writes, 1);
    s.finalized();
    assert_eq!(s.state, RunState::Done);
}

#[test]
fn failed_worker_stops_the_run_before_finalizing() {
    let mut s = Scheduler::new(2);
    assert_eq!(s.dispatch_next(), Some(0));
    assert_eq!(s.dispatch_next(), Some(1));
    assert_eq!(s.next_collect(), 0);
    s.frame_written(0);
    // The worker for frame 1 failed: the run errors out and is never
    // finalized.
    s.worker_failed();
    assert_eq!(s.state, RunState::Errored);
    assert_eq!(s.collected, 1);
}

#[test]
fn failed_dispatch_stops_the_run_before_collecting() {
    let mut s = Scheduler::new(3);
    assert_eq!(s.dispatch_next(), Some(0));
    // Resolving frame 1 failed: the run errors out with nothing written.
    s.dispatch_failed();
    assert_eq!(s.state, RunState::Errored);
    assert_eq!(s.collected, 0);
}

#[test]
fn counting_writer_tallies_reported_bytes() {
    let mut w: CountingWriter<Vec<u8>> = CountingWriter::new(Vec::new());
    assert_eq!(w.count(), 0);
    w.add_written(10);
    w.add_written(3);
    assert_eq!(w.count(), 13);
}
