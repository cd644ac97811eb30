use neversleep::latency::rdtsc_loop;
use neversleep::session::{PollDecision, Session};
use neversleep::sync::{sync_step, SyncState};

#[test]
fn end_to_end_loopback_scenario() {
    // Loopback configuration: buffer 1024 frames, period 256 frames,
    // rate 44100 Hz, 2 channels, 32-bit samples.
    let device = "hw:Loopback";
    assert_eq!(device, "hw:Loopback");
    let buffer_size = 1024i64;
    let period = 256usize;
    let channels = 2usize;
    let _rate = 44100u32;

    // Synchronization: the capture ring fills as the hardware runs, the
    // playback ring is writable from the start.
    let mut state = SyncState::Unsynced;
    let mut capture_avail = 0i64;
    let mut sync_polls = 0usize;
    while state != SyncState::Synced {
        let (next, _actions) = sync_step(state, capture_avail, buffer_size, period as i64);
        state = next;
        capture_avail = (capture_avail + 128).min(buffer_size);
        sync_polls += 1;
        assert!(sync_polls < 16, "synchronizer failed to converge");
    }

    // Steady state: each transferring iteration moves exactly
    // 256 frames x 2 channels x 4 bytes = 2048 bytes, `transfers` grows by
    // one on exactly those iterations, `loops` on every iteration.
    let mut session = Session::new(period, channels);
    let poll_schedule = [(100i64, 1024i64), (256, 1024), (0, 1024), (300, 299), (256, 256)];
    let mut expected_loops = 0i64;
    let mut expected_transfers = 0i64;
    for (fc, fp) in poll_schedule {
        let d = session.poll(Some(fc), Some(fp));
        expected_loops += 1;
        assert_eq!(session.loops, expected_loops);
        if d == PollDecision::Transfer {
            let cview: Vec<i32> = (0..(period * channels) as i32).collect();
            let mut pview: Vec<i32> = vec![0; period * channels];
            let frames = session.transfer_period(&cview, &mut pview);
            assert_eq!(frames, period);
            let bytes_moved = frames * channels * 4;
            assert_eq!(bytes_moved, 2048);
            assert_eq!(pview, cview);
            expected_transfers += 1;
        } else {
            assert_eq!(d, PollDecision::Skip);
        }
        assert_eq!(session.transfers, expected_transfers);
    }
    assert_eq!(session.loops, 5);
    assert_eq!(session.transfers, 3);
}

#[test]
fn latency_gaps_min_and_max() {
    let samples: Vec<i64> = vec![0, 10, 15, 100];
    assert_eq!(rdtsc_loop(&samples), (5, 85));
}

#[test]
fn latency_single_sample_keeps_seeds() {
    let samples: Vec<i64> = vec![42];
    assert_eq!(rdtsc_loop(&samples), (1_000_000_000, 0));
}

#[test]
fn latency_negative_gap_lowers_minimum_only() {
    // A counter that steps backwards yields a negative gap: it shows up in
    // the minimum while the maximum keeps its zero seed.
    let samples: Vec<i64> = vec![100, 90];
    assert_eq!(rdtsc_loop(&samples), (-10, 0));
}
