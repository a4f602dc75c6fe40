use sendto::clock::ticks_from_timespec;
use sendto::corrector::clamp_to_lead_floor;
use sendto::corrector::Corrector;
use sendto::corrector::LEAD_TIME_FLOOR;
use sendto::corrector::OFFSET_RESET_GAP;
use sendto::plan::segment_plan;
use sendto::sender::paced_plan;
use sendto::sender::plan_send;
use sendto::sender::select_path;
use sendto::sender::SendLoop;
use sendto::sender::SendPlan;
use sendto::sender::TxPath;
use sendto::ticks::std_time_to_u64;
use sendto::ticks::MonotonicTime;
use sendto::ticks::TICK_LIMIT;

#[test]
fn clock_adapter_exact() {
    let t = MonotonicTime { secs: 1, nanos: 5 };
    assert_eq!(std_time_to_u64(&t), 1_000_000_005);
    let zero = MonotonicTime { secs: 0, nanos: 0 };
    assert_eq!(std_time_to_u64(&zero), 0);
    let sub_second = MonotonicTime { secs: 0, nanos: 999_999_999 };
    assert_eq!(std_time_to_u64(&sub_second), 999_999_999);
}

#[test]
fn timespec_conversion_normal() {
    assert_eq!(ticks_from_timespec(2, 500), 2_000_000_500);
    assert_eq!(ticks_from_timespec(0, 0), 0);
}

#[test]
fn timespec_conversion_clamps_negative() {
    assert_eq!(ticks_from_timespec(-5, 3), 0);
    assert_eq!(ticks_from_timespec(3, -1), 0);
}

#[test]
fn timespec_conversion_saturates() {
    assert_eq!(ticks_from_timespec(i64::MAX, 0), TICK_LIMIT);
    assert_eq!(ticks_from_timespec(4_000_000_000, 999), TICK_LIMIT);
}

#[test]
fn segment_plan_three_chunks() {
    let p = segment_plan(3000, 1200);
    assert_eq!(p, vec![(0, 1200), (1200, 1200), (2400, 600)]);
    let total: usize = p.iter().map(|c| c.1).sum();
    assert_eq!(total, 3000);
}

#[test]
fn segment_plan_empty_buffer() {
    let p = segment_plan(0, 1200);
    assert!(p.is_empty());
}

#[test]
fn segment_plan_exact_multiple() {
    let p = segment_plan(2400, 1200);
    assert_eq!(p, vec![(0, 1200), (1200, 1200)]);
}

#[test]
fn segment_plan_single_short_chunk() {
    let p = segment_plan(100, 1200);
    assert_eq!(p, vec![(0, 100)]);
}

#[test]
fn corrector_raises_offset_below_floor() {
    let now: u64 = 1_000_000_000;
    let mut c = Corrector::new();
    let r = c.correct(now + 100_000, now);
    assert_eq!(r, now + 400_000);
    assert_eq!(c.offset, 300_000);
    assert_eq!(c.last_send_time, (now + 400_000) as i64);
}

#[test]
fn corrector_decays_offset_after_gap() {
    let now: u64 = 1_000_000_000;
    let mut c = Corrector::new();
    c.correct(now + 100_000, now);
    assert_eq!(c.offset, 300_000);
    // the next request is past the reset gap and has enough lead on its own
    let last = c.last_send_time as u64;
    let requested = last + OFFSET_RESET_GAP;
    let later_now = requested - LEAD_TIME_FLOOR;
    let r = c.correct(requested, later_now);
    assert_eq!(c.offset, 0);
    assert_eq!(r, requested);
}

#[test]
fn corrector_keeps_offset_within_gap() {
    let now: u64 = 1_000_000_000;
    let mut c = Corrector::new();
    c.correct(now + 100_000, now);
    let last = c.last_send_time as u64;
    // enough lead, but not yet past the reset gap: the offset stays
    let requested = last + OFFSET_RESET_GAP - 1;
    let later_now = requested - LEAD_TIME_FLOOR;
    let r = c.correct(requested, later_now);
    assert_eq!(c.offset, 300_000);
    assert_eq!(r, requested + 300_000);
}

#[test]
fn corrector_always_keeps_lead_floor() {
    let cases: [(u64, u64); 5] = [
        (0, 0),
        (0, 5_000_000_000),
        (7_000_000_000, 7_000_000_000),
        (7_000_000_123, 7_000_000_000),
        (9_000_000_000, 2_000_000_000),
    ];
    for (requested, now) in cases {
        let mut c = Corrector::new();
        let r = c.correct(requested, now);
        assert!(r >= now + LEAD_TIME_FLOOR);
        assert!(r >= requested);
        assert!(c.offset >= 0);
    }
}

#[test]
fn clamp_to_lead_floor_cases() {
    assert_eq!(clamp_to_lead_floor(5, 1_000_000), 1_400_000);
    assert_eq!(clamp_to_lead_floor(1_400_000, 1_000_000), 1_400_000);
    assert_eq!(clamp_to_lead_floor(9_000_000, 1_000_000), 9_000_000);
}

#[test]
fn stateful_adjustment_against_real_clock() {
    let mut c = Corrector::new();
    let r = c.adjust_send_time_for_etf_v2(0);
    // on any platform with a readable TAI clock the reading is far above zero
    let corrected = r.expect("TAI clock should be readable");
    assert!(corrected >= LEAD_TIME_FLOOR);
    assert_eq!(corrected as i64, c.last_send_time);
    assert!(c.offset >= 0);
}

#[test]
fn stateless_adjustment_against_real_clock() {
    let r = sendto::corrector::adjust_send_time_for_etf(0);
    let corrected = r.expect("TAI clock should be readable");
    assert!(corrected >= LEAD_TIME_FLOOR);
}

#[test]
fn select_path_covers_all_configurations() {
    assert!(matches!(select_path(true, true), TxPath::OffloadPacing));
    assert!(matches!(select_path(true, false), TxPath::PerPacketPacing));
    assert!(matches!(select_path(false, true), TxPath::Plain));
    assert!(matches!(select_path(false, false), TxPath::Plain));
}

#[test]
fn paced_plan_fails_fast_on_short_timestamps() {
    let tstamps = vec![
        MonotonicTime { secs: 1, nanos: 0 },
        MonotonicTime { secs: 2, nanos: 0 },
    ];
    // 3000 bytes at 1200 per segment need three timestamps
    assert!(paced_plan(3000, 1200, &tstamps).is_none());
}

#[test]
fn paced_plan_annotates_each_chunk() {
    let tstamps = vec![
        MonotonicTime { secs: 1, nanos: 10 },
        MonotonicTime { secs: 2, nanos: 20 },
        MonotonicTime { secs: 3, nanos: 30 },
    ];
    let p = paced_plan(3000, 1200, &tstamps).expect("three timestamps suffice");
    assert_eq!(
        p,
        vec![
            (0, 1200, 1_000_000_010),
            (1200, 1200, 2_000_000_020),
            (2400, 600, 3_000_000_030),
        ]
    );
}

#[test]
fn send_loop_error_free_run_reports_whole_buffer() {
    let mut sl = SendLoop::new(3000, 1200);
    let mut lens: Vec<usize> = Vec::new();
    while let Some((off, len)) = sl.next_chunk() {
        assert_eq!(off, sl.off);
        lens.push(len);
        // a socket that never errors accepts every chunk in full
        sl.advance(len);
    }
    assert!(sl.done());
    assert_eq!(lens, vec![1200, 1200, 600]);
    assert_eq!(sl.written, 3000);
    assert_eq!(sl.chunks_done, 3);
}

#[test]
fn send_loop_partial_acceptance_is_recorded() {
    let mut sl = SendLoop::new(1000, 400);
    sl.advance(400);
    sl.advance(100);
    sl.advance(200);
    assert!(sl.done());
    assert_eq!(sl.written, 700);
}

#[test]
fn send_loop_empty_buffer_is_a_noop() {
    let sl = SendLoop::new(0, 1200);
    assert!(sl.done());
    assert!(sl.next_chunk().is_none());
    assert_eq!(sl.written, 0);
}

#[test]
fn plan_send_plain_path() {
    let mut c = Corrector::new();
    let at = MonotonicTime { secs: 5, nanos: 0 };
    let r = plan_send(&mut c, 3000, &at, 0, 1200, false, false, &Vec::new());
    match r {
        Some(SendPlan::Plain(p)) => {
            assert_eq!(p, vec![(0, 1200), (1200, 1200), (2400, 600)]);
        },
        _ => panic!("expected the plain path"),
    }
    // the plain path leaves the corrector untouched
    assert_eq!(c.offset, 0);
    assert_eq!(c.last_send_time, 0);
}

#[test]
fn plan_send_paced_path() {
    let mut c = Corrector::new();
    let at = MonotonicTime { secs: 5, nanos: 0 };
    let tstamps = vec![
        MonotonicTime { secs: 1, nanos: 0 },
        MonotonicTime { secs: 2, nanos: 0 },
        MonotonicTime { secs: 3, nanos: 0 },
    ];
    let r = plan_send(&mut c, 3000, &at, 0, 1200, true, false, &tstamps);
    match r {
        Some(SendPlan::Paced(p)) => {
            assert_eq!(
                p,
                vec![
                    (0, 1200, 1_000_000_000),
                    (1200, 1200, 2_000_000_000),
                    (2400, 600, 3_000_000_000),
                ]
            );
        },
        _ => panic!("expected the per-packet paced path"),
    }
    assert_eq!(c.offset, 0);
}

#[test]
fn plan_send_offload_path_builds_hints() {
    let mut c = Corrector::new();
    let at = MonotonicTime { secs: 5, nanos: 0 };
    let r = plan_send(&mut c, 3000, &at, 1_250_000, 1200, true, true, &Vec::new());
    match r {
        Some(SendPlan::Offload(h)) => {
            assert_eq!(h.segment_size, 1200);
            assert_eq!(h.pacing_rate, 1_250_000);
            assert!(h.departure_ticks >= 5_000_000_000);
            assert_eq!(h.departure_ticks as i64, c.last_send_time);
        },
        _ => panic!("expected the offload path"),
    }
}

#[test]
fn plan_send_never_picks_offload_when_probe_failed() {
    let mut c = Corrector::new();
    let at = MonotonicTime { secs: 5, nanos: 0 };
    let tstamps = vec![
        MonotonicTime { secs: 1, nanos: 0 },
        MonotonicTime { secs: 2, nanos: 0 },
        MonotonicTime { secs: 3, nanos: 0 },
    ];
    let paced = plan_send(&mut c, 3000, &at, 7, 1200, true, false, &tstamps);
    assert!(!matches!(paced, Some(SendPlan::Offload(_))));
    let plain = plan_send(&mut c, 3000, &at, 7, 1200, false, false, &tstamps);
    assert!(!matches!(plain, Some(SendPlan::Offload(_))));
}
