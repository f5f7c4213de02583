use greend::idle::idle_step;
use greend::idle::macos::idle_ns_from_ioreg;
use greend::idle::sample_rate_for_idle;
use greend::idle::IdleAction;
use greend::idle::IdleEvent;

const REPORT: &str = "+-o Root  <class IORegistryEntry, id 0x100000100>\n  | {\n  |   \"HIDIdleTime\" = 1234567890\r\n  |   \"HIDKeyboard\" = 1\n  | }\n";

#[test]
fn reads_idle_time_from_report() {
    assert_eq!(idle_ns_from_ioreg(REPORT), Some(1234567890));
}

#[test]
fn first_mention_decides() {
    let report = "a = 1\n\"HIDIdleTime\" = oops\n\"HIDIdleTime\" = 5\n";
    assert_eq!(idle_ns_from_ioreg(report), None);
    let report = "\"HIDIdleTimeX\" = 7 = 8\nHIDIdleTime = 9";
    assert_eq!(idle_ns_from_ioreg(report), Some(7));
}

#[test]
fn missing_or_malformed_idle_time() {
    assert_eq!(idle_ns_from_ioreg(""), None);
    assert_eq!(idle_ns_from_ioreg("nothing here\n"), None);
    assert_eq!(idle_ns_from_ioreg("HIDIdleTime 12\n"), None);
    assert_eq!(idle_ns_from_ioreg("HIDIdleTime =\n"), None);
    assert_eq!(idle_ns_from_ioreg("HIDIdleTime = 99999999999999999999\n"), None);
    assert_eq!(idle_ns_from_ioreg("HIDIdleTime =\u{a0}+42\u{3000}"), Some(42));
}

#[test]
fn sample_rate_steps() {
    assert_eq!(sample_rate_for_idle(None), 5_000);
    assert_eq!(sample_rate_for_idle(Some(0)), 5_000);
    assert_eq!(sample_rate_for_idle(Some(30_000_000_000)), 5_000);
    assert_eq!(sample_rate_for_idle(Some(30_000_000_001)), 15_000);
    assert_eq!(sample_rate_for_idle(Some(60_000_000_000)), 15_000);
    assert_eq!(sample_rate_for_idle(Some(60_000_000_001)), 30_000);
    assert_eq!(sample_rate_for_idle(Some(300_000_000_001)), 60_000);
    assert_eq!(sample_rate_for_idle(Some(900_000_000_000)), 60_000);
    assert_eq!(sample_rate_for_idle(Some(900_000_000_001)), 1_800_000);
    assert_eq!(sample_rate_for_idle(Some(u64::MAX)), 1_800_000);
}

#[test]
fn sample_rate_never_drops_as_idle_time_grows() {
    let mut last = 0;
    for secs in 0..2000u64 {
        let rate = sample_rate_for_idle(Some(secs * 1_000_000_000 + 1));
        assert!(rate >= last);
        last = rate;
    }
}

#[test]
fn idle_loop_decisions() {
    assert_eq!(idle_step(IdleEvent::ShutdownChanged), IdleAction::Exit);
    assert_eq!(idle_step(IdleEvent::RateRejected), IdleAction::Exit);
    assert_eq!(
        idle_step(IdleEvent::Tick { idle_ns: Some(61_000_000_000) }),
        IdleAction::Publish { rate_ms: 30_000 }
    );
    assert_eq!(idle_step(IdleEvent::Tick { idle_ns: None }), IdleAction::Publish { rate_ms: 5_000 });
}
