use greend::subprocess::macos::app_name_for;
use greend::subprocess::macos::category_for_coalition;
use greend::subprocess::macos::label_tasks;
use greend::subprocess::macos::last_dot_segment;
use greend::subprocess::macos::powermetrics_args;
use greend::subprocess::macos::process_app_map;
use greend::subprocess::macos::sample_timestamp;
use greend::subprocess::macos::strip_nul_terminator;
use greend::subprocess::macos::CoalitionInfo;
use greend::subprocess::macos::MetricsAction;
use greend::subprocess::macos::MetricsEvent;
use greend::subprocess::macos::PowermetricsLoop;
use greend::subprocess::macos::TaskInfo;
use greend::subprocess::app_table::APP_TABLE;
use greend::subprocess::macos::POWERMETRICS_PROGRAM;

#[test]
fn app_map_holds_every_table_entry() {
    let map = process_app_map();
    assert_eq!(map.len(), APP_TABLE.len());
    for (process, app) in APP_TABLE.iter() {
        assert_eq!(map.get(process), Some(app));
    }
    assert_eq!(map.get("Discord Helper (GPU)"), Some(&"Discord"));
    assert_eq!(map.get("mdworker_shared"), Some(&"Spotlight"));
    assert_eq!(map.get("Microsoft Teams Helper"), Some(&"Microsoft Teams"));
    assert_eq!(map.get("no such process"), None);
}

#[test]
fn last_segment_of_bundle_names() {
    assert_eq!(last_dot_segment("com.apple.Safari"), "Safari");
    assert_eq!(last_dot_segment("zoom.us"), "us");
    assert_eq!(last_dot_segment("nodots"), "nodots");
    assert_eq!(last_dot_segment("trailing."), "");
    assert_eq!(last_dot_segment(""), "");
}

#[test]
fn app_names_prefer_the_map() {
    let map = process_app_map();
    assert_eq!(app_name_for(&map, "com.hnc.Discord", "Discord Helper (Renderer)"), "Discord");
    assert_eq!(app_name_for(&map, "com.apple.Safari", "com.apple.WebKit.WebContent"), "Safari");
    assert_eq!(app_name_for(&map, "com.spotify.client", "unknown helper"), "client");
    assert_eq!(app_name_for(&map, "kernel_task", "kernel_task"), "kernel_task");
}

#[test]
fn categories_of_coalitions() {
    assert_eq!(category_for_coalition("com.apple.mail"), Some("system".to_string()));
    assert_eq!(category_for_coalition("com.apple.Safari"), Some("system".to_string()));
    assert_eq!(category_for_coalition("org.mozilla.Firefox"), Some("browser".to_string()));
    assert_eq!(category_for_coalition("com.google.Chrome"), Some("browser".to_string()));
    assert_eq!(category_for_coalition("com.example.SafariLike"), Some("browser".to_string()));
    assert_eq!(category_for_coalition("com.microsoft.VSCode"), None);
    assert_eq!(category_for_coalition("apple.com."), None);
}

#[test]
fn labels_follow_coalitions_and_tasks() {
    let map = process_app_map();
    let coalitions = vec![
        CoalitionInfo {
            name: "com.google.Chrome".to_string(),
            tasks: vec![
                TaskInfo { pid: 10, name: "Google Chrome".to_string() },
                TaskInfo { pid: 11, name: "Google Chrome Helper (GPU)".to_string() },
            ],
        },
        CoalitionInfo { name: "com.example.Empty".to_string(), tasks: vec![] },
        CoalitionInfo {
            name: "com.apple.WindowServer".to_string(),
            tasks: vec![TaskInfo { pid: 1, name: "WindowServer".to_string() }],
        },
    ];
    let labels = label_tasks(&map, &coalitions);
    assert_eq!(labels.len(), 3);
    assert_eq!(labels[0].pid, 10);
    assert_eq!(labels[0].app_name, "Chrome");
    assert_eq!(labels[0].category.as_deref(), Some("browser"));
    assert_eq!(labels[1].pid, 11);
    assert_eq!(labels[1].app_name, "Google Chrome");
    assert_eq!(labels[2].pid, 1);
    assert_eq!(labels[2].app_name, "WindowServer");
    assert_eq!(labels[2].category.as_deref(), Some("system"));
    assert!(label_tasks(&map, &Vec::new()).is_empty());
}

#[test]
fn nul_terminator_is_dropped_once() {
    assert_eq!(strip_nul_terminator(&[1, 2, 0]), &[1, 2]);
    assert_eq!(strip_nul_terminator(&[1, 2]), &[1, 2]);
    assert_eq!(strip_nul_terminator(&[0, 0]), &[0]);
    assert_eq!(strip_nul_terminator(&[]), &[] as &[u8]);
}

#[test]
fn timestamps_of_samples() {
    let t = sample_timestamp("2024-01-02T03:04:05.123456789Z").unwrap();
    assert_eq!((t.secs(), t.nanos()), (1704164645, 123456789));
    let t = sample_timestamp("2024-01-02T04:04:05+01:00").unwrap();
    assert_eq!((t.secs(), t.nanos()), (1704164645, 0));
    assert!(sample_timestamp("yesterday").is_none());
    assert!(sample_timestamp("").is_none());
}

#[test]
fn sampler_command_line() {
    assert_eq!(POWERMETRICS_PROGRAM, "sudo");
    let args = powermetrics_args(5000);
    let want = [
        "powermetrics",
        "--samplers",
        "default",
        "--show-process-gpu",
        "--show-process-netstats",
        "--show-process-energy",
        "--show-process-coalition",
        "--format",
        "plist",
        "-i",
        "5000",
    ];
    assert_eq!(args, want.iter().map(|s| s.to_string()).collect::<Vec<_>>());
    assert_eq!(powermetrics_args(0)[10], "0");
}

#[test]
fn sampler_loop_decisions() {
    let mut l = PowermetricsLoop::new(7, 5000);
    assert_eq!(l.step(MetricsEvent::ShutdownChanged { shutting_down: false }), MetricsAction::Continue);
    assert_eq!(l.step(MetricsEvent::IntervalSettled { interval_ms: 5000 }), MetricsAction::Continue);
    assert_eq!(
        l.step(MetricsEvent::IntervalSettled { interval_ms: 15000 }),
        MetricsAction::Restart { interval_ms: 15000 }
    );
    assert_eq!(l.current_interval, 15000);
    assert_eq!(l.step(MetricsEvent::ReadDone { bytes: 100 }), MetricsAction::ParseBuffer);
    assert_eq!(l.step(MetricsEvent::ParseFailed), MetricsAction::DiscardBuffer);
    assert_eq!(l.step(MetricsEvent::BatchSent { converted: 4, sent: 4 }), MetricsAction::Continue);
    assert_eq!(l.sample_count, 4);
    assert_eq!(l.step(MetricsEvent::BatchSent { converted: 3, sent: 1 }), MetricsAction::Stop);
    assert_eq!(l.sample_count, 4);
    assert_eq!(l.step(MetricsEvent::ReadDone { bytes: 0 }), MetricsAction::Stop);
    assert_eq!(l.step(MetricsEvent::ReadFailed), MetricsAction::Fail);
    assert_eq!(l.step(MetricsEvent::ShutdownChanged { shutting_down: true }), MetricsAction::Stop);
    assert_eq!(l.session_id, 7);
}
