use greend::db::daemon_session;
use greend::db::session_at;
use greend::db::session_from_clock;
use greend::db::session_row;
use greend::db::SampleBuffer;
use greend::db::SESSION_NAME;
use greend::schema::MonitoringSession;
use greend::schema::Timestamp;

#[test]
fn buffer_asks_for_a_write_when_full() {
    let mut b: SampleBuffer<u32> = SampleBuffer::new(3);
    assert!(!b.push(1));
    assert!(!b.push(2));
    assert!(b.push(3));
    assert_eq!(b.take_batch(), vec![1, 2, 3]);
    assert!(b.is_empty());
    assert!(!b.push(4));
    assert_eq!(b.len(), 1);
    assert_eq!(b.total_samples(), 4);
    assert_eq!(b.finish(), Some(vec![4]));
    assert_eq!(b.finish(), None);
    assert_eq!(b.total_samples(), 4);
}

#[test]
fn receive_hands_out_full_batches() {
    let mut b: SampleBuffer<u32> = SampleBuffer::new(3);
    assert_eq!(b.receive(1), None);
    assert_eq!(b.receive(2), None);
    assert_eq!(b.len(), 2);
    assert_eq!(b.receive(3), Some(vec![1, 2, 3]));
    assert_eq!(b.len(), 0);
    let mut one: SampleBuffer<u32> = SampleBuffer::new(1);
    assert_eq!(one.receive(9), Some(vec![9]));
    assert!(one.is_empty());
}

#[test]
fn every_sample_is_written_once_in_order() {
    let mut b: SampleBuffer<u32> = SampleBuffer::new(7);
    let mut written = Vec::new();
    for i in 0..100u32 {
        if let Some(batch) = b.receive(i) {
            written.extend(batch);
        }
        assert!(b.len() < 7);
    }
    if let Some(rest) = b.finish() {
        written.extend(rest);
    }
    assert_eq!(written, (0..100).collect::<Vec<_>>());
    assert_eq!(b.batch_size(), 7);
}

#[test]
fn daemon_session_fields() {
    let s = daemon_session("macos").unwrap();
    assert_eq!(s.id, None);
    assert_eq!(s.name, SESSION_NAME);
    assert_eq!(s.name, "greend session");
    assert_eq!(s.os_name.as_deref(), Some("macos"));
    assert!(s.device_name.is_none() && s.os_version.is_none() && s.ended_at.is_none());
    assert!(s.started_at.secs() > 1_600_000_000);
}

#[test]
fn session_rows_carry_rfc3339_text() {
    let s = MonitoringSession {
        id: Some(3),
        name: "n".to_string(),
        device_name: Some("d".to_string()),
        os_name: None,
        os_version: Some("14".to_string()),
        started_at: Timestamp::new(0, 0).unwrap(),
        ended_at: Some(Timestamp::new(1704164645, 500_000_000).unwrap()),
        created_at: Timestamp::new(86400, 0).unwrap(),
    };
    let row = session_row(&s);
    assert_eq!(row.name, "n");
    assert_eq!(row.device_name.as_deref(), Some("d"));
    assert_eq!(row.os_name, None);
    assert_eq!(row.os_version.as_deref(), Some("14"));
    assert_eq!(row.started_at, "1970-01-01T00:00:00+00:00");
    assert_eq!(row.created_at, "1970-01-02T00:00:00+00:00");
    assert_eq!(row.ended_at.as_deref(), Some("2024-01-02T03:04:05.500+00:00"));
}

#[test]
fn sessions_from_clock_readings() {
    let s = session_from_clock("linux", Some((10, 1)), Some((20, 2))).unwrap();
    assert_eq!((s.started_at.secs(), s.started_at.nanos()), (10, 1));
    assert_eq!((s.created_at.secs(), s.created_at.nanos()), (20, 2));
    assert_eq!(s.os_name.as_deref(), Some("linux"));
    assert_eq!(s.name, "greend session");
    assert!(s.id.is_none() && s.ended_at.is_none());
    assert!(session_from_clock("linux", None, Some((20, 2))).is_none());
    assert!(session_from_clock("linux", Some((20, 2)), Some((u64::MAX, 0))).is_none());
    let a = Timestamp::new(5, 0).unwrap();
    let s = session_at("macos", a, a);
    assert_eq!(s.started_at, a);
    assert_eq!(s.created_at, a);
}
