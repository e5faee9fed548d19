use speedprobe::outcome::Outcome;
use speedprobe::probe::{
    is_success_status, parse_content_length, DownloadProbe, ProbeAction, ProbeConfig, ProbeEvent,
    CONNECT_TIMEOUT_MS, TRANSFER_DEADLINE_MS,
};

fn responded(status: u16, cl: Option<&str>) -> ProbeEvent {
    ProbeEvent::Responded { status, content_length: cl.map(|s| s.as_bytes().to_vec()) }
}

#[test]
fn standard_limits() {
    let c = ProbeConfig::standard();
    assert_eq!(c.connect_timeout_ms, 10_000);
    assert_eq!(c.transfer_deadline_ms, 60_000);
    assert_eq!(CONNECT_TIMEOUT_MS, 10_000);
    assert_eq!(TRANSFER_DEADLINE_MS, 60_000);
}

#[test]
fn success_statuses() {
    assert!(is_success_status(200));
    assert!(is_success_status(204));
    assert!(is_success_status(299));
    assert!(!is_success_status(199));
    assert!(!is_success_status(300));
    assert!(!is_success_status(404));
    assert!(!is_success_status(500));
}

#[test]
fn content_length_values() {
    assert_eq!(parse_content_length(b"1048576"), Some(1_048_576));
    assert_eq!(parse_content_length(b"0"), Some(0));
    assert_eq!(parse_content_length(b"+5"), Some(5));
    assert_eq!(parse_content_length(b"18446744073709551615"), Some(u64::MAX));
    assert_eq!(parse_content_length(b"18446744073709551616"), None);
    assert_eq!(parse_content_length(b""), None);
    assert_eq!(parse_content_length(b"+"), None);
    assert_eq!(parse_content_length(b"12a"), None);
    assert_eq!(parse_content_length(b"-1"), None);
    assert_eq!(parse_content_length(b" 12"), None);
}

#[test]
fn scenario_one_mebibyte_in_half_a_second() {
    let mut p = DownloadProbe::new(ProbeConfig::standard());
    assert_eq!(
        p.step(responded(200, Some("1048576"))),
        ProbeAction::ReadBody { expected_total: Some(1_048_576) }
    );
    let mut bytes = 0u64;
    for t in [125u64, 250, 375, 500] {
        bytes += 262_144;
        assert_eq!(
            p.step(ProbeEvent::Chunk { len: 262_144, elapsed_ms: t }),
            ProbeAction::Progress { bytes, expected_total: Some(1_048_576) }
        );
    }
    assert_eq!(
        p.step(ProbeEvent::BodyEnded { elapsed_ms: 500 }),
        ProbeAction::Finish(Outcome::Speed(2_097_152))
    );
    assert!(p.is_done());
}

#[test]
fn scenario_no_response_within_connect_timeout() {
    let mut p = DownloadProbe::new(ProbeConfig::standard());
    let a = p.step(ProbeEvent::ConnectTimedOut);
    assert_eq!(a, ProbeAction::Finish(Outcome::ConnectTimeout));
    assert_eq!(Outcome::ConnectTimeout.speed(), None);
    assert_eq!(p.step(ProbeEvent::Chunk { len: 1, elapsed_ms: 1 }), ProbeAction::Finish(Outcome::ConnectTimeout));
}

#[test]
fn scenario_slow_stream_passes_deadline() {
    let mut p = DownloadProbe::new(ProbeConfig::standard());
    assert_eq!(p.step(responded(200, None)), ProbeAction::ReadBody { expected_total: None });
    assert_eq!(
        p.step(ProbeEvent::Chunk { len: 1000, elapsed_ms: 30_000 }),
        ProbeAction::Progress { bytes: 1000, expected_total: None }
    );
    assert_eq!(
        p.step(ProbeEvent::Chunk { len: 1000, elapsed_ms: 60_001 }),
        ProbeAction::Finish(Outcome::TransferTimeout)
    );
    assert_eq!(
        p.step(ProbeEvent::BodyEnded { elapsed_ms: 61_000 }),
        ProbeAction::Finish(Outcome::TransferTimeout)
    );
}

#[test]
fn bad_status_never_reads_body() {
    for code in [404u16, 500, 301, 199] {
        let mut p = DownloadProbe::new(ProbeConfig::standard());
        assert_eq!(p.step(responded(code, Some("10"))), ProbeAction::Finish(Outcome::BadStatus(code)));
        assert!(p.is_done());
        assert_eq!(
            p.step(ProbeEvent::Chunk { len: 10, elapsed_ms: 5 }),
            ProbeAction::Finish(Outcome::BadStatus(code))
        );
        assert_eq!(Outcome::BadStatus(code).speed(), None);
    }
}

#[test]
fn request_and_body_failures() {
    let mut p = DownloadProbe::new(ProbeConfig::standard());
    assert_eq!(
        p.step(ProbeEvent::RequestFailed("dns".to_string())),
        ProbeAction::Finish(Outcome::TransportError("dns".to_string()))
    );
    let mut p = DownloadProbe::new(ProbeConfig::standard());
    p.step(responded(200, Some("nonsense")));
    assert_eq!(
        p.step(ProbeEvent::BodyFailed("reset".to_string())),
        ProbeAction::Finish(Outcome::TransportError("reset".to_string()))
    );
}

#[test]
fn out_of_order_events_end_in_transport_error() {
    let mut p = DownloadProbe::new(ProbeConfig::standard());
    assert!(matches!(
        p.step(ProbeEvent::BodyEnded { elapsed_ms: 3 }),
        ProbeAction::Finish(Outcome::TransportError(_))
    ));
    let mut p = DownloadProbe::new(ProbeConfig::standard());
    p.step(responded(200, None));
    assert!(matches!(p.step(responded(200, None)), ProbeAction::Finish(Outcome::TransportError(_))));
}

#[test]
fn instant_body_reports_unavailable_rate() {
    let mut p = DownloadProbe::new(ProbeConfig { connect_timeout_ms: 1, transfer_deadline_ms: 5 });
    p.step(responded(200, Some("3")));
    p.step(ProbeEvent::Chunk { len: 3, elapsed_ms: 0 });
    assert_eq!(p.step(ProbeEvent::BodyEnded { elapsed_ms: 0 }), ProbeAction::Finish(Outcome::RateUnavailable));
}
