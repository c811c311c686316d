use bulb_core::session::dps_color_key;
use bulb_core::session::dps_power_key;
use bulb_core::session::DeviceSession;
use bulb_core::session::SendStep;
use bulb_core::BulbConfig;
use bulb_core::BulbError;
use bulb_core::ColorCommand;

fn session() -> DeviceSession {
    DeviceSession::new(BulbConfig::new(
        "device01".to_string(),
        "0123456789abcdef".to_string(),
        "192.168.0.2".to_string(),
        "3.3".to_string(),
    ))
}

#[test]
fn connect_outcomes_drive_lifecycle() {
    let mut s = session();
    assert!(!s.is_connected());
    assert_eq!(s.on_connect_result(true), Ok(()));
    assert!(s.is_connected());
    assert_eq!(s.on_connect_result(false), Err(BulbError::DeviceUnreachable));
    assert!(!s.is_connected());
}

#[test]
fn send_first_attempt_succeeds() {
    let mut s = session();
    let _ = s.on_connect_result(true);
    let step = s.begin_send();
    assert_eq!(step, SendStep::WriteFirst);
    let step = s.send_advance(step, true);
    assert_eq!(step, SendStep::Succeeded);
    assert!(s.is_connected());
}

#[test]
fn send_retry_after_failed_write_succeeds() {
    let mut s = session();
    let _ = s.on_connect_result(true);
    let step = s.begin_send();
    let step = s.send_advance(step, false);
    assert_eq!(step, SendStep::Reconnect);
    let step = s.send_advance(step, true);
    assert_eq!(step, SendStep::WriteSecond);
    let step = s.send_advance(step, true);
    assert_eq!(step, SendStep::Succeeded);
    assert!(s.is_connected());
}

#[test]
fn send_with_both_writes_failing_loses_connection() {
    let mut s = session();
    let _ = s.on_connect_result(true);
    let step = s.begin_send();
    let step = s.send_advance(step, false);
    let step = s.send_advance(step, true);
    let step = s.send_advance(step, false);
    assert_eq!(step, SendStep::Failed(BulbError::ConnectionLost));
    assert!(!s.is_connected());
}

#[test]
fn send_with_failed_reconnect_is_unreachable() {
    let mut s = session();
    let _ = s.on_connect_result(true);
    let step = s.begin_send();
    let step = s.send_advance(step, false);
    let step = s.send_advance(step, false);
    assert_eq!(step, SendStep::Failed(BulbError::DeviceUnreachable));
    assert!(!s.is_connected());
}

#[test]
fn payload_carries_the_command() {
    let s = session();
    let cmd = ColorCommand::new(120, 1000, 1000, true);
    let p = s.build_payload(&cmd, 1700000000).unwrap();
    assert_eq!(p.dev_id, "device01");
    assert_eq!(p.gw_id, "device01");
    assert_eq!(p.t, "1700000000");
    assert!(p.power_on);
    assert_eq!(p.color, "0007803e803e800000000");
    assert_eq!(dps_power_key(), "20");
    assert_eq!(dps_color_key(), "28");
}

#[test]
fn payload_refuses_an_invalid_command() {
    let s = session();
    let cmd = ColorCommand::new(361, 0, 0, true);
    assert!(matches!(s.build_payload(&cmd, 0), Err(BulbError::InvalidInput)));
}
