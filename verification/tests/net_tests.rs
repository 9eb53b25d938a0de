use rusty_hangulclock::net::{
    net_result_text, parse_net_command, parse_net_result, wps_outcome, NetCommand, NetResult, SntpWait,
    SyncStep, WpsCredential, WpsError, WpsStatus, SNTP_RETRIES,
};

#[test]
fn commands_are_read_from_the_command_line() {
    assert_eq!(parse_net_command("WPS"), Some(NetCommand::Wps));
    assert_eq!(parse_net_command("NTP"), Some(NetCommand::Ntp));
    assert_eq!(parse_net_command(""), None);
    assert_eq!(parse_net_command("wps"), None);
    assert_eq!(parse_net_command("NTP "), None);
    assert_eq!(NetCommand::Wps.as_str(), "WPS");
    assert_eq!(NetCommand::Ntp.as_str(), "NTP");
}

#[test]
fn results_are_read_from_the_result_line() {
    assert_eq!(parse_net_result("OK"), NetResult::Succeeded);
    assert_eq!(parse_net_result("NG"), NetResult::Failed);
    assert_eq!(parse_net_result(""), NetResult::Pending);
    assert_eq!(parse_net_result("ok"), NetResult::Pending);
    assert_eq!(net_result_text(true), "OK");
    assert_eq!(net_result_text(false), "NG");
}

fn cred(ssid: &str, pass: &str) -> WpsCredential {
    WpsCredential { ssid: ssid.to_string(), passphrase: pass.to_string() }
}

#[test]
fn wps_outcomes() {
    assert_eq!(wps_outcome(&WpsStatus::SuccessConnected), Ok(None));
    assert_eq!(
        wps_outcome(&WpsStatus::SuccessMultipleAccessPoints(vec![cred("a", "pa"), cred("b", "pb")])),
        Ok(Some(cred("a", "pb")))
    );
    assert_eq!(wps_outcome(&WpsStatus::Failure), Err(WpsError::Failure));
    assert_eq!(wps_outcome(&WpsStatus::Timeout), Err(WpsError::Timeout));
    assert_eq!(wps_outcome(&WpsStatus::Pin), Err(WpsError::Pin));
    assert_eq!(wps_outcome(&WpsStatus::PbcOverlap), Err(WpsError::PbcOverlap));
    assert_eq!(WpsError::Failure.message(), "WPS failure");
    assert_eq!(WpsError::Timeout.message(), "WPS timeout");
    assert_eq!(WpsError::Pin.message(), "WPS pin");
    assert_eq!(WpsError::PbcOverlap.message(), "WPS PBC overlap");
    assert_eq!(WpsError::NotStationMode.message(), "Not in station mode");
}

#[test]
fn sntp_wait_succeeds_when_synced() {
    let mut w = SntpWait::new();
    assert_eq!(w.poll(false), SyncStep::Retry);
    assert_eq!(w.poll(false), SyncStep::Retry);
    assert_eq!(w.poll(true), SyncStep::Done(true));
}

#[test]
fn sntp_wait_gives_up_after_ten_polls() {
    let mut w = SntpWait::new();
    for _ in 0..SNTP_RETRIES {
        assert_eq!(w.poll(false), SyncStep::Retry);
    }
    // No polls left: even a completed status is not taken.
    assert_eq!(w.poll(true), SyncStep::Done(false));
}
