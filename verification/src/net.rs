//! Commands to the network task and the decisions it makes: which command
//! was asked for, what is reported back, what a WPS session ends in, and how
//! long to wait for SNTP.
use vstd::prelude::*;
use vstd::string::StringExecFns;

verus! {

/// A command for the network task.
#[derive(Debug, Clone, Copy, PartialEq, Eq, Structural)]
pub enum NetCommand {
    /// Join a network by WPS push button, then set the clock.
    Wps,
    /// Join the stored network and set the clock by SNTP.
    Ntp,
}

/// The text of a command on the shared command line.
pub open spec fn command_text(c: NetCommand) -> Seq<char> {
    match c {
        NetCommand::Wps => "WPS"@,
        NetCommand::Ntp => "NTP"@,
    }
}

impl NetCommand {
    /// The text of this command.
    pub fn as_str(&self) -> (s: &'static str)
        ensures
            s@ == command_text(*self),
    {
        match self {
            NetCommand::Wps => "WPS",
            NetCommand::Ntp => "NTP",
        }
    }
}

/// Reads the shared command line: the command it names, if any.
pub fn parse_net_command(cmd: &str) -> (res: Option<NetCommand>)
    ensures
        res == Some(NetCommand::Wps) <==> cmd@ == "WPS"@,
        res == Some(NetCommand::Ntp) <==> cmd@ == "NTP"@,
        res is None <==> cmd@ != "WPS"@ && cmd@ != "NTP"@,
{
    proof {
        reveal_strlit("WPS");
        reveal_strlit("NTP");
        assert("WPS"@[0] != "NTP"@[0]);
    }
    let c = String::from_str(cmd);
    if c == String::from_str("WPS") {
        Some(NetCommand::Wps)
    } else if c == String::from_str("NTP") {
        Some(NetCommand::Ntp)
    } else {
        None
    }
}

/// What the network task has reported on the shared result line.
#[derive(Debug, Clone, Copy, PartialEq, Eq, Structural)]
pub enum NetResult {
    /// Nothing final yet.
    Pending,
    /// The command succeeded ("OK").
    Succeeded,
    /// The command failed ("NG").
    Failed,
}

/// Reads the shared result line.
pub fn parse_net_result(text: &str) -> (res: NetResult)
    ensures
        res == NetResult::Succeeded <==> text@ == "OK"@,
        res == NetResult::Failed <==> text@ == "NG"@,
        res == NetResult::Pending <==> text@ != "OK"@ && text@ != "NG"@,
{
    proof {
        reveal_strlit("OK");
        reveal_strlit("NG");
        assert("OK"@[0] != "NG"@[0]);
    }
    let t = String::from_str(text);
    if t == String::from_str("OK") {
        NetResult::Succeeded
    } else if t == String::from_str("NG") {
        NetResult::Failed
    } else {
        NetResult::Pending
    }
}

/// The text reported on the result line when a command has finished.
pub open spec fn result_text(ok: bool) -> Seq<char> {
    if ok { "OK"@ } else { "NG"@ }
}

/// The text to report on the result line for a finished command.
pub fn net_result_text(ok: bool) -> (s: &'static str)
    ensures
        s@ == result_text(ok),
{
    if ok { "OK" } else { "NG" }
}

/// Credentials received by WPS.
#[derive(Debug, Clone, PartialEq, Eq)]
pub struct WpsCredential {
    pub ssid: String,
    pub passphrase: String,
}

/// How a WPS session ended.
#[derive(Debug, Clone, PartialEq, Eq)]
pub enum WpsStatus {
    /// Connected with the credentials received.
    SuccessConnected,
    /// Several access points answered; their credentials.
    SuccessMultipleAccessPoints(Vec<WpsCredential>),
    Failure,
    Timeout,
    /// The access point asked for a PIN.
    Pin,
    /// More than one access point was in push-button mode.
    PbcOverlap,
}

/// Why joining by WPS failed.
#[derive(Debug, Clone, Copy, PartialEq, Eq, Structural)]
pub enum WpsError {
    Failure,
    Timeout,
    Pin,
    PbcOverlap,
    /// After WPS the Wi-Fi was not configured as a station.
    NotStationMode,
}

/// The message reported for a failed WPS session.
pub open spec fn wps_error_text(e: WpsError) -> Seq<char> {
    match e {
        WpsError::Failure => "WPS failure"@,
        WpsError::Timeout => "WPS timeout"@,
        WpsError::Pin => "WPS pin"@,
        WpsError::PbcOverlap => "WPS PBC overlap"@,
        WpsError::NotStationMode => "Not in station mode"@,
    }
}

impl WpsError {
    /// The message reported for this failure.
    pub fn message(&self) -> (s: &'static str)
        ensures
            s@ == wps_error_text(*self),
    {
        match self {
            WpsError::Failure => "WPS failure",
            WpsError::Timeout => "WPS timeout",
            WpsError::Pin => "WPS pin",
            WpsError::PbcOverlap => "WPS PBC overlap",
            WpsError::NotStationMode => "Not in station mode",
        }
    }
}

/// What to do after a WPS session: go on as connected (`Ok(None)`), go on
/// after configuring the given credentials (`Ok(Some(..))`), or fail. When
/// several access points answered, the network name is taken from the first
/// one and the passphrase from the second.
pub fn wps_outcome(status: &WpsStatus) -> (res: Result<Option<WpsCredential>, WpsError>)
    requires
        status matches WpsStatus::SuccessMultipleAccessPoints(c) ==> c@.len() >= 2,
    ensures
        match *status {
            WpsStatus::SuccessConnected => res == Ok::<Option<WpsCredential>, WpsError>(None),
            WpsStatus::SuccessMultipleAccessPoints(c) => res matches Ok(Some(cred))
                && cred.ssid@ == c@[0].ssid@ && cred.passphrase@ == c@[1].passphrase@,
            WpsStatus::Failure => res == Err::<Option<WpsCredential>, WpsError>(WpsError::Failure),
            WpsStatus::Timeout => res == Err::<Option<WpsCredential>, WpsError>(WpsError::Timeout),
            WpsStatus::Pin => res == Err::<Option<WpsCredential>, WpsError>(WpsError::Pin),
            WpsStatus::PbcOverlap => res == Err::<Option<WpsCredential>, WpsError>(WpsError::PbcOverlap),
        },
{
    match status {
        WpsStatus::SuccessConnected => Ok(None),
        WpsStatus::SuccessMultipleAccessPoints(credentials) => {
            let ssid = credentials[0].ssid.clone();
            let passphrase = credentials[1].passphrase.clone();
            Ok(Some(WpsCredential { ssid, passphrase }))
        },
        WpsStatus::Failure => Err(WpsError::Failure),
        WpsStatus::Timeout => Err(WpsError::Timeout),
        WpsStatus::Pin => Err(WpsError::Pin),
        WpsStatus::PbcOverlap => Err(WpsError::PbcOverlap),
    }
}

/// Polls of the SNTP status before giving up.
pub const SNTP_RETRIES: u8 = 10;

/// Milliseconds between polls of the SNTP status.
pub const SNTP_POLL_MS: u64 = 3000;

/// What to do after a poll of the SNTP status.
#[derive(Debug, Clone, Copy, PartialEq, Eq, Structural)]
pub enum SyncStep {
    /// Stop: whether the clock was set.
    Done(bool),
    /// Wait `SNTP_POLL_MS` and poll again.
    Retry,
}

/// One poll: polls left before and after, and what to do.
pub open spec fn sntp_poll(retry: nat, completed: bool) -> (nat, SyncStep) {
    if retry == 0 {
        (0, SyncStep::Done(false))
    } else if completed {
        (retry, SyncStep::Done(true))
    } else {
        ((retry - 1) as nat, SyncStep::Retry)
    }
}

/// Waits for SNTP to set the clock, a bounded number of times.
pub struct SntpWait {
    retry: u8,
}

impl View for SntpWait {
    type V = nat;

    /// Polls left.
    closed spec fn view(&self) -> nat {
        self.retry as nat
    }
}

impl SntpWait {
    /// A wait with all its polls left.
    pub fn new() -> (w: Self)
        ensures
            w@ == SNTP_RETRIES,
    {
        SntpWait { retry: SNTP_RETRIES }
    }

    /// One poll of the SNTP status (`completed` tells whether SNTP reports
    /// the clock set; it is not consulted once no polls are left).
    pub fn poll(&mut self, completed: bool) -> (step: SyncStep)
        ensures
            (final(self)@, step) == sntp_poll(old(self)@, completed),
    {
        if self.retry == 0 {
            SyncStep::Done(false)
        } else if completed {
            SyncStep::Done(true)
        } else {
            self.retry = self.retry - 1;
            SyncStep::Retry
        }
    }
}

/// Where a run of polls with the answers `answers` ends, if it ends within
/// them.
pub open spec fn sntp_run(retry: nat, answers: Seq<bool>) -> Option<bool>
    decreases answers.len(),
{
    if answers.len() == 0 {
        None
    } else {
        match sntp_poll(retry, answers[0]) {
            (r, SyncStep::Done(b)) => Some(b),
            (r, SyncStep::Retry) => sntp_run(r, answers.drop_first()),
        }
    }
}

/// With `retry` polls left, the wait ends within `retry + 1` polls, and it
/// sets the clock exactly when SNTP reports it set on one of the first
/// `retry` polls.
pub proof fn lemma_sntp_wait_bounded(retry: nat, answers: Seq<bool>)
    requires
        answers.len() >= retry + 1,
    ensures
        sntp_run(retry, answers) == Some(exists|i: int| 0 <= i < retry && #[trigger] answers[i]),
    decreases retry,
{
    if retry == 0 {
    } else if answers[0] {
        assert(answers[0]);
    } else {
        lemma_sntp_wait_bounded((retry - 1) as nat, answers.drop_first());
        let rest = answers.drop_first();
        if exists|i: int| 0 <= i < retry && #[trigger] answers[i] {
            let i = choose|i: int| 0 <= i < retry && #[trigger] answers[i];
            assert(rest[i - 1]);
        }
        if exists|i: int| 0 <= i < retry - 1 && #[trigger] rest[i] {
            let i = choose|i: int| 0 <= i < retry - 1 && #[trigger] rest[i];
            assert(answers[i + 1]);
        }
    }
}

} // verus!
