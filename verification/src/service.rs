//! The replies of the service, as plain values: what each route answers,
//! before anything is put on the wire.

use crate::clock::{calculate_uptime, seconds_of, span_since};
use crate::cui::{is_valid_cui, validate_cui};
use std::time::SystemTime;
use vstd::prelude::*;

verus! {

/// The HTTP status code of a reply to a well-served request.
pub const STATUS_OK: u16 = 200;

/// The HTTP status code of a reply to a request that names no valid CUI.
pub const STATUS_BAD_REQUEST: u16 = 400;

/// What the service says of itself.
#[derive(Clone, Copy, Debug)]
pub struct About {
    pub name: &'static str,
    pub description: &'static str,
    pub author: &'static str,
}

/// The answer to a validation request.
#[derive(Clone, Copy, Debug)]
pub struct Verdict {
    pub code: u16,
    pub status: &'static str,
    pub message: &'static str,
}

/// The answer to an uptime request.
#[derive(Clone, Copy, Debug)]
pub struct Uptime {
    pub code: u16,
    pub status: &'static str,
    pub uptime_seconds: u64,
}

/// What the service keeps from its start to its end.
pub struct AppState {
    pub start_time: SystemTime,
}

/// `v` is the answer given for a valid CUI.
pub open spec fn is_valid_verdict(v: Verdict) -> bool {
    &&& v.code == STATUS_OK
    &&& v.status@ == "valid"@
    &&& v.message@ == "CUI is valid"@
}

/// `v` is the answer given for anything that is not a valid CUI.
pub open spec fn is_invalid_verdict(v: Verdict) -> bool {
    &&& v.code == STATUS_BAD_REQUEST
    &&& v.status@ == "invalid"@
    &&& v.message@ == "Invalid CUI"@
}

/// `u` reports a running service that has been up for `seconds` seconds.
pub open spec fn is_online(u: Uptime, seconds: u64) -> bool {
    &&& u.code == STATUS_OK
    &&& u.status@ == "online"@
    &&& u.uptime_seconds == seconds
}

/// The name, purpose and author of the service.
pub fn about() -> (info: About)
    ensures
        info.name@ == "CUI Validator API"@,
        info.description@ == "Validate a Romanian company identification number (CUI)"@,
        info.author@ == "Cristian L."@,
{
    About {
        name: "CUI Validator API",
        description: "Validate a Romanian company identification number (CUI)",
        author: "Cristian L.",
    }
}

/// The answer for the candidate `cui`: `Ok` with the answer for a valid CUI
/// where it is one, `Err` with the answer for an invalid one where it is not.
pub fn validate(cui: String) -> (reply: Result<Verdict, Verdict>)
    ensures
        is_valid_cui(cui@) ==> reply is Ok && is_valid_verdict(reply->Ok_0),
        !is_valid_cui(cui@) ==> reply is Err && is_invalid_verdict(reply->Err_0),
{
    if validate_cui(cui.as_str()) {
        Ok(Verdict { code: STATUS_OK, status: "valid", message: "CUI is valid" })
    } else {
        Err(Verdict { code: STATUS_BAD_REQUEST, status: "invalid", message: "Invalid CUI" })
    }
}

/// The report of a service that has been up for `seconds` seconds.
pub fn online(seconds: u64) -> (report: Uptime)
    ensures
        is_online(report, seconds),
{
    Uptime { code: STATUS_OK, status: "online", uptime_seconds: seconds }
}

/// `report` is what is answered for a measured uptime of `elapsed`: the
/// online report with those seconds, or nothing where nothing was measured.
pub open spec fn reports(report: Option<Uptime>, elapsed: Option<u64>) -> bool {
    match elapsed {
        Some(seconds) => report matches Some(u) && is_online(u, seconds),
        None => report is None,
    }
}

/// The uptime report at the moment of the call, or `None` if the clock now
/// reads earlier than the start of the service. The clock is read once,
/// during the call; the report is the one for the span from the start of
/// the service to that reading.
pub fn uptime(app_state: &AppState) -> (report: Option<Uptime>)
    ensures
        exists|now: SystemTime|
            reports(report, seconds_of(#[trigger] span_since(now, app_state.start_time))),
{
    uptime_report(calculate_uptime(&app_state.start_time))
}

/// The report for a measured uptime: an online report with the seconds
/// that were measured, or `None` where the measurement gave none.
pub fn uptime_report(elapsed: Option<u64>) -> (report: Option<Uptime>)
    ensures
        reports(report, elapsed),
{
    match elapsed {
        Some(seconds) => Some(online(seconds)),
        None => None,
    }
}

} // verus!
