//! The anonymous analytics ping: whether to send one, and what it says.
use vstd::prelude::*;

use crate::text::{chars_eq, to_chars};

verus! {

/// Where analytics pings are sent.
pub const ENDPOINT: &'static str = "https://replay-control-analytics.bubbleb.workers.dev/ping";

/// Anonymous analytics ping payload.
#[derive(Debug)]
pub struct PingRequest {
    pub event: String,
    pub install_id: String,
    pub version: String,
    pub arch: String,
    pub channel: String,
}

/// The canonical (hyphenated, lower-case) text of the UUID that `uuid`'s
/// parser reads in a string; `None` when it reads none.
pub uninterp spec fn uuid_canonical(s: Seq<char>) -> Option<Seq<char>>;

/// `uuid::Uuid::parse_str` followed by `Uuid::to_string`. The result is
/// named, not restated: which spellings the parser accepts is `uuid`'s
/// business.
#[verifier::external_body]
fn canonical_uuid(s: &str) -> (r: Option<String>)
    ensures
        match r {
            Some(c) => uuid_canonical(s@) == Some(c@),
            None => uuid_canonical(s@) is None,
        },
{
    match uuid::Uuid::parse_str(s) {
        Ok(id) => Some(id.to_string()),
        Err(_) => None,
    }
}

/// The analytics settings the ping is built from.
pub struct AnalyticsSettings {
    pub analytics_enabled: bool,
    pub install_id: Option<String>,
    pub version_last_reported: Option<String>,
}

/// A ping to send, and what to persist afterwards.
#[derive(Debug)]
pub struct AnalyticsPing {
    pub ping: PingRequest,
    /// First report of this version: an `install` event.
    pub is_install: bool,
    /// The stored install id was missing or invalid and must be replaced by
    /// the ping's id.
    pub persist_install_id: bool,
}

pub open spec fn stored_id(s: AnalyticsSettings) -> Option<Seq<char>> {
    match s.install_id {
        Some(id) => uuid_canonical(id@),
        None => None,
    }
}

pub open spec fn first_report(s: AnalyticsSettings, current_version: Seq<char>) -> bool {
    match s.version_last_reported {
        Some(v) => v@ != current_version,
        None => true,
    }
}

/// Builds the ping, or `None` when analytics is disabled. The install id is
/// the stored one when it is a valid UUID (in canonical form), and
/// `fresh_install_id` otherwise; the event is `install` when this version
/// has not been reported yet and `heartbeat` after.
pub fn build_analytics_ping(
    settings: &AnalyticsSettings,
    fresh_install_id: String,
    current_version: &str,
    arch: &str,
    channel: &str,
) -> (r: Option<AnalyticsPing>)
    ensures
        r is None <==> !settings.analytics_enabled,
        r matches Some(p) ==> {
            &&& p.persist_install_id == (stored_id(*settings) is None)
            &&& p.ping.install_id@ == (match stored_id(*settings) {
                Some(c) => c,
                None => fresh_install_id@,
            })
            &&& p.is_install == first_report(*settings, current_version@)
            &&& p.ping.event@ == (if p.is_install {
                "install"@
            } else {
                "heartbeat"@
            })
            &&& p.ping.version@ == current_version@
            &&& p.ping.arch@ == arch@
            &&& p.ping.channel@ == channel@
        },
{
    if !settings.analytics_enabled {
        return None;
    }
    let parsed = match &settings.install_id {
        Some(id) => canonical_uuid(id.as_str()),
        None => None,
    };
    let persist = parsed.is_none();
    let install_id = match parsed {
        Some(c) => c,
        None => fresh_install_id,
    };
    let is_install = match &settings.version_last_reported {
        Some(v) => {
            let vc = to_chars(v.as_str());
            !chars_eq(&vc, current_version)
        },
        None => true,
    };
    let event = if is_install {
        String::from_str("install")
    } else {
        String::from_str("heartbeat")
    };
    Some(
        AnalyticsPing {
            ping: PingRequest {
                event,
                install_id,
                version: String::from_str(current_version),
                arch: String::from_str(arch),
                channel: String::from_str(channel),
            },
            is_install,
            persist_install_id: persist,
        },
    )
}

/// Whether a finished send should be recorded: only a successful install
/// ping marks its version as reported.
pub fn should_mark_version_reported(is_install: bool, sent: bool) -> (r: bool)
    ensures
        r == (is_install && sent),
{
    is_install && sent
}

/// Whether the analytics endpoint accepted a ping: a 2xx status.
pub fn ping_accepted(status: u16) -> (r: bool)
    ensures
        r == (200 <= status && status <= 299),
{
    200 <= status && status <= 299
}

} // verus!
