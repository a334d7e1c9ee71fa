//! What is decided before the proxy is up.

use crate::clock::{elapsed_nanos, nanos_between, NANOS_PER_SEC};
use crate::message::ProtocolVersion;
use vstd::prelude::*;

verus! {

/// For how long the first connection is tried.
pub const INITIAL_CONNECT_TIMEOUT_SECS: u128 = 300;

/// Why the proxy does not start.
#[derive(Debug)]
pub enum StartupError {
    /// Nobody said where the server is.
    MissingUrl,
    /// The proxy was told to report a version of the protocol that it does not
    /// know.
    UnsupportedVersion(String),
    /// The first connection could not be made in time.
    InitialConnectTimeout,
}

impl StartupError {
    /// The error in words.
    pub open spec fn text(self) -> Seq<char> {
        match self {
            StartupError::MissingUrl =>
                "Either the URL must be passed as the first argument or the SSE_URL environment variable must be set"@,
            StartupError::UnsupportedVersion(version) => "Unsupported protocol version: "@
                + version@
                + ". Supported versions are: 2024-11-05, 2025-03-26, 2025-06-18, 2025-11-25"@,
            StartupError::InitialConnectTimeout => "Initial connection timed out after 300s"@,
        }
    }

    /// Puts the error in words.
    pub fn describe(&self) -> (r: String)
        ensures
            r@ == self.text(),
    {
        match self {
            StartupError::MissingUrl => String::from_str(
                "Either the URL must be passed as the first argument or the SSE_URL environment variable must be set",
            ),
            StartupError::UnsupportedVersion(version) => String::from_str(
                "Unsupported protocol version: ",
            ).concat(version.as_str()).concat(
                ". Supported versions are: 2024-11-05, 2025-03-26, 2025-06-18, 2025-11-25",
            ),
            StartupError::InitialConnectTimeout => String::from_str(
                "Initial connection timed out after 300s",
            ),
        }
    }
}

/// Where the server is: what was passed as an argument comes first, what the
/// environment says second.
pub fn server_url(argument: Option<String>, environment: Option<String>) -> (r: Result<
    String,
    StartupError,
>)
    ensures
        r == match (argument, environment) {
            (Some(url), _) => Ok::<String, StartupError>(url),
            (None, Some(url)) => Ok(url),
            (None, None) => Err(StartupError::MissingUrl),
        },
{
    match argument {
        Some(url) => Ok(url),
        None => match environment {
            Some(url) => Ok(url),
            None => Err(StartupError::MissingUrl),
        },
    }
}

/// The versions of the protocol that the proxy can be told to report.
pub open spec fn supported(version: Seq<char>) -> bool {
    ||| version == "2024-11-05"@
    ||| version == "2025-03-26"@
    ||| version == "2025-06-18"@
    ||| version == "2025-11-25"@
}

/// Whether the text is this one.
fn reads(text: &String, this: &str) -> (r: bool)
    ensures
        r == (text@ == this@),
{
    *text == String::from_str(this)
}

/// The version of the protocol that the proxy was told to report, if it was told
/// to report one.
pub fn override_version(version: Option<String>) -> (r: Result<
    Option<ProtocolVersion>,
    StartupError,
>)
    ensures
        match version {
            None => r matches Ok(None),
            Some(text) => if supported(text@) {
                r matches Ok(Some(v)) && v.text@ == text@
            } else {
                r matches Err(StartupError::UnsupportedVersion(t)) && t@ == text@
            },
        },
{
    match version {
        None => Ok(None),
        Some(text) => {
            if reads(&text, "2024-11-05") || reads(&text, "2025-03-26") || reads(
                &text,
                "2025-06-18",
            ) || reads(&text, "2025-11-25") {
                Ok(Some(ProtocolVersion { text }))
            } else {
                Err(StartupError::UnsupportedVersion(text))
            }
        },
    }
}

/// What follows an attempt to make the first connection.
#[derive(Debug)]
pub enum InitialStep {
    /// The connection is there.
    Start,
    /// Wait for so many seconds and try again.
    Retry(u64),
    /// Do not start.
    GiveUp(StartupError),
}

/// Decides what follows an attempt to make the first connection. The attempts
/// began at the time `began`, this one ended at the time `now`, and between two
/// of them so many seconds are waited.
pub fn after_initial_attempt(connected: bool, began: u128, now: u128, delay: u64) -> (r: InitialStep)
    ensures
        r == if connected {
            InitialStep::Start
        } else if elapsed_nanos(began, now) >= INITIAL_CONNECT_TIMEOUT_SECS * NANOS_PER_SEC {
            InitialStep::GiveUp(StartupError::InitialConnectTimeout)
        } else {
            InitialStep::Retry(delay)
        },
{
    if connected {
        InitialStep::Start
    } else if nanos_between(began, now) >= INITIAL_CONNECT_TIMEOUT_SECS * NANOS_PER_SEC {
        InitialStep::GiveUp(StartupError::InitialConnectTimeout)
    } else {
        InitialStep::Retry(delay)
    }
}

} // verus!
