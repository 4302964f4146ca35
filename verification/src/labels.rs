//! Labels for what the system reports of a playback connection.

use vstd::prelude::*;
use crate::text::{lemma_signed_decimal_not_empty, signed_decimal};
use windows::Media::Audio::AudioPlaybackConnectionState;
use windows::Media::Audio::AudioPlaybackConnectionOpenResultStatus;

verus! {

/// The number that the system gives for a connection without an open route.
pub const STATE_CLOSED: i32 = 0;

/// The number that the system gives for a connection with an open route.
pub const STATE_OPENED: i32 = 1;

/// The number that the system gives when a connection was opened.
pub const STATUS_SUCCESS: i32 = 0;

/// The number that the system gives when opening took too long.
pub const STATUS_REQUEST_TIMED_OUT: i32 = 1;

/// The number that the system gives when it refused to open the connection.
pub const STATUS_DENIED_BY_SYSTEM: i32 = 2;

/// The number that the system gives when opening failed for a reason it does
/// not tell.
pub const STATUS_UNKNOWN_FAILURE: i32 = 3;

/// The lifecycle value that the system reports of a playback connection, as
/// the number it gave.
#[derive(Clone, Copy, Debug, PartialEq, Eq, Structural)]
pub struct ConnectionState {
    pub code: i32,
}

/// How an attempt to open a playback connection ended, as the number that the
/// system gave.
#[derive(Clone, Copy, Debug, PartialEq, Eq, Structural)]
pub struct OpenStatus {
    pub code: i32,
}

impl ConnectionState {
    /// The state that the system numbers `code`.
    pub fn from_code(code: i32) -> (state: Self)
        ensures
            state.code == code,
    {
        ConnectionState { code }
    }

    /// The state of a connection with an open route.
    pub fn opened() -> (state: Self)
        ensures
            state.code == STATE_OPENED,
    {
        ConnectionState { code: STATE_OPENED }
    }

    /// The state of a connection without an open route.
    pub fn closed() -> (state: Self)
        ensures
            state.code == STATE_CLOSED,
    {
        ConnectionState { code: STATE_CLOSED }
    }
}

impl OpenStatus {
    /// The outcome that the system numbers `code`.
    pub fn from_code(code: i32) -> (status: Self)
        ensures
            status.code == code,
    {
        OpenStatus { code }
    }
}

/// The raw text of a state without a label: the type's name, then the number
/// in brackets.
pub open spec fn raw_state_text(code: i32) -> Seq<char> {
    "AudioPlaybackConnectionState("@ + signed_decimal(code as int) + ")"@
}

/// The raw text of a status without a label: the type's name, then the number
/// in brackets.
pub open spec fn raw_status_text(code: i32) -> Seq<char> {
    "AudioPlaybackConnectionOpenResultStatus("@ + signed_decimal(code as int) + ")"@
}

/// The label of a state: its name where it has one, its raw text where not.
pub open spec fn state_label(state: ConnectionState) -> Seq<char> {
    if state.code == STATE_OPENED {
        "Opened"@
    } else if state.code == STATE_CLOSED {
        "Closed"@
    } else {
        raw_state_text(state.code)
    }
}

/// The label of a status: its name where it has one, its raw text where not.
pub open spec fn status_label(status: OpenStatus) -> Seq<char> {
    if status.code == STATUS_SUCCESS {
        "Success"@
    } else if status.code == STATUS_DENIED_BY_SYSTEM {
        "DeniedBySystem"@
    } else if status.code == STATUS_REQUEST_TIMED_OUT {
        "RequestTimedOut"@
    } else if status.code == STATUS_UNKNOWN_FAILURE {
        "UnknownFailure"@
    } else {
        raw_status_text(status.code)
    }
}

/// Every state has a label that is not empty.
pub proof fn lemma_state_label_not_empty(state: ConnectionState)
    ensures
        state_label(state).len() > 0,
{
    reveal_strlit("Opened");
    reveal_strlit("Closed");
    lemma_signed_decimal_not_empty(state.code as int);
}

/// Every status has a label that is not empty.
pub proof fn lemma_status_label_not_empty(status: OpenStatus)
    ensures
        status_label(status).len() > 0,
{
    reveal_strlit("Success");
    reveal_strlit("DeniedBySystem");
    reveal_strlit("RequestTimedOut");
    reveal_strlit("UnknownFailure");
    lemma_signed_decimal_not_empty(status.code as int);
}

/// Debug formatting of `windows::Media::Audio::AudioPlaybackConnectionState`.
/// Believed, not proved: the text is the type's name, an opening bracket, the
/// wrapped number in decimal and a closing bracket.
#[verifier::external_body]
fn debug_state(code: i32) -> (out: String)
    ensures
        out@ == raw_state_text(code),
{
    format!("{:?}", AudioPlaybackConnectionState(code))
}

/// Debug formatting of
/// `windows::Media::Audio::AudioPlaybackConnectionOpenResultStatus`.
/// Believed, not proved: the text is the type's name, an opening bracket, the
/// wrapped number in decimal and a closing bracket.
#[verifier::external_body]
fn debug_status(code: i32) -> (out: String)
    ensures
        out@ == raw_status_text(code),
{
    format!("{:?}", AudioPlaybackConnectionOpenResultStatus(code))
}

/// The text shown for a connection state: `Opened` and `Closed` by name, any
/// other value in its raw form. The text is never empty.
pub fn format_state(state: ConnectionState) -> (out: String)
    ensures
        out@ == state_label(state),
        out@.len() > 0,
{
    proof {
        lemma_state_label_not_empty(state);
    }
    if state.code == STATE_OPENED {
        String::from_str("Opened")
    } else if state.code == STATE_CLOSED {
        String::from_str("Closed")
    } else {
        debug_state(state.code)
    }
}

/// The text shown for the outcome of opening a connection: the four known
/// outcomes by name, any other value in its raw form. The text is never empty.
pub fn format_status(status: OpenStatus) -> (out: String)
    ensures
        out@ == status_label(status),
        out@.len() > 0,
{
    proof {
        lemma_status_label_not_empty(status);
    }
    if status.code == STATUS_SUCCESS {
        String::from_str("Success")
    } else if status.code == STATUS_DENIED_BY_SYSTEM {
        String::from_str("DeniedBySystem")
    } else if status.code == STATUS_REQUEST_TIMED_OUT {
        String::from_str("RequestTimedOut")
    } else if status.code == STATUS_UNKNOWN_FAILURE {
        String::from_str("UnknownFailure")
    } else {
        debug_status(status.code)
    }
}

} // verus!
