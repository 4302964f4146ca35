//! The lines that the tool writes to the console.

use vstd::prelude::*;
use crate::labels::{format_state, format_status, state_label, status_label};
use crate::labels::{ConnectionState, OpenStatus};
use crate::text::{decimal, render_decimal};

verus! {

/// `name` in cyan: the escape sequence that switches the colour on, the name,
/// and the sequence that switches it off.
pub open spec fn highlighted(name: Seq<char>) -> Seq<char> {
    "\u{001B}[36m"@ + name + "\u{001B}[0m"@
}

/// The notice that a scan has begun.
pub open spec fn scanning_text() -> Seq<char> {
    "Scanning for devices. Press enter to stop scanning and select a device."@
}

/// The notice that the scan has found the device `name`.
pub open spec fn added_text(name: Seq<char>) -> Seq<char> {
    "[DeviceWatcher] Added: "@ + highlighted(name)
}

/// The notice that the scan has found nothing.
pub open spec fn no_devices_text() -> Seq<char> {
    "No devices found."@
}

/// The heading above the list of devices.
pub open spec fn heading_text() -> Seq<char> {
    "Select a device:"@
}

/// The line of the list for the device `name` at position `index`.
pub open spec fn entry_text(index: nat, name: Seq<char>) -> Seq<char> {
    decimal(index) + ": "@ + highlighted(name)
}

/// The prompt for a device number.
pub open spec fn prompt_text() -> Seq<char> {
    "Enter device number: "@
}

/// The notice that a line picked no device.
pub open spec fn invalid_text() -> Seq<char> {
    "Invalid selection. Please try again."@
}

/// The notice that the connection has changed to `state`.
pub open spec fn state_changed_text(state: ConnectionState) -> Seq<char> {
    "[AudioPlaybackConnection] OnStateChanged: "@ + state_label(state)
}

/// The notice of how opening the connection ended.
pub open spec fn open_text(status: OpenStatus) -> Seq<char> {
    "[AudioPlaybackConnection] Open: "@ + status_label(status)
}

/// The notice that the device `name` is connected.
pub open spec fn connected_text(name: Seq<char>) -> Seq<char> {
    "Connected to device: "@ + name
}

/// The notice that the tool now waits until the user ends it.
pub open spec fn waiting_text() -> Seq<char> {
    "Waiting for connection. Press enter to exit."@
}

/// The line that tells of a failure with the message `message`.
pub open spec fn error_text(message: Seq<char>) -> Seq<char> {
    "Error: "@ + message
}

/// Appends `name` in cyan to `out`.
fn append_highlighted(out: &mut String, name: &str)
    ensures
        final(out)@ == old(out)@ + highlighted(name@),
{
    out.append("\u{001B}[36m");
    out.append(name);
    out.append("\u{001B}[0m");
    assert(out@ =~= old(out)@ + highlighted(name@));
}

/// The notice that a scan has begun.
pub fn scanning_notice() -> (out: String)
    ensures
        out@ == scanning_text(),
{
    String::from_str("Scanning for devices. Press enter to stop scanning and select a device.")
}

/// The notice that the scan has found the device `name`, the name in cyan.
pub fn added_notice(name: &str) -> (out: String)
    ensures
        out@ == added_text(name@),
{
    let mut out = String::from_str("[DeviceWatcher] Added: ");
    append_highlighted(&mut out, name);
    out
}

/// The notice that the scan has found nothing.
pub fn no_devices_notice() -> (out: String)
    ensures
        out@ == no_devices_text(),
{
    String::from_str("No devices found.")
}

/// The heading above the list of devices.
pub fn heading() -> (out: String)
    ensures
        out@ == heading_text(),
{
    String::from_str("Select a device:")
}

/// The line of the list for the device `name` at position `index`: the
/// position in decimal, a colon and a blank, and the name in cyan.
pub fn entry(index: usize, name: &str) -> (out: String)
    ensures
        out@ == entry_text(index as nat, name@),
{
    let mut out = render_decimal(index);
    out.append(": ");
    append_highlighted(&mut out, name);
    assert(out@ =~= entry_text(index as nat, name@));
    out
}

/// The prompt for a device number.
pub fn prompt() -> (out: String)
    ensures
        out@ == prompt_text(),
{
    String::from_str("Enter device number: ")
}

/// The notice that a line picked no device.
pub fn invalid_notice() -> (out: String)
    ensures
        out@ == invalid_text(),
{
    String::from_str("Invalid selection. Please try again.")
}

/// The notice that the connection has changed to `state`, with the state's
/// label.
pub fn state_changed_notice(state: ConnectionState) -> (out: String)
    ensures
        out@ == state_changed_text(state),
{
    let mut out = String::from_str("[AudioPlaybackConnection] OnStateChanged: ");
    let label = format_state(state);
    out.append(label.as_str());
    out
}

/// The notice of how opening the connection ended, with the outcome's label.
pub fn open_notice(status: OpenStatus) -> (out: String)
    ensures
        out@ == open_text(status),
{
    let mut out = String::from_str("[AudioPlaybackConnection] Open: ");
    let label = format_status(status);
    out.append(label.as_str());
    out
}

/// The notice that the device `name` is connected.
pub fn connected_notice(name: &str) -> (out: String)
    ensures
        out@ == connected_text(name@),
{
    let mut out = String::from_str("Connected to device: ");
    out.append(name);
    out
}

/// The notice that the tool now waits until the user ends it.
pub fn waiting_notice() -> (out: String)
    ensures
        out@ == waiting_text(),
{
    String::from_str("Waiting for connection. Press enter to exit.")
}

/// The line that tells of a failure, with the failure's own message.
pub fn error_notice(message: &str) -> (out: String)
    ensures
        out@ == error_text(message@),
{
    let mut out = String::from_str("Error: ");
    out.append(message);
    out
}

} // verus!
