//! What holds of every session, proved from the transition function.

use vstd::prelude::*;
use crate::messages::{invalid_text, no_devices_text, prompt_text};
use crate::select::selection;
use crate::session::{in_phase, next, outcome, well_formed};
use crate::session::{ActionView, EventView, Phase, SessionView};

verus! {

/// Whether `action` asks for a connection.
pub open spec fn is_connect(action: ActionView) -> bool {
    action is Connect
}

/// Whether the scan may still add devices in phase `phase`.
pub open spec fn scan_is_live(phase: Phase) -> bool {
    phase == Phase::Starting || phase == Phase::Scanning || phase == Phase::Stopping
}

/// A well-formed session stays well formed, whatever comes in.
pub proof fn lemma_next_keeps_well_formed(s: SessionView, event: EventView)
    requires
        well_formed(s),
    ensures
        well_formed(next(s, event).0),
{
}

/// A finished session stays as it is and asks for nothing, whatever comes in.
pub proof fn lemma_finished_is_final(s: SessionView, events: Seq<EventView>)
    requires
        s.phase == Phase::Finished,
    ensures
        outcome(s, events) == (s, Seq::<ActionView>::empty()),
    decreases events.len(),
{
    if events.len() > 0 {
        lemma_finished_is_final(s, events.drop_first());
        assert(Seq::<ActionView>::empty() + Seq::<ActionView>::empty() =~= Seq::<
            ActionView,
        >::empty());
    }
}

/// When the scan stops with no device found, the session says so and ends:
/// whatever comes in afterwards, the one thing ever asked for is that notice,
/// and no connection is attempted.
pub proof fn lemma_empty_scan_ends_outcome(s: SessionView, later: Seq<EventView>)
    requires
        s.phase == Phase::Stopping,
        s.devices.len() == 0,
    ensures
        outcome(s, seq![EventView::ScanStopped] + later) == (
            in_phase(s, Phase::Finished),
            seq![ActionView::Print(no_devices_text())],
        ),
        forall|k: int|
            0 <= k < outcome(s, seq![EventView::ScanStopped] + later).1.len() ==> !is_connect(
                #[trigger] outcome(s, seq![EventView::ScanStopped] + later).1[k],
            ),
{
    let events = seq![EventView::ScanStopped] + later;
    assert(events[0] == EventView::ScanStopped);
    assert(events.drop_first() =~= later);
    lemma_finished_is_final(in_phase(s, Phase::Finished), later);
    assert(seq![ActionView::Print(no_devices_text())] + Seq::<ActionView>::empty() =~= seq![
        ActionView::Print(no_devices_text()),
    ]);
}

/// While a device is asked for, a line that picks none (it is no number, or
/// the number is not below the count of devices) leaves the session where it
/// is: the user is told, and asked again.
pub proof fn lemma_invalid_line_asks_again(s: SessionView, line: Seq<char>)
    requires
        s.phase == Phase::Selecting,
        selection(line, s.devices.len()) is None,
    ensures
        next(s, EventView::Line(line)) == (
            s,
            seq![
                ActionView::Print(invalid_text()),
                ActionView::Prompt(prompt_text()),
                ActionView::ReadLine,
            ],
        ),
{
}

/// The events of the user entering the lines `lines`, one after the other.
pub open spec fn line_events(lines: Seq<Seq<char>>) -> Seq<EventView> {
    lines.map_values(|line: Seq<char>| EventView::Line(line))
}

/// While a device is asked for, lines that pick none never get the session
/// any further, however many of them are entered: it stays where it was, and
/// no connection is attempted.
pub proof fn lemma_invalid_lines_never_proceed(s: SessionView, lines: Seq<Seq<char>>)
    requires
        s.phase == Phase::Selecting,
        forall|i: int|
            0 <= i < lines.len() ==> selection(#[trigger] lines[i], s.devices.len()) is None,
    ensures
        outcome(s, line_events(lines)).0 == s,
        forall|k: int|
            0 <= k < outcome(s, line_events(lines)).1.len() ==> !is_connect(
                #[trigger] outcome(s, line_events(lines)).1[k],
            ),
    decreases lines.len(),
{
    if lines.len() > 0 {
        let events = line_events(lines);
        let rest = lines.drop_first();
        assert(events[0] == EventView::Line(lines[0]));
        assert(events.drop_first() =~= line_events(rest));
        lemma_invalid_line_asks_again(s, lines[0]);
        assert forall|i: int| 0 <= i < rest.len() implies selection(
            #[trigger] rest[i],
            s.devices.len(),
        ) is None by {
            assert(rest[i] == lines[i + 1]);
        }
        lemma_invalid_lines_never_proceed(s, rest);
    }
}

/// While a device is asked for, a line that picks the device at position
/// `index` makes the session connect to exactly that device: the one action
/// asked for is a connection with the identifier at that position.
pub proof fn lemma_valid_line_connects(s: SessionView, line: Seq<char>, index: nat)
    requires
        s.phase == Phase::Selecting,
        selection(line, s.devices.len()) == Some(index),
    ensures
        index < s.devices.len(),
        next(s, EventView::Line(line)).0.devices == s.devices,
        next(s, EventView::Line(line)).0.phase == Phase::Connecting(index as usize),
        next(s, EventView::Line(line)).1 == seq![
            ActionView::Connect(s.devices[index as int].id),
        ],
{
}

/// A connection is asked for only in answer to a line that picks a device,
/// and then with that device's identifier.
pub proof fn lemma_connect_only_when_chosen(s: SessionView, event: EventView, k: int)
    requires
        0 <= k < next(s, event).1.len(),
        is_connect(next(s, event).1[k]),
    ensures
        s.phase == Phase::Selecting,
        event is Line,
        selection(event->Line_0, s.devices.len()) is Some,
        next(s, event).1[k] == ActionView::Connect(
            s.devices[selection(event->Line_0, s.devices.len())->Some_0 as int].id,
        ),
{
}

/// The list of devices only grows at its end, and only while the scan is
/// live: every step keeps the devices found before it, in their places, and
/// outside the scan the list does not change at all.
pub proof fn lemma_devices_only_grow(s: SessionView, event: EventView)
    ensures
        s.devices.len() <= next(s, event).0.devices.len(),
        next(s, event).0.devices.take(s.devices.len() as int) == s.devices,
        !scan_is_live(s.phase) ==> next(s, event).0.devices == s.devices,
{
    let after = next(s, event).0.devices;
    assert(after.take(s.devices.len() as int) =~= s.devices);
}

} // verus!
