//! The course of one run: scan, choose, connect, wait.
//!
//! The session decides and the caller acts. Each thing that happens outside
//! (a line typed, a device found, a call into the device framework that
//! returned) comes in as an [`Event`]; the session answers with its new state
//! and the [`Action`]s to carry out, in order.

use vstd::prelude::*;
use crate::device::{DeviceList, DeviceRecord, DeviceView};
use crate::labels::{ConnectionState, OpenStatus};
use crate::messages::{added_notice, added_text, connected_notice, connected_text};
use crate::messages::{entry, entry_text, error_notice, error_text, heading, heading_text};
use crate::messages::{invalid_notice, invalid_text, no_devices_notice, no_devices_text};
use crate::messages::{open_notice, open_text, prompt, prompt_text, scanning_notice};
use crate::messages::{scanning_text, state_changed_notice, state_changed_text};
use crate::messages::{waiting_notice, waiting_text};
use crate::select::{select_index, selection};

verus! {

/// How far a run has come.
#[derive(Clone, Copy, Debug, PartialEq, Eq, Structural)]
pub enum Phase {
    /// Nothing has happened yet.
    Idle,
    /// The scan was asked for and has not begun.
    Starting,
    /// The scan runs; devices come in until the user ends it.
    Scanning,
    /// The scan was told to stop and has not stopped.
    Stopping,
    /// The list stands; the user is asked for a device.
    Selecting,
    /// A connection to the device at this position is being opened.
    Connecting(usize),
    /// The connection to the device at this position was opened; the run
    /// lasts until the user ends it.
    Connected(usize),
    /// The run is over.
    Finished,
}

/// Something that happened outside the session.
#[derive(Debug, PartialEq, Eq)]
pub enum Event {
    /// The run begins.
    Begin,
    /// The scan has begun.
    ScanStarted,
    /// The scan has found a device.
    DeviceAdded(DeviceRecord),
    /// The user has entered a line.
    Line(String),
    /// The scan has stopped.
    ScanStopped,
    /// The connection has changed its state.
    StateChanged(ConnectionState),
    /// The connection was created, started and opened, with this outcome.
    Opened(OpenStatus),
    /// A step outside has failed, with this message.
    Failed(String),
}

/// An event, with its texts as plain sequences.
pub enum EventView {
    Begin,
    ScanStarted,
    DeviceAdded(DeviceView),
    Line(Seq<char>),
    ScanStopped,
    StateChanged(ConnectionState),
    Opened(OpenStatus),
    Failed(Seq<char>),
}

impl View for Event {
    type V = EventView;

    open spec fn view(&self) -> EventView {
        match self {
            Event::Begin => EventView::Begin,
            Event::ScanStarted => EventView::ScanStarted,
            Event::DeviceAdded(record) => EventView::DeviceAdded(record@),
            Event::Line(line) => EventView::Line(line@),
            Event::ScanStopped => EventView::ScanStopped,
            Event::StateChanged(state) => EventView::StateChanged(*state),
            Event::Opened(status) => EventView::Opened(*status),
            Event::Failed(message) => EventView::Failed(message@),
        }
    }
}

/// Something for the caller to do.
#[derive(Debug, PartialEq, Eq)]
pub enum Action {
    /// Start a scan for playback devices.
    StartScan,
    /// Stop the scan.
    StopScan,
    /// Write this text and end the line.
    Print(String),
    /// Write this text without ending the line, and see that it shows.
    Prompt(String),
    /// Wait for a line from the user.
    ReadLine,
    /// Create a connection to the device with this identifier, start and
    /// open it.
    Connect(String),
}

/// An action, with its text as a plain sequence.
pub enum ActionView {
    StartScan,
    StopScan,
    Print(Seq<char>),
    Prompt(Seq<char>),
    ReadLine,
    Connect(Seq<char>),
}

impl View for Action {
    type V = ActionView;

    open spec fn view(&self) -> ActionView {
        match self {
            Action::StartScan => ActionView::StartScan,
            Action::StopScan => ActionView::StopScan,
            Action::Print(text) => ActionView::Print(text@),
            Action::Prompt(text) => ActionView::Prompt(text@),
            Action::ReadLine => ActionView::ReadLine,
            Action::Connect(id) => ActionView::Connect(id@),
        }
    }
}

/// The actions `actions`, each by its view.
pub open spec fn action_views(actions: Seq<Action>) -> Seq<ActionView> {
    actions.map_values(|action: Action| action@)
}

/// A session: how far the run has come, and the devices found.
pub struct Session {
    phase: Phase,
    devices: DeviceList,
}

/// What a session holds, as plain values.
pub struct SessionView {
    pub phase: Phase,
    pub devices: Seq<DeviceView>,
}

/// What holds of every session: while a device is asked for there is one to
/// pick, and the device that is being or was connected is one of the list.
pub open spec fn well_formed(s: SessionView) -> bool {
    match s.phase {
        Phase::Selecting => s.devices.len() > 0,
        Phase::Connecting(index) => index < s.devices.len(),
        Phase::Connected(index) => index < s.devices.len(),
        _ => true,
    }
}

/// The lines of the list: one for each device, with its position and name.
pub open spec fn listing(devices: Seq<DeviceView>) -> Seq<ActionView> {
    Seq::new(devices.len(), |i: int| ActionView::Print(entry_text(i as nat, devices[i].name)))
}

/// What is done to put the choice before the user: the heading, the list, the
/// prompt, and the wait for an answer.
pub open spec fn offer(devices: Seq<DeviceView>) -> Seq<ActionView> {
    seq![ActionView::Print(heading_text())] + listing(devices) + seq![
        ActionView::Prompt(prompt_text()),
        ActionView::ReadLine,
    ]
}

/// `s` in another phase, with the same devices.
pub open spec fn in_phase(s: SessionView, phase: Phase) -> SessionView {
    SessionView { phase, devices: s.devices }
}

/// The state after `event` has come in at state `s`, and the actions to carry
/// out. An event that the phase does not wait for changes nothing and asks
/// for nothing.
pub open spec fn next(s: SessionView, event: EventView) -> (SessionView, Seq<ActionView>) {
    match (s.phase, event) {
        (Phase::Finished, _) => (s, seq![]),
        (_, EventView::Failed(message)) => (
            in_phase(s, Phase::Finished),
            seq![ActionView::Print(error_text(message))],
        ),
        (Phase::Idle, EventView::Begin) => (
            in_phase(s, Phase::Starting),
            seq![ActionView::StartScan],
        ),
        (Phase::Starting, EventView::ScanStarted) => (
            in_phase(s, Phase::Scanning),
            seq![ActionView::Print(scanning_text()), ActionView::ReadLine],
        ),
        (Phase::Starting, EventView::DeviceAdded(device)) => found(s, device),
        (Phase::Scanning, EventView::DeviceAdded(device)) => found(s, device),
        (Phase::Stopping, EventView::DeviceAdded(device)) => found(s, device),
        (Phase::Scanning, EventView::Line(_)) => (
            in_phase(s, Phase::Stopping),
            seq![ActionView::StopScan],
        ),
        (Phase::Stopping, EventView::ScanStopped) => if s.devices.len() == 0 {
            (in_phase(s, Phase::Finished), seq![ActionView::Print(no_devices_text())])
        } else {
            (in_phase(s, Phase::Selecting), offer(s.devices))
        },
        (Phase::Selecting, EventView::Line(line)) => match selection(line, s.devices.len()) {
            Some(index) => (
                in_phase(s, Phase::Connecting(index as usize)),
                seq![ActionView::Connect(s.devices[index as int].id)],
            ),
            None => (
                s,
                seq![
                    ActionView::Print(invalid_text()),
                    ActionView::Prompt(prompt_text()),
                    ActionView::ReadLine,
                ],
            ),
        },
        (Phase::Connecting(_), EventView::StateChanged(state)) => (
            s,
            seq![ActionView::Print(state_changed_text(state))],
        ),
        (Phase::Connected(_), EventView::StateChanged(state)) => (
            s,
            seq![ActionView::Print(state_changed_text(state))],
        ),
        (Phase::Connecting(index), EventView::Opened(status)) => (
            in_phase(s, Phase::Connected(index)),
            seq![
                ActionView::Print(open_text(status)),
                ActionView::Print(connected_text(s.devices[index as int].name)),
                ActionView::Print(waiting_text()),
                ActionView::ReadLine,
            ],
        ),
        (Phase::Connected(_), EventView::Line(_)) => (in_phase(s, Phase::Finished), seq![]),
        _ => (s, seq![]),
    }
}

/// The state and actions when the scan reports `device`: the device joins the
/// end of the list and a notice names it.
pub open spec fn found(s: SessionView, device: DeviceView) -> (SessionView, Seq<ActionView>) {
    (
        SessionView { phase: s.phase, devices: s.devices.push(device) },
        seq![ActionView::Print(added_text(device.name))],
    )
}

/// The state after the events `events` have come in one by one at state `s`,
/// and all the actions asked for on the way, in order.
pub open spec fn outcome(s: SessionView, events: Seq<EventView>) -> (
    SessionView,
    Seq<ActionView>,
)
    decreases events.len(),
{
    if events.len() == 0 {
        (s, seq![])
    } else {
        let first = next(s, events[0]);
        let rest = outcome(first.0, events.drop_first());
        (rest.0, first.1 + rest.1)
    }
}

/// The events `events`, each by its view.
pub open spec fn event_views(events: Seq<Event>) -> Seq<EventView> {
    events.map_values(|event: Event| event@)
}

/// One more event at the end is one more step from where the others led.
pub proof fn lemma_outcome_push(s: SessionView, events: Seq<EventView>, last: EventView)
    ensures
        outcome(s, events.push(last)).0 == next(outcome(s, events).0, last).0,
        outcome(s, events.push(last)).1 == outcome(s, events).1 + next(
            outcome(s, events).0,
            last,
        ).1,
    decreases events.len(),
{
    let all = events.push(last);
    if events.len() == 0 {
        assert(all.drop_first() =~= Seq::<EventView>::empty());
        assert(outcome(next(s, last).0, all.drop_first()).1 =~= Seq::<ActionView>::empty());
        assert(next(s, last).1 + Seq::<ActionView>::empty() =~= Seq::<ActionView>::empty()
            + next(s, last).1);
    } else {
        let mid = next(s, events[0]);
        assert(all.drop_first() =~= events.drop_first().push(last));
        lemma_outcome_push(mid.0, events.drop_first(), last);
        let rest = outcome(mid.0, events.drop_first());
        assert(mid.1 + (rest.1 + next(rest.0, last).1) =~= (mid.1 + rest.1) + next(
            rest.0,
            last,
        ).1);
    }
}

impl View for Session {
    type V = SessionView;

    closed spec fn view(&self) -> SessionView {
        SessionView { phase: self.phase, devices: self.devices@ }
    }
}

/// The actions that put the choice among `devices` before the user.
fn offer_actions(devices: &DeviceList) -> (actions: Vec<Action>)
    ensures
        action_views(actions@) == offer(devices@),
{
    let mut actions: Vec<Action> = Vec::new();
    actions.push(Action::Print(heading()));
    let n: usize = devices.len();
    let mut i: usize = 0;
    while i < n
        invariant
            i <= n,
            n == devices@.len(),
            actions@.len() == i + 1,
            action_views(actions@) =~= seq![ActionView::Print(heading_text())] + listing(
                devices@,
            ).take(i as int),
        decreases n - i,
    {
        let ghost before = actions@;
        match devices.get(i) {
            Some(record) => {
                actions.push(Action::Print(entry(i, record.name.as_str())));
            },
            None => {},
        }
        proof {
            let line = listing(devices@)[i as int];
            assert(actions@ == before.push(actions@[i + 1]));
            assert(action_views(actions@) =~= action_views(before).push(line));
            assert(listing(devices@).take(i + 1) =~= listing(devices@).take(i as int).push(line));
        }
        i = i + 1;
    }
    actions.push(Action::Prompt(prompt()));
    actions.push(Action::ReadLine);
    assert(listing(devices@).take(n as int) =~= listing(devices@));
    assert(action_views(actions@) =~= offer(devices@));
    actions
}

impl Session {
    #[verifier::type_invariant]
    spec fn inv(self) -> bool {
        well_formed(self@)
    }

    /// A session in which nothing has happened yet.
    pub fn new() -> (session: Self)
        ensures
            session@ == (SessionView { phase: Phase::Idle, devices: Seq::empty() }),
    {
        Session { phase: Phase::Idle, devices: DeviceList::new() }
    }

    /// How far the run has come.
    pub fn phase(&self) -> (phase: Phase)
        ensures
            phase == self@.phase,
            well_formed(self@),
    {
        proof {
            use_type_invariant(self);
        }
        self.phase
    }

    /// The devices found, in the order of discovery.
    pub fn devices(&self) -> (devices: &DeviceList)
        ensures
            devices@ == self@.devices,
    {
        &self.devices
    }

    /// Whether the run is over.
    pub fn is_finished(&self) -> (finished: bool)
        ensures
            finished == (self@.phase == Phase::Finished),
    {
        match self.phase {
            Phase::Finished => true,
            _ => false,
        }
    }

    /// The device that is being connected or was connected, if the run has
    /// come that far.
    pub fn selected(&self) -> (device: Option<&DeviceRecord>)
        ensures
            match self@.phase {
                Phase::Connecting(index) => device matches Some(d) && d@
                    == self@.devices[index as int],
                Phase::Connected(index) => device matches Some(d) && d@
                    == self@.devices[index as int],
                _ => device is None,
            },
    {
        proof {
            use_type_invariant(self);
        }
        match self.phase {
            Phase::Connecting(index) => self.devices.get(index),
            Phase::Connected(index) => self.devices.get(index),
            _ => None,
        }
    }

    /// Takes in the events `events` one by one: returns the session moved on
    /// past all of them, and everything that was to be done on the way, in
    /// order.
    pub fn run(self, events: Vec<Event>) -> (moved: (Session, Vec<Action>))
        ensures
            moved.0@ == outcome(self@, event_views(events@)).0,
            action_views(moved.1@) == outcome(self@, event_views(events@)).1,
            well_formed(moved.0@),
    {
        proof {
            use_type_invariant(&self);
        }
        let ghost start = self@;
        let ghost all = event_views(events@);
        let mut session = self;
        let mut actions: Vec<Action> = Vec::new();
        for event in it: events.into_iter()
            invariant
                it.seq() == events@,
                all == event_views(events@),
                session@ == outcome(start, all.take(it.index() as int)).0,
                action_views(actions@) =~= outcome(start, all.take(it.index() as int)).1,
                well_formed(session@),
        {
            proof {
                let k = it.index() as int;
                assert(all.take(k + 1) =~= all.take(k).push(event@));
                lemma_outcome_push(start, all.take(k), event@);
            }
            let (after, mut asked) = session.step(event);
            let ghost before = actions@;
            let ghost added = asked@;
            session = after;
            actions.append(&mut asked);
            assert(action_views(actions@) =~= action_views(before) + action_views(added));
        }
        assert(all.take(events@.len() as int) =~= all);
        (session, actions)
    }

    /// Takes in `event`: returns the session moved on, and what is to be done
    /// now, in order.
    pub fn step(self, event: Event) -> (moved: (Session, Vec<Action>))
        ensures
            moved.0@ == next(self@, event@).0,
            action_views(moved.1@) == next(self@, event@).1,
            well_formed(moved.0@),
    {
        proof {
            use_type_invariant(&self);
        }
        let mut actions: Vec<Action> = Vec::new();
        let Session { phase, mut devices } = self;
        let mut after: Phase = phase;
        match (phase, event) {
            (Phase::Finished, _) => {},
            (_, Event::Failed(message)) => {
                after = Phase::Finished;
                actions.push(Action::Print(error_notice(message.as_str())));
            },
            (Phase::Idle, Event::Begin) => {
                after = Phase::Starting;
                actions.push(Action::StartScan);
            },
            (Phase::Starting, Event::ScanStarted) => {
                after = Phase::Scanning;
                actions.push(Action::Print(scanning_notice()));
                actions.push(Action::ReadLine);
            },
            (Phase::Starting, Event::DeviceAdded(record)) => {
                actions.push(Action::Print(added_notice(record.name.as_str())));
                devices.push(record);
            },
            (Phase::Scanning, Event::DeviceAdded(record)) => {
                actions.push(Action::Print(added_notice(record.name.as_str())));
                devices.push(record);
            },
            (Phase::Stopping, Event::DeviceAdded(record)) => {
                actions.push(Action::Print(added_notice(record.name.as_str())));
                devices.push(record);
            },
            (Phase::Scanning, Event::Line(_)) => {
                after = Phase::Stopping;
                actions.push(Action::StopScan);
            },
            (Phase::Stopping, Event::ScanStopped) => {
                if devices.is_empty() {
                    after = Phase::Finished;
                    actions.push(Action::Print(no_devices_notice()));
                } else {
                    after = Phase::Selecting;
                    actions = offer_actions(&devices);
                }
            },
            (Phase::Selecting, Event::Line(line)) => {
                let choice = select_index(line.as_str(), devices.len());
                match choice {
                    Some(index) => {
                        match devices.get(index) {
                            Some(record) => {
                                actions.push(Action::Connect(record.id.clone()));
                            },
                            None => {},
                        }
                        after = Phase::Connecting(index);
                    },
                    None => {
                        actions.push(Action::Print(invalid_notice()));
                        actions.push(Action::Prompt(prompt()));
                        actions.push(Action::ReadLine);
                    },
                }
            },
            (Phase::Connecting(_), Event::StateChanged(state)) => {
                actions.push(Action::Print(state_changed_notice(state)));
            },
            (Phase::Connected(_), Event::StateChanged(state)) => {
                actions.push(Action::Print(state_changed_notice(state)));
            },
            (Phase::Connecting(index), Event::Opened(status)) => {
                actions.push(Action::Print(open_notice(status)));
                match devices.get(index) {
                    Some(record) => {
                        actions.push(Action::Print(connected_notice(record.name.as_str())));
                    },
                    None => {},
                }
                actions.push(Action::Print(waiting_notice()));
                actions.push(Action::ReadLine);
                after = Phase::Connected(index);
            },
            (Phase::Connected(_), Event::Line(_)) => {
                after = Phase::Finished;
            },
            _ => {},
        }
        assert(action_views(actions@) =~= next(self@, event@).1);
        (Session { phase: after, devices }, actions)
    }
}

} // verus!
