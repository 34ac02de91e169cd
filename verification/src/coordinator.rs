//! The coordinator: the application's single decision point.
//!
//! All events — user clicks, discovery results, completions of asynchronous
//! connect operations, status reports from the watch session — reach the
//! coordinator as [`Message`] values, one at a time, never concurrently.
//! Handling a message mutates the [`State`] in place and yields a list of
//! [`Command`]s for the host shell to perform.  The shell resolves peripheral
//! addresses against the local Bluetooth adapter before each address-bearing
//! message is handled, and passes the outcome in as a [`Resolution`]; it
//! performs every long-running operation (the connect call itself) outside
//! the handler, delivering the result later as a new message.

use vstd::prelude::*;

verus! {

/// The closed set of view states.  Exactly one is current at any time;
/// the initial view is `Scan`.
#[derive(Clone, Copy, Debug, PartialEq, Eq, Structural)]
pub enum ViewState {
    Main,
    Scan,
    FileChooser,
    FirmwareUpdate,
}

/// An opaque, stable identifier for a Bluetooth peripheral: the six octets
/// of its device address.  It keys connection attempts and correlates a
/// "selected" event with the "connected" event that may follow it.
#[derive(Clone, Copy, Debug, PartialEq, Eq)]
pub struct Address {
    pub octets: [u8; 6],
}

/// The sole unit of communication into the coordinator.  Messages are
/// immutable once constructed and are consumed strictly one at a time.
#[derive(Debug, PartialEq, Eq)]
pub enum Message {
    /// Switch the active view.
    SetView(ViewState),
    /// A peripheral was picked in the scanner: begin connecting to it.
    DeviceSelected(Address),
    /// An asynchronous connect operation succeeded for this peripheral.
    DeviceConnected(Address),
    /// A firmware bundle was chosen: start the update with this file path.
    FirmwareUpdate(String),
    /// Surface a transient, user-visible message.
    Notification(String),
}

/// The adapter's answer when the shell resolves a peripheral address into a
/// device handle.  Resolution happens outside the coordinator; only its
/// outcome comes in.  For messages that carry no address the handler ignores
/// this argument.
#[derive(Debug, PartialEq, Eq)]
pub enum Resolution {
    /// The adapter knows the address; the shell holds the device handle.
    Found,
    /// The adapter does not know the address; the payload describes the error.
    NotFound(String),
}

/// An instruction to the host shell, issued by the handler.  The shell
/// performs each command after the handler returns, in order.
#[derive(Debug, PartialEq, Eq)]
pub enum Command {
    /// Spawn an asynchronous connect operation against the resolved device.
    /// On success the task must deliver `Message::DeviceConnected` with the
    /// same address; on failure it reports to the diagnostic stream only.
    SpawnConnect(Address),
    /// Forward a "connected" notice, carrying the resolved device, to the
    /// watch session.
    WatchConnected(Address),
    /// Forward a "begin firmware update" order, carrying the bundle's file
    /// path, to the watch session.
    WatchFirmwareUpdate(String),
    /// Show a transient notification with this text.
    ShowNotification(String),
}

/// The application state the coordinator owns.  It is created once at
/// startup, mutated only inside [`State::handle`], and read by the renderer
/// after every message.
#[derive(Clone, Copy, Debug, PartialEq, Eq, Structural)]
pub struct State {
    /// The view currently shown.
    pub active_view: ViewState,
    /// Whether a watch session is currently established: set by a
    /// `DeviceConnected` message and never reset by any later message.
    pub is_connected: bool,
}

/// The state a message leaves behind.  The transition depends only on the
/// prior state and the message — never on how an address resolved, so a
/// resolution failure can never corrupt the state.
pub open spec fn next_state(s: State, m: Message) -> State {
    match m {
        Message::SetView(v) => State { active_view: v, is_connected: s.is_connected },
        Message::DeviceSelected(_) => s,
        Message::DeviceConnected(_) => State {
            active_view: ViewState::Main,
            is_connected: true,
        },
        Message::FirmwareUpdate(_) => State {
            active_view: ViewState::FirmwareUpdate,
            is_connected: s.is_connected,
        },
        Message::Notification(_) => s,
    }
}

/// The commands a message gives rise to.  They depend only on the message
/// and the resolution outcome, never on the prior state.
pub open spec fn commands_for(m: Message, r: Resolution) -> Seq<Command> {
    match m {
        Message::SetView(_) => Seq::<Command>::empty(),
        Message::DeviceSelected(a) => match r {
            Resolution::Found => seq![Command::SpawnConnect(a)],
            Resolution::NotFound(e) => seq![Command::ShowNotification(e)],
        },
        Message::DeviceConnected(a) => match r {
            Resolution::Found => seq![Command::WatchConnected(a)],
            Resolution::NotFound(e) => seq![Command::ShowNotification(e)],
        },
        Message::FirmwareUpdate(p) => seq![Command::WatchFirmwareUpdate(p)],
        Message::Notification(t) => seq![Command::ShowNotification(t)],
    }
}

impl State {
    /// The startup state: the scan view, no established session.
    pub fn new() -> (s: State)
        ensures
            s.active_view == ViewState::Scan,
            !s.is_connected,
    {
        State { active_view: ViewState::Scan, is_connected: false }
    }

    /// Handle one message: the coordinator's only operation.
    ///
    /// `r` is the adapter's answer for the address the message carries, if
    /// any; for `SetView`, `FirmwareUpdate` and `Notification` it is ignored.
    /// The handler never blocks: anything long-running is returned as a
    /// command for the shell to perform.
    pub fn handle(&mut self, m: Message, r: Resolution) -> (cmds: Vec<Command>)
        ensures
            *final(self) == next_state(*old(self), m),
            cmds@ == commands_for(m, r),
    {
        let mut cmds: Vec<Command> = Vec::new();
        match m {
            Message::SetView(v) => {
                self.active_view = v;
            }
            Message::DeviceSelected(a) => {
                match r {
                    Resolution::Found => {
                        cmds.push(Command::SpawnConnect(a));
                    }
                    Resolution::NotFound(e) => {
                        cmds.push(Command::ShowNotification(e));
                    }
                }
            }
            Message::DeviceConnected(a) => {
                self.is_connected = true;
                self.active_view = ViewState::Main;
                match r {
                    Resolution::Found => {
                        cmds.push(Command::WatchConnected(a));
                    }
                    Resolution::NotFound(e) => {
                        cmds.push(Command::ShowNotification(e));
                    }
                }
            }
            Message::FirmwareUpdate(p) => {
                cmds.push(Command::WatchFirmwareUpdate(p));
                self.active_view = ViewState::FirmwareUpdate;
            }
            Message::Notification(t) => {
                cmds.push(Command::ShowNotification(t));
            }
        }
        cmds
    }
}

/// After `SetView(v)` the active view is `v`, every other state field is
/// unchanged, and no command is issued.
pub proof fn lemma_set_view(s: State, v: ViewState, r: Resolution)
    ensures
        next_state(s, Message::SetView(v)).active_view == v,
        next_state(s, Message::SetView(v)).is_connected == s.is_connected,
        commands_for(Message::SetView(v), r) =~= Seq::<Command>::empty(),
{
}

/// `DeviceConnected` always marks the session established and forces the
/// main view, whatever the prior view — including `Scan`, `FileChooser` and
/// `FirmwareUpdate` — and whatever the resolution outcome for the address.
pub proof fn lemma_device_connected(s: State, a: Address)
    ensures
        next_state(s, Message::DeviceConnected(a)).is_connected,
        next_state(s, Message::DeviceConnected(a)).active_view == ViewState::Main,
{
}

/// `FirmwareUpdate(path)` always forces the firmware-update view and issues
/// exactly one command, to the watch session, carrying the path unchanged.
pub proof fn lemma_firmware_update(s: State, p: String, r: Resolution)
    ensures
        next_state(s, Message::FirmwareUpdate(p)).active_view == ViewState::FirmwareUpdate,
        next_state(s, Message::FirmwareUpdate(p)).is_connected == s.is_connected,
        commands_for(Message::FirmwareUpdate(p), r) =~= seq![Command::WatchFirmwareUpdate(p)],
{
}

/// Idempotence: handling `SetView(v)` twice in a row leaves the state the
/// first handling left — the second pass changes nothing.
pub proof fn lemma_set_view_idempotent(s: State, v: ViewState)
    ensures
        next_state(next_state(s, Message::SetView(v)), Message::SetView(v))
            == next_state(s, Message::SetView(v)),
{
}

/// A resolution failure on `DeviceSelected` changes neither the active view
/// nor the connection flag, and yields exactly one transient notification,
/// carrying the error description.
pub proof fn lemma_resolution_failure(s: State, a: Address, e: String)
    ensures
        next_state(s, Message::DeviceSelected(a)) == s,
        commands_for(Message::DeviceSelected(a), Resolution::NotFound(e))
            =~= seq![Command::ShowNotification(e)],
{
}

} // verus!
