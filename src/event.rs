//! Events, the bounded event channel, and how terminal input becomes events.

use crate::error::{span_of, OxittyError, OxittyResult};
use smol::channel::{Receiver, Sender};
use std::sync::atomic::{AtomicBool, Ordering};
use vstd::prelude::*;
use vstd::string::StringExecFns;

verus! {

/// How many undelivered events the channel holds at most.
pub const MAX_EVENTS: usize = 1024;

/// Modifier keys held during an input, as a bit set (shift 1, control 2,
/// alt 4, super 8, hyper 16, meta 32).
#[derive(Debug, Clone, Copy, PartialEq, Eq, Hash)]
pub struct KeyModifiers {
    pub bits: u8,
}

impl KeyModifiers {
    pub const SHIFT: u8 = 1;
    pub const CONTROL: u8 = 2;
    pub const ALT: u8 = 4;
    pub const SUPER: u8 = 8;
    pub const HYPER: u8 = 16;
    pub const META: u8 = 32;

    /// No modifier held.
    pub fn empty() -> (m: Self)
        ensures
            m.bits == 0,
    {
        KeyModifiers { bits: 0 }
    }

    /// The modifiers whose bits are set in `bits`.
    pub fn from_bits(bits: u8) -> (m: Self)
        ensures
            m.bits == bits,
    {
        KeyModifiers { bits }
    }
}

/// Keyboard state flags of a key input, as a bit set (keypad 1, caps lock 2,
/// num lock 4).
#[derive(Debug, Clone, Copy, PartialEq, Eq, Hash)]
pub struct KeyEventState {
    pub bits: u8,
}

impl KeyEventState {
    /// No state flag.
    pub fn empty() -> (s: Self)
        ensures
            s.bits == 0,
    {
        KeyEventState { bits: 0 }
    }
}

/// Media keys.
#[derive(Debug, Clone, Copy, PartialEq, Eq, Hash)]
pub enum MediaKeyCode {
    Play,
    Pause,
    PlayPause,
    Reverse,
    Stop,
    FastForward,
    Rewind,
    TrackNext,
    TrackPrevious,
    Record,
    LowerVolume,
    RaiseVolume,
    MuteVolume,
}

/// Modifier keys pressed on their own.
#[derive(Debug, Clone, Copy, PartialEq, Eq, Hash)]
pub enum ModifierKeyCode {
    LeftShift,
    LeftControl,
    LeftAlt,
    LeftSuper,
    LeftHyper,
    LeftMeta,
    RightShift,
    RightControl,
    RightAlt,
    RightSuper,
    RightHyper,
    RightMeta,
    IsoLevel3Shift,
    IsoLevel5Shift,
}

/// The key of a key input.
#[derive(Debug, Clone, Copy, PartialEq, Eq, Hash)]
pub enum KeyCode {
    Backspace,
    Enter,
    Left,
    Right,
    Up,
    Down,
    Home,
    End,
    PageUp,
    PageDown,
    Tab,
    BackTab,
    Delete,
    Insert,
    F(u8),
    Char(char),
    Null,
    Esc,
    CapsLock,
    ScrollLock,
    NumLock,
    PrintScreen,
    Pause,
    Menu,
    KeypadBegin,
    Media(MediaKeyCode),
    Modifier(ModifierKeyCode),
}

/// Whether a key went down, repeats, or went up.
#[derive(Debug, Clone, Copy, PartialEq, Eq, Hash)]
pub enum KeyEventKind {
    Press,
    Repeat,
    Release,
}

/// One key input.
#[derive(Debug, Clone, Copy, PartialEq, Eq, Hash)]
pub struct KeyEvent {
    pub code: KeyCode,
    pub modifiers: KeyModifiers,
    pub kind: KeyEventKind,
    pub state: KeyEventState,
}

impl KeyEvent {
    /// A key press of `code` with `modifiers` held and no state flag.
    pub fn new(code: KeyCode, modifiers: KeyModifiers) -> (k: Self)
        ensures
            k == (KeyEvent { code, modifiers, kind: KeyEventKind::Press, state: KeyEventState { bits: 0 } }),
    {
        KeyEvent { code, modifiers, kind: KeyEventKind::Press, state: KeyEventState::empty() }
    }
}

/// Mouse buttons.
#[derive(Debug, Clone, Copy, PartialEq, Eq, Hash)]
pub enum MouseButton {
    Left,
    Right,
    Middle,
}

/// What a mouse input did.
#[derive(Debug, Clone, Copy, PartialEq, Eq, Hash)]
pub enum MouseEventKind {
    Down(MouseButton),
    Up(MouseButton),
    Drag(MouseButton),
    Moved,
    ScrollDown,
    ScrollUp,
    ScrollLeft,
    ScrollRight,
}

/// One mouse input, at a cell of the terminal.
#[derive(Debug, Clone, Copy, PartialEq, Eq, Hash)]
pub struct MouseEvent {
    pub kind: MouseEventKind,
    pub column: u16,
    pub row: u16,
    pub modifiers: KeyModifiers,
}

/// An application-defined event: a tag that names its shape and its data.
#[derive(Debug, Clone, PartialEq, Eq)]
pub struct CustomEvent {
    pub kind: String,
    pub data: String,
}

/// The events that flow from producers to the run loop.
#[derive(Debug, Clone, PartialEq, Eq)]
pub enum Event {
    /// A key input.
    Key(KeyEvent),
    /// A mouse input.
    Mouse(MouseEvent),
    /// The terminal was resized to (width, height).
    Resize(u16, u16),
    /// An application-defined event.
    Custom(CustomEvent),
    /// The run loop should stop.
    Quit,
}

/// A value that can be duplicated into an equal, independent value.
pub trait CloneableAny: Sized {
    /// An equal copy.
    fn clone_box(&self) -> (c: Self)
        ensures
            c == *self,
    ;
}

impl CloneableAny for CustomEvent {
    fn clone_box(&self) -> (c: Self) {
        CustomEvent { kind: self.kind.clone(), data: self.data.clone() }
    }
}

impl CloneableAny for Event {
    fn clone_box(&self) -> (c: Self) {
        match self {
            Event::Key(k) => Event::Key(*k),
            Event::Mouse(m) => Event::Mouse(*m),
            Event::Resize(w, h) => Event::Resize(*w, *h),
            Event::Custom(c) => Event::Custom(c.clone_box()),
            Event::Quit => Event::Quit,
        }
    }
}

/// One raw input as the terminal backend reports it.
#[derive(Debug, Clone)]
pub enum TerminalInput {
    FocusGained,
    FocusLost,
    Key(KeyEvent),
    Mouse(MouseEvent),
    Paste(String),
    Resize(u16, u16),
}

/// The event that a raw input becomes, if any: key, mouse and resize inputs
/// are forwarded; focus changes and pastes are ignored.
pub open spec fn event_of_input(input: TerminalInput) -> Option<Event> {
    match input {
        TerminalInput::Key(k) => Some(Event::Key(k)),
        TerminalInput::Mouse(m) => Some(Event::Mouse(m)),
        TerminalInput::Resize(w, h) => Some(Event::Resize(w, h)),
        _ => None,
    }
}

/// Turns one raw input into the event it becomes, if any.
pub fn event_from_input(input: TerminalInput) -> (e: Option<Event>)
    ensures
        e == event_of_input(input),
{
    match input {
        TerminalInput::Key(k) => Some(Event::Key(k)),
        TerminalInput::Mouse(m) => Some(Event::Mouse(m)),
        TerminalInput::Resize(w, h) => Some(Event::Resize(w, h)),
        _ => None,
    }
}

#[verifier::external_type_specification]
#[verifier::external_body]
#[verifier::reject_recursive_types(T)]
pub struct ExSender<T>(Sender<T>);

#[verifier::external_type_specification]
#[verifier::external_body]
#[verifier::reject_recursive_types(T)]
pub struct ExReceiver<T>(Receiver<T>);

/// What a non-blocking send did.
#[derive(Debug)]
pub enum SendOutcome {
    /// The event was queued.
    Sent,
    /// The channel was at capacity; the event is handed back.
    Full(Event),
    /// The channel was closed; the event is handed back.
    Closed(Event),
}

/// What a non-blocking receive found.
#[derive(Debug)]
pub enum RecvOutcome {
    /// The oldest queued event.
    Received(Event),
    /// Nothing was queued.
    Empty,
    /// Nothing was queued and the channel is closed.
    Closed,
}

/// The number of messages that the channel behind a sender holds at most,
/// fixed when the channel was made.
pub uninterp spec fn sender_capacity(s: Sender<Event>) -> nat;

/// Relies on `async_channel::bounded` (re-exported by smol): a channel whose
/// queue holds at most `cap` messages. It panics when `cap` is zero.
#[verifier::external_body]
fn bounded_channel(cap: usize) -> (r: (Sender<Event>, Receiver<Event>))
    requires
        cap > 0,
    ensures
        sender_capacity(r.0) == cap,
{
    smol::channel::bounded(cap)
}

/// Relies on `async_channel::Sender::try_send`: it never waits, and on
/// failure it hands the message back, as `Full` when the channel is at
/// capacity and as `Closed` when it is closed.
#[verifier::external_body]
fn channel_try_send(tx: &Sender<Event>, event: Event) -> (r: SendOutcome)
    ensures
        match r {
            SendOutcome::Sent => true,
            SendOutcome::Full(e) => e == event,
            SendOutcome::Closed(e) => e == event,
        },
{
    match tx.try_send(event) {
        Ok(()) => SendOutcome::Sent,
        Err(smol::channel::TrySendError::Full(e)) => SendOutcome::Full(e),
        Err(smol::channel::TrySendError::Closed(e)) => SendOutcome::Closed(e),
    }
}

/// Relies on `async_channel::Receiver::try_recv`: it never waits.
#[verifier::external_body]
fn channel_try_recv(rx: &Receiver<Event>) -> RecvOutcome {
    match rx.try_recv() {
        Ok(e) => RecvOutcome::Received(e),
        Err(smol::channel::TryRecvError::Empty) => RecvOutcome::Empty,
        Err(smol::channel::TryRecvError::Closed) => RecvOutcome::Closed,
    }
}

/// The error reported when the event channel is closed.
pub open spec fn is_event_channel_error(e: OxittyError) -> bool {
    &&& e is ChannelClosed
    &&& e->ChannelClosed_src@ == "event channel"@
    &&& e->ChannelClosed_err_span == span_of((0, 0))
}

/// The error reported when the event channel is at capacity.
pub open spec fn is_event_channel_full(e: OxittyError) -> bool {
    &&& e is ChannelFull
    &&& e->ChannelFull_src@ == "event channel"@
    &&& e->ChannelFull_err_span == span_of((0, 0))
}

fn event_channel_error() -> (e: OxittyError)
    ensures
        is_event_channel_error(e),
{
    OxittyError::channel_closed(String::from_str("event channel"), (0, 0))
}

fn event_channel_full() -> (e: OxittyError)
    ensures
        is_event_channel_full(e),
{
    OxittyError::channel_full(String::from_str("event channel"), (0, 0))
}

/// The result of a send attempt: `Ok` when the event was queued, a
/// full-channel error when the channel was at capacity, a closed-channel
/// error when it was closed.
pub fn send_result(outcome: SendOutcome) -> (r: OxittyResult<()>)
    ensures
        match outcome {
            SendOutcome::Sent => r is Ok,
            SendOutcome::Full(_) => r is Err && is_event_channel_full(r->Err_0),
            SendOutcome::Closed(_) => r is Err && is_event_channel_error(r->Err_0),
        },
{
    match outcome {
        SendOutcome::Sent => Ok(()),
        SendOutcome::Full(_) => Err(event_channel_full()),
        SendOutcome::Closed(_) => Err(event_channel_error()),
    }
}

/// The result of a receive attempt: the event, `None` when nothing was
/// queued, or a channel error when the channel is closed.
pub fn recv_result(outcome: RecvOutcome) -> (r: OxittyResult<Option<Event>>)
    ensures
        match outcome {
            RecvOutcome::Received(e) => r == Ok::<Option<Event>, OxittyError>(Some(e)),
            RecvOutcome::Empty => r == Ok::<Option<Event>, OxittyError>(None),
            RecvOutcome::Closed => r is Err && is_event_channel_error(r->Err_0),
        },
{
    match outcome {
        RecvOutcome::Received(e) => Ok(Some(e)),
        RecvOutcome::Empty => Ok(None),
        RecvOutcome::Closed => Err(event_channel_error()),
    }
}

/// The event channel and the stop signal of the event loop.
#[derive(Debug)]
pub struct EventHandler {
    tx: Sender<Event>,
    rx: Receiver<Event>,
    running: AtomicBool,
}

impl EventHandler {
    /// How many undelivered events the handler's channel holds at most.
    pub closed spec fn capacity(&self) -> nat {
        sender_capacity(self.tx)
    }

    /// A handler with a new channel of capacity `MAX_EVENTS`, running.
    pub fn new() -> (h: Self)
        ensures
            h.capacity() == MAX_EVENTS,
    {
        let (tx, rx) = bounded_channel(MAX_EVENTS);
        EventHandler { tx, rx, running: AtomicBool::new(true) }
    }

    /// Queues `event` without waiting. When the channel is at capacity or
    /// closed the event is dropped and a full-channel or closed-channel error
    /// is returned.
    pub fn try_send(&self, event: Event) -> (r: OxittyResult<()>)
        ensures
            r is Err ==> is_event_channel_full(r->Err_0) || is_event_channel_error(r->Err_0),
    {
        send_result(channel_try_send(&self.tx, event))
    }

    /// Takes the oldest queued event without waiting: `None` when nothing is
    /// queued, a channel error when the channel is closed.
    pub fn try_recv(&self) -> (r: OxittyResult<Option<Event>>)
        ensures
            r is Err ==> is_event_channel_error(r->Err_0),
    {
        recv_result(channel_try_recv(&self.rx))
    }

    /// Asks the event loop to stop at the top of its next iteration.
    pub fn stop(&self) {
        self.running.store(false, Ordering::Release);
    }

    /// Whether `stop` has not been called yet.
    pub fn is_running(&self) -> bool {
        self.running.load(Ordering::Acquire)
    }
}

impl Default for EventHandler {
    fn default() -> (h: Self)
        ensures
            h.capacity() == MAX_EVENTS,
    {
        EventHandler::new()
    }
}

} // verus!
