//! The bridge between managed code and a window system's mouse-event
//! dispatch.
//!
//! A callback is attached to a named window together with captured state of
//! the caller's choosing.  The window system later reports events as four
//! plain integers; this module decodes them, counts deliveries, and hands
//! the captured state out for exactly as long as the registration lives.
//! Detaching first silences the window, then releases the captured state —
//! exactly once.

use vstd::prelude::*;
use vstd::string::StringSliceAdditionalSpecFns;

use crate::errors::Error;
use crate::geometry::Rect;

verus! {

/// Mouse events a window reports.
#[derive(Clone, Copy, Debug, PartialEq, Eq, Structural)]
pub enum MouseEventType {
    /// The mouse has moved over the window.
    MouseMove,
    /// The left mouse button is pressed.
    LButtonDown,
    /// The right mouse button is pressed.
    RButtonDown,
    /// The middle mouse button is pressed.
    MButtonDown,
    /// The left mouse button is released.
    LButtonUp,
    /// The right mouse button is released.
    RButtonUp,
    /// The middle mouse button is released.
    MButtonUp,
    /// The left mouse button is double clicked.
    LButtonDblClick,
    /// The right mouse button is double clicked.
    RButtonDblClick,
    /// The middle mouse button is double clicked.
    MButtonDblClick,
    /// Forward (positive) and backward (negative) scrolling.
    MouseWheel,
    /// Right (positive) and left (negative) scrolling.
    MouseHWheel,
}

/// The integer an event kind travels as through the window system.
pub open spec fn event_type_value(t: MouseEventType) -> int {
    match t {
        MouseEventType::MouseMove => 0,
        MouseEventType::LButtonDown => 1,
        MouseEventType::RButtonDown => 2,
        MouseEventType::MButtonDown => 3,
        MouseEventType::LButtonUp => 4,
        MouseEventType::RButtonUp => 5,
        MouseEventType::MButtonUp => 6,
        MouseEventType::LButtonDblClick => 7,
        MouseEventType::RButtonDblClick => 8,
        MouseEventType::MButtonDblClick => 9,
        MouseEventType::MouseWheel => 10,
        MouseEventType::MouseHWheel => 11,
    }
}

/// The event kind an integer decodes to, when it decodes at all.
pub open spec fn event_type_from_value(value: int) -> Option<MouseEventType> {
    if value == 0 {
        Some(MouseEventType::MouseMove)
    } else if value == 1 {
        Some(MouseEventType::LButtonDown)
    } else if value == 2 {
        Some(MouseEventType::RButtonDown)
    } else if value == 3 {
        Some(MouseEventType::MButtonDown)
    } else if value == 4 {
        Some(MouseEventType::LButtonUp)
    } else if value == 5 {
        Some(MouseEventType::RButtonUp)
    } else if value == 6 {
        Some(MouseEventType::MButtonUp)
    } else if value == 7 {
        Some(MouseEventType::LButtonDblClick)
    } else if value == 8 {
        Some(MouseEventType::RButtonDblClick)
    } else if value == 9 {
        Some(MouseEventType::MButtonDblClick)
    } else if value == 10 {
        Some(MouseEventType::MouseWheel)
    } else if value == 11 {
        Some(MouseEventType::MouseHWheel)
    } else {
        None
    }
}

impl MouseEventType {
    /// Returns the integer this event kind travels as.
    pub fn as_value(&self) -> (r: i32)
        ensures
            r == event_type_value(*self),
    {
        match *self {
            MouseEventType::MouseMove => 0,
            MouseEventType::LButtonDown => 1,
            MouseEventType::RButtonDown => 2,
            MouseEventType::MButtonDown => 3,
            MouseEventType::LButtonUp => 4,
            MouseEventType::RButtonUp => 5,
            MouseEventType::MButtonUp => 6,
            MouseEventType::LButtonDblClick => 7,
            MouseEventType::RButtonDblClick => 8,
            MouseEventType::MButtonDblClick => 9,
            MouseEventType::MouseWheel => 10,
            MouseEventType::MouseHWheel => 11,
        }
    }

    /// Decodes the integer a window system reports into an event kind.
    /// Unknown integers are rejected rather than misread.
    pub fn from_value(value: i32) -> (r: Option<MouseEventType>)
        ensures
            r == event_type_from_value(value as int),
    {
        if value == 0 {
            Some(MouseEventType::MouseMove)
        } else if value == 1 {
            Some(MouseEventType::LButtonDown)
        } else if value == 2 {
            Some(MouseEventType::RButtonDown)
        } else if value == 3 {
            Some(MouseEventType::MButtonDown)
        } else if value == 4 {
            Some(MouseEventType::LButtonUp)
        } else if value == 5 {
            Some(MouseEventType::RButtonUp)
        } else if value == 6 {
            Some(MouseEventType::MButtonUp)
        } else if value == 7 {
            Some(MouseEventType::LButtonDblClick)
        } else if value == 8 {
            Some(MouseEventType::RButtonDblClick)
        } else if value == 9 {
            Some(MouseEventType::MButtonDblClick)
        } else if value == 10 {
            Some(MouseEventType::MouseWheel)
        } else if value == 11 {
            Some(MouseEventType::MouseHWheel)
        } else {
            None
        }
    }
}

/// The left mouse button is down.
pub const EVENT_FLAG_LBUTTON: i32 = 1;

/// The right mouse button is down.
pub const EVENT_FLAG_RBUTTON: i32 = 2;

/// The middle mouse button is down.
pub const EVENT_FLAG_MBUTTON: i32 = 4;

/// The control key is pressed.
pub const EVENT_FLAG_CTRLKEY: i32 = 8;

/// The shift key is pressed.
pub const EVENT_FLAG_SHIFTKEY: i32 = 16;

/// The alt key is pressed.
pub const EVENT_FLAG_ALTKEY: i32 = 32;

/// All modifier bits a mouse event can carry.
pub const EVENT_FLAG_ALL: i32 = 63;

/// Modifier flags delivered with a mouse event: a subset of the six known
/// bits.
#[derive(Clone, Copy, Debug, PartialEq, Eq, Structural)]
pub struct MouseEventFlags {
    /// The raw bits, always within [`EVENT_FLAG_ALL`].
    pub bits: i32,
}

impl MouseEventFlags {
    /// Keeps the six known modifier bits of a raw flag word and drops the
    /// rest.
    pub fn from_bits_truncate(bits: i32) -> (r: MouseEventFlags)
        ensures
            r.bits == bits & EVENT_FLAG_ALL,
    {
        MouseEventFlags { bits: bits & EVENT_FLAG_ALL }
    }

    /// No modifier is active.
    pub fn empty() -> (r: MouseEventFlags)
        ensures
            r.bits == 0,
    {
        MouseEventFlags { bits: 0 }
    }

    /// Whether every bit of `other` is set in `self`.
    pub fn contains(&self, other: MouseEventFlags) -> (r: bool)
        ensures
            r == (self.bits & other.bits == other.bits),
    {
        self.bits & other.bits == other.bits
    }
}

/// One decoded mouse event: its kind, the cursor position, and the
/// modifier flags active when it fired.
#[derive(Clone, Copy, Debug, PartialEq, Eq, Structural)]
pub struct MouseEvent {
    /// What happened.
    pub kind: MouseEventType,
    /// Cursor x position, in window coordinates.
    pub x: i32,
    /// Cursor y position, in window coordinates.
    pub y: i32,
    /// Modifier flags active when the event fired.
    pub flags: MouseEventFlags,
}

/// How long a wait for a key press may block.
#[derive(Clone, Copy, Debug, PartialEq, Eq, Structural)]
pub enum Delay {
    /// Wait indefinitely.
    Forever,
    /// Wait the given number of milliseconds; zero or a negative count
    /// waits indefinitely.
    Msec(i32),
}

impl Delay {
    /// The millisecond count handed to the window system's wait call,
    /// where zero means an indefinite wait.
    pub fn to_millis(&self) -> (r: i32)
        ensures
            *self == Delay::Forever ==> r == 0,
            *self matches Delay::Msec(m) ==> r == m,
    {
        match *self {
            Delay::Forever => 0,
            Delay::Msec(msec) => msec,
        }
    }
}

impl Default for Delay {
    /// Waiting without a delay bound.
    fn default() -> (r: Self)
        ensures
            r == Delay::Forever,
    {
        Delay::Forever
    }
}

/// Turns the raw return of the window system's wait call into the pressed
/// key, if one was pressed before the wait ended.
pub fn key_code_from_raw(raw: i32) -> (r: Option<i32>)
    ensures
        raw >= 0 ==> r == Some(raw),
        raw < 0 ==> r is None,
{
    if raw >= 0 {
        Some(raw)
    } else {
        None
    }
}

/// Whether a window name can be handed to the window system, whose names
/// are terminator-delimited byte strings: every byte must be non-zero.
pub open spec fn valid_window_name(name: Seq<u8>) -> bool {
    !name.contains(0u8)
}

/// Checks that a window name carries no embedded terminator byte.
pub fn validate_window_name(name: &str) -> (r: Result<(), Error>)
    ensures
        r matches Ok(u) <==> valid_window_name(name.spec_bytes()),
        r matches Err(e) ==> e == Error::EmbeddedNul,
{
    let bytes: &[u8] = name.as_bytes();
    let n: usize = bytes.len();
    let mut i: usize = 0;
    while i < n
        invariant
            i <= n,
            n == bytes@.len(),
            bytes@ == name.spec_bytes(),
            forall|j: int| 0 <= j < i ==> bytes@[j] != 0u8,
        decreases n - i,
    {
        if bytes[i] == 0u8 {
            assert(name.spec_bytes().contains(0u8));
            return Err(Error::EmbeddedNul);
        }
        i = i + 1;
    }
    assert(!name.spec_bytes().contains(0u8)) by {
        assert(forall|j: int| 0 <= j < name.spec_bytes().len() ==> name.spec_bytes()[j] != 0u8);
    }
    Ok(())
}

/// Mathematical content of a [`MouseCallbackHandle`]: the window it is
/// attached to, the captured state while the registration is live, and
/// how many events have been delivered.
pub struct BridgeView<T> {
    /// Name of the window the callback is attached to.
    pub name: Seq<char>,
    /// The captured state, present exactly while the registration is
    /// live.
    pub payload: Option<T>,
    /// How many events have been delivered so far.
    pub invocations: int,
}

/// The state a registration moves to when one raw event arrives: a live
/// registration counts every event that decodes; a detached registration,
/// and an event that does not decode, change nothing.
pub open spec fn dispatched<T>(v: BridgeView<T>, event: int) -> BridgeView<T> {
    if v.payload is Some && event_type_from_value(event) is Some {
        BridgeView { invocations: v.invocations + 1, ..v }
    } else {
        v
    }
}

/// The state a registration moves to after a whole batch of raw events,
/// delivered in order.
pub open spec fn dispatched_all<T>(v: BridgeView<T>, events: Seq<int>) -> BridgeView<T>
    decreases events.len(),
{
    if events.len() == 0 {
        v
    } else {
        dispatched(dispatched_all(v, events.drop_last()), events.last())
    }
}

/// Law: delivering a batch of decodable events to a live registration
/// raises the invocation count by exactly the batch size, and neither
/// releases the captured state nor moves the registration to another
/// window.
pub proof fn lemma_exactly_n_invocations<T>(v: BridgeView<T>, events: Seq<int>)
    requires
        v.payload is Some,
        forall|i: int|
            0 <= i < events.len() ==> event_type_from_value(#[trigger] events[i]) is Some,
    ensures
        dispatched_all(v, events).invocations == v.invocations + events.len(),
        dispatched_all(v, events).payload == v.payload,
        dispatched_all(v, events).name == v.name,
    decreases events.len(),
{
    if events.len() > 0 {
        lemma_exactly_n_invocations(v, events.drop_last());
    }
}

/// Law: after a registration is detached, a batch of events, however
/// long, delivers nothing and changes nothing.
pub proof fn lemma_no_invocations_after_detach<T>(v: BridgeView<T>, events: Seq<int>)
    requires
        v.payload is None,
    ensures
        dispatched_all(v, events) == v,
    decreases events.len(),
{
    if events.len() > 0 {
        lemma_no_invocations_after_detach(v, events.drop_last());
    }
}

/// A live attachment of captured state to a named window's mouse events.
///
/// The handle owns the captured state exclusively.  Each arriving raw
/// event is decoded and counted by [`MouseCallbackHandle::dispatch_event`],
/// which lends the state out per delivery and never consumes it.
/// [`MouseCallbackHandle::detach`] ends the registration: it makes every
/// later delivery a no-op first, and only then hands the captured state
/// back to be released — once, and exactly once.  A detached handle is
/// terminal; attaching again means constructing a new handle.
#[derive(Debug)]
pub struct MouseCallbackHandle<T> {
    name: String,
    payload: Option<T>,
    invocations: u64,
}

impl<T> View for MouseCallbackHandle<T> {
    type V = BridgeView<T>;

    closed spec fn view(&self) -> BridgeView<T> {
        BridgeView {
            name: self.name@,
            payload: self.payload,
            invocations: self.invocations as int,
        }
    }
}

impl<T> MouseCallbackHandle<T> {
    /// Whether the registration is still live: the captured state has not
    /// been handed back yet.
    pub open spec fn spec_registered(&self) -> bool {
        self@.payload is Some
    }

    /// Reports whether the registration is still live.
    pub fn is_registered(&self) -> (r: bool)
        ensures
            r == self.spec_registered(),
    {
        self.payload.is_some()
    }

    /// The name of the window this registration is attached to.
    pub fn window_name(&self) -> (r: &str)
        ensures
            r@ == self@.name,
    {
        self.name.as_str()
    }

    /// How many events have been delivered through this registration.
    pub fn invocation_count(&self) -> (r: u64)
        ensures
            r == self@.invocations,
    {
        self.invocations
    }

    /// Lends out the captured state, exactly while the registration is
    /// live.  A delivery borrows the state; it never consumes it.
    pub fn user_data(&self) -> (r: Option<&T>)
        ensures
            self@.payload matches Some(p) ==> (r matches Some(q) && *q == p),
            self@.payload is None ==> r is None,
    {
        self.payload.as_ref()
    }

    /// Delivers one raw event to this registration.
    ///
    /// While the registration is live and the event kind decodes, the
    /// decoded event is returned for the caller to hand to its callback,
    /// and the delivery is counted.  A detached registration, and an
    /// event kind the window system never sends, deliver nothing and
    /// change nothing.
    pub fn dispatch_event(&mut self, event: i32, x: i32, y: i32, flags: i32) -> (r: Option<
        MouseEvent,
    >)
        requires
            old(self)@.invocations < u64::MAX,
        ensures
            final(self)@ == dispatched(old(self)@, event as int),
            old(self).spec_registered() && event_type_from_value(event as int) is Some ==> (
            r matches Some(ev) && Some(ev.kind) == event_type_from_value(event as int) && ev.x == x
                && ev.y == y && ev.flags.bits == flags & EVENT_FLAG_ALL),
            !(old(self).spec_registered() && event_type_from_value(event as int) is Some)
                ==> r is None,
    {
        if self.payload.is_none() {
            return None;
        }
        let kind = match MouseEventType::from_value(event) {
            Some(k) => k,
            None => {
                return None;
            },
        };
        self.invocations = self.invocations + 1;
        Some(MouseEvent { kind, x, y, flags: MouseEventFlags::from_bits_truncate(flags) })
    }

    /// Ends the registration and hands the captured state back, exactly
    /// once.  From this call on the registration is terminal: deliveries
    /// are no-ops and a second detach returns nothing.  (The caller
    /// silences the window before releasing what this returns; that order
    /// is what makes a late event harmless.)
    pub fn detach(&mut self) -> (r: Option<T>)
        ensures
            final(self)@.name == old(self)@.name,
            final(self)@.invocations == old(self)@.invocations,
            final(self)@.payload is None,
            old(self)@.payload matches Some(p) ==> r == Some(p),
            old(self)@.payload is None ==> r is None,
    {
        self.payload.take()
    }
}

/// Attaches captured state to a named window's mouse events.
///
/// The name must carry no embedded terminator byte, since the window
/// system takes terminator-delimited strings; a bad name is reported as
/// an error, never a panic.  The returned handle starts live, owns
/// `user_data`, and has delivered nothing yet.
pub fn set_mouse_callback<T>(name: &str, user_data: T) -> (r: Result<MouseCallbackHandle<T>, Error>)
    ensures
        valid_window_name(name.spec_bytes()) ==> (r matches Ok(h) && h@.name == name@ && h@.payload
            == Some(user_data) && h@.invocations == 0),
        !valid_window_name(name.spec_bytes()) ==> (r matches Err(e) && e == Error::EmbeddedNul),
{
    match validate_window_name(name) {
        Ok(u) => Ok(
            MouseCallbackHandle { name: name.to_owned(), payload: Some(user_data), invocations: 0 },
        ),
        Err(e) => Err(e),
    }
}

/// Shared state for mouse-driven rectangle selection: the rectangle
/// dragged so far and whether a completed selection is pending.
#[derive(Clone, Copy, Debug, PartialEq, Eq, Structural)]
pub struct SelectionStatus {
    /// The rectangle dragged so far.
    pub selection: Rect,
    /// Whether a completed selection awaits the processing loop.
    pub status: bool,
}

impl SelectionStatus {
    /// An empty selection at the origin, with nothing pending.
    pub fn new() -> (r: SelectionStatus)
        ensures
            r == (SelectionStatus {
                selection: Rect { x: 0, y: 0, width: 0, height: 0 },
                status: false,
            }),
    {
        SelectionStatus { selection: Rect { x: 0, y: 0, width: 0, height: 0 }, status: false }
    }

    /// Feeds one decoded mouse event into the selection.  A left-button
    /// press anchors the rectangle at the cursor; a left-button release
    /// completes it with the dragged extent and raises the pending flag
    /// when that extent is positive in both directions; every other event
    /// changes nothing.
    pub fn on_mouse_event(&mut self, kind: MouseEventType, x: i32, y: i32)
        requires
            kind == MouseEventType::LButtonUp ==> i32::MIN <= x - old(self).selection.x
                <= i32::MAX && i32::MIN <= y - old(self).selection.y <= i32::MAX,
        ensures
            kind == MouseEventType::LButtonDown ==> *final(self) == (SelectionStatus {
                selection: Rect {
                    x,
                    y,
                    width: old(self).selection.width,
                    height: old(self).selection.height,
                },
                status: old(self).status,
            }),
            kind == MouseEventType::LButtonUp ==> (final(self).selection.x
                == old(self).selection.x && final(self).selection.y == old(self).selection.y
                && final(self).selection.width == x - old(self).selection.x
                && final(self).selection.height == y - old(self).selection.y
                && final(self).status == (old(self).status || (x - old(self).selection.x > 0
                && y - old(self).selection.y > 0))),
            kind != MouseEventType::LButtonDown && kind != MouseEventType::LButtonUp
                ==> *final(self) == *old(self),
    {
        match kind {
            MouseEventType::LButtonDown => {
                self.selection.x = x;
                self.selection.y = y;
            },
            MouseEventType::LButtonUp => {
                self.selection.width = x - self.selection.x;
                self.selection.height = y - self.selection.y;
                if self.selection.width > 0 && self.selection.height > 0 {
                    self.status = true;
                }
            },
            _ => {},
        }
    }
}

impl Default for SelectionStatus {
    /// An empty selection at the origin, with nothing pending.
    fn default() -> (r: Self)
        ensures
            r == (SelectionStatus {
                selection: Rect { x: 0, y: 0, width: 0, height: 0 },
                status: false,
            }),
    {
        SelectionStatus::new()
    }
}

} // verus!
