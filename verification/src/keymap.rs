//! Getting the keyboard layout on Linux. The layout comes from the display
//! server, Wayland or X11, and the talking is the caller's. Decided here is
//! what to try next and what to make of each answer.
//!
//! `Acquisition` is the whole attempt: read the session's hint, try one
//! backend, on failure the other, and end as `Ready` or `Failed`. Both ends
//! are final, so a layout once found is kept and nothing is asked again.
//! `WaylandProbe` is the Wayland backend's part: three round trips, after
//! each of which something must have been announced.

use vstd::prelude::*;
use crate::text::{decimal_string, same_text, spec_decimal};

verus! {

/// The keymap format that is understood: libxkbcommon's text format,
/// version 1.
pub const KEYMAP_FORMAT_XKB_V1: u32 = 1;

/// Why no keyboard layout could be had.
#[derive(Debug, Clone, PartialEq, Eq, Hash)]
pub enum KeymapError {
    /// Reading the keymap failed; the text is the system's.
    Io(String),
    /// No connection to an X server.
    X11Connect,
    /// A round trip to the Wayland compositor failed; the text is the
    /// protocol library's.
    Wayland(String),
    /// No connection to a Wayland compositor.
    WaylandConnect,
    /// The compositor announced no seat.
    MissingWlSeat,
    /// The seat has no keyboard.
    MissingKeyboardCapability,
    /// The keymap that was sent could not be compiled, or none was sent.
    FailedToCreateKeymap,
    /// The keymap was sent in a format that is not understood; the number
    /// is the format's.
    UnsupportedKeymapFormat(u32),
}

/// A keymap format as a debug listing shows it.
pub open spec fn spec_format_name(format: u32) -> Seq<char> {
    if format == 0 {
        "Value(NoKeymap)"@
    } else if format == KEYMAP_FORMAT_XKB_V1 {
        "Value(XkbV1)"@
    } else {
        "Unknown("@ + spec_decimal(format as nat) + ")"@
    }
}

/// A keymap format as a debug listing shows it.
pub fn format_name(format: u32) -> (r: String)
    ensures
        r@ == spec_format_name(format),
{
    if format == 0 {
        String::from_str("Value(NoKeymap)")
    } else if format == KEYMAP_FORMAT_XKB_V1 {
        String::from_str("Value(XkbV1)")
    } else {
        let mut s = String::from_str("Unknown(");
        let digits = decimal_string(format);
        s.append(digits.as_str());
        s.append(")");
        s
    }
}

impl KeymapError {
    /// The error in words.
    pub open spec fn spec_message(self) -> Seq<char> {
        match self {
            KeymapError::Io(text) => "io error: "@ + text@,
            KeymapError::X11Connect => "unable to connect to X server"@,
            KeymapError::Wayland(_) => "wayland dispatch error"@,
            KeymapError::WaylandConnect => "unable to connect to wayland"@,
            KeymapError::MissingWlSeat => "wl_seat not found in available interfaces"@,
            KeymapError::MissingKeyboardCapability => "wl_seat does not have keyboard capability"@,
            KeymapError::FailedToCreateKeymap => "failed to create keymap"@,
            KeymapError::UnsupportedKeymapFormat(format) => "unsupported keymap format: "@
                + spec_format_name(format),
        }
    }

    /// The error in words.
    pub fn message(&self) -> (r: String)
        ensures
            r@ == self.spec_message(),
    {
        match self {
            KeymapError::Io(text) => {
                let mut s = String::from_str("io error: ");
                s.append(text.as_str());
                s
            },
            KeymapError::X11Connect => String::from_str("unable to connect to X server"),
            KeymapError::Wayland(_) => String::from_str("wayland dispatch error"),
            KeymapError::WaylandConnect => String::from_str("unable to connect to wayland"),
            KeymapError::MissingWlSeat => String::from_str("wl_seat not found in available interfaces"),
            KeymapError::MissingKeyboardCapability => String::from_str(
                "wl_seat does not have keyboard capability",
            ),
            KeymapError::FailedToCreateKeymap => String::from_str("failed to create keymap"),
            KeymapError::UnsupportedKeymapFormat(format) => {
                let mut s = String::from_str("unsupported keymap format: ");
                let name = format_name(*format);
                s.append(name.as_str());
                s
            },
        }
    }
}

/// A display server protocol.
#[derive(Debug, Copy, Clone, PartialEq, Eq, Hash, Structural)]
pub enum Backend {
    Wayland,
    X11,
}

impl Backend {
    /// The other backend.
    pub open spec fn spec_other(self) -> Backend {
        match self {
            Backend::Wayland => Backend::X11,
            Backend::X11 => Backend::Wayland,
        }
    }

    /// The other backend.
    pub fn other(self) -> (r: Backend)
        ensures
            r == self.spec_other(),
    {
        match self {
            Backend::Wayland => Backend::X11,
            Backend::X11 => Backend::Wayland,
        }
    }
}

/// The backend that the session names without doubt: Wayland where the
/// session type is `wayland` and a Wayland display is set, X11 where the
/// session type is `x11`, none otherwise.
pub open spec fn spec_session_hint(session_type: Option<Seq<char>>, wayland_display: bool) -> Option<
    Backend,
> {
    match session_type {
        Some(name) => if name == "wayland"@ && wayland_display {
            Some(Backend::Wayland)
        } else if name == "x11"@ {
            Some(Backend::X11)
        } else {
            None
        },
        None => None,
    }
}

/// Reads the session's hint. `session_type` is the value of
/// `XDG_SESSION_TYPE`, if it is set, and `wayland_display` says whether
/// `WAYLAND_DISPLAY` is set.
pub fn session_hint(session_type: Option<&str>, wayland_display: bool) -> (r: Option<Backend>)
    ensures
        r == spec_session_hint(
            match session_type {
                Some(name) => Some(name@),
                None => None,
            },
            wayland_display,
        ),
{
    match session_type {
        Some(name) => {
            if same_text(name, "wayland") && wayland_display {
                Some(Backend::Wayland)
            } else if same_text(name, "x11") {
                Some(Backend::X11)
            } else {
                None
            }
        },
        None => None,
    }
}

/// The backend to try first: the one that the session names, Wayland
/// without a hint.
pub open spec fn spec_first_backend(hint: Option<Backend>) -> Backend {
    match hint {
        Some(backend) => backend,
        None => Backend::Wayland,
    }
}

/// The error to report when both backends failed: that of the backend that
/// the session names, that of X11 without a hint. The hinted backend is the
/// one tried first, and without a hint X11 the one tried last.
pub open spec fn spec_reported_error(
    hint: Option<Backend>,
    first: KeymapError,
    second: KeymapError,
) -> KeymapError {
    match hint {
        Some(_) => first,
        None => second,
    }
}

/// Where an attempt to get the layout stands. `K` is the layout.
#[derive(Debug)]
pub enum Acquisition<K> {
    /// Nothing was done yet.
    Uninitialized,
    /// The session's hint is being read.
    ProbingSessionType,
    /// A backend is being tried. `earlier` is the error of the backend
    /// that was tried before it, if one was.
    Connecting { backend: Backend, hint: Option<Backend>, earlier: Option<KeymapError> },
    /// The layout is there.
    Ready(K),
    /// Both backends failed.
    Failed(KeymapError),
}

/// What happened outside.
#[derive(Debug)]
pub enum AcquireEvent<K> {
    /// The layout is wanted.
    Start,
    /// The session's hint was read.
    SessionHint(Option<Backend>),
    /// The backend that was tried gave the layout.
    Connected(K),
    /// The backend that was tried failed.
    ConnectFailed(KeymapError),
}

/// What to do outside.
#[derive(Debug, Copy, Clone, PartialEq, Eq, Hash, Structural)]
pub enum AcquireAction {
    /// Read the session's hint and report it.
    ReadSessionHint,
    /// Try this backend and report how it went.
    Connect(Backend),
    /// Nothing.
    Rest,
}

impl<K> Acquisition<K> {
    /// The state after an event, and what to do then. An event that the
    /// state does not wait for changes nothing.
    pub open spec fn spec_step(self, event: AcquireEvent<K>) -> (Acquisition<K>, AcquireAction) {
        match (self, event) {
            (Acquisition::Uninitialized, AcquireEvent::Start) => (
                Acquisition::ProbingSessionType,
                AcquireAction::ReadSessionHint,
            ),
            (Acquisition::ProbingSessionType, AcquireEvent::SessionHint(hint)) => (
                Acquisition::Connecting { backend: spec_first_backend(hint), hint, earlier: None },
                AcquireAction::Connect(spec_first_backend(hint)),
            ),
            (Acquisition::Connecting { .. }, AcquireEvent::Connected(keymap)) => (
                Acquisition::Ready(keymap),
                AcquireAction::Rest,
            ),
            (
                Acquisition::Connecting { backend, hint, earlier: None },
                AcquireEvent::ConnectFailed(error),
            ) => (
                Acquisition::Connecting { backend: backend.spec_other(), hint, earlier: Some(error) },
                AcquireAction::Connect(backend.spec_other()),
            ),
            (
                Acquisition::Connecting { backend, hint, earlier: Some(first) },
                AcquireEvent::ConnectFailed(error),
            ) => (Acquisition::Failed(spec_reported_error(hint, first, error)), AcquireAction::Rest),
            (state, _) => (state, AcquireAction::Rest),
        }
    }

    /// Whether the state is one that an attempt can be in: the backend
    /// that is being tried is the first one as long as none has failed, and
    /// the other one after that.
    pub open spec fn well_formed(self) -> bool {
        match self {
            Acquisition::Connecting { backend, hint, earlier } => backend == if earlier is None {
                spec_first_backend(hint)
            } else {
                spec_first_backend(hint).spec_other()
            },
            _ => true,
        }
    }

    /// How many more times the attempt can ask for something to be done
    /// outside: once for the hint and once for each backend, less what has
    /// been asked already.
    pub open spec fn spec_asks_left(self) -> nat {
        match self {
            Acquisition::Uninitialized => 3,
            Acquisition::ProbingSessionType => 2,
            Acquisition::Connecting { earlier: None, .. } => 1,
            _ => 0,
        }
    }

    /// Whether a step asks for something to be done outside.
    pub open spec fn spec_asks(self, event: AcquireEvent<K>) -> bool {
        self.spec_step(event).1 != AcquireAction::Rest
    }

    /// The state after a run of events.
    pub open spec fn spec_after(self, events: Seq<AcquireEvent<K>>) -> Acquisition<K>
        decreases events.len(),
    {
        if events.len() == 0 {
            self
        } else {
            self.spec_step(events[0]).0.spec_after(events.drop_first())
        }
    }

    /// How often a run of events asks for something to be done outside.
    pub open spec fn spec_asked(self, events: Seq<AcquireEvent<K>>) -> nat
        decreases events.len(),
    {
        if events.len() == 0 {
            0
        } else {
            let rest = self.spec_step(events[0]).0.spec_asked(events.drop_first());
            if self.spec_asks(events[0]) {
                rest + 1
            } else {
                rest
            }
        }
    }

    /// An attempt that has not begun.
    pub fn new() -> (r: Self)
        ensures
            r == Acquisition::<K>::Uninitialized,
            r.well_formed(),
    {
        Acquisition::Uninitialized
    }

    /// Takes an event and says what to do next.
    pub fn step(self, event: AcquireEvent<K>) -> (r: (Acquisition<K>, AcquireAction))
        ensures
            r == self.spec_step(event),
            self.well_formed() ==> r.0.well_formed(),
            r.1 != AcquireAction::Rest ==> r.0.spec_asks_left() < self.spec_asks_left(),
            r.0.spec_asks_left() <= self.spec_asks_left(),
    {
        match self {
            Acquisition::Uninitialized => match event {
                AcquireEvent::Start => (Acquisition::ProbingSessionType, AcquireAction::ReadSessionHint),
                _ => (Acquisition::Uninitialized, AcquireAction::Rest),
            },
            Acquisition::ProbingSessionType => match event {
                AcquireEvent::SessionHint(hint) => {
                    let backend = match hint {
                        Some(backend) => backend,
                        None => Backend::Wayland,
                    };
                    (
                        Acquisition::Connecting { backend, hint, earlier: None },
                        AcquireAction::Connect(backend),
                    )
                },
                _ => (Acquisition::ProbingSessionType, AcquireAction::Rest),
            },
            Acquisition::Connecting { backend, hint, earlier } => match event {
                AcquireEvent::Connected(keymap) => (Acquisition::Ready(keymap), AcquireAction::Rest),
                AcquireEvent::ConnectFailed(error) => match earlier {
                    None => {
                        let next = backend.other();
                        (
                            Acquisition::Connecting { backend: next, hint, earlier: Some(error) },
                            AcquireAction::Connect(next),
                        )
                    },
                    Some(first) => {
                        let reported = match hint {
                            Some(_) => first,
                            None => error,
                        };
                        (Acquisition::Failed(reported), AcquireAction::Rest)
                    },
                },
                _ => (Acquisition::Connecting { backend, hint, earlier }, AcquireAction::Rest),
            },
            Acquisition::Ready(keymap) => (Acquisition::Ready(keymap), AcquireAction::Rest),
            Acquisition::Failed(error) => (Acquisition::Failed(error), AcquireAction::Rest),
        }
    }

    /// Whether the attempt has ended, well or badly.
    pub open spec fn spec_is_final(self) -> bool {
        self is Ready || self is Failed
    }

    /// Why the attempt failed, once it has.
    pub fn failure(&self) -> (r: Option<&KeymapError>)
        ensures
            match r {
                Some(error) => *self == Acquisition::<K>::Failed(*error),
                None => !(self is Failed),
            },
    {
        match self {
            Acquisition::Failed(error) => Some(error),
            _ => None,
        }
    }

    /// The layout, once it is there.
    pub fn keymap(&self) -> (r: Option<&K>)
        ensures
            match r {
                Some(keymap) => *self == Acquisition::Ready(*keymap),
                None => !(self is Ready),
            },
    {
        match self {
            Acquisition::Ready(keymap) => Some(keymap),
            _ => None,
        }
    }
}

/// An attempt that has ended stays as it is, whatever happens, and asks for
/// nothing more: the layout that was found is the one that every later
/// request finds, and no backend is tried again.
pub proof fn lemma_final_states_stay<K>(state: Acquisition<K>, event: AcquireEvent<K>)
    requires
        state.spec_is_final(),
    ensures
        state.spec_step(event) == (state, AcquireAction::Rest),
{
}

/// An attempt that has ended stays as it is through any run of events, and
/// asks for nothing along it: however often the layout is requested, it is
/// fetched once.
pub proof fn lemma_final_states_stay_forever<K>(state: Acquisition<K>, events: Seq<AcquireEvent<K>>)
    requires
        state.spec_is_final(),
    ensures
        state.spec_after(events) == state,
        state.spec_asked(events) == 0,
    decreases events.len(),
{
    if events.len() > 0 {
        lemma_final_states_stay(state, events[0]);
        lemma_final_states_stay_forever(state, events.drop_first());
    }
}

/// Whatever events arrive, and in whatever order, an attempt asks at most
/// three times for something to be done outside: once for the hint and
/// once for each backend.
pub proof fn lemma_asks_are_bounded<K>(state: Acquisition<K>, events: Seq<AcquireEvent<K>>)
    ensures
        state.spec_asked(events) <= state.spec_asks_left(),
        state.spec_after(events).spec_asks_left() + state.spec_asked(events) <= state.spec_asks_left(),
    decreases events.len(),
{
    if events.len() > 0 {
        let next = state.spec_step(events[0]).0;
        lemma_asks_are_bounded(next, events.drop_first());
    }
}

/// Without a hint Wayland is tried first and X11 second; with a hint the
/// hinted backend is tried first and the other second.
pub proof fn lemma_order_of_backends<K>(hint: Option<Backend>, first_error: KeymapError)
    ensures
        ({
            let probing = Acquisition::<K>::ProbingSessionType;
            let (connecting, first) = probing.spec_step(AcquireEvent::SessionHint(hint));
            let (again, second) = connecting.spec_step(AcquireEvent::ConnectFailed(first_error));
            &&& first == AcquireAction::Connect(spec_first_backend(hint))
            &&& second == AcquireAction::Connect(spec_first_backend(hint).spec_other())
            &&& hint is None ==> first == AcquireAction::Connect(Backend::Wayland) && second
                == AcquireAction::Connect(Backend::X11)
        }),
{
}

/// No backend is tried a third time: after two failures the attempt has
/// failed, with the error of the hinted backend, or of X11 without a hint.
pub proof fn lemma_two_failures_fail<K>(
    hint: Option<Backend>,
    first_error: KeymapError,
    second_error: KeymapError,
)
    ensures
        ({
            let probing = Acquisition::<K>::ProbingSessionType;
            let (connecting, _) = probing.spec_step(AcquireEvent::SessionHint(hint));
            let (again, _) = connecting.spec_step(AcquireEvent::ConnectFailed(first_error));
            let (end, last) = again.spec_step(AcquireEvent::ConnectFailed(second_error));
            &&& last == AcquireAction::Rest
            &&& end == Acquisition::<K>::Failed(spec_reported_error(hint, first_error, second_error))
        }),
{
}

/// The round trip to the compositor that has just ended.
#[derive(Debug, Copy, Clone, PartialEq, Eq, Hash, Structural)]
pub enum ProbeStage {
    /// The one in which the compositor announces its globals, the seat
    /// among them.
    Seat,
    /// The one in which the seat announces what it can do.
    Keyboard,
    /// The one in which the keyboard sends its keymap.
    Keymap,
}

/// What the Wayland compositor has announced so far. `K` is the layout.
#[derive(Debug)]
pub struct WaylandProbe<K> {
    /// A seat was announced.
    pub wl_seat: bool,
    /// A seat with a keyboard was announced.
    pub wl_keyboard: bool,
    /// The layout, once a keymap was sent and compiled.
    pub keymap: Option<K>,
    /// What went wrong with the last keymap that was of no use.
    pub error: Option<KeymapError>,
}

/// How a probe goes on after a round trip.
#[derive(Debug)]
pub enum ProbeStep<K> {
    /// Make the next round trip, which is this one.
    Continue(WaylandProbe<K>, ProbeStage),
    /// The layout is there.
    Ready(K),
    /// The probe has failed.
    Failed(KeymapError),
}

/// Whether a global of this interface is a seat.
pub open spec fn spec_is_seat(interface: Seq<char>) -> bool {
    interface == "wl_seat"@
}

/// Whether a keymap in this format can be read.
pub open spec fn spec_accepts_format(format: u32) -> bool {
    format == KEYMAP_FORMAT_XKB_V1
}

/// Whether a keymap in this format can be read. Only then is it worth
/// compiling.
pub fn accepts_format(format: u32) -> (r: bool)
    ensures
        r == spec_accepts_format(format),
{
    format == KEYMAP_FORMAT_XKB_V1
}

impl<K> WaylandProbe<K> {
    /// A probe to which nothing was announced yet.
    pub fn new() -> (r: Self)
        ensures
            r == (WaylandProbe::<K> { wl_seat: false, wl_keyboard: false, keymap: None, error: None }),
    {
        WaylandProbe { wl_seat: false, wl_keyboard: false, keymap: None, error: None }
    }

    /// The compositor announced a global. Returns whether to bind it: a
    /// seat is bound, and noted; anything else is passed over.
    pub fn global_announced(&mut self, interface: &str) -> (bind: bool)
        ensures
            bind == spec_is_seat(interface@),
            final(self).wl_seat == (old(self).wl_seat || bind),
            final(self).wl_keyboard == old(self).wl_keyboard,
            final(self).keymap == old(self).keymap,
            final(self).error == old(self).error,
    {
        if same_text(interface, "wl_seat") {
            self.wl_seat = true;
            true
        } else {
            false
        }
    }

    /// A seat announced what it can do. Returns whether to ask it for its
    /// keyboard: a seat with a keyboard is asked, and noted.
    pub fn capabilities_announced(&mut self, keyboard: bool) -> (ask: bool)
        ensures
            ask == keyboard,
            final(self).wl_keyboard == (old(self).wl_keyboard || keyboard),
            final(self).wl_seat == old(self).wl_seat,
            final(self).keymap == old(self).keymap,
            final(self).error == old(self).error,
    {
        if keyboard {
            self.wl_keyboard = true;
        }
        keyboard
    }

    /// A keymap arrived in a format that `accepts_format` refuses. The
    /// format is noted as the error.
    pub fn format_refused(&mut self, format: u32)
        ensures
            final(self).error == Some(KeymapError::UnsupportedKeymapFormat(format)),
            final(self).wl_seat == old(self).wl_seat,
            final(self).wl_keyboard == old(self).wl_keyboard,
            final(self).keymap == old(self).keymap,
    {
        self.error = Some(KeymapError::UnsupportedKeymapFormat(format));
    }

    /// A keymap arrived in a format that can be read, and `created` is what
    /// came of compiling it: the layout; nothing, where the text was no
    /// keymap; or the text of the error that reading it met. A layout is
    /// kept; anything else is noted as the error, and a layout kept before
    /// stays.
    pub fn keymap_created(&mut self, created: Result<Option<K>, String>)
        ensures
            final(self).wl_seat == old(self).wl_seat,
            final(self).wl_keyboard == old(self).wl_keyboard,
            match created {
                Ok(Some(keymap)) => final(self).keymap == Some(keymap) && final(self).error == old(
                    self,
                ).error,
                Ok(None) => final(self).keymap == old(self).keymap && final(self).error == Some(
                    KeymapError::FailedToCreateKeymap,
                ),
                Err(text) => final(self).keymap == old(self).keymap && final(self).error == Some(
                    KeymapError::Io(text),
                ),
            },
    {
        match created {
            Ok(Some(keymap)) => {
                self.keymap = Some(keymap);
            },
            Ok(None) => {
                self.error = Some(KeymapError::FailedToCreateKeymap);
            },
            Err(text) => {
                self.error = Some(KeymapError::Io(text));
            },
        }
    }

    /// How the probe goes on after a round trip that went well: each of
    /// the first two must have brought what the next one needs, and the
    /// last one the layout.
    pub open spec fn spec_after(self, stage: ProbeStage) -> ProbeStep<K> {
        match stage {
            ProbeStage::Seat => if self.wl_seat {
                ProbeStep::Continue(self, ProbeStage::Keyboard)
            } else {
                ProbeStep::Failed(KeymapError::MissingWlSeat)
            },
            ProbeStage::Keyboard => if self.wl_keyboard {
                ProbeStep::Continue(self, ProbeStage::Keymap)
            } else {
                ProbeStep::Failed(KeymapError::MissingKeyboardCapability)
            },
            ProbeStage::Keymap => match self.keymap {
                Some(keymap) => ProbeStep::Ready(keymap),
                None => ProbeStep::Failed(
                    match self.error {
                        Some(error) => error,
                        None => KeymapError::FailedToCreateKeymap,
                    },
                ),
            },
        }
    }

    /// How the probe goes on after a round trip. `roundtrip` is how the
    /// round trip itself went; the text is the protocol library's error.
    pub open spec fn spec_after_roundtrip(
        self,
        stage: ProbeStage,
        roundtrip: Result<(), String>,
    ) -> ProbeStep<K> {
        match roundtrip {
            Ok(_) => self.spec_after(stage),
            Err(text) => ProbeStep::Failed(KeymapError::Wayland(text)),
        }
    }

    /// Says how to go on after a round trip: with the next one, with the
    /// layout, or with the reason why there is none.
    pub fn after_roundtrip(self, stage: ProbeStage, roundtrip: Result<(), String>) -> (r: ProbeStep<K>)
        ensures
            r == self.spec_after_roundtrip(stage, roundtrip),
    {
        match roundtrip {
            Err(text) => ProbeStep::Failed(KeymapError::Wayland(text)),
            Ok(_) => match stage {
                ProbeStage::Seat => {
                    if self.wl_seat {
                        ProbeStep::Continue(self, ProbeStage::Keyboard)
                    } else {
                        ProbeStep::Failed(KeymapError::MissingWlSeat)
                    }
                },
                ProbeStage::Keyboard => {
                    if self.wl_keyboard {
                        ProbeStep::Continue(self, ProbeStage::Keymap)
                    } else {
                        ProbeStep::Failed(KeymapError::MissingKeyboardCapability)
                    }
                },
                ProbeStage::Keymap => {
                    let WaylandProbe { wl_seat: _, wl_keyboard: _, keymap, error } = self;
                    match keymap {
                        Some(keymap) => ProbeStep::Ready(keymap),
                        None => match error {
                            Some(error) => ProbeStep::Failed(error),
                            None => ProbeStep::Failed(KeymapError::FailedToCreateKeymap),
                        },
                    }
                },
            },
        }
    }
}

} // verus!
