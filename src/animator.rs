//! The animation's state, and what each input event does to it.
use vstd::prelude::*;

verus! {

/// A key that the animation reacts to; every other key is `Other`.
#[derive(Clone, Copy, Debug, PartialEq, Eq, Structural)]
pub enum Key {
    /// Toggles the debug overlay when pressed without modifiers.
    F3,
    /// Quits.
    Escape,
    /// Quits.
    Space,
    Other,
}

/// What the host is asked to do after an event.
#[derive(Clone, Copy, Debug, PartialEq, Eq, Structural)]
pub enum Action {
    /// Keep running.
    Continue,
    /// Terminate the process.
    Exit,
}

/// An input delivered by the host's event loop.
#[derive(Clone, Copy, Debug, PartialEq, Eq, Structural)]
pub enum Event {
    /// One tick of the frame clock.
    Update,
    /// A key press; `no_modifiers` holds when no modifier key was down, and
    /// `key` is `None` for a key without a key code.
    KeyDown { no_modifiers: bool, key: Option<Key> },
    /// A press of any pointer button.
    MouseDown,
}

/// The animation state as plain values.
#[derive(Clone, Copy, Debug, PartialEq, Eq, Structural)]
pub struct AppView {
    pub frame_count: u32,
    pub show_debug: bool,
}

/// The frame counter after one tick; it wraps at the top of `u32`.
pub open spec fn next_frame(n: u32) -> u32 {
    if n == u32::MAX {
        0
    } else {
        (n + 1) as u32
    }
}

/// Whether a key press with these modifiers toggles the debug overlay.
pub open spec fn is_toggle_key(no_modifiers: bool, key: Option<Key>) -> bool {
    no_modifiers && key == Some(Key::F3)
}

/// Whether a key press quits, whatever the modifiers.
pub open spec fn is_exit_key(key: Option<Key>) -> bool {
    key == Some(Key::Escape) || key == Some(Key::Space)
}

/// Whether an event asks the process to terminate.
pub open spec fn requests_exit(e: Event) -> bool {
    match e {
        Event::Update => false,
        Event::KeyDown { no_modifiers, key } => is_exit_key(key),
        Event::MouseDown => true,
    }
}

/// The state after an event, and the action asked of the host.
pub open spec fn step(v: AppView, e: Event) -> (AppView, Action) {
    match e {
        Event::Update => (AppView { frame_count: next_frame(v.frame_count), ..v }, Action::Continue),
        Event::KeyDown { no_modifiers, key } => if is_toggle_key(no_modifiers, key) {
            (AppView { show_debug: !v.show_debug, ..v }, Action::Continue)
        } else if is_exit_key(key) {
            (v, Action::Exit)
        } else {
            (v, Action::Continue)
        },
        Event::MouseDown => (v, Action::Exit),
    }
}

/// The animation state: frames elapsed and whether the debug overlay shows.
pub struct App {
    frame_count: u32,
    show_debug: bool,
}

impl View for App {
    type V = AppView;

    closed spec fn view(&self) -> AppView {
        AppView { frame_count: self.frame_count, show_debug: self.show_debug }
    }
}

impl App {
    /// A fresh animation: no frames yet, debug overlay hidden.
    pub fn new() -> (r: App)
        ensures
            r@ == (AppView { frame_count: 0, show_debug: false }),
    {
        App { frame_count: 0, show_debug: false }
    }

    pub fn frame_count(&self) -> (r: u32)
        ensures
            r == self@.frame_count,
    {
        self.frame_count
    }

    pub fn show_debug(&self) -> (r: bool)
        ensures
            r == self@.show_debug,
    {
        self.show_debug
    }

    /// One tick of the frame clock.
    pub fn update(&mut self)
        ensures
            final(self)@ == step(old(self)@, Event::Update).0,
            final(self)@.frame_count == next_frame(old(self)@.frame_count),
            final(self)@.show_debug == old(self)@.show_debug,
    {
        self.frame_count = self.frame_count.wrapping_add(1);
    }

    /// A key press: F3 without modifiers toggles the debug overlay; Escape or
    /// Space, with any modifiers, asks to quit.
    pub fn key_down_event(&mut self, no_modifiers: bool, key: Option<Key>) -> (r: Action)
        ensures
            (final(self)@, r) == step(old(self)@, Event::KeyDown { no_modifiers, key }),
            final(self)@.frame_count == old(self)@.frame_count,
            final(self)@.show_debug == (old(self)@.show_debug != is_toggle_key(no_modifiers, key)),
            r == Action::Exit <==> is_exit_key(key),
    {
        match key {
            Some(Key::F3) => {
                if no_modifiers {
                    self.show_debug = !self.show_debug;
                }
                Action::Continue
            },
            Some(Key::Escape) | Some(Key::Space) => Action::Exit,
            _ => Action::Continue,
        }
    }

    /// A press of any pointer button asks to quit.
    pub fn mouse_button_down_event(&self) -> (r: Action)
        ensures
            r == Action::Exit,
            (self@, r) == step(self@, Event::MouseDown),
    {
        Action::Exit
    }

    /// Applies one event from the host and says what the host is to do next.
    pub fn handle(&mut self, event: Event) -> (r: Action)
        ensures
            (final(self)@, r) == step(old(self)@, event),
            r == Action::Exit <==> requests_exit(event),
    {
        match event {
            Event::Update => {
                self.update();
                Action::Continue
            },
            Event::KeyDown { no_modifiers, key } => self.key_down_event(no_modifiers, key),
            Event::MouseDown => self.mouse_button_down_event(),
        }
    }
}

/// The character of decimal digit `d`.
pub open spec fn digit_char(d: nat) -> char {
    seq!['0', '1', '2', '3', '4', '5', '6', '7', '8', '9'][d as int]
}

/// `n` in decimal, most significant digit first, with no leading zero.
pub open spec fn decimal(n: nat) -> Seq<char>
    decreases n,
{
    if n < 10 {
        seq![digit_char(n)]
    } else {
        decimal(n / 10).push(digit_char(n % 10))
    }
}

/// The line that the debug overlay shows after `frames` frames.
pub open spec fn debug_line(frames: u32) -> Seq<char> {
    "Total frames: "@ + decimal(frames as nat)
}

/// Relies on `ToString` for `u32`, which goes through its `Display`: an
/// unsigned integer is written in decimal, with no sign and no padding.
#[verifier::external_body]
fn decimal_string(n: u32) -> (r: String)
    ensures
        r@ == decimal(n as nat),
{
    n.to_string()
}

/// Relies on `String::push_str`: appends `t` to `s`.
#[verifier::external_body]
fn append_str(s: &mut String, t: &str)
    ensures
        final(s)@ == old(s)@ + t@,
{
    s.push_str(t)
}

impl App {
    /// The text of the debug overlay, present only while it is shown.
    pub fn debug_text(&self) -> (r: Option<String>)
        ensures
            self@.show_debug ==> r is Some && r->0@ == debug_line(self@.frame_count),
            !self@.show_debug ==> r is None,
    {
        if self.show_debug {
            let mut line = "Total frames: ".to_owned();
            let digits = decimal_string(self.frame_count);
            append_str(&mut line, digits.as_str());
            Some(line)
        } else {
            None
        }
    }
}

impl Default for App {
    fn default() -> (r: App)
        ensures
            r@ == (AppView { frame_count: 0, show_debug: false }),
    {
        App::new()
    }
}

/// The key press that toggles the debug overlay.
pub open spec fn toggle_press() -> Event {
    Event::KeyDown { no_modifiers: true, key: Some(Key::F3) }
}

/// Pressing the toggle key flips the debug overlay and nothing else, and a
/// second press brings the state back, whatever the frame count.
pub proof fn lemma_toggle_twice(v: AppView)
    ensures
        step(v, toggle_press()).0 == (AppView { show_debug: !v.show_debug, ..v }),
        step(v, toggle_press()).1 == Action::Continue,
        step(step(v, toggle_press()).0, toggle_press()).0 == v,
{
}

/// An event asks the host to quit exactly when it is an exit event, and such
/// an event leaves the state as it was.
pub proof fn lemma_exit_step(v: AppView, e: Event)
    ensures
        step(v, e).1 == Action::Exit <==> requests_exit(e),
        requests_exit(e) ==> step(v, e).0 == v,
{
}

/// Number of frame ticks among `events`.
pub open spec fn count_updates(events: Seq<Event>) -> nat
    decreases events.len(),
{
    if events.len() == 0 {
        0
    } else {
        count_updates(events.drop_first()) + if events[0] == Event::Update { 1nat } else { 0nat }
    }
}

/// The host loop delivering `events` in order from state `v`: it stops at the
/// first event whose action is `Exit`, since the process then terminates.
/// Gives the last state, how many times termination was requested, and how
/// many frame ticks were delivered.
pub open spec fn run(v: AppView, events: Seq<Event>) -> (AppView, nat, nat)
    decreases events.len(),
{
    if events.len() == 0 {
        (v, 0, 0)
    } else {
        let (w, a) = step(v, events[0]);
        if a == Action::Exit {
            (w, 1, 0)
        } else {
            let (last, exits, updates) = run(w, events.drop_first());
            (last, exits, updates + if events[0] == Event::Update { 1nat } else { 0nat })
        }
    }
}

/// A run in which no event asks to quit never requests termination and
/// delivers every frame tick.
pub proof fn lemma_run_without_exit(v: AppView, events: Seq<Event>)
    requires
        forall|j: int| 0 <= j < events.len() ==> !requests_exit(#[trigger] events[j]),
    ensures
        run(v, events).1 == 0,
        run(v, events).2 == count_updates(events),
    decreases events.len(),
{
    if events.len() > 0 {
        lemma_exit_step(v, events[0]);
        let rest = events.drop_first();
        assert forall|j: int| 0 <= j < rest.len() implies !requests_exit(#[trigger] rest[j]) by {
            assert(rest[j] == events[j + 1]);
        }
        lemma_run_without_exit(step(v, events[0]).0, rest);
    }
}

/// When the event at `k` is the first that asks to quit (an exit key or a
/// pointer press), termination is requested exactly once, and no frame tick
/// after it is delivered: the state is what the events before it made.
pub proof fn lemma_exit_requested_once(v: AppView, events: Seq<Event>, k: int)
    requires
        0 <= k < events.len(),
        requests_exit(events[k]),
        forall|j: int| 0 <= j < k ==> !requests_exit(#[trigger] events[j]),
    ensures
        run(v, events).1 == 1,
        run(v, events).2 == count_updates(events.take(k)),
        run(v, events).0 == run(v, events.take(k)).0,
    decreases k,
{
    lemma_exit_step(v, events[0]);
    if k > 0 {
        let w = step(v, events[0]).0;
        let rest = events.drop_first();
        assert forall|j: int| 0 <= j < k - 1 implies !requests_exit(#[trigger] rest[j]) by {
            assert(rest[j] == events[j + 1]);
        }
        lemma_exit_requested_once(w, rest, k - 1);
        let prefix = events.take(k);
        assert(prefix.drop_first() =~= rest.take(k - 1));
        assert(prefix[0] == events[0]);
    }
}

} // verus!
