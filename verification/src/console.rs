//! The game-side console: starting and stopping the network server, and
//! turning what the network reports into signals and input events for the game
//! engine.

use vstd::prelude::*;
use vstd::string::StringExecFns;

use crate::messages::{ClientInput, ClientInputView, GameInput, GameInputView, GameMessage};
use crate::session::{session_step, Flow, SessionActionView, SessionEvent, SocketEvent};

verus! {

/// A signal that the console emits to the game's scripts.
#[derive(Debug)]
pub enum ConsoleSignal {
    ConnectionUrl(String),
    ClientConnected,
    ClientDisconnected,
    Text(String),
}

/// What the console asks of the game engine.
#[derive(Debug)]
pub enum ConsoleEffect {
    /// Emit a signal.
    Emit(ConsoleSignal),
    /// Feed a pressed input action.
    Press(String),
    /// Feed a released input action.
    Release(String),
    /// Feed an input action with a strength, given as the bits of an `f32`.
    Strength { action: String, strength_bits: u32 },
}

/// The abstract value of a [`ConsoleSignal`].
pub enum ConsoleSignalView {
    ConnectionUrl(Seq<char>),
    ClientConnected,
    ClientDisconnected,
    Text(Seq<char>),
}

/// The abstract value of a [`ConsoleEffect`].
pub enum ConsoleEffectView {
    Emit(ConsoleSignalView),
    Press(Seq<char>),
    Release(Seq<char>),
    Strength { action: Seq<char>, strength_bits: u32 },
}

impl View for ConsoleSignal {
    type V = ConsoleSignalView;

    open spec fn view(&self) -> ConsoleSignalView {
        match self {
            ConsoleSignal::ConnectionUrl(url) => ConsoleSignalView::ConnectionUrl(url@),
            ConsoleSignal::ClientConnected => ConsoleSignalView::ClientConnected,
            ConsoleSignal::ClientDisconnected => ConsoleSignalView::ClientDisconnected,
            ConsoleSignal::Text(text) => ConsoleSignalView::Text(text@),
        }
    }
}

impl View for ConsoleEffect {
    type V = ConsoleEffectView;

    open spec fn view(&self) -> ConsoleEffectView {
        match self {
            ConsoleEffect::Emit(signal) => ConsoleEffectView::Emit(signal@),
            ConsoleEffect::Press(action) => ConsoleEffectView::Press(action@),
            ConsoleEffect::Release(action) => ConsoleEffectView::Release(action@),
            ConsoleEffect::Strength { action, strength_bits } => ConsoleEffectView::Strength {
                action: action@,
                strength_bits: *strength_bits,
            },
        }
    }
}

/// The abstract value of a list of effects.
pub open spec fn effects_view(effects: Seq<ConsoleEffect>) -> Seq<ConsoleEffectView> {
    effects.map_values(|e: ConsoleEffect| e@)
}

/// The abstract state of the console: whether the server runs, how many phones
/// are connected, and the pressed actions not yet released by a disconnection,
/// in the order they were first pressed.
pub struct ConsoleView {
    pub running: bool,
    pub connections: int,
    pub held: Seq<Seq<char>>,
}

/// The console's state.
pub struct Console {
    running: bool,
    connections: i32,
    held: Vec<String>,
}

impl View for Console {
    type V = ConsoleView;

    closed spec fn view(&self) -> ConsoleView {
        ConsoleView {
            running: self.running,
            connections: self.connections as int,
            held: self.held@.map_values(|a: String| a@),
        }
    }
}

/// A state is well formed when no action is held twice.
pub open spec fn console_wf(state: ConsoleView) -> bool {
    state.held.no_duplicates()
}

/// The releases of the given actions, in order.
pub open spec fn releases(actions: Seq<Seq<char>>) -> Seq<ConsoleEffectView> {
    actions.map_values(|a: Seq<char>| ConsoleEffectView::Release(a))
}

/// The held actions after pressing `action`: unchanged if it is already held,
/// otherwise with `action` added last.
pub open spec fn held_after_press(held: Seq<Seq<char>>, action: Seq<char>) -> Seq<Seq<char>> {
    if held.contains(action) {
        held
    } else {
        held.push(action)
    }
}

/// Whether the console can take `input` without its connection count leaving
/// the range of `i32`.
pub open spec fn input_defined(state: ConsoleView, input: ClientInputView) -> bool {
    match input {
        ClientInputView::Connected => state.connections < i32::MAX,
        ClientInputView::Disconnected => state.connections > i32::MIN,
        _ => true,
    }
}

/// The state and the effects after the console takes one input.
pub open spec fn console_step(state: ConsoleView, input: ClientInputView) -> (ConsoleView, Seq<ConsoleEffectView>) {
    match input {
        ClientInputView::ConnectionUrl { url } => (
            state,
            seq![ConsoleEffectView::Emit(ConsoleSignalView::ConnectionUrl(url))],
        ),
        ClientInputView::Connected => (
            ConsoleView { connections: state.connections + 1, ..state },
            if state.connections == 0 {
                seq![ConsoleEffectView::Emit(ConsoleSignalView::ClientConnected)]
            } else {
                Seq::empty()
            },
        ),
        ClientInputView::Disconnected => (
            ConsoleView { connections: state.connections - 1, held: Seq::empty(), ..state },
            (if state.connections - 1 == 0 {
                seq![ConsoleEffectView::Emit(ConsoleSignalView::ClientDisconnected)]
            } else {
                Seq::empty()
            }) + releases(state.held),
        ),
        ClientInputView::Command(GameInputView::ButtonPress { action }) => (
            ConsoleView { held: held_after_press(state.held, action), ..state },
            seq![ConsoleEffectView::Press(action)],
        ),
        ClientInputView::Command(GameInputView::ButtonRelease { action }) => (
            state,
            seq![ConsoleEffectView::Release(action)],
        ),
        ClientInputView::Command(GameInputView::ButtonStrength { action, strength_bits }) => (
            state,
            seq![ConsoleEffectView::Strength { action, strength_bits }],
        ),
        ClientInputView::Command(GameInputView::SubmitText { text }) => (
            state,
            seq![ConsoleEffectView::Emit(ConsoleSignalView::Text(text))],
        ),
    }
}

/// The state after a start request, and whether it was accepted: only a
/// stopped server can be started.
pub open spec fn console_start(state: ConsoleView) -> (ConsoleView, bool) {
    if state.running {
        (state, false)
    } else {
        (ConsoleView { running: true, ..state }, true)
    }
}

/// The state after a stop request, and whether it was accepted: only a
/// running server can be stopped.
pub open spec fn console_stop(state: ConsoleView) -> (ConsoleView, bool) {
    if state.running {
        (ConsoleView { running: false, ..state }, true)
    } else {
        (state, false)
    }
}

impl Console {
    /// A console whose server is stopped, with no phone and no held action.
    pub fn new() -> (console: Console)
        ensures
            console@ == (ConsoleView { running: false, connections: 0, held: Seq::empty() }),
            console_wf(console@),
    {
        let console = Console { running: false, connections: 0, held: Vec::new() };
        proof {
            assert(console@.held =~= Seq::<Seq<char>>::empty());
        }
        console
    }

    /// Whether the server runs.
    pub fn is_running(&self) -> (running: bool)
        ensures
            running == self@.running,
    {
        self.running
    }

    /// How many phones are connected.
    pub fn connections(&self) -> (connections: i32)
        ensures
            connections == self@.connections,
    {
        self.connections
    }

    /// Marks the server as started. Refused, with the message the console
    /// logs, when it already runs.
    pub fn start(&mut self) -> (outcome: Result<(), String>)
        requires
            console_wf(old(self)@),
        ensures
            console_wf(final(self)@),
            final(self)@ == console_start(old(self)@).0,
            outcome is Ok <==> console_start(old(self)@).1,
            outcome matches Err(message) ==> message@ == "Cannot start server: Already started"@,
    {
        if self.running {
            let mut message = String::new();
            message.append("Cannot start server: Already started");
            Err(message)
        } else {
            self.running = true;
            Ok(())
        }
    }

    /// Marks the server as stopped. Refused, with the message the console
    /// logs, when it is already stopped.
    pub fn stop(&mut self) -> (outcome: Result<(), String>)
        requires
            console_wf(old(self)@),
        ensures
            console_wf(final(self)@),
            final(self)@ == console_stop(old(self)@).0,
            outcome is Ok <==> console_stop(old(self)@).1,
            outcome matches Err(message) ==> message@ == "Cannot stop server: Already stopped"@,
    {
        if self.running {
            self.running = false;
            Ok(())
        } else {
            let mut message = String::new();
            message.append("Cannot stop server: Already stopped");
            Err(message)
        }
    }

    /// Decides what becomes of a message that the game wants to send, given
    /// `json` as the game wrote it and `parsed`, the message read from it if
    /// it is one: sent when it was read and the server runs, otherwise refused
    /// with the message the console logs.
    pub fn send_data(&self, json: &str, parsed: Option<GameMessage>) -> (outcome: Result<GameMessage, String>)
        ensures
            outcome is Ok <==> (parsed is Some && self@.running),
            outcome matches Ok(message) ==> parsed == Some(message),
            outcome matches Err(message) ==> message@ == "Attempted to send unknown data: "@ + json@,
    {
        match parsed {
            Some(message) if self.running => Ok(message),
            _ => {
                let mut line = String::new();
                line.append("Attempted to send unknown data: ");
                line.append(json);
                Err(line)
            },
        }
    }

    /// Whether `action` is held.
    fn holds(&self, action: &String) -> (held: bool)
        ensures
            held == self@.held.contains(action@),
    {
        let mut i: usize = 0;
        while i < self.held.len()
            invariant
                i <= self.held.len(),
                forall|j: int| 0 <= j < i ==> self.held@[j]@ != action@,
            decreases self.held.len() - i,
        {
            if self.held[i] == *action {
                proof {
                    assert(self@.held[i as int] == action@);
                }
                return true;
            }
            i = i + 1;
        }
        proof {
            if self@.held.contains(action@) {
                let k = choose|k: int| 0 <= k < self@.held.len() && self@.held[k] == action@;
                assert(self.held@[k]@ == action@);
            }
        }
        false
    }

    /// Takes one input from the network and returns, in order, what the game
    /// engine must do with it.
    pub fn process(&mut self, input: ClientInput) -> (effects: Vec<ConsoleEffect>)
        requires
            console_wf(old(self)@),
            input_defined(old(self)@, input@),
        ensures
            console_wf(final(self)@),
            (final(self)@, effects_view(effects@)) == console_step(old(self)@, input@),
            input matches ClientInput::Command(GameInput::ButtonRelease { action }) ==> {
                &&& final(self)@ == old(self)@
                &&& effects_view(effects@) == seq![ConsoleEffectView::Release(action@)]
            },
    {
        let ghost old_state = self@;
        let ghost old_input = input@;
        let mut effects: Vec<ConsoleEffect> = Vec::new();
        match input {
            ClientInput::ConnectionUrl { url } => {
                effects.push(ConsoleEffect::Emit(ConsoleSignal::ConnectionUrl(url)));
            },
            ClientInput::Connected => {
                if self.connections == 0 {
                    effects.push(ConsoleEffect::Emit(ConsoleSignal::ClientConnected));
                }
                self.connections = self.connections + 1;
                proof {
                    assert(self@.held =~= old_state.held);
                }
            },
            ClientInput::Disconnected => {
                self.connections = self.connections - 1;
                if self.connections == 0 {
                    effects.push(ConsoleEffect::Emit(ConsoleSignal::ClientDisconnected));
                }
                let mut held: Vec<String> = Vec::new();
                std::mem::swap(&mut held, &mut self.held);
                let ghost prefix = effects_view(effects@);
                let mut i: usize = 0;
                while i < held.len()
                    invariant
                        i <= held.len(),
                        held@.map_values(|a: String| a@) == old_state.held,
                        effects_view(effects@) =~= prefix + releases(old_state.held.take(i as int)),
                    decreases held.len() - i,
                {
                    let ghost before = effects@;
                    let action = held[i].clone();
                    effects.push(ConsoleEffect::Release(action));
                    proof {
                        assert(held@[i as int]@ == old_state.held[i as int]);
                        assert(effects_view(effects@) =~= effects_view(before).push(
                            ConsoleEffectView::Release(old_state.held[i as int]),
                        ));
                        assert(old_state.held.take(i + 1) =~= old_state.held.take(i as int).push(old_state.held[i as int]));
                        assert(releases(old_state.held.take(i + 1)) =~= releases(old_state.held.take(i as int)).push(
                            ConsoleEffectView::Release(old_state.held[i as int]),
                        ));
                        assert(effects_view(effects@) =~= prefix + releases(old_state.held.take(i + 1)));
                    }
                    i = i + 1;
                }
                proof {
                    assert(old_state.held.take(held.len() as int) =~= old_state.held);
                    assert(self@.held =~= Seq::<Seq<char>>::empty());
                }
            },
            ClientInput::Command(GameInput::ButtonPress { action }) => {
                let already = self.holds(&action);
                let copy = action.clone();
                if !already {
                    self.held.push(copy);
                    proof {
                        assert(self@.held =~= old_state.held.push(action@));
                    }
                }
                effects.push(ConsoleEffect::Press(action));
            },
            ClientInput::Command(GameInput::ButtonRelease { action }) => {
                effects.push(ConsoleEffect::Release(action));
            },
            ClientInput::Command(GameInput::ButtonStrength { action, strength_bits }) => {
                effects.push(ConsoleEffect::Strength { action, strength_bits });
            },
            ClientInput::Command(GameInput::SubmitText { text }) => {
                effects.push(ConsoleEffect::Emit(ConsoleSignal::Text(text)));
            },
        }
        proof {
            assert(effects_view(effects@) =~= console_step(old_state, old_input).1);
        }
        effects
    }
}


/// A phone that joins an idle game and leaves again: the game is told once
/// that a client connected and once that it disconnected, and the console is
/// idle again with nothing held.
pub proof fn lemma_connect_disconnect_round_trip(state: ConsoleView)
    requires
        console_wf(state),
        state.connections == 0,
    ensures
        ({
            let joined = console_step(state, ClientInputView::Connected);
            let left = console_step(joined.0, ClientInputView::Disconnected);
            &&& joined.1 == seq![ConsoleEffectView::Emit(ConsoleSignalView::ClientConnected)]
            &&& left.0 == ConsoleView { held: Seq::empty(), ..state }
            &&& left.1 == seq![ConsoleEffectView::Emit(ConsoleSignalView::ClientDisconnected)] + releases(state.held)
        }),
{
}

/// Only the first of several phones is announced as connected, and only the
/// last to leave as disconnected.
pub proof fn lemma_signals_only_at_zero(state: ConsoleView)
    requires
        console_wf(state),
        i32::MIN < state.connections < i32::MAX,
    ensures
        console_step(state, ClientInputView::Connected).1.len() == (if state.connections == 0 { 1int } else { 0int }),
        state.connections != 1 ==> console_step(state, ClientInputView::Disconnected).1 == releases(state.held),
{
    assert(Seq::<ConsoleEffectView>::empty() + releases(state.held) =~= releases(state.held));
}

/// A pressed action is released when the phone disconnects, even if its
/// release never arrived, and nothing stays held.
pub proof fn lemma_disconnect_releases_pressed(state: ConsoleView, action: Seq<char>)
    requires
        console_wf(state),
        state.connections > i32::MIN,
    ensures
        ({
            let pressed = console_step(state, ClientInputView::Command(GameInputView::ButtonPress { action }));
            let left = console_step(pressed.0, ClientInputView::Disconnected);
            &&& pressed.0.held.contains(action)
            &&& left.1.contains(ConsoleEffectView::Release(action))
            &&& left.0.held == Seq::<Seq<char>>::empty()
        }),
{
    let pressed = console_step(state, ClientInputView::Command(GameInputView::ButtonPress { action }));
    let held = pressed.0.held;
    if !state.held.contains(action) {
        assert(held[held.len() - 1] == action);
    }
    let k = choose|k: int| 0 <= k < held.len() && held[k] == action;
    let left = console_step(pressed.0, ClientInputView::Disconnected);
    let signals = if pressed.0.connections - 1 == 0 {
        seq![ConsoleEffectView::Emit(ConsoleSignalView::ClientDisconnected)]
    } else {
        Seq::empty()
    };
    assert(left.1 == signals + releases(held));
    assert(left.1[signals.len() + k] == ConsoleEffectView::Release(action));
}

/// Every step keeps the held actions free of duplicates.
pub proof fn lemma_step_keeps_well_formed(state: ConsoleView, input: ClientInputView)
    requires
        console_wf(state),
    ensures
        console_wf(console_step(state, input).0),
{
    if let ClientInputView::Command(GameInputView::ButtonPress { action }) = input {
        if !state.held.contains(action) {
            let held = state.held.push(action);
            assert forall|i: int, j: int| 0 <= i < held.len() && 0 <= j < held.len() && i != j implies held[i]
                != held[j] by {
                if i < state.held.len() && j < state.held.len() {
                } else if i < state.held.len() {
                    assert(state.held[i] != action);
                } else {
                    assert(state.held[j] != action);
                }
            }
        }
    }
    if input is Disconnected {
        assert(Seq::<Seq<char>>::empty().no_duplicates());
    }
}

/// Starting a stopped server and stopping it again leaves the console as it
/// was; a running server cannot be started and a stopped one cannot be
/// stopped.
pub proof fn lemma_start_stop(state: ConsoleView)
    ensures
        !state.running ==> console_start(state).1 && console_stop(console_start(state).0) == (state, true),
        state.running ==> console_start(state) == (state, false),
        !state.running ==> console_stop(state) == (state, false),
{
}


/// A button pressed on the phone reaches the game engine: the session hands
/// the press to the game unchanged, and the console feeds the engine that
/// action as pressed and holds it until the phone leaves.
pub proof fn lemma_phone_press_reaches_engine(latency: u64, state: ConsoleView, action: String, now_ms: u64)
    requires
        console_wf(state),
    ensures
        ({
            let forwarded = session_step(
                latency,
                SessionEvent::Received { event: SocketEvent::Command(GameInput::ButtonPress { action }), now_ms },
            );
            let fed = console_step(state, ClientInputView::Command(GameInputView::ButtonPress { action: action@ }));
            &&& forwarded == (
                latency,
                seq![SessionActionView::Forward(ClientInputView::Command(GameInputView::ButtonPress { action: action@ }))],
                Flow::Continue,
            )
            &&& fed.1 == seq![ConsoleEffectView::Press(action@)]
            &&& fed.0.held.contains(action@)
        }),
{
    let fed = console_step(state, ClientInputView::Command(GameInputView::ButtonPress { action: action@ }));
    if !state.held.contains(action@) {
        assert(fed.0.held[fed.0.held.len() - 1] == action@);
    }
}


/// The state and the effects after the console takes `inputs` in order.
pub open spec fn console_run(state: ConsoleView, inputs: Seq<ClientInputView>) -> (ConsoleView, Seq<ConsoleEffectView>)
    decreases inputs.len(),
{
    if inputs.len() == 0 {
        (state, Seq::empty())
    } else {
        let before = console_run(state, inputs.drop_last());
        let last = console_step(before.0, inputs.last());
        (last.0, before.1 + last.1)
    }
}

/// Whether every input of `inputs`, taken in order from `state`, keeps the
/// connection count within `i32`.
pub open spec fn run_defined(state: ConsoleView, inputs: Seq<ClientInputView>) -> bool
    decreases inputs.len(),
{
    if inputs.len() == 0 {
        true
    } else {
        run_defined(state, inputs.drop_last()) && input_defined(
            console_run(state, inputs.drop_last()).0,
            inputs.last(),
        )
    }
}

/// How many of `inputs` are `Connected`.
pub open spec fn connects(inputs: Seq<ClientInputView>) -> int
    decreases inputs.len(),
{
    if inputs.len() == 0 {
        0
    } else {
        connects(inputs.drop_last()) + if inputs.last() is Connected { 1int } else { 0int }
    }
}

/// How many of `inputs` are `Disconnected`.
pub open spec fn disconnects(inputs: Seq<ClientInputView>) -> int
    decreases inputs.len(),
{
    if inputs.len() == 0 {
        0
    } else {
        disconnects(inputs.drop_last()) + if inputs.last() is Disconnected { 1int } else { 0int }
    }
}

/// How many of `inputs`, taken in order from `state`, are a `Connected` met
/// while no phone is connected.
pub open spec fn first_connects(state: ConsoleView, inputs: Seq<ClientInputView>) -> int
    decreases inputs.len(),
{
    if inputs.len() == 0 {
        0
    } else {
        first_connects(state, inputs.drop_last()) + if inputs.last() is Connected && console_run(
            state,
            inputs.drop_last(),
        ).0.connections == 0 {
            1int
        } else {
            0int
        }
    }
}

/// How many of `inputs`, taken in order from `state`, are a `Disconnected`
/// after which no phone is connected.
pub open spec fn last_disconnects(state: ConsoleView, inputs: Seq<ClientInputView>) -> int
    decreases inputs.len(),
{
    if inputs.len() == 0 {
        0
    } else {
        last_disconnects(state, inputs.drop_last()) + if inputs.last() is Disconnected && console_run(
            state,
            inputs.drop_last(),
        ).0.connections - 1 == 0 {
            1int
        } else {
            0int
        }
    }
}

/// How many of `effects` emit `signal`.
pub open spec fn signal_count(effects: Seq<ConsoleEffectView>, signal: ConsoleSignalView) -> int
    decreases effects.len(),
{
    if effects.len() == 0 {
        0
    } else {
        signal_count(effects.drop_last(), signal) + if effects.last() == ConsoleEffectView::Emit(signal) {
            1int
        } else {
            0int
        }
    }
}

/// Counting signals over two lists of effects adds up.
proof fn lemma_signal_count_concat(a: Seq<ConsoleEffectView>, b: Seq<ConsoleEffectView>, signal: ConsoleSignalView)
    ensures
        signal_count(a + b, signal) == signal_count(a, signal) + signal_count(b, signal),
    decreases b.len(),
{
    if b.len() == 0 {
        assert(a + b =~= a);
    } else {
        lemma_signal_count_concat(a, b.drop_last(), signal);
        assert((a + b).drop_last() =~= a + b.drop_last());
    }
}

/// Releases emit no signal.
proof fn lemma_releases_emit_nothing(actions: Seq<Seq<char>>, signal: ConsoleSignalView)
    ensures
        signal_count(releases(actions), signal) == 0,
    decreases actions.len(),
{
    if actions.len() > 0 {
        lemma_releases_emit_nothing(actions.drop_last(), signal);
        assert(releases(actions).drop_last() =~= releases(actions.drop_last()));
    }
}

/// Draining a batch of inputs in order: the connection count ends at its start
/// value plus the connections minus the disconnections, "client connected" is
/// emitted exactly for each connection met while no phone was connected, and
/// "client disconnected" exactly for each disconnection after which none is.
pub proof fn lemma_connection_count(state: ConsoleView, inputs: Seq<ClientInputView>)
    requires
        run_defined(state, inputs),
    ensures
        console_run(state, inputs).0.connections == state.connections + connects(inputs) - disconnects(inputs),
        signal_count(console_run(state, inputs).1, ConsoleSignalView::ClientConnected) == first_connects(state, inputs),
        signal_count(console_run(state, inputs).1, ConsoleSignalView::ClientDisconnected) == last_disconnects(
            state,
            inputs,
        ),
    decreases inputs.len(),
{
    if inputs.len() > 0 {
        let rest = inputs.drop_last();
        lemma_connection_count(state, rest);
        let before = console_run(state, rest);
        let last = console_step(before.0, inputs.last());
        lemma_signal_count_concat(before.1, last.1, ConsoleSignalView::ClientConnected);
        lemma_signal_count_concat(before.1, last.1, ConsoleSignalView::ClientDisconnected);
        assert(signal_count(Seq::<ConsoleEffectView>::empty(), ConsoleSignalView::ClientConnected) == 0);
        assert(signal_count(Seq::<ConsoleEffectView>::empty(), ConsoleSignalView::ClientDisconnected) == 0);
        let one_connected = seq![ConsoleEffectView::Emit(ConsoleSignalView::ClientConnected)];
        let one_disconnected = seq![ConsoleEffectView::Emit(ConsoleSignalView::ClientDisconnected)];
        assert(signal_count(one_connected, ConsoleSignalView::ClientConnected) == 1) by {
            assert(one_connected.drop_last() =~= Seq::<ConsoleEffectView>::empty());
            assert(signal_count(Seq::<ConsoleEffectView>::empty(), ConsoleSignalView::ClientConnected) == 0);
            assert(one_connected.last() == ConsoleEffectView::Emit(ConsoleSignalView::ClientConnected));
        }
        assert(signal_count(one_disconnected, ConsoleSignalView::ClientDisconnected) == 1) by {
            assert(one_disconnected.drop_last() =~= Seq::<ConsoleEffectView>::empty());
            assert(signal_count(Seq::<ConsoleEffectView>::empty(), ConsoleSignalView::ClientDisconnected) == 0);
            assert(one_disconnected.last() == ConsoleEffectView::Emit(ConsoleSignalView::ClientDisconnected));
        }
        assert(signal_count(one_connected, ConsoleSignalView::ClientDisconnected) == 0) by {
            assert(one_connected.drop_last() =~= Seq::<ConsoleEffectView>::empty());
            assert(signal_count(Seq::<ConsoleEffectView>::empty(), ConsoleSignalView::ClientDisconnected) == 0);
        }
        assert(signal_count(one_disconnected, ConsoleSignalView::ClientConnected) == 0) by {
            assert(one_disconnected.drop_last() =~= Seq::<ConsoleEffectView>::empty());
            assert(signal_count(Seq::<ConsoleEffectView>::empty(), ConsoleSignalView::ClientConnected) == 0);
        }
        match inputs.last() {
            ClientInputView::Disconnected => {
                let signals = if before.0.connections - 1 == 0 {
                    one_disconnected
                } else {
                    Seq::empty()
                };
                lemma_signal_count_concat(signals, releases(before.0.held), ConsoleSignalView::ClientConnected);
                lemma_signal_count_concat(signals, releases(before.0.held), ConsoleSignalView::ClientDisconnected);
                lemma_releases_emit_nothing(before.0.held, ConsoleSignalView::ClientConnected);
                lemma_releases_emit_nothing(before.0.held, ConsoleSignalView::ClientDisconnected);
            },
            ClientInputView::ConnectionUrl { url } => {
                let e = seq![ConsoleEffectView::Emit(ConsoleSignalView::ConnectionUrl(url))];
                assert(e.drop_last() =~= Seq::<ConsoleEffectView>::empty());
            },
            ClientInputView::Command(GameInputView::SubmitText { text }) => {
                let e = seq![ConsoleEffectView::Emit(ConsoleSignalView::Text(text))];
                assert(e.drop_last() =~= Seq::<ConsoleEffectView>::empty());
            },
            ClientInputView::Command(c) => {
                assert(last.1.drop_last() =~= Seq::<ConsoleEffectView>::empty());
            },
            ClientInputView::Connected => {},
        }
    }
}


/// Releasing a button feeds the engine the release of that very action, and
/// nothing else; the console's state is untouched.
pub proof fn lemma_release_passes_through(state: ConsoleView, action: Seq<char>)
    ensures
        console_step(state, ClientInputView::Command(GameInputView::ButtonRelease { action })) == (
            state,
            seq![ConsoleEffectView::Release(action)],
        ),
{
}


/// Pressing a button feeds the engine that action as pressed and nothing else;
/// the action is held from then on, every action held before stays held, no
/// other is added, and the server state and connection count are untouched.
pub proof fn lemma_press_holds_action(state: ConsoleView, action: Seq<char>)
    ensures
        ({
            let (after, effects) = console_step(state, ClientInputView::Command(GameInputView::ButtonPress { action }));
            &&& effects == seq![ConsoleEffectView::Press(action)]
            &&& after.running == state.running
            &&& after.connections == state.connections
            &&& after.held.contains(action)
            &&& forall|a: Seq<char>| state.held.contains(a) ==> after.held.contains(a)
            &&& forall|a: Seq<char>| after.held.contains(a) ==> a == action || state.held.contains(a)
        }),
{
    let after = console_step(state, ClientInputView::Command(GameInputView::ButtonPress { action })).0;
    if !state.held.contains(action) {
        assert(after.held == state.held.push(action));
        assert(after.held[state.held.len() as int] == action);
        assert forall|a: Seq<char>| state.held.contains(a) implies after.held.contains(a) by {
            let k = choose|k: int| 0 <= k < state.held.len() && state.held[k] == a;
            assert(after.held[k] == a);
        }
        assert forall|a: Seq<char>| after.held.contains(a) implies a == action || state.held.contains(a) by {
            let k = choose|k: int| 0 <= k < after.held.len() && after.held[k] == a;
            if k < state.held.len() {
                assert(state.held[k] == a);
            }
        }
    }
}

/// A strength, a submitted text and the public address pass to the engine
/// unchanged as the only effect, and leave the console as it was.
pub proof fn lemma_other_inputs_pass_through(state: ConsoleView, action: Seq<char>, strength_bits: u32, text: Seq<char>)
    ensures
        console_step(state, ClientInputView::Command(GameInputView::ButtonStrength { action, strength_bits })) == (
            state,
            seq![ConsoleEffectView::Strength { action, strength_bits }],
        ),
        console_step(state, ClientInputView::Command(GameInputView::SubmitText { text })) == (
            state,
            seq![ConsoleEffectView::Emit(ConsoleSignalView::Text(text))],
        ),
        console_step(state, ClientInputView::ConnectionUrl { url: text }) == (
            state,
            seq![ConsoleEffectView::Emit(ConsoleSignalView::ConnectionUrl(text))],
        ),
{
}

/// A connection or disconnection moves the count by exactly one and touches
/// nothing else but, on leaving, the held actions, which are all released.
pub proof fn lemma_connection_moves_count(state: ConsoleView)
    ensures
        console_step(state, ClientInputView::Connected).0 == (ConsoleView {
            connections: state.connections + 1,
            ..state
        }),
        console_step(state, ClientInputView::Disconnected).0 == (ConsoleView {
            connections: state.connections - 1,
            held: Seq::empty(),
            ..state
        }),
        forall|a: Seq<char>| #[trigger]
            state.held.contains(a) ==> console_step(state, ClientInputView::Disconnected).1.contains(
                ConsoleEffectView::Release(a),
            ),
{
    let effects = console_step(state, ClientInputView::Disconnected).1;
    let signals = if state.connections - 1 == 0 {
        seq![ConsoleEffectView::Emit(ConsoleSignalView::ClientDisconnected)]
    } else {
        Seq::empty()
    };
    assert forall|a: Seq<char>| #[trigger]
        state.held.contains(a) implies effects.contains(ConsoleEffectView::Release(a)) by {
        let k = choose|k: int| 0 <= k < state.held.len() && state.held[k] == a;
        assert(effects[signals.len() + k] == ConsoleEffectView::Release(a));
    }
}

} // verus!
