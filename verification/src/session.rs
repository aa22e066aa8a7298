//! The websocket session with the phone: which fragments to send, which inputs
//! to forward to the game and when to re-arm the notification timer, for every
//! event that the session loop receives.

use vstd::prelude::*;
use vstd::string::StringExecFns;

use crate::markup::{
    hide_notification, hide_notification_markup, ping_span, ping_span_ack, ping_span_ack_markup,
    ping_span_markup, prize_notification, prize_notification_markup, resume_game_notification,
    resume_game_notification_markup, show_notification, show_notification_markup,
    text_notification, text_notification_markup,
};
use crate::messages::{ClientInput, ClientInputView, GameInput, GameMessage};

verus! {

/// A timing message of the page.
#[derive(Debug)]
pub enum NetworkEvent {
    /// The page asks for a pong; `ping` is its timestamp in milliseconds.
    Ping { ping: u64 },
    /// The page acknowledges a pong: its ping time, the server's pong time and
    /// its own time of acknowledgement.
    PingAck { ping: u64, pong: u64, ping_ack: u64 },
}

/// A request of the page's interface.
#[derive(Debug)]
pub enum InterfaceEvent {
    /// The player pressed "Play".
    ResumeGame,
}

/// A text frame of the page that was understood.
#[derive(Debug)]
pub enum SocketEvent {
    Command(GameInput),
    Network(NetworkEvent),
    Interface(InterfaceEvent),
}

/// Everything the session loop can receive.
#[derive(Debug)]
pub enum SessionEvent {
    /// The notification timer ran out.
    NotificationExpired,
    /// The game sent a message.
    Game(GameMessage),
    /// The game's message feed closed or fell behind.
    GameFeedClosed,
    /// The page sent a text frame that was understood; `now_ms` is the
    /// server's clock, in milliseconds since start-up, when it arrived.
    Received { event: SocketEvent, now_ms: u64 },
    /// The page sent a text frame that was not understood.
    Unrecognized { text: String },
    /// The socket delivered a frame that is not text, or an error.
    OtherFrame,
    /// The socket closed.
    SocketClosed,
}

/// One thing the session loop must do. The loop performs a step's actions in
/// order; when a `Send` fails it leaves the loop without the rest, and when a
/// `Forward` fails it abandons the session at once.
#[derive(Debug)]
pub enum SessionAction {
    /// Send this fragment to the page.
    Send(String),
    /// Hand this input to the game.
    Forward(ClientInput),
    /// Stop the notification timer, if one runs.
    CancelTimer,
    /// Start the notification timer.
    ArmTimer,
    /// Write this line to the console.
    Report(String),
}

/// The abstract value of a [`SessionAction`].
pub enum SessionActionView {
    Send(Seq<char>),
    Forward(ClientInputView),
    CancelTimer,
    ArmTimer,
    Report(Seq<char>),
}

impl View for SessionAction {
    type V = SessionActionView;

    open spec fn view(&self) -> SessionActionView {
        match self {
            SessionAction::Send(markup) => SessionActionView::Send(markup@),
            SessionAction::Forward(input) => SessionActionView::Forward(input@),
            SessionAction::CancelTimer => SessionActionView::CancelTimer,
            SessionAction::ArmTimer => SessionActionView::ArmTimer,
            SessionAction::Report(line) => SessionActionView::Report(line@),
        }
    }
}

/// The abstract value of a list of actions.
pub open spec fn actions_view(actions: Seq<SessionAction>) -> Seq<SessionActionView> {
    actions.map_values(|a: SessionAction| a@)
}

/// Whether the session loop goes on after a step.
#[derive(PartialEq, Eq, Structural, Clone, Copy, Debug)]
pub enum Flow {
    Continue,
    Close,
}

/// The latency estimate from one ping round trip, in milliseconds: the page's
/// round trip minus half of the server's.
pub open spec fn latency_of(ping: u64, pong: u64, ping_ack: u64, pong_ack: u64) -> int {
    (ping_ack - ping) - (pong_ack - pong) / 2
}

/// Whether the latency estimate of a round trip is a natural number computed
/// without going below zero on the way.
pub open spec fn latency_defined(ping: u64, pong: u64, ping_ack: u64, pong_ack: u64) -> bool {
    &&& ping <= ping_ack
    &&& pong <= pong_ack
    &&& (pong_ack - pong) / 2 <= ping_ack - ping
}

/// Whether the session can take `event`: a `PingAck` must give a latency that
/// can be computed.
pub open spec fn event_defined(event: SessionEvent) -> bool {
    match event {
        SessionEvent::Received {
            event: SocketEvent::Network(NetworkEvent::PingAck { ping, pong, ping_ack }),
            now_ms,
        } => latency_defined(ping, pong, ping_ack, now_ms),
        _ => true,
    }
}

/// The new latency, the actions and the flow of one step of a session whose
/// latency estimate is `latency`.
pub open spec fn session_step(latency: u64, event: SessionEvent) -> (u64, Seq<SessionActionView>, Flow) {
    match event {
        SessionEvent::NotificationExpired => (
            latency,
            seq![SessionActionView::Send(hide_notification_markup())],
            Flow::Continue,
        ),
        SessionEvent::Game(GameMessage::DisplayText { text }) => (
            latency,
            seq![
                SessionActionView::CancelTimer,
                SessionActionView::Send(text_notification_markup(text@)),
                SessionActionView::Send(show_notification_markup()),
                SessionActionView::ArmTimer,
            ],
            Flow::Continue,
        ),
        SessionEvent::Game(GameMessage::CollectPrize { prize }) => (
            latency,
            seq![
                SessionActionView::CancelTimer,
                SessionActionView::Send(prize_notification_markup(prize@)),
                SessionActionView::Send(show_notification_markup()),
                SessionActionView::ArmTimer,
            ],
            Flow::Continue,
        ),
        SessionEvent::GameFeedClosed => (latency, Seq::empty(), Flow::Close),
        SessionEvent::Received { event: SocketEvent::Command(input), now_ms } => (
            latency,
            seq![SessionActionView::Forward(ClientInputView::Command(input@))],
            Flow::Continue,
        ),
        SessionEvent::Received { event: SocketEvent::Interface(InterfaceEvent::ResumeGame), now_ms } => (
            latency,
            seq![
                SessionActionView::Forward(ClientInputView::Connected),
                SessionActionView::Send(hide_notification_markup()),
            ],
            Flow::Continue,
        ),
        SessionEvent::Received { event: SocketEvent::Network(NetworkEvent::Ping { ping }), now_ms } => (
            latency,
            seq![SessionActionView::Send(ping_span_ack_markup(latency, ping, now_ms))],
            Flow::Continue,
        ),
        SessionEvent::Received {
            event: SocketEvent::Network(NetworkEvent::PingAck { ping, pong, ping_ack }),
            now_ms,
        } => {
            let estimate = latency_of(ping, pong, ping_ack, now_ms) as u64;
            (estimate, seq![SessionActionView::Send(ping_span_markup(estimate))], Flow::Continue)
        },
        SessionEvent::Unrecognized { text } => (
            latency,
            seq![SessionActionView::Report("unknown "@ + text@)],
            Flow::Continue,
        ),
        SessionEvent::OtherFrame => (latency, Seq::empty(), Flow::Continue),
        SessionEvent::SocketClosed => (latency, Seq::empty(), Flow::Close),
    }
}

/// A websocket session with the phone. Only one phone is served at a time.
pub struct Session {
    /// The current latency estimate in milliseconds; zero until known.
    pub latency: u64,
}

/// The outcome of a step: the actions to perform and whether to go on.
pub struct SessionStep {
    pub actions: Vec<SessionAction>,
    pub flow: Flow,
}

/// Computes the latency estimate of a ping round trip.
pub fn latency_estimate(ping: u64, pong: u64, ping_ack: u64, pong_ack: u64) -> (latency: u64)
    requires
        latency_defined(ping, pong, ping_ack, pong_ack),
    ensures
        latency == latency_of(ping, pong, ping_ack, pong_ack),
        latency + (pong_ack - pong) / 2 == ping_ack - ping,
{
    (ping_ack - ping) - ((pong_ack - pong) / 2)
}

impl Session {
    /// Opens a session for a new socket: refused (`None`) while another phone
    /// is connected, otherwise the session starts with the known `latency` and
    /// first offers the "Play" button.
    pub fn open(already_connected: bool, latency: u64) -> (opened: Option<(Session, Vec<SessionAction>)>)
        ensures
            already_connected <==> opened is None,
            opened matches Some((session, actions)) ==> {
                &&& session.latency == latency
                &&& actions_view(actions@) == seq![SessionActionView::Send(resume_game_notification_markup())]
            },
    {
        if already_connected {
            None
        } else {
            let actions = vec![SessionAction::Send(resume_game_notification())];
            proof {
                assert(actions_view(actions@) =~= seq![SessionActionView::Send(resume_game_notification_markup())]);
            }
            Some((Session { latency }, actions))
        }
    }

    /// Decides what the session does with one event.
    pub fn step(&mut self, event: SessionEvent) -> (step: SessionStep)
        requires
            event_defined(event),
        ensures
            (final(self).latency, actions_view(step.actions@), step.flow) == session_step(old(self).latency, event),
            event matches SessionEvent::Received { event: SocketEvent::Command(input), .. } ==> {
                &&& final(self).latency == old(self).latency
                &&& actions_view(step.actions@) == seq![SessionActionView::Forward(ClientInputView::Command(input@))]
                &&& step.flow == Flow::Continue
            },
            event matches SessionEvent::Received {
                event: SocketEvent::Network(NetworkEvent::PingAck { ping, pong, ping_ack }),
                now_ms,
            } ==> final(self).latency + (now_ms - pong) / 2 == ping_ack - ping,
    {
        let ghost old_latency = self.latency;
        let ghost spec_event = event;
        let (actions, flow) = match event {
            SessionEvent::NotificationExpired => {
                (vec![SessionAction::Send(hide_notification())], Flow::Continue)
            },
            SessionEvent::Game(GameMessage::DisplayText { text }) => {
                (
                    vec![
                        SessionAction::CancelTimer,
                        SessionAction::Send(text_notification(text.as_str())),
                        SessionAction::Send(show_notification()),
                        SessionAction::ArmTimer,
                    ],
                    Flow::Continue,
                )
            },
            SessionEvent::Game(GameMessage::CollectPrize { prize }) => {
                (
                    vec![
                        SessionAction::CancelTimer,
                        SessionAction::Send(prize_notification(prize.as_str())),
                        SessionAction::Send(show_notification()),
                        SessionAction::ArmTimer,
                    ],
                    Flow::Continue,
                )
            },
            SessionEvent::GameFeedClosed => (Vec::new(), Flow::Close),
            SessionEvent::Received { event: SocketEvent::Command(input), now_ms } => {
                (vec![SessionAction::Forward(ClientInput::Command(input))], Flow::Continue)
            },
            SessionEvent::Received {
                event: SocketEvent::Interface(InterfaceEvent::ResumeGame),
                now_ms,
            } => {
                (
                    vec![
                        SessionAction::Forward(ClientInput::Connected),
                        SessionAction::Send(hide_notification()),
                    ],
                    Flow::Continue,
                )
            },
            SessionEvent::Received { event: SocketEvent::Network(NetworkEvent::Ping { ping }), now_ms } => {
                (vec![SessionAction::Send(ping_span_ack(self.latency, ping, now_ms))], Flow::Continue)
            },
            SessionEvent::Received {
                event: SocketEvent::Network(NetworkEvent::PingAck { ping, pong, ping_ack }),
                now_ms,
            } => {
                let estimate = latency_estimate(ping, pong, ping_ack, now_ms);
                self.latency = estimate;
                (vec![SessionAction::Send(ping_span(estimate))], Flow::Continue)
            },
            SessionEvent::Unrecognized { text } => {
                let mut line = String::new();
                line.append("unknown ");
                line.append(text.as_str());
                (vec![SessionAction::Report(line)], Flow::Continue)
            },
            SessionEvent::OtherFrame => (Vec::new(), Flow::Continue),
            SessionEvent::SocketClosed => (Vec::new(), Flow::Close),
        };
        proof {
            assert(actions_view(actions@) =~= session_step(old_latency, spec_event).1);
        }
        SessionStep { actions, flow }
    }

    /// Ends the session: the game learns that the phone left.
    pub fn close(self) -> (report: ClientInput)
        ensures
            report@ == ClientInputView::Disconnected,
    {
        ClientInput::Disconnected
    }
}


/// A game message replaces the notification and keeps it up for a while: the
/// running timer is cancelled, the message's fragment and the "show" fragment
/// are sent, and a new timer is armed; when that timer runs out, the box is
/// hidden. Neither step touches the latency estimate or ends the session.
pub proof fn lemma_notification_cycle(latency: u64, message: GameMessage)
    ensures
        ({
            let shown = session_step(latency, SessionEvent::Game(message));
            let hidden = session_step(shown.0, SessionEvent::NotificationExpired);
            &&& shown.0 == latency
            &&& shown.2 == Flow::Continue
            &&& shown.1.len() == 4
            &&& shown.1[0] == SessionActionView::CancelTimer
            &&& shown.1[1] == SessionActionView::Send(match message {
                GameMessage::DisplayText { text } => text_notification_markup(text@),
                GameMessage::CollectPrize { prize } => prize_notification_markup(prize@),
            })
            &&& shown.1[2] == SessionActionView::Send(show_notification_markup())
            &&& shown.1[3] == SessionActionView::ArmTimer
            &&& hidden == (latency, seq![SessionActionView::Send(hide_notification_markup())], Flow::Continue)
        }),
{
}

/// The latency measured by a ping round trip is what the ping box shows, right
/// away and in every later answer to a ping, until the next round trip.
pub proof fn lemma_measured_latency_is_shown(
    latency: u64,
    ping: u64,
    pong: u64,
    ping_ack: u64,
    now_ms: u64,
    next_ping: u64,
    next_now_ms: u64,
)
    requires
        latency_defined(ping, pong, ping_ack, now_ms),
    ensures
        ({
            let measured = session_step(
                latency,
                SessionEvent::Received {
                    event: SocketEvent::Network(NetworkEvent::PingAck { ping, pong, ping_ack }),
                    now_ms,
                },
            );
            let estimate = latency_of(ping, pong, ping_ack, now_ms);
            let answered = session_step(
                measured.0,
                SessionEvent::Received {
                    event: SocketEvent::Network(NetworkEvent::Ping { ping: next_ping }),
                    now_ms: next_now_ms,
                },
            );
            &&& measured.0 == estimate
            &&& measured.1 == seq![SessionActionView::Send(ping_span_markup(measured.0))]
            &&& answered.0 == estimate
            &&& answered.1 == seq![
                SessionActionView::Send(ping_span_ack_markup(measured.0, next_ping, next_now_ms)),
            ]
        }),
{
}

/// Only a ping acknowledgement changes the latency estimate.
pub proof fn lemma_latency_kept(latency: u64, event: SessionEvent)
    requires
        !(event matches SessionEvent::Received {
            event: SocketEvent::Network(NetworkEvent::PingAck { .. }),
            ..
        }),
    ensures
        session_step(latency, event).0 == latency,
{
}

/// The session ends exactly when the socket closes or the game's feed does.
pub proof fn lemma_session_ends(latency: u64, event: SessionEvent)
    ensures
        session_step(latency, event).2 == Flow::Close <==> (event is SocketClosed || event is GameFeedClosed),
{
}


/// Every command of the phone, whatever it is, reaches the game unchanged as
/// the step's only action; the session goes on and its latency is kept.
pub proof fn lemma_commands_are_forwarded(latency: u64, input: GameInput, now_ms: u64)
    ensures
        session_step(latency, SessionEvent::Received { event: SocketEvent::Command(input), now_ms }) == (
            latency,
            seq![SessionActionView::Forward(ClientInputView::Command(input@))],
            Flow::Continue,
        ),
{
}

/// The latency estimate is the page's round trip less half the server's: added
/// to half the server's interval it gives back the page's round trip.
pub proof fn lemma_latency_estimate(ping: u64, pong: u64, ping_ack: u64, pong_ack: u64)
    requires
        latency_defined(ping, pong, ping_ack, pong_ack),
    ensures
        0 <= latency_of(ping, pong, ping_ack, pong_ack) <= ping_ack - ping,
        latency_of(ping, pong, ping_ack, pong_ack) + (pong_ack - pong) / 2 == ping_ack - ping,
        ({
            let step = session_step(
                0,
                SessionEvent::Received {
                    event: SocketEvent::Network(NetworkEvent::PingAck { ping, pong, ping_ack }),
                    now_ms: pong_ack,
                },
            );
            step.0 + (pong_ack - pong) / 2 == ping_ack - ping
        }),
{
}


/// "Play" tells the game that a phone joined, then hides the notification.
pub proof fn lemma_resume_connects_then_hides(latency: u64, now_ms: u64)
    ensures
        session_step(
            latency,
            SessionEvent::Received { event: SocketEvent::Interface(InterfaceEvent::ResumeGame), now_ms },
        ) == (
            latency,
            seq![
                SessionActionView::Forward(ClientInputView::Connected),
                SessionActionView::Send(hide_notification_markup()),
            ],
            Flow::Continue,
        ),
{
}

/// A ping is answered with the ping box that carries the page's own ping time,
/// the server's clock as the pong time and the current latency; nothing else
/// happens.
pub proof fn lemma_ping_is_answered(latency: u64, ping: u64, now_ms: u64)
    ensures
        session_step(
            latency,
            SessionEvent::Received { event: SocketEvent::Network(NetworkEvent::Ping { ping }), now_ms },
        ) == (latency, seq![SessionActionView::Send(ping_span_ack_markup(latency, ping, now_ms))], Flow::Continue),
{
}

/// A text frame that is not understood is reported as `unknown` followed by
/// the frame; a frame that is not text is ignored. Neither ends the session.
pub proof fn lemma_unknown_frames(latency: u64, text: String)
    ensures
        session_step(latency, SessionEvent::Unrecognized { text }) == (
            latency,
            seq![SessionActionView::Report("unknown "@ + text@)],
            Flow::Continue,
        ),
        session_step(latency, SessionEvent::OtherFrame) == (latency, Seq::<SessionActionView>::empty(), Flow::Continue),
        session_step(latency, SessionEvent::SocketClosed) == (latency, Seq::<SessionActionView>::empty(), Flow::Close),
        session_step(latency, SessionEvent::GameFeedClosed) == (latency, Seq::<SessionActionView>::empty(), Flow::Close),
{
}

} // verus!
