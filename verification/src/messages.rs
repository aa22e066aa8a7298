//! The messages that flow between the game, the console and the phone.

use vstd::prelude::*;

verus! {

/// A message from the game to the phone.
#[derive(Clone, Debug)]
pub enum GameMessage {
    /// The player won the prize whose picture is `/assets/<prize>.webp`.
    CollectPrize { prize: String },
    /// A line of text to show on the phone.
    DisplayText { text: String },
}

/// A command that the phone sends to the game. The strength of an analogue
/// press travels as the bit pattern of its `f32` value.
#[derive(Clone, Debug)]
pub enum GameInput {
    ButtonPress { action: String },
    ButtonRelease { action: String },
    ButtonStrength { action: String, strength_bits: u32 },
    SubmitText { text: String },
}

/// What the network side reports to the game loop.
#[derive(Clone, Debug)]
pub enum ClientInput {
    /// The public address at which the phone can reach the game.
    ConnectionUrl { url: String },
    /// A phone joined the game.
    Connected,
    /// A phone left the game.
    Disconnected,
    /// A command from the phone.
    Command(GameInput),
}

/// The abstract value of a [`GameInput`], strings as character sequences.
pub enum GameInputView {
    ButtonPress { action: Seq<char> },
    ButtonRelease { action: Seq<char> },
    ButtonStrength { action: Seq<char>, strength_bits: u32 },
    SubmitText { text: Seq<char> },
}

/// The abstract value of a [`ClientInput`].
pub enum ClientInputView {
    ConnectionUrl { url: Seq<char> },
    Connected,
    Disconnected,
    Command(GameInputView),
}

impl View for GameInput {
    type V = GameInputView;

    open spec fn view(&self) -> GameInputView {
        match self {
            GameInput::ButtonPress { action } => GameInputView::ButtonPress { action: action@ },
            GameInput::ButtonRelease { action } => GameInputView::ButtonRelease { action: action@ },
            GameInput::ButtonStrength { action, strength_bits } => GameInputView::ButtonStrength {
                action: action@,
                strength_bits: *strength_bits,
            },
            GameInput::SubmitText { text } => GameInputView::SubmitText { text: text@ },
        }
    }
}

impl View for ClientInput {
    type V = ClientInputView;

    open spec fn view(&self) -> ClientInputView {
        match self {
            ClientInput::ConnectionUrl { url } => ClientInputView::ConnectionUrl { url: url@ },
            ClientInput::Connected => ClientInputView::Connected,
            ClientInput::Disconnected => ClientInputView::Disconnected,
            ClientInput::Command(input) => ClientInputView::Command(input@),
        }
    }
}

} // verus!
