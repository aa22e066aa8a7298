//! Verified core of the crane game's remote controller: the markup sent to the
//! phone, the websocket session, the console that turns client input into game
//! events, the SSH tunnel's decisions, and the QR pixel canvas.

use vstd::prelude::*;

pub mod assets;
pub mod canvas;
pub mod console;
pub mod credentials;
pub mod markup;
pub mod messages;
pub mod session;
pub mod text;
pub mod tunnel;

verus! {

/// Whether the debug panels and console echo are enabled.
pub const DEBUG: bool = false;

/// The audience for which the tunnel password is derived.
pub const AUDIENCE: &'static str = "crane-game@v1";

/// The host of the tunnel server.
pub const TUNNEL_HOST: &'static str = "eric.dev.br";

/// The SSH port of the tunnel server.
pub const TUNNEL_PORT: u16 = 443;

/// The remote port whose connections the tunnel forwards to the game.
pub const FORWARDED_PORT: u32 = 80;

/// How long a notification stays on the phone, in seconds.
pub const NOTIFICATION_SECONDS: u64 = 4;

/// How many game messages wait for a slow phone before it falls behind.
pub const MESSAGE_BACKLOG: usize = 16;

/// The name under which the QR code generator is registered with the engine.
pub const QR_SINGLETON: &'static str = "QrCode";

} // verus!
