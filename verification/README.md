# crane_game

The remote controller of a claw-machine game: a phone opens a web page that
the game serves through an SSH reverse tunnel, and presses buttons that the
game receives as input actions.

`src/` is the verified library (Verus):

- `markup` — the HTML page and the websocket fragments it exchanges with the phone;
- `text` — HTML escaping, JSON string literals and decimal numbers;
- `session` — the websocket session as a state machine from events to actions;
- `console` — the game-side console: server start/stop and input routing;
- `credentials` — the random UUID login name and the HMAC-derived password;
- `tunnel` — the SSH tunnel's decisions: server keys, logins, channel messages,
  the announced public address;
- `assets` — static file names and media types;
- `canvas` — the pixel grid on which QR codes are drawn.

`app/` is the Godot extension, the async runtime, the web server and the SSH
client that drive the library; `tests/` exercises the library on concrete values.
