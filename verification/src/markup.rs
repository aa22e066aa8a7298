//! The HTML fragments that the game page exchanges with the phone over the
//! websocket, and the page itself.

use vstd::prelude::*;
use vstd::string::StringExecFns;

use crate::text::{
    decimal, decimal_string, digits_value, html_escape, html_escaped, html_plain, json_string, json_string_literal,
    lemma_decimal_denotes, lemma_escape_concat, lemma_escape_keeps_plain_text,
};

verus! {

/// Appends `text`, HTML-escaped, to `out`.
fn push_escaped(out: &mut String, text: &str)
    ensures
        final(out)@ == old(out)@ + html_escaped(text@),
{
    let escaped = html_escape(text);
    out.append(escaped.as_str());
}

/// Appends the decimal digits of `n` to `out`.
fn push_decimal(out: &mut String, n: u64)
    ensures
        final(out)@ == old(out)@ + decimal(n as nat),
{
    let digits = decimal_string(n);
    out.append(digits.as_str());
}

/// Markup that hides the notification box.
pub open spec fn hide_notification_markup() -> Seq<char> {
    "<div class=\"hide\" id=\"notification-state\"></div>"@
}

/// Markup that shows the notification box.
pub open spec fn show_notification_markup() -> Seq<char> {
    "<div class=\"show\" id=\"notification-state\"></div>"@
}

/// Markup that puts `text` into the notification box.
pub open spec fn text_notification_markup(text: Seq<char>) -> Seq<char> {
    "<div id=\"notification\">"@ + html_escaped(text) + "</div>"@
}

/// Markup that puts the prize picture named `image` into the notification box,
/// over a starburst of twenty rays.
pub open spec fn prize_notification_markup(image: Seq<char>) -> Seq<char> {
    "<div class=\"prize\" id=\"notification\"><ul class=\"starburst-wheel\">"@
        + "<li></li><li></li><li></li><li></li><li></li><li></li><li></li><li></li><li></li><li></li><li></li><li></li><li></li><li></li><li></li><li></li><li></li><li></li><li></li><li></li>"@
        + "</ul><img src=\"/assets/"@ + html_escaped(image) + ".webp\"></div>"@
}

/// The JSON object `{"type": kind}` as the page sends it back.
pub open spec fn typed_json(kind: Seq<char>) -> Seq<char> {
    "{\"type\":"@ + json_string(kind) + "}"@
}

/// The JSON object `{"action": action, "type": kind}`, keys in sorted order.
pub open spec fn action_json(kind: Seq<char>, action: Seq<char>) -> Seq<char> {
    "{\"action\":"@ + json_string(action) + ",\"type\":"@ + json_string(kind) + "}"@
}

/// Markup that offers the "Play" button, which sends a `ResumeGame` event.
pub open spec fn resume_game_notification_markup() -> Seq<char> {
    "<div id=\"notification\"><button id=\"resume-game-button\" hx-vals=\""@
        + html_escaped(typed_json("ResumeGame"@))
        + "\" hx-trigger=\"pointerdown from:#resume-game-button\" ws-send>Play</button></div>"@
}

/// The latency shown in the ping box: nothing until a latency is known.
pub open spec fn latency_label(latency: u64) -> Seq<char> {
    if latency > 0 {
        decimal(latency as nat) + "ms"@
    } else {
        Seq::empty()
    }
}

/// The trigger of the ping box: ping again after five seconds once a latency is
/// known, after two seconds before.
pub open spec fn ping_trigger(latency: u64) -> Seq<char> {
    "load delay:"@ + (if latency > 0 {
        "5000ms"@
    } else {
        "2000ms"@
    })
}

/// The ping box, which sends a `Ping` with the page's timestamp when it loads.
pub open spec fn ping_span_markup(latency: u64) -> Seq<char> {
    "<span id=\"ping\" name=\"ping\" hx-vals=\"js:{type: &quot;Ping&quot;, ping: getTimestamp()}\" hx-trigger=\""@
        + html_escaped(ping_trigger(latency)) + "\" ws-send>"@ + latency_label(latency)
        + "</span>"@
}

/// The script value of the acknowledging ping box.
pub open spec fn ping_ack_values(ping: u64, pong: u64) -> Seq<char> {
    "js:{type: \"PingAck\", ping: "@ + decimal(ping as nat) + ", pong: "@ + decimal(pong as nat)
        + ", ping_ack: getTimestamp()}"@
}

/// The ping box that answers a `Ping`: on load it sends a `PingAck` carrying the
/// page's ping time, the server's pong time and the page's new timestamp.
pub open spec fn ping_span_ack_markup(latency: u64, ping: u64, pong: u64) -> Seq<char> {
    "<span id=\"ping\" name=\"ping\" hx-vals=\""@ + html_escaped(ping_ack_values(ping, pong))
        + "\" hx-trigger=\"load\" ws-send>"@ + latency_label(latency) + "</span>"@
}

/// A control button with element id `id` around `content`: pressing it sends a
/// `ButtonPress` of `action`, lifting or leaving it a `ButtonRelease`.
pub open spec fn button_markup(id: Seq<char>, action: Seq<char>, content: Seq<char>) -> Seq<char> {
    "<div id=\""@ + html_escaped(id)
        + "\" x-data=\"{ pressed: false }\"><button x-bind:class=\"pressed &amp;&amp; 'pressed'\" x-on:pointerdown=\"pressed = true\" x-on:pointerup=\"pressed = false\" x-on:pointerleave=\"pressed = false\">"@
        + content + "</button><div hx-vals=\""@ + html_escaped(action_json("ButtonPress"@, action))
        + "\" hx-trigger=\""@ + html_escaped("pointerdown from:#"@ + id) + "\" ws-send></div><div hx-vals=\""@
        + html_escaped(action_json("ButtonRelease"@, action)) + "\" hx-trigger=\""@
        + html_escaped("pointerup from:#"@ + id + ", pointerleave from:#"@ + id)
        + "\" ws-send></div></div>"@
}

/// Builds the fragment that hides the notification box.
pub fn hide_notification() -> (markup: String)
    ensures
        markup@ == hide_notification_markup(),
{
    let mut markup = String::new();
    markup.append("<div class=\"hide\" id=\"notification-state\"></div>");
    markup
}

/// Builds the fragment that shows the notification box.
pub fn show_notification() -> (markup: String)
    ensures
        markup@ == show_notification_markup(),
{
    let mut markup = String::new();
    markup.append("<div class=\"show\" id=\"notification-state\"></div>");
    markup
}

/// Builds the fragment that writes `text`, escaped, into the notification box.
pub fn text_notification(text: &str) -> (markup: String)
    ensures
        markup@ == text_notification_markup(text@),
{
    let mut markup = String::new();
    markup.append("<div id=\"notification\">");
    push_escaped(&mut markup, text);
    markup.append("</div>");
    markup
}

/// Builds the fragment that shows the prize picture `/assets/<image>.webp`.
pub fn prize_notification(image: &str) -> (markup: String)
    ensures
        markup@ == prize_notification_markup(image@),
{
    let mut markup = String::new();
    markup.append("<div class=\"prize\" id=\"notification\"><ul class=\"starburst-wheel\">");
    markup.append(
        "<li></li><li></li><li></li><li></li><li></li><li></li><li></li><li></li><li></li><li></li><li></li><li></li><li></li><li></li><li></li><li></li><li></li><li></li><li></li><li></li>",
    );
    markup.append("</ul><img src=\"/assets/");
    push_escaped(&mut markup, image);
    markup.append(".webp\"></div>");
    markup
}

/// Builds the JSON object `{"type": kind}`.
fn typed_json_text(kind: &str) -> (json: String)
    ensures
        json@ == typed_json(kind@),
{
    let mut json = String::new();
    json.append("{\"type\":");
    let literal = json_string_literal(kind);
    json.append(literal.as_str());
    json.append("}");
    json
}

/// Builds the JSON object `{"action": action, "type": kind}`.
fn action_json_text(kind: &str, action: &str) -> (json: String)
    ensures
        json@ == action_json(kind@, action@),
{
    let mut json = String::new();
    json.append("{\"action\":");
    let action_literal = json_string_literal(action);
    json.append(action_literal.as_str());
    json.append(",\"type\":");
    let kind_literal = json_string_literal(kind);
    json.append(kind_literal.as_str());
    json.append("}");
    json
}

/// Builds the fragment with the "Play" button that resumes the game.
pub fn resume_game_notification() -> (markup: String)
    ensures
        markup@ == resume_game_notification_markup(),
{
    let mut markup = String::new();
    markup.append("<div id=\"notification\"><button id=\"resume-game-button\" hx-vals=\"");
    let json = typed_json_text("ResumeGame");
    push_escaped(&mut markup, json.as_str());
    markup.append("\" hx-trigger=\"pointerdown from:#resume-game-button\" ws-send>Play</button></div>");
    markup
}

/// Appends the latency label to `out`.
fn push_latency_label(out: &mut String, latency: u64)
    ensures
        final(out)@ == old(out)@ + latency_label(latency),
{
    if latency > 0 {
        push_decimal(out, latency);
        out.append("ms");
    }
}

/// Builds the ping box that shows `latency` and pings the server on load.
pub fn ping_span(latency: u64) -> (markup: String)
    ensures
        markup@ == ping_span_markup(latency),
{
    let mut markup = String::new();
    markup.append(
        "<span id=\"ping\" name=\"ping\" hx-vals=\"js:{type: &quot;Ping&quot;, ping: getTimestamp()}\" hx-trigger=\"",
    );
    let mut trigger = String::new();
    trigger.append("load delay:");
    if latency > 0 {
        trigger.append("5000ms");
    } else {
        trigger.append("2000ms");
    }
    push_escaped(&mut markup, trigger.as_str());
    markup.append("\" ws-send>");
    push_latency_label(&mut markup, latency);
    markup.append("</span>");
    markup
}

/// Builds the ping box that shows `latency` and answers the page's `ping` with
/// the server's `pong` time.
pub fn ping_span_ack(latency: u64, ping: u64, pong: u64) -> (markup: String)
    ensures
        markup@ == ping_span_ack_markup(latency, ping, pong),
{
    let mut values = String::new();
    values.append("js:{type: \"PingAck\", ping: ");
    push_decimal(&mut values, ping);
    values.append(", pong: ");
    push_decimal(&mut values, pong);
    values.append(", ping_ack: getTimestamp()}");
    let mut markup = String::new();
    markup.append("<span id=\"ping\" name=\"ping\" hx-vals=\"");
    push_escaped(&mut markup, values.as_str());
    markup.append("\" hx-trigger=\"load\" ws-send>");
    push_latency_label(&mut markup, latency);
    markup.append("</span>");
    markup
}

/// Builds a control button with element id `id` around the markup `content`,
/// bound to the game action `action`.
pub fn button(id: &str, action: &str, content: &str) -> (markup: String)
    ensures
        markup@ == button_markup(id@, action@, content@),
{
    let mut markup = String::new();
    markup.append("<div id=\"");
    push_escaped(&mut markup, id);
    markup.append(
        "\" x-data=\"{ pressed: false }\"><button x-bind:class=\"pressed &amp;&amp; 'pressed'\" x-on:pointerdown=\"pressed = true\" x-on:pointerup=\"pressed = false\" x-on:pointerleave=\"pressed = false\">",
    );
    markup.append(content);
    markup.append("</button><div hx-vals=\"");
    let press = action_json_text("ButtonPress", action);
    push_escaped(&mut markup, press.as_str());
    markup.append("\" hx-trigger=\"");
    let mut press_trigger = String::new();
    press_trigger.append("pointerdown from:#");
    press_trigger.append(id);
    push_escaped(&mut markup, press_trigger.as_str());
    markup.append("\" ws-send></div><div hx-vals=\"");
    let release = action_json_text("ButtonRelease", action);
    push_escaped(&mut markup, release.as_str());
    markup.append("\" hx-trigger=\"");
    let mut release_trigger = String::new();
    release_trigger.append("pointerup from:#");
    release_trigger.append(id);
    release_trigger.append(", pointerleave from:#");
    release_trigger.append(id);
    push_escaped(&mut markup, release_trigger.as_str());
    markup.append("\" ws-send></div></div>");
    markup
}


/// The arrow drawn on the "up" button.
pub open spec fn up_arrow() -> Seq<char> {
    "<svg xmlns=\"http://www.w3.org/2000/svg\" viewBox=\"0 0 24 24\" fill=\"currentColor\" width=\"44px\"><path fill-rule=\"evenodd\" d=\"M11.47 7.72a.75.75 0 0 1 1.06 0l7.5 7.5a.75.75 0 1 1-1.06 1.06L12 9.31l-6.97 6.97a.75.75 0 0 1-1.06-1.06l7.5-7.5Z\" clip-rule=\"evenodd\"></svg>"@
}

/// The arrow drawn on the "left" button.
pub open spec fn left_arrow() -> Seq<char> {
    "<svg xmlns=\"http://www.w3.org/2000/svg\" viewBox=\"0 0 24 24\" fill=\"currentColor\" width=\"44px\"><path fill-rule=\"evenodd\" d=\"M7.72 12.53a.75.75 0 0 1 0-1.06l7.5-7.5a.75.75 0 1 1 1.06 1.06L9.31 12l6.97 6.97a.75.75 0 1 1-1.06 1.06l-7.5-7.5Z\" clip-rule=\"evenodd\"></svg>"@
}

/// The arrow drawn on the "right" button.
pub open spec fn right_arrow() -> Seq<char> {
    "<svg xmlns=\"http://www.w3.org/2000/svg\" viewBox=\"0 0 24 24\" fill=\"currentColor\" width=\"44px\"><path fill-rule=\"evenodd\" d=\"M16.28 11.47a.75.75 0 0 1 0 1.06l-7.5 7.5a.75.75 0 0 1-1.06-1.06L14.69 12 7.72 5.03a.75.75 0 0 1 1.06-1.06l7.5 7.5Z\" clip-rule=\"evenodd\"></svg>"@
}

/// The arrow drawn on the "down" button.
pub open spec fn down_arrow() -> Seq<char> {
    "<svg xmlns=\"http://www.w3.org/2000/svg\" viewBox=\"0 0 24 24\" fill=\"currentColor\" width=\"44px\"><path fill-rule=\"evenodd\" d=\"M12.53 16.28a.75.75 0 0 1-1.06 0l-7.5-7.5a.75.75 0 0 1 1.06-1.06L12 14.69l6.97-6.97a.75.75 0 1 1 1.06 1.06l-7.5 7.5Z\" clip-rule=\"evenodd\"></svg>"@
}

/// The five control buttons: four arrows around the claw button.
pub open spec fn controls_markup() -> Seq<char> {
    button_markup("button-up"@, "move_up"@, up_arrow())
        + button_markup("button-left"@, "move_left"@, left_arrow())
        + button_markup("button-center"@, "deploy_claw"@, "DEPLOY!"@)
        + button_markup("button-right"@, "move_right"@, right_arrow())
        + button_markup("button-down"@, "move_down"@, down_arrow())
}

/// The game page: head with the stylesheet `style` and the script `script`
/// inlined unescaped, the ping box (hidden unless `debug`), the controls, the
/// preloaded prize pictures and the notification box reading "Connecting...".
pub open spec fn index_page_markup(debug: bool, style: Seq<char>, script: Seq<char>) -> Seq<char> {
    "<!DOCTYPE html><head><meta charset=\"utf-8\"><title>Crane Game</title><meta name=\"viewport\" content=\"width=device-width,initial-scale=1\"></meta><script src=\"/assets/htmx.js\"></script><script src=\"/assets/htmx-ws.js\"></script><script src=\"/assets/alpine.js\" defer></script><link rel=\"stylesheet\" href=\"/assets/water.css\"></link><style>"@ + style + "</style><script>"@ + script
        + "</script></head><body><main hx-ext=\"ws\" ws-connect=\"/ws\"><div id=\"ping-infobox\""@
        + (if debug {
        Seq::empty()
    } else {
        " hidden"@
    }) + "><label for=\"ping\">Ping</label>"@ + ping_span_markup(0) + "</div><div id=\"controls\">"@
        + controls_markup()
        + "</div><div id=\"preload\" aria-hidden=\"true\"><img src=\"/assets/snowman.webp\"><img src=\"/assets/duende.webp\"><img src=\"/assets/cat.webp\"></div><div id=\"notification-infobox\"><div class=\"show\" id=\"notification-state\"></div><div id=\"notification\">Connecting...</div></div><script id=\"extra-script\"></script></main></body>"@
}

/// An HTTP reply: status code and body.
pub struct PageResponse {
    pub status: u16,
    pub body: String,
}

/// Builds the five control buttons.
fn controls() -> (markup: String)
    ensures
        markup@ == controls_markup(),
{
    let mut markup = button("button-up", "move_up", "<svg xmlns=\"http://www.w3.org/2000/svg\" viewBox=\"0 0 24 24\" fill=\"currentColor\" width=\"44px\"><path fill-rule=\"evenodd\" d=\"M11.47 7.72a.75.75 0 0 1 1.06 0l7.5 7.5a.75.75 0 1 1-1.06 1.06L12 9.31l-6.97 6.97a.75.75 0 0 1-1.06-1.06l7.5-7.5Z\" clip-rule=\"evenodd\"></svg>");
    let left = button("button-left", "move_left", "<svg xmlns=\"http://www.w3.org/2000/svg\" viewBox=\"0 0 24 24\" fill=\"currentColor\" width=\"44px\"><path fill-rule=\"evenodd\" d=\"M7.72 12.53a.75.75 0 0 1 0-1.06l7.5-7.5a.75.75 0 1 1 1.06 1.06L9.31 12l6.97 6.97a.75.75 0 1 1-1.06 1.06l-7.5-7.5Z\" clip-rule=\"evenodd\"></svg>");
    markup.append(left.as_str());
    let center = button("button-center", "deploy_claw", "DEPLOY!");
    markup.append(center.as_str());
    let right = button("button-right", "move_right", "<svg xmlns=\"http://www.w3.org/2000/svg\" viewBox=\"0 0 24 24\" fill=\"currentColor\" width=\"44px\"><path fill-rule=\"evenodd\" d=\"M16.28 11.47a.75.75 0 0 1 0 1.06l-7.5 7.5a.75.75 0 0 1-1.06-1.06L14.69 12 7.72 5.03a.75.75 0 0 1 1.06-1.06l7.5 7.5Z\" clip-rule=\"evenodd\"></svg>");
    markup.append(right.as_str());
    let down = button("button-down", "move_down", "<svg xmlns=\"http://www.w3.org/2000/svg\" viewBox=\"0 0 24 24\" fill=\"currentColor\" width=\"44px\"><path fill-rule=\"evenodd\" d=\"M12.53 16.28a.75.75 0 0 1-1.06 0l-7.5-7.5a.75.75 0 0 1 1.06-1.06L12 14.69l6.97-6.97a.75.75 0 1 1 1.06 1.06l-7.5 7.5Z\" clip-rule=\"evenodd\"></svg>");
    markup.append(down.as_str());
    markup
}

/// Builds the game page with the stylesheet `style` and the script `script`.
pub fn index_page(debug: bool, style: &str, script: &str) -> (page: String)
    ensures
        page@ == index_page_markup(debug, style@, script@),
{
    let mut page = String::new();
    page.append("<!DOCTYPE html><head><meta charset=\"utf-8\"><title>Crane Game</title><meta name=\"viewport\" content=\"width=device-width,initial-scale=1\"></meta><script src=\"/assets/htmx.js\"></script><script src=\"/assets/htmx-ws.js\"></script><script src=\"/assets/alpine.js\" defer></script><link rel=\"stylesheet\" href=\"/assets/water.css\"></link><style>");
    page.append(style);
    page.append("</style><script>");
    page.append(script);
    page.append(
        "</script></head><body><main hx-ext=\"ws\" ws-connect=\"/ws\"><div id=\"ping-infobox\"",
    );
    if !debug {
        page.append(" hidden");
    }
    page.append("><label for=\"ping\">Ping</label>");
    let ping = ping_span(0);
    page.append(ping.as_str());
    page.append("</div><div id=\"controls\">");
    let buttons = controls();
    page.append(buttons.as_str());
    page.append(
        "</div><div id=\"preload\" aria-hidden=\"true\"><img src=\"/assets/snowman.webp\"><img src=\"/assets/duende.webp\"><img src=\"/assets/cat.webp\"></div><div id=\"notification-infobox\"><div class=\"show\" id=\"notification-state\"></div><div id=\"notification\">Connecting...</div></div><script id=\"extra-script\"></script></main></body>",
    );
    page
}

/// Answers a request for the game page: while a phone is connected the page is
/// refused with 400 and "Already connected.", otherwise it is served with 200.
pub fn index_response(connected: bool, debug: bool, style: &str, script: &str) -> (response: PageResponse)
    ensures
        connected ==> response.status == 400 && response.body@ == "Already connected."@,
        !connected ==> response.status == 200 && response.body@ == index_page_markup(debug, style@, script@),
{
    if connected {
        let mut body = String::new();
        body.append("Already connected.");
        PageResponse { status: 400, body }
    } else {
        PageResponse { status: 200, body: index_page(debug, style, script) }
    }
}


/// Whether `part` occurs somewhere in `text`.
pub open spec fn occurs_in(text: Seq<char>, part: Seq<char>) -> bool {
    exists|i: int| 0 <= i && i + part.len() <= text.len() && #[trigger] text.subrange(i, i + part.len()) == part
}

/// A part placed between two texts occurs in their concatenation.
proof fn lemma_occurs_between(before: Seq<char>, part: Seq<char>, after: Seq<char>)
    ensures
        occurs_in(before + part + after, part),
{
    let i = before.len() as int;
    assert((before + part + after).subrange(i, i + part.len()) =~= part);
}

/// Occurrence is transitive.
proof fn lemma_occurs_trans(text: Seq<char>, middle: Seq<char>, part: Seq<char>)
    requires
        occurs_in(text, middle),
        occurs_in(middle, part),
    ensures
        occurs_in(text, part),
{
    let i = choose|i: int| 0 <= i && i + middle.len() <= text.len() && #[trigger] text.subrange(i, i + middle.len()) == middle;
    let j = choose|j: int| 0 <= j && j + part.len() <= middle.len() && #[trigger] middle.subrange(j, j + part.len()) == part;
    assert(text.subrange(i + j, i + j + part.len()) =~= middle.subrange(j, j + part.len()));
}

/// Each control of the page is bound to the move its picture shows: the up,
/// left, right and down arrows sit on the buttons `button-up`, `button-left`,
/// `button-right` and `button-down`, which send `move_up`, `move_left`,
/// `move_right` and `move_down`, and the centre button `DEPLOY!` sends
/// `deploy_claw`. All five are on the game page.
pub proof fn lemma_controls_bind_arrows(debug: bool, style: Seq<char>, script: Seq<char>)
    ensures
        occurs_in(index_page_markup(debug, style, script), button_markup("button-up"@, "move_up"@, up_arrow())),
        occurs_in(index_page_markup(debug, style, script), button_markup("button-left"@, "move_left"@, left_arrow())),
        occurs_in(index_page_markup(debug, style, script), button_markup("button-center"@, "deploy_claw"@, "DEPLOY!"@)),
        occurs_in(index_page_markup(debug, style, script), button_markup("button-right"@, "move_right"@, right_arrow())),
        occurs_in(index_page_markup(debug, style, script), button_markup("button-down"@, "move_down"@, down_arrow())),
{
    let page = index_page_markup(debug, style, script);
    let controls = controls_markup();
    let pre = "<!DOCTYPE html><head><meta charset=\"utf-8\"><title>Crane Game</title><meta name=\"viewport\" content=\"width=device-width,initial-scale=1\"></meta><script src=\"/assets/htmx.js\"></script><script src=\"/assets/htmx-ws.js\"></script><script src=\"/assets/alpine.js\" defer></script><link rel=\"stylesheet\" href=\"/assets/water.css\"></link><style>"@ + style + "</style><script>"@ + script
        + "</script></head><body><main hx-ext=\"ws\" ws-connect=\"/ws\"><div id=\"ping-infobox\""@
        + (if debug {
        Seq::empty()
    } else {
        " hidden"@
    }) + "><label for=\"ping\">Ping</label>"@ + ping_span_markup(0) + "</div><div id=\"controls\">"@;
    let post = "</div><div id=\"preload\" aria-hidden=\"true\"><img src=\"/assets/snowman.webp\"><img src=\"/assets/duende.webp\"><img src=\"/assets/cat.webp\"></div><div id=\"notification-infobox\"><div class=\"show\" id=\"notification-state\"></div><div id=\"notification\">Connecting...</div></div><script id=\"extra-script\"></script></main></body>"@;
    assert(page =~= pre + controls + post);
    lemma_occurs_between(pre, controls, post);
    let b1 = button_markup("button-up"@, "move_up"@, up_arrow());
    let b2 = button_markup("button-left"@, "move_left"@, left_arrow());
    let b3 = button_markup("button-center"@, "deploy_claw"@, "DEPLOY!"@);
    let b4 = button_markup("button-right"@, "move_right"@, right_arrow());
    let b5 = button_markup("button-down"@, "move_down"@, down_arrow());
    let none = Seq::<char>::empty();
    assert(controls =~= none + b1 + (b2 + b3 + b4 + b5));
    lemma_occurs_between(none, b1, b2 + b3 + b4 + b5);
    assert(controls =~= b1 + b2 + (b3 + b4 + b5));
    lemma_occurs_between(b1, b2, b3 + b4 + b5);
    assert(controls =~= (b1 + b2) + b3 + (b4 + b5));
    lemma_occurs_between(b1 + b2, b3, b4 + b5);
    assert(controls =~= (b1 + b2 + b3) + b4 + b5);
    lemma_occurs_between(b1 + b2 + b3, b4, b5);
    assert(controls =~= (b1 + b2 + b3 + b4) + b5 + none);
    lemma_occurs_between(b1 + b2 + b3 + b4, b5, none);
    lemma_occurs_trans(page, controls, b1);
    lemma_occurs_trans(page, controls, b2);
    lemma_occurs_trans(page, controls, b3);
    lemma_occurs_trans(page, controls, b4);
    lemma_occurs_trans(page, controls, b5);
}

/// A button is named by its id and sends its own action: it opens with its
/// escaped id, and both its press and its release carry `action`.
pub proof fn lemma_button_sends_its_action(id: Seq<char>, action: Seq<char>, content: Seq<char>)
    ensures
        button_markup(id, action, content).subrange(0, 9 + html_escaped(id).len() as int) == "<div id=\""@ + html_escaped(id),
        occurs_in(button_markup(id, action, content), html_escaped(action_json("ButtonPress"@, action))),
        occurs_in(button_markup(id, action, content), html_escaped(action_json("ButtonRelease"@, action))),
{
    reveal_strlit("<div id=\"");
    let m = button_markup(id, action, content);
    let head = "<div id=\""@ + html_escaped(id);
    assert(m.subrange(0, 9 + html_escaped(id).len() as int) =~= head);
    let press = html_escaped(action_json("ButtonPress"@, action));
    let release = html_escaped(action_json("ButtonRelease"@, action));
    let a = "<div id=\""@ + html_escaped(id)
        + "\" x-data=\"{ pressed: false }\"><button x-bind:class=\"pressed &amp;&amp; 'pressed'\" x-on:pointerdown=\"pressed = true\" x-on:pointerup=\"pressed = false\" x-on:pointerleave=\"pressed = false\">"@
        + content + "</button><div hx-vals=\""@;
    let b = "\" hx-trigger=\""@ + html_escaped("pointerdown from:#"@ + id) + "\" ws-send></div><div hx-vals=\""@;
    let c = "\" hx-trigger=\""@ + html_escaped("pointerup from:#"@ + id + ", pointerleave from:#"@ + id)
        + "\" ws-send></div></div>"@;
    assert(m =~= a + press + (b + release + c));
    lemma_occurs_between(a, press, b + release + c);
    assert(m =~= (a + press + b) + release + c);
    lemma_occurs_between(a + press + b, release, c);
}


/// The decimal form of a number needs no escaping.
proof fn lemma_decimal_is_plain(n: nat)
    ensures
        html_plain(decimal(n)),
        html_escaped(decimal(n)) == decimal(n),
{
    lemma_decimal_denotes(n);
    assert forall|i: int| 0 <= i < decimal(n).len() implies decimal(n)[i] != '&' && decimal(n)[i] != '<'
        && decimal(n)[i] != '>' && decimal(n)[i] != '"' by {
        assert('0' <= decimal(n)[i] <= '9');
    }
    lemma_escape_keeps_plain_text(decimal(n));
}

/// The notification box shows the text, escaped; text without markup
/// characters appears as it is.
pub proof fn lemma_notification_shows_text(text: Seq<char>)
    ensures
        occurs_in(text_notification_markup(text), html_escaped(text)),
        html_plain(text) ==> occurs_in(text_notification_markup(text), text),
        occurs_in(prize_notification_markup(text), html_escaped(text)),
        html_plain(text) ==> occurs_in(prize_notification_markup(text), text),
{
    lemma_occurs_between("<div id=\"notification\">"@, html_escaped(text), "</div>"@);
    let pre = "<div class=\"prize\" id=\"notification\"><ul class=\"starburst-wheel\">"@
        + "<li></li><li></li><li></li><li></li><li></li><li></li><li></li><li></li><li></li><li></li><li></li><li></li><li></li><li></li><li></li><li></li><li></li><li></li><li></li><li></li>"@
        + "</ul><img src=\"/assets/"@;
    lemma_occurs_between(pre, html_escaped(text), ".webp\"></div>"@);
    if html_plain(text) {
        lemma_escape_keeps_plain_text(text);
    }
}

/// Once a latency is known, the ping box shows it in milliseconds.
pub proof fn lemma_ping_box_shows_latency(latency: u64)
    ensures
        latency > 0 ==> occurs_in(ping_span_markup(latency), decimal(latency as nat) + "ms"@),
        latency > 0 ==> occurs_in(ping_span_ack_markup(latency, 0, 0), decimal(latency as nat) + "ms"@),
        digits_value(decimal(latency as nat)) == latency,
{
    lemma_decimal_denotes(latency as nat);
    if latency > 0 {
        let label = decimal(latency as nat) + "ms"@;
        let pre = "<span id=\"ping\" name=\"ping\" hx-vals=\"js:{type: &quot;Ping&quot;, ping: getTimestamp()}\" hx-trigger=\""@
            + html_escaped(ping_trigger(latency)) + "\" ws-send>"@;
        lemma_occurs_between(pre, label, "</span>"@);
        let pre_ack = "<span id=\"ping\" name=\"ping\" hx-vals=\""@ + html_escaped(ping_ack_values(0, 0))
            + "\" hx-trigger=\"load\" ws-send>"@;
        lemma_occurs_between(pre_ack, label, "</span>"@);
    }
}

/// The answering ping box sends back the page's ping time as `ping` and the
/// server's time as `pong`, each in decimal.
pub proof fn lemma_ping_ack_carries_times(latency: u64, ping: u64, pong: u64)
    ensures
        occurs_in(
            ping_span_ack_markup(latency, ping, pong),
            html_escaped("js:{type: \"PingAck\", ping: "@) + decimal(ping as nat) + html_escaped(", pong: "@)
                + decimal(pong as nat),
        ),
        digits_value(decimal(ping as nat)) == ping,
        digits_value(decimal(pong as nat)) == pong,
{
    lemma_decimal_denotes(ping as nat);
    lemma_decimal_denotes(pong as nat);
    lemma_decimal_is_plain(ping as nat);
    lemma_decimal_is_plain(pong as nat);
    let l1 = "js:{type: \"PingAck\", ping: "@;
    let l2 = ", pong: "@;
    let l3 = ", ping_ack: getTimestamp()}"@;
    let dp = decimal(ping as nat);
    let dq = decimal(pong as nat);
    let values = ping_ack_values(ping, pong);
    assert(values == l1 + dp + l2 + dq + l3);
    lemma_escape_concat(l1 + dp + l2 + dq, l3);
    lemma_escape_concat(l1 + dp + l2, dq);
    lemma_escape_concat(l1 + dp, l2);
    lemma_escape_concat(l1, dp);
    let part = html_escaped(l1) + dp + html_escaped(l2) + dq;
    assert(html_escaped(values) =~= part + html_escaped(l3));
    let pre = "<span id=\"ping\" name=\"ping\" hx-vals=\""@;
    let post = html_escaped(l3) + "\" hx-trigger=\"load\" ws-send>"@ + latency_label(latency) + "</span>"@;
    assert(ping_span_ack_markup(latency, ping, pong) =~= pre + part + post);
    lemma_occurs_between(pre, part, post);
}

/// The "Play" button sends the `ResumeGame` event.
pub proof fn lemma_resume_sends_resume_game()
    ensures
        occurs_in(resume_game_notification_markup(), html_escaped(typed_json("ResumeGame"@))),
{
    lemma_occurs_between(
        "<div id=\"notification\"><button id=\"resume-game-button\" hx-vals=\""@,
        html_escaped(typed_json("ResumeGame"@)),
        "\" hx-trigger=\"pointerdown from:#resume-game-button\" ws-send>Play</button></div>"@,
    );
}

} // verus!
