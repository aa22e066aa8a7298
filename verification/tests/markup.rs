use crane_game::markup::{
    button, hide_notification, index_page, index_response, ping_span, ping_span_ack, prize_notification,
    resume_game_notification, show_notification, text_notification,
};

#[test]
fn hide_and_show_toggle_the_notification_state() {
    assert_eq!(hide_notification(), "<div class=\"hide\" id=\"notification-state\"></div>");
    assert_eq!(show_notification(), "<div class=\"show\" id=\"notification-state\"></div>");
}

#[test]
fn text_notification_escapes_markup() {
    assert_eq!(text_notification("Hello!"), "<div id=\"notification\">Hello!</div>");
    assert_eq!(
        text_notification("<b>\"Tom\" & 'Jerry'</b>"),
        "<div id=\"notification\">&lt;b&gt;&quot;Tom&quot; &amp; 'Jerry'&lt;/b&gt;</div>"
    );
}

#[test]
fn prize_notification_shows_the_picture() {
    let markup = prize_notification("cat");
    assert!(markup.starts_with("<div class=\"prize\" id=\"notification\"><ul class=\"starburst-wheel\">"));
    assert_eq!(markup.matches("<li></li>").count(), 20);
    assert!(markup.ends_with("</ul><img src=\"/assets/cat.webp\"></div>"));
    assert!(prize_notification("a\"b").ends_with("<img src=\"/assets/a&quot;b.webp\"></div>"));
}

#[test]
fn resume_game_notification_sends_resume_game() {
    assert_eq!(
        resume_game_notification(),
        "<div id=\"notification\"><button id=\"resume-game-button\" hx-vals=\"{&quot;type&quot;:&quot;ResumeGame&quot;}\" hx-trigger=\"pointerdown from:#resume-game-button\" ws-send>Play</button></div>"
    );
}

#[test]
fn ping_span_without_latency_pings_soon() {
    assert_eq!(
        ping_span(0),
        "<span id=\"ping\" name=\"ping\" hx-vals=\"js:{type: &quot;Ping&quot;, ping: getTimestamp()}\" hx-trigger=\"load delay:2000ms\" ws-send></span>"
    );
}

#[test]
fn ping_span_with_latency_shows_it() {
    assert_eq!(
        ping_span(42),
        "<span id=\"ping\" name=\"ping\" hx-vals=\"js:{type: &quot;Ping&quot;, ping: getTimestamp()}\" hx-trigger=\"load delay:5000ms\" ws-send>42ms</span>"
    );
    assert!(ping_span(18446744073709551615).contains(">18446744073709551615ms</span>"));
}

#[test]
fn ping_span_ack_carries_both_times() {
    assert_eq!(
        ping_span_ack(0, 12, 3400),
        "<span id=\"ping\" name=\"ping\" hx-vals=\"js:{type: &quot;PingAck&quot;, ping: 12, pong: 3400, ping_ack: getTimestamp()}\" hx-trigger=\"load\" ws-send></span>"
    );
    assert!(ping_span_ack(7, 0, 0).ends_with("ws-send>7ms</span>"));
}

#[test]
fn button_sends_press_and_release() {
    assert_eq!(
        button("button-center", "deploy_claw", "DEPLOY!"),
        "<div id=\"button-center\" x-data=\"{ pressed: false }\"><button x-bind:class=\"pressed &amp;&amp; 'pressed'\" x-on:pointerdown=\"pressed = true\" x-on:pointerup=\"pressed = false\" x-on:pointerleave=\"pressed = false\">DEPLOY!</button><div hx-vals=\"{&quot;action&quot;:&quot;deploy_claw&quot;,&quot;type&quot;:&quot;ButtonPress&quot;}\" hx-trigger=\"pointerdown from:#button-center\" ws-send></div><div hx-vals=\"{&quot;action&quot;:&quot;deploy_claw&quot;,&quot;type&quot;:&quot;ButtonRelease&quot;}\" hx-trigger=\"pointerup from:#button-center, pointerleave from:#button-center\" ws-send></div></div>"
    );
}

#[test]
fn button_action_is_a_json_string() {
    let markup = button("b", "say \"hi\"\n\\\u{1}", "x");
    assert!(markup.contains(
        "hx-vals=\"{&quot;action&quot;:&quot;say \\&quot;hi\\&quot;\\n\\\\\\u0001&quot;,&quot;type&quot;:&quot;ButtonPress&quot;}\""
    ));
}

#[test]
fn index_is_refused_while_connected() {
    let response = index_response(true, false, "", "");
    assert_eq!(response.status, 400);
    assert_eq!(response.body, "Already connected.");
}

#[test]
fn index_page_has_the_controls() {
    let response = index_response(false, false, "body{}", "let x = 1;");
    assert_eq!(response.status, 200);
    let page = response.body;
    assert_eq!(page, index_page(false, "body{}", "let x = 1;"));
    assert!(page.starts_with("<!DOCTYPE html><head><meta charset=\"utf-8\"><title>Crane Game</title>"));
    assert!(page.contains("<link rel=\"stylesheet\" href=\"/assets/water.css\"></link><style>body{}</style><script>let x = 1;</script></head>"));
    assert!(page.contains("<div id=\"ping-infobox\" hidden><label for=\"ping\">Ping</label>"));
    assert!(page.contains(&ping_span(0)));
    assert!(page.contains(&button("button-center", "deploy_claw", "DEPLOY!")));
    for action in ["move_up", "move_left", "move_right", "move_down"] {
        assert!(page.contains(&format!("&quot;action&quot;:&quot;{action}&quot;")));
    }
    assert!(page.ends_with("<div id=\"notification\">Connecting...</div></div><script id=\"extra-script\"></script></main></body>"));
    assert!(index_page(true, "", "").contains("<div id=\"ping-infobox\"><label"));
}

#[test]
fn escaping_pieces_is_escaping_the_whole() {
    let whole = text_notification("a&\"<b>");
    let first = text_notification("a&");
    let second = text_notification("\"<b>");
    let inner = |m: &str| m["<div id=\"notification\">".len()..m.len() - "</div>".len()].to_string();
    assert_eq!(inner(&whole), inner(&first) + &inner(&second));
    assert!(!inner(&whole).contains(['<', '>', '"']));
}
