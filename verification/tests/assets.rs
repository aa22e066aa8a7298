use crane_game::assets::{asset_path, asset_reply};

#[test]
fn leading_slashes_are_trimmed() {
    assert_eq!(asset_path("/htmx.js"), "htmx.js");
    assert_eq!(asset_path("///img/cat.webp"), "img/cat.webp");
    assert_eq!(asset_path("a/b/"), "a/b/");
    assert_eq!(asset_path("//"), "");
}

#[test]
fn assets_carry_their_media_type() {
    let css = asset_reply("water.css", true);
    assert_eq!(css.status, 200);
    assert_eq!(css.content_type.as_deref(), Some("text/css"));
    assert_eq!(asset_reply("htmx.js", true).content_type.as_deref(), Some("text/javascript"));
    assert_eq!(asset_reply("blob", true).content_type.as_deref(), Some("application/octet-stream"));
    let missing = asset_reply("nope.css", false);
    assert_eq!(missing.status, 404);
    assert!(missing.content_type.is_none());
}

#[test]
fn trimming_twice_is_trimming_once() {
    for path in ["", "/", "//a", "a//", "/a/b"] {
        let once = asset_path(path);
        assert!(!once.starts_with('/'));
        assert_eq!(asset_path(&once), once);
    }
}
