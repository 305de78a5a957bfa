use leo_bot::gateway::events::{numbered_image, SLANDER_IMAGE};
use leo_bot::gateway::https::{
    bot_authorization, extension, form_outcome, image_form, is_accepted, make_image_payload,
    message_url, mime_type, post_outcome, refusal, unanswered, unreadable_image, FormAttempt,
};

fn sent_as(path: &str) -> (String, &'static str) {
    let form = make_image_payload("hi", path);
    assert_eq!(form.payload_json, r#"{"content":"hi"}"#);
    (form.file_name, form.mime_type)
}

#[test]
fn messages_go_to_their_channel() {
    assert_eq!(
        message_url("123"),
        "https://discord.com/api/v10/channels/123/messages"
    );
    assert_eq!(bot_authorization("tok"), "Bot tok");
}

#[test]
fn images_are_sent_under_their_name() {
    assert_eq!(sent_as("images/leo_1.jpg"), (String::from("leo_1.jpg"), "image/jpeg"));
    assert_eq!(sent_as("a/b/c.JPEG"), (String::from("c.JPEG"), "image/jpeg"));
    assert_eq!(sent_as("/tmp/x.Png"), (String::from("x.Png"), "image/png"));
    assert_eq!(sent_as("x.gif"), (String::from("x.gif"), "image/gif"));
    assert_eq!(sent_as("x.webp"), (String::from("x.webp"), "image/webp"));
    assert_eq!(sent_as("x.tar.bmp"), (String::from("x.tar.bmp"), "image/png"));
    assert_eq!(sent_as("x"), (String::from("x"), "image/png"));
    assert_eq!(sent_as(".jpg"), (String::from(".jpg"), "image/png"));
    assert_eq!(sent_as("x."), (String::from("x."), "image/png"));
    assert_eq!(sent_as("x.gİf"), (String::from("x.gİf"), "image/png"));
}

#[test]
fn paths_are_read_like_the_system_reads_them() {
    assert_eq!(sent_as("a/b.gif/"), (String::from("b.gif"), "image/gif"));
    assert_eq!(sent_as("a/b.gif/."), (String::from("b.gif"), "image/gif"));
    assert_eq!(sent_as("a//b.gif//./"), (String::from("b.gif"), "image/gif"));
    assert_eq!(sent_as("./b.gif"), (String::from("b.gif"), "image/gif"));
    for path in ["", ".", "/", "..", "a/..", "./.", "a/../."] {
        assert_eq!(sent_as(path), (String::from("image.png"), "image/png"), "{path}");
    }
}

#[test]
fn nameless_images_are_png() {
    let form = image_form("a \"b\"", None);
    assert_eq!(form.payload_json, "{\"content\":\"a \\\"b\\\"\"}");
    assert_eq!(form.file_name, "image.png");
    assert_eq!(form.mime_type, "image/png");
    let form = image_form("x", Some(String::from("y.webp")));
    assert_eq!(form.file_name, "y.webp");
    assert_eq!(form.mime_type, "image/webp");
}

#[test]
fn extensions_follow_the_last_dot() {
    assert_eq!(extension("a.b.c"), Some("c"));
    assert_eq!(extension("a."), Some(""));
    assert_eq!(extension("a"), None);
    assert_eq!(extension(".a"), None);
    assert_eq!(extension(".a.b"), Some("b"));
    assert_eq!(extension("..a"), Some("a"));
    assert_eq!(extension(""), None);
    for name in ["a.b.c", "a.", "a", ".a", ".a.b", "..a", "ü.ö"] {
        let known = std::path::Path::new(name).extension().and_then(|e| e.to_str());
        assert_eq!(extension(name), known, "{name}");
    }
}

#[test]
fn media_types() {
    assert_eq!(mime_type("jpg"), "image/jpeg");
    assert_eq!(mime_type("jpeg"), "image/jpeg");
    assert_eq!(mime_type("png"), "image/png");
    assert_eq!(mime_type("gif"), "image/gif");
    assert_eq!(mime_type("webp"), "image/webp");
    assert_eq!(mime_type("JPG"), "image/png");
    assert_eq!(mime_type(""), "image/png");
}

#[test]
fn images_of_the_bot_are_jpegs() {
    assert_eq!(sent_as(SLANDER_IMAGE), (String::from("leo_slander.jpg"), "image/jpeg"));
    for number in 1..=21 {
        let (name, mime) = sent_as(&numbered_image(number));
        assert_eq!(name, format!("leo_{number}.jpg"));
        assert_eq!(mime, "image/jpeg");
    }
}

#[test]
fn failures_are_told() {
    assert_eq!(unreadable_image("a/b.jpg"), "Failed to read image file: a/b.jpg");
    assert_eq!(
        refusal("404 Not Found", Some("gone")),
        "Discord API returned error status: 404 Not Found - gone"
    );
    assert_eq!(
        refusal("500 Internal Server Error", None),
        "Discord API returned error status: 500 Internal Server Error - Unknown error"
    );
}

#[test]
fn statuses_from_200_to_299_are_accepted() {
    for status in [200, 204, 299] {
        assert!(is_accepted(status));
        assert_eq!(post_outcome(status, "any", Some("body")), Ok(()));
    }
    for status in [0, 199, 300, 404, u16::MAX] {
        assert!(!is_accepted(status));
        assert_eq!(post_outcome(status, "404 Not Found", None), Err(refusal("404 Not Found", None)));
    }
}

#[test]
fn sending_an_image_succeeds_only_with_an_answer() {
    let answered = |status: u16| FormAttempt::Answered {
        status,
        status_text: "403 Forbidden",
        body: Some("no"),
    };
    assert_eq!(form_outcome("a.jpg", answered(200)), Ok(()));
    assert_eq!(form_outcome("a.jpg", answered(299)), Ok(()));
    assert_eq!(
        form_outcome("a.jpg", answered(403)),
        Err(refusal("403 Forbidden", Some("no")))
    );
    assert_eq!(
        form_outcome("a.jpg", FormAttempt::Unanswered),
        Err(String::from("Failed to send HTTP request to Discord API"))
    );
    assert_eq!(
        form_outcome("a.jpg", FormAttempt::Unreadable),
        Err(String::from("Failed to read image file: a.jpg"))
    );
    assert_eq!(unanswered(), "Failed to send HTTP request to Discord API");
}

#[test]
fn odd_paths_are_sent_under_a_part_of_them() {
    for path in ["c:x.gif", "a\\b.gif", "//a/b.gif"] {
        let (name, mime) = sent_as(path);
        assert!(path.contains(&name) && !name.contains('/'));
        assert_eq!(mime, "image/gif");
    }
}
