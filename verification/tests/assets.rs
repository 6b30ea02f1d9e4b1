use forest_explorer::assets::{
    serve_static, static_reply, StaticReply, NOT_FOUND_BODY, STATUS_NOT_FOUND, STATUS_OK,
    TEXT_PLAIN,
};

#[test]
fn found_file_is_served_with_its_type() {
    let reply = serve_static("style.css", Some(b"body { margin: 0 }"));
    assert_eq!(
        reply,
        StaticReply {
            status: 200,
            content_type: String::from("text/css"),
            body: b"body { margin: 0 }".to_vec(),
        }
    );
}

#[test]
fn content_type_follows_the_extension() {
    assert_eq!(serve_static("client.js", Some(b"")).content_type, "text/javascript");
    assert_eq!(serve_static("client_bg.wasm", Some(b"")).content_type, "application/wasm");
    assert_eq!(serve_static("favicon.ico", Some(b"")).content_type, "image/x-icon");
    assert_eq!(serve_static("dir/INDEX.HTML", Some(b"")).content_type, "text/html");
}

#[test]
fn missing_file_is_not_found() {
    let reply = serve_static("missing.css", None);
    assert_eq!(reply.status, 404);
    assert_eq!(reply.body, b"File not found.".to_vec());
    assert_eq!(reply.content_type, "text/css");
    assert_eq!(STATUS_NOT_FOUND, 404);
    assert_eq!(NOT_FOUND_BODY, "File not found.");
}

#[test]
fn path_without_extension_is_plain_text() {
    assert_eq!(serve_static("LICENSE", Some(b"MIT")).content_type, "text/plain");
    assert_eq!(serve_static("", None).content_type, "text/plain");
    assert_eq!(serve_static("a/b/c", None).content_type, TEXT_PLAIN);
}

#[test]
fn unknown_extension_is_plain_text() {
    assert_eq!(serve_static("data.zzzunknown", Some(b"x")).content_type, "text/plain");
}

#[test]
fn empty_file_is_still_found() {
    let reply = serve_static("empty.css", Some(b""));
    assert_eq!(reply.status, STATUS_OK);
    assert_eq!(reply.status, 200);
    assert!(reply.body.is_empty());
}

#[test]
fn static_reply_sends_the_given_type() {
    let found = static_reply(String::from("image/png"), Some(&[1u8, 2, 3]));
    assert_eq!(
        found,
        StaticReply { status: 200, content_type: String::from("image/png"), body: vec![1, 2, 3] }
    );
    let missing = static_reply(String::from("image/png"), None);
    assert_eq!(
        missing,
        StaticReply {
            status: 404,
            content_type: String::from("image/png"),
            body: b"File not found.".to_vec(),
        }
    );
}
