use sherlock_desktop::llm::client::{
    decimal_text, next_step, read_reply, status_failure, success, unreadable_reply, Event,
    GenerateArgs, GeneratePost, OllamaResponse, Step,
};

const BASE: &str = "http://localhost:11434";

fn args(json_mode: bool) -> GenerateArgs {
    GenerateArgs {
        model: "qwen2.5vl:7b".to_string(),
        prompt: "What is this?".to_string(),
        num_predict: 260,
        timeout_secs: 120,
        json_mode,
    }
}

fn posted(step: Step) -> GeneratePost {
    match step {
        Step::Post(post) => post,
        _ => panic!("expected a post"),
    }
}

fn done(step: Step) -> OllamaResponse {
    match step {
        Step::Done(response) => response,
        _ => panic!("expected the end of the call"),
    }
}

fn replied(status: u16, body: &str) -> OllamaResponse {
    let body = body.to_string();
    done(next_step(BASE, &args(false), Event::Replied { status, body }))
}

#[test]
fn client_error_detection() {
    let mut r = OllamaResponse::error("x".into());
    assert!(!r.is_client_error());
    r.http_status = Some(400);
    assert!(r.is_client_error());
    r.http_status = Some(500);
    assert!(!r.is_client_error());
}

#[test]
fn client_errors_are_4xx() {
    for (status, expected) in [(399, false), (400, true), (404, true), (499, true), (500, false)] {
        assert_eq!(replied(status, "").is_client_error(), expected);
    }
}

#[test]
fn a_call_without_an_image_is_sent_at_once() {
    let post = posted(next_step(BASE, &args(false), Event::Started { has_image: false }));
    assert_eq!(post.url, "http://localhost:11434/api/generate");
    assert_eq!(post.send_timeout_secs, 30);
    assert_eq!(post.recv_timeout_secs, 120);
    let request = post.request;
    assert_eq!(request.model, "qwen2.5vl:7b");
    assert_eq!(request.prompt, "What is this?");
    assert!(!request.stream);
    assert_eq!(request.keep_alive, "5m");
    assert_eq!(request.temperature_tenths, 1);
    assert_eq!(request.num_predict, 260);
    assert_eq!(request.num_ctx, 4096);
    assert_eq!(request.format, None);
    assert_eq!(request.images, None);
}

#[test]
fn a_call_with_an_image_reads_it_first() {
    let mut long = args(true);
    long.num_predict = 3500;
    match next_step(BASE, &long, Event::Started { has_image: true }) {
        // 13 bytes count as 5 tokens: 4096 - 3500 - 69 - 256
        Step::ReadImage { max_tokens } => assert_eq!(max_tokens, 271),
        _ => panic!("expected the image to be read"),
    }
    let post = posted(next_step(BASE, &long, Event::ImageReady(b"foobar".to_vec())));
    assert_eq!(post.request.format, Some("json".to_string()));
    assert_eq!(post.request.images, Some(vec!["Zm9vYmFy".to_string()]));
}

#[test]
fn images_travel_as_padded_base64() {
    for (bytes, text) in [
        (&b""[..], ""),
        (b"f", "Zg=="),
        (b"fo", "Zm8="),
        (b"foo", "Zm9v"),
        (b"foob", "Zm9vYg=="),
        (b"fooba", "Zm9vYmE="),
        (&[0xfb, 0xff, 0xbf], "+/+/"),
        (&[0x00, 0x10, 0x83, 0x10], "ABCDEA=="),
    ] {
        let post = posted(next_step(BASE, &args(false), Event::ImageReady(bytes.to_vec())));
        assert_eq!(post.request.images, Some(vec![text.to_string()]));
    }
}

#[test]
fn failures_end_the_call() {
    for (event, raw) in [
        (
            Event::ImageUnreadable("No such file".to_string()),
            "image_read_error: No such file",
        ),
        (
            Event::ReplyUnreadable {
                status: 200,
                error: "timeout".to_string(),
            },
            "read_error: timeout",
        ),
        (
            Event::SendFailed("connection refused".to_string()),
            "http_error: connection refused",
        ),
    ] {
        let response = done(next_step(BASE, &args(false), event));
        assert!(!response.ok);
        assert_eq!(response.raw, raw);
        assert_eq!(response.http_status, None);
        assert_eq!(response.total_duration, None);
        assert!(!response.is_client_error());
    }
}

#[test]
fn an_error_status_is_kept_where_the_body_cannot_be_read() {
    for (status, reported, client_error) in [
        (399, None, false),
        (400, Some(400), true),
        (404, Some(404), true),
        (503, Some(503), false),
    ] {
        let error = "reset".to_string();
        let event = Event::ReplyUnreadable { status, error };
        let response = done(next_step(BASE, &args(false), event));
        assert!(!response.ok);
        assert_eq!(response.raw, "read_error: reset");
        assert_eq!(response.http_status, reported);
        assert_eq!(response.total_duration, None);
        assert_eq!(response.is_client_error(), client_error);
    }
    assert_eq!(unreadable_reply(500, "x").http_status, Some(500));
}

#[test]
fn a_call_without_room_asks_for_the_smallest_image() {
    let mut full = args(false);
    full.num_predict = u32::MAX;
    match next_step(BASE, &full, Event::Started { has_image: true }) {
        Step::ReadImage { max_tokens } => assert_eq!(max_tokens, 64),
        _ => panic!("expected the image to be read"),
    }
}

#[test]
fn an_error_status_is_reported_with_its_message() {
    let response = replied(404, r#"{"error":"model not found"}"#);
    assert!(!response.ok);
    assert_eq!(response.raw, "http_error: 404: model not found");
    assert_eq!(response.http_status, Some(404));
    assert_eq!(response.total_duration, None);
}

#[test]
fn an_error_status_without_a_message_is_reported_with_its_body() {
    assert_eq!(replied(500, "oops").raw, "http_error: 500: oops");
    let body = r#"{"error":17}"#;
    assert_eq!(replied(503, body).raw, format!("http_error: 503: {body}"));
    assert_eq!(replied(400, "[\"error\"]").raw, "http_error: 400: [\"error\"]");
}

#[test]
fn a_reply_is_read() {
    let response = replied(200, r#"{"response":"a cat","total_duration":1500000000}"#);
    assert!(response.ok);
    assert_eq!(response.raw, "a cat");
    assert_eq!(response.http_status, None);
    assert_eq!(
        response.total_duration.and_then(|value| value.as_f64()),
        Some(1.5e9)
    );
}

#[test]
fn a_reply_without_a_response_is_empty() {
    for body in ["", "no json", "{}", r#"{"response":null}"#, r#"{"response":[1]}"#] {
        let response = replied(200, body);
        assert!(response.ok);
        assert_eq!(response.raw, "");
        assert_eq!(response.total_duration, None);
    }
}

#[test]
fn replies_are_read_from_what_was_parsed() {
    assert_eq!(read_reply(399, "body", None).raw, "");
    assert!(read_reply(399, "body", None).ok);
    assert_eq!(read_reply(400, "body", None).raw, "http_error: 400: body");
    let failure = status_failure(418, "body", Some("teapot".to_string()));
    assert_eq!(failure.raw, "http_error: 418: teapot");
    assert_eq!(success(Some("text".to_string()), None).raw, "text");
    assert_eq!(success(None, None).raw, "");
}

#[test]
fn numbers_are_written_in_decimal() {
    for n in 0..=u16::MAX {
        assert_eq!(decimal_text(n), n.to_string());
    }
}
