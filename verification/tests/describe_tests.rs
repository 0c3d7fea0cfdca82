use deskwatch::describe::{
    accept_reply, build_request, can_encode, extract_description, get_ai_vision_prompt, ApiError,
    ApiResponse, ApiSettings, Choice, DescribeError, Message, DEFAULT_ENDPOINT, DEFAULT_MODEL,
    DEFAULT_PROMPT, MAX_TOKENS,
};

fn choice(content: &str) -> Choice {
    Choice { message: Message { content: content.to_string() } }
}

fn settings() -> ApiSettings {
    ApiSettings {
        endpoint: DEFAULT_ENDPOINT.to_string(),
        api_key: "k-123".to_string(),
        model: DEFAULT_MODEL.to_string(),
        prompt: DEFAULT_PROMPT.to_string(),
    }
}

/// Decodes a reply the way the agent does: both parts optional, unknown
/// fields ignored.
fn decode(body: &str) -> ApiResponse {
    let value: serde_json::Value = serde_json::from_str(body).unwrap();
    let choices = value.get("choices").and_then(|c| c.as_array()).map(|list| {
        list.iter()
            .map(|c| choice(c.get("message").unwrap().get("content").unwrap().as_str().unwrap()))
            .collect()
    });
    let error = value.get("error").filter(|e| !e.is_null()).map(|e| ApiError {
        message: e.get("message").unwrap().as_str().unwrap().to_string(),
        error_type: e.get("type").unwrap().as_str().unwrap().to_string(),
    });
    ApiResponse { choices, error }
}

#[test]
fn success_reply_gives_its_content() {
    let reply = decode("{\"choices\":[{\"message\":{\"content\":\"X\"}}]}");
    assert_eq!(extract_description(&reply), Ok("X".to_string()));
}

#[test]
fn first_choice_wins() {
    let reply = ApiResponse { choices: Some(vec![choice("first"), choice("second")]), error: None };
    assert_eq!(extract_description(&reply), Ok("first".to_string()));
}

#[test]
fn empty_content_is_still_a_description() {
    let reply = ApiResponse { choices: Some(vec![choice("")]), error: None };
    assert_eq!(extract_description(&reply), Ok(String::new()));
}

#[test]
fn error_object_is_surfaced() {
    let reply = decode("{\"error\":{\"message\":\"m\",\"type\":\"t\"}}");
    let err = extract_description(&reply).unwrap_err();
    assert_eq!(
        err,
        DescribeError::Remote { message: "m".to_string(), error_type: "t".to_string() }
    );
    assert_eq!(err.message(), "OpenAI API error: m (t)");
}

#[test]
fn error_object_wins_over_choices() {
    let reply = ApiResponse {
        choices: Some(vec![choice("ignored")]),
        error: Some(ApiError {
            message: "quota exceeded".to_string(),
            error_type: "insufficient_quota".to_string(),
        }),
    };
    let err = extract_description(&reply).unwrap_err();
    assert_eq!(err.message(), "OpenAI API error: quota exceeded (insufficient_quota)");
}

#[test]
fn reply_without_choices_has_no_description() {
    let missing = ApiResponse { choices: None, error: None };
    let empty = ApiResponse { choices: Some(vec![]), error: None };
    assert_eq!(extract_description(&missing), Err(DescribeError::NoDescription));
    assert_eq!(extract_description(&empty), Err(DescribeError::NoDescription));
    assert_eq!(DescribeError::NoDescription.message(), "No description found in OpenAI response");
}

#[test]
fn success_status_admits_the_body() {
    assert_eq!(accept_reply(200, "body".to_string()), Ok("body".to_string()));
    assert_eq!(accept_reply(204, String::new()), Ok(String::new()));
    assert_eq!(accept_reply(299, "edge".to_string()), Ok("edge".to_string()));
}

#[test]
fn other_status_rejects_with_the_body() {
    for status in [0u16, 100, 199, 300, 301, 400, 401, 404, 429, 500, 503, 999, u16::MAX] {
        let r = accept_reply(status, "denied".to_string());
        assert_eq!(r, Err(DescribeError::Rejected { body: "denied".to_string() }));
        assert_eq!(r.unwrap_err().message(), "OpenAI API error: denied");
    }
}

#[test]
fn transport_and_decoding_failures_report_themselves() {
    let t = DescribeError::Transport { report: "connection refused".to_string() };
    assert_eq!(t.message(), "connection refused");
    let m = DescribeError::Malformed { report: "expected value at line 1".to_string() };
    assert_eq!(m.message(), "expected value at line 1");
}

#[test]
fn prompt_is_the_configured_one_or_the_default() {
    assert_eq!(get_ai_vision_prompt(Some("What is on screen?".to_string())), "What is on screen?");
    assert_eq!(get_ai_vision_prompt(Some(String::new())), "");
    assert_eq!(
        get_ai_vision_prompt(None),
        "Describe this image of user screen, and try to describe what the user is doing."
    );
}

#[test]
fn request_carries_settings_and_image() {
    let request = build_request(&settings(), b"Man");
    assert_eq!(request.endpoint, "https://api.openai.com/v1/chat/completions");
    assert_eq!(request.authorization, "Bearer k-123");
    assert_eq!(request.model, "gpt-4-vision-preview");
    assert_eq!(request.prompt, DEFAULT_PROMPT);
    assert_eq!(request.image_url, "data:image/png;base64,TWFu");
    assert_eq!(request.max_tokens, 1024);
    assert_eq!(MAX_TOKENS, 1024);
}

#[test]
fn image_is_encoded_in_standard_base64() {
    let cases: [(&[u8], &str); 9] = [
        (b"", ""),
        (b"f", "Zg=="),
        (b"fo", "Zm8="),
        (b"foo", "Zm9v"),
        (b"foob", "Zm9vYg=="),
        (b"fooba", "Zm9vYmE="),
        (b"foobar", "Zm9vYmFy"),
        (&[0xFF, 0xFE, 0xFD], "//79"),
        (&[0x00, 0x10, 0x83, 0xFB], "ABCD+w=="),
    ];
    for (bytes, text) in cases {
        let request = build_request(&settings(), bytes);
        assert_eq!(request.image_url, format!("data:image/png;base64,{}", text));
    }
}

#[test]
fn every_byte_value_encodes_to_the_alphabet() {
    let alphabet = "ABCDEFGHIJKLMNOPQRSTUVWXYZabcdefghijklmnopqrstuvwxyz0123456789+/";
    for b in 0..=255u8 {
        let request = build_request(&settings(), &[b]);
        let text = request.image_url.strip_prefix("data:image/png;base64,").unwrap();
        let symbols: Vec<char> = text.chars().collect();
        assert_eq!(symbols.len(), 4);
        assert_eq!(symbols[0], alphabet.chars().nth((b / 4) as usize).unwrap());
        assert_eq!(symbols[1], alphabet.chars().nth(((b % 4) * 16) as usize).unwrap());
        assert_eq!(symbols[2], '=');
        assert_eq!(symbols[3], '=');
    }
}

#[test]
fn encodable_lengths() {
    assert!(can_encode(0));
    assert!(can_encode(1));
    assert!(can_encode(10_000_000));
    assert!(can_encode(usize::MAX / 4 * 3));
    assert!(!can_encode(usize::MAX / 4 * 3 + 1));
    assert!(!can_encode(usize::MAX));
}
