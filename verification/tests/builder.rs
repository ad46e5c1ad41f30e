use yescaptcha::{BuildError, Client, ClientBuilder, ClientError, ResponseBase};

#[test]
fn build_without_credential_fails_with_input_error() {
    let r = ClientBuilder::new().build();
    match r {
        Err(BuildError::InputError(m)) => assert_eq!(m, "client_key is required"),
        Ok(_) => panic!("expected an input error"),
    }
}

#[test]
fn build_with_empty_credential_fails_with_input_error() {
    let r = ClientBuilder::new().client_key(String::new()).build();
    assert!(matches!(r, Err(BuildError::InputError(_))));
}

#[test]
fn build_with_credential_keeps_it() {
    let client = ClientBuilder::new().client_key("secret".to_string()).build().unwrap();
    assert_eq!(client.client_key, "secret");
}

#[test]
fn builder_starts_from_default_url() {
    let b = ClientBuilder::new();
    assert_eq!(b.api_url, yescaptcha::DEFAULT_API_URL);
    assert!(b.client_key.is_none());
}

#[test]
fn builder_accepts_url_override() {
    let client = Client::builder()
        .api_url(yescaptcha::API_URL_CHINA.to_string())
        .client_key("secret".to_string())
        .build()
        .unwrap();
    assert_eq!(client.api_url, "https://cn.yescaptcha.com");
}

#[test]
fn client_new_uses_default_url_and_key() {
    let client = Client::new("secret");
    assert_eq!(client.client_key, "secret");
    assert_eq!(client.api_url, "https://api.yescaptcha.com");
}

#[test]
fn build_error_message_is_exact() {
    let e = BuildError::InputError("client_key is required".to_string());
    assert_eq!(e.message(), "Input Error: client_key is required");
}

#[test]
fn client_error_messages_are_exact() {
    let e = ClientError::RequestError("boom".to_string());
    assert_eq!(e.message(), "Request Error: boom");
    let e = ClientError::ParseError("No solution provided".to_string());
    assert_eq!(e.message(), "Parse Error: No solution provided");
    let e = ClientError::InputError("bad".to_string());
    assert_eq!(e.message(), "Input Error: bad");
    let e = ClientError::ApiError(ResponseBase {
        error_id: -5,
        error_code: Some("ERROR_X".to_string()),
        error_description: None,
    });
    assert_eq!(e.message(), "API Error: errorId -5, errorCode ERROR_X, errorDescription none");
    let e = ClientError::ApiError(ResponseBase {
        error_id: 1203,
        error_code: None,
        error_description: Some("wrong key".to_string()),
    });
    assert_eq!(e.message(), "API Error: errorId 1203, errorCode none, errorDescription wrong key");
}
