use yescaptcha::protocol::{decode_create_task_response, decode_task_result_response};
use yescaptcha::task::recaptcha_v2::{ReCaptchaV2, ReCaptchaV2Config};
use yescaptcha::{ClientError, TaskResult};

#[test]
fn create_decodes_task_handle() {
    let r = decode_create_task_response::<ReCaptchaV2Config>("{\"errorId\":0,\"taskId\":\"abc123\"}");
    match r {
        Ok(task) => assert_eq!(task.task_id, "abc123"),
        Err(_) => panic!("expected a task handle"),
    }
}

#[test]
fn create_without_task_id_is_parse_error() {
    let r = decode_create_task_response::<ReCaptchaV2Config>("{\"errorId\":0}");
    match r {
        Err(ClientError::ParseError(m)) => assert_eq!(m, "Failed to parse response"),
        _ => panic!("expected a parse error"),
    }
}

#[test]
fn create_on_invalid_json_is_parse_error() {
    let r = decode_create_task_response::<ReCaptchaV2Config>("this is not json");
    assert!(matches!(r, Err(ClientError::ParseError(_))));
}

#[test]
fn create_api_error_carries_envelope_verbatim() {
    let body = "{\"errorId\":1,\"errorCode\":\"ERROR_KEY_DENIED\",\
                \"errorDescription\":\"denied\",\"taskId\":\"abc123\"}";
    let r = decode_create_task_response::<ReCaptchaV2Config>(body);
    match r {
        Err(ClientError::ApiError(base)) => {
            assert_eq!(base.error_id, 1);
            assert_eq!(base.error_code.as_deref(), Some("ERROR_KEY_DENIED"));
            assert_eq!(base.error_description.as_deref(), Some("denied"));
        },
        _ => panic!("expected an api error"),
    }
}

#[test]
fn poll_api_error_carries_envelope_verbatim() {
    let body = "{\"errorId\":7,\"errorCode\":\"ERROR_NO_SUCH_TASK\",\
                \"errorDescription\":\"gone\",\"status\":\"Ready\"}";
    let r = decode_task_result_response::<ReCaptchaV2>(body);
    match r {
        Err(ClientError::ApiError(base)) => {
            assert_eq!(base.error_id, 7);
            assert_eq!(base.error_code.as_deref(), Some("ERROR_NO_SUCH_TASK"));
            assert_eq!(base.error_description.as_deref(), Some("gone"));
        },
        _ => panic!("expected an api error"),
    }
}

#[test]
fn poll_processing_reports_progress() {
    let r = decode_task_result_response::<ReCaptchaV2>("{\"errorId\":0,\"status\":\"Processing\"}");
    assert!(matches!(r, Ok(TaskResult::Processing)));
}

#[test]
fn poll_ready_yields_solution() {
    let body = "{\"errorId\":0,\"status\":\"Ready\",\
                \"solution\":{\"gRecaptchaResponse\":\"tok-xyz\"}}";
    let r = decode_task_result_response::<ReCaptchaV2>(body);
    match r {
        Ok(TaskResult::Ready(sol)) => assert_eq!(sol.g_recaptcha_response, "tok-xyz"),
        _ => panic!("expected a ready result"),
    }
}

#[test]
fn poll_ready_without_solution_is_protocol_violation() {
    let r = decode_task_result_response::<ReCaptchaV2>("{\"errorId\":0,\"status\":\"Ready\"}");
    match r {
        Err(ClientError::ParseError(m)) => assert_eq!(m, "No solution provided"),
        _ => panic!("expected a parse error"),
    }
}

#[test]
fn poll_ready_with_null_solution_is_protocol_violation() {
    let body = "{\"errorId\":0,\"status\":\"Ready\",\"solution\":null}";
    let r = decode_task_result_response::<ReCaptchaV2>(body);
    match r {
        Err(ClientError::ParseError(m)) => assert_eq!(m, "No solution provided"),
        _ => panic!("expected a parse error"),
    }
}

#[test]
fn poll_ready_with_malformed_solution_is_parse_error() {
    let body = "{\"errorId\":0,\"status\":\"Ready\",\"solution\":{\"gRecaptchaResponse\":42}}";
    let r = decode_task_result_response::<ReCaptchaV2>(body);
    match r {
        Err(ClientError::ParseError(m)) => assert_eq!(m, "Failed to parse response"),
        _ => panic!("expected a parse error"),
    }
}

#[test]
fn poll_processing_ignores_solution_even_malformed() {
    let body = "{\"errorId\":0,\"status\":\"Processing\",\"solution\":42}";
    let r = decode_task_result_response::<ReCaptchaV2>(body);
    assert!(matches!(r, Ok(TaskResult::Processing)));
}

#[test]
fn poll_unknown_status_is_parse_error() {
    let r = decode_task_result_response::<ReCaptchaV2>("{\"errorId\":0,\"status\":\"Done\"}");
    assert!(matches!(r, Err(ClientError::ParseError(_))));
}

#[test]
fn poll_missing_status_is_parse_error() {
    let r = decode_task_result_response::<ReCaptchaV2>("{\"errorId\":0}");
    assert!(matches!(r, Err(ClientError::ParseError(_))));
}

#[test]
fn envelope_error_id_must_fit() {
    let r = decode_create_task_response::<ReCaptchaV2Config>(
        "{\"errorId\":3000000000,\"taskId\":\"abc123\"}",
    );
    assert!(matches!(r, Err(ClientError::ParseError(_))));
}

#[test]
fn envelope_null_code_counts_as_absent() {
    let body = "{\"errorId\":0,\"errorCode\":null,\"taskId\":\"abc123\"}";
    let r = decode_create_task_response::<ReCaptchaV2Config>(body);
    match r {
        Ok(task) => assert_eq!(task.task_id, "abc123"),
        Err(_) => panic!("expected a task handle"),
    }
}

#[test]
fn poll_twice_is_idempotent() {
    let body = "{\"errorId\":0,\"status\":\"Processing\"}";
    let first = decode_task_result_response::<ReCaptchaV2>(body);
    let second = decode_task_result_response::<ReCaptchaV2>(body);
    assert!(matches!(first, Ok(TaskResult::Processing)));
    assert!(matches!(second, Ok(TaskResult::Processing)));
}

#[test]
fn end_to_end_mocked_scenario() {
    let created = decode_create_task_response::<ReCaptchaV2Config>(
        "{\"errorId\":0,\"taskId\":\"abc123\"}",
    )
    .unwrap();
    assert_eq!(created.task_id, "abc123");

    let first_poll = decode_task_result_response::<ReCaptchaV2>(
        "{\"errorId\":0,\"status\":\"Processing\"}",
    )
    .unwrap();
    assert!(matches!(first_poll, TaskResult::Processing));

    let second_poll = decode_task_result_response::<ReCaptchaV2>(
        "{\"errorId\":0,\"status\":\"Ready\",\"solution\":{\"gRecaptchaResponse\":\"tok-xyz\"}}",
    )
    .unwrap();
    match second_poll {
        TaskResult::Ready(sol) => assert_eq!(sol.g_recaptcha_response, "tok-xyz"),
        TaskResult::Processing => panic!("expected a ready result"),
    }
}
