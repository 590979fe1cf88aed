use dialog_bot::domain::DialogType;
use dialog_bot::queue::UserQueue;
use dialog_bot::text::{decimal_string, parse_u32, starts_with};
use dialog_bot::transport::{http_error, next_offset, HttpError};
use dialog_bot::workers::{
    check_create_response, check_invocation_key, check_invoke_status, create_worker_body, dialog_step,
    invocation_key_url, invoke_body, invoke_url, step_function_name, worker_url, workers_url, FunctionResult,
    WorkerError,
};

#[test]
fn decimal_and_parse() {
    assert_eq!(decimal_string(0), "0");
    assert_eq!(decimal_string(7), "7");
    assert_eq!(decimal_string(1979), "1979");
    assert_eq!(decimal_string(u32::MAX), "4294967295");
    assert_eq!(parse_u32("4294967295"), Some(u32::MAX));
    assert_eq!(parse_u32("4294967296"), None);
    assert_eq!(parse_u32("+12"), Some(12));
    assert_eq!(parse_u32("+"), None);
    assert_eq!(parse_u32(""), None);
    assert_eq!(parse_u32(" 1"), None);
    assert_eq!(parse_u32("1a"), None);
    assert_eq!(parse_u32("007"), Some(7));
    for s in ["0", "42", "+5", "x", "-3", "99999999999", "12 "] {
        assert_eq!(parse_u32(s), s.parse::<u32>().ok());
    }
    assert!(starts_with("/reset now", "/reset"));
    assert!(!starts_with("/res", "/reset"));
    assert!(starts_with("abc", ""));
}

#[test]
fn templates_of_dialog_types() {
    assert_eq!(DialogType::AddBook.template(), "d6e1ea5b-40aa-4f9c-92e2-9db58c02b45f");
    assert_eq!(DialogType::AddMovie.template(), "9ac53019-2336-468c-916d-cd46c63bc24b");
    assert_eq!(DialogType::AddQuote.template(), "c386feb3-fdfb-4e6a-a24c-cae39cd393f0");
}

#[test]
fn worker_urls() {
    assert_eq!(workers_url("t1"), "https://release.api.golem.cloud/v1/templates/t1/workers");
    assert_eq!(worker_url("t1", "w1"), "https://release.api.golem.cloud/v1/templates/t1/workers/w1");
    assert_eq!(invocation_key_url("t1", "w1"), "https://release.api.golem.cloud/v1/templates/t1/workers/w1/key");
    assert_eq!(
        invoke_url("t1", "w1", "k1", step_function_name()),
        "https://release.api.golem.cloud/v1/templates/t1/workers/w1/invoke-and-await?invocation-key=k1&function=golem%3Atemplate%2Fapi%2Fstep"
    );
}

#[test]
fn request_bodies_quote_their_strings() {
    let env = vec![("TELEGRAM_TOKEN".to_string(), "ab\"c".to_string())];
    let body = create_worker_body("w1", &env);
    assert_eq!(body, "{\"name\":\"w1\",\"env\":[[\"TELEGRAM_TOKEN\",\"ab\\\"c\"]],\"args\":[]}");
    let parsed: serde_json::Value = serde_json::from_str(&body).unwrap();
    assert_eq!(parsed["env"][0][1], "ab\"c");
    let two = vec![("A".to_string(), "1".to_string()), ("B".to_string(), "2".to_string())];
    assert_eq!(create_worker_body("w", &two), "{\"name\":\"w\",\"env\":[[\"A\",\"1\"],[\"B\",\"2\"]],\"args\":[]}");
    assert_eq!(create_worker_body("w", &vec![]), "{\"name\":\"w\",\"env\":[],\"args\":[]}");
    assert_eq!(invoke_body("{\"update_id\":1}"), "{\"params\":[\"{\\\"update_id\\\":1}\"]}");
}

#[test]
fn create_response_checks() {
    let id = "46c2db15-f9d3-4a0c-9f12-ef3116391c8c".to_string();
    let ok = "{\"workerId\":{\"rawTemplateId\":\"753b8b37-83ab-4752-8829-3e057d89a74b\",\"workerName\":\"46c2db15-f9d3-4a0c-9f12-ef3116391c8c\"},\"templateVersionUsed\":0}";
    assert_eq!(check_create_response(&id, 200, ok), Ok(()));
    assert_eq!(check_create_response(&"other".to_string(), 200, ok), Err(WorkerError::CreateMismatch));
    assert_eq!(check_create_response(&id, 404, ok), Err(WorkerError::CreateStatus(404)));
    assert_eq!(check_create_response(&id, 200, "not json"), Err(WorkerError::CreateDecode));
    assert_eq!(check_create_response(&id, 200, "{\"workerId\":{}}"), Err(WorkerError::CreateDecode));
}

#[test]
fn credential_and_invoke_checks() {
    assert_eq!(check_invocation_key("{\"value\":\"k-123\"}"), Ok("k-123".to_string()));
    assert_eq!(check_invocation_key("{\"other\":\"k\"}"), Err(WorkerError::Credential));
    assert_eq!(check_invocation_key("{\"value\":7}"), Err(WorkerError::Credential));
    assert_eq!(check_invoke_status(200), Ok(()));
    assert_eq!(check_invoke_status(500), Err(WorkerError::InvokeStatus(500)));
    assert_eq!(dialog_step(FunctionResult { result: vec![3, 4] }), Ok(3));
    assert_eq!(dialog_step::<u8>(FunctionResult { result: vec![] }), Err(WorkerError::NoResult));
}

#[test]
fn transport_helpers() {
    assert_eq!(http_error(Some(404), "nf".to_string()), HttpError { code: 404, message: "nf".to_string() });
    assert_eq!(http_error(None, "x".to_string()).code, 500);
    assert_eq!(next_offset(41), 42);
    assert_eq!(next_offset(u32::MAX), 4294967296);
}

#[test]
fn events_of_one_user_keep_their_order() {
    let mut q: UserQueue<&str> = UserQueue::new();
    q.push(1, "a1");
    q.push(2, "b1");
    q.push(1, "a2");
    q.push(2, "b2");
    q.push(1, "a3");
    assert_eq!(q.len(), 5);
    assert_eq!(q.next_user(), Some(1));
    assert_eq!(q.pop_for(2), Some("b1"));
    assert_eq!(q.pop_for(1), Some("a1"));
    assert_eq!(q.pop_for(1), Some("a2"));
    assert_eq!(q.next_user(), Some(2));
    assert_eq!(q.pop_for(2), Some("b2"));
    assert_eq!(q.pop_for(2), None);
    assert_eq!(q.pop_for(3), None);
    assert_eq!(q.pop_for(1), Some("a3"));
    assert_eq!(q.next_user(), None);
    assert_eq!(q.len(), 0);
}
