use yescaptcha::task::recaptcha_v2::{ReCaptchaV2, ReCaptchaV2Config, TaskType};
use yescaptcha::{Client, ClientBuilder, Task, TaskConfig};

fn client_with_key(key: &str) -> Client {
    ClientBuilder::new().client_key(key.to_string()).build().unwrap()
}

fn demo_config() -> ReCaptchaV2Config {
    ReCaptchaV2Config {
        website_url: "https://example.com".to_string(),
        website_key: "sitekey".to_string(),
        task_type: TaskType::NoCaptchaTaskProxyless,
        is_invisible: false,
    }
}

#[test]
fn create_task_request_exact_body() {
    let client = client_with_key("k");
    let body = client.create_task_request(&demo_config());
    assert_eq!(
        body,
        "{\"clientKey\":\"k\",\"task\":{\"websiteURL\":\"https://example.com\",\
         \"websiteKey\":\"sitekey\",\"type\":\"NoCaptchaTaskProxyless\",\"isInvisible\":false}}"
    );
}

#[test]
fn config_serializes_exact_type_and_url_keys() {
    let cfg = demo_config();
    let json = cfg.to_json();
    assert!(json.contains("\"type\":\"NoCaptchaTaskProxyless\""));
    assert!(json.contains("\"websiteURL\":\"https://example.com\""));
    assert!(!json.contains("websiteUrl"));
}

#[test]
fn config_serializes_other_variant_and_invisible_flag() {
    let mut cfg = demo_config();
    cfg.task_type = TaskType::RecaptchaV2TaskProxyless;
    cfg.is_invisible = true;
    let json = cfg.to_json();
    assert!(json.contains("\"type\":\"RecaptchaV2TaskProxyless\""));
    assert!(json.contains("\"isInvisible\":true"));
}

#[test]
fn config_json_escapes_and_round_trips() {
    let mut cfg = demo_config();
    cfg.website_key = "a\"b\\c\nd".to_string();
    let client = client_with_key("key\"with\\quotes");
    let body = client.create_task_request(&cfg);
    let v: serde_json::Value = serde_json::from_str(&body).unwrap();
    assert_eq!(v["clientKey"].as_str().unwrap(), "key\"with\\quotes");
    assert_eq!(v["task"]["websiteKey"].as_str().unwrap(), "a\"b\\c\nd");
    assert_eq!(v["task"]["websiteURL"].as_str().unwrap(), "https://example.com");
    assert!(body.contains("\\u000a"));
}

#[test]
fn get_task_result_request_exact_body() {
    let client = client_with_key("k");
    let task = ReCaptchaV2 { task_id: "abc123".to_string() };
    let body = client.get_task_result_request(&task);
    assert_eq!(body, "{\"clientKey\":\"k\",\"taskId\":\"abc123\"}");
}

#[test]
fn task_id_accessor_returns_assigned_id() {
    let task = ReCaptchaV2 { task_id: "abc123".to_string() };
    assert_eq!(task.task_id(), "abc123");
}

#[test]
fn well_known_base_urls_are_exposed() {
    assert_eq!(yescaptcha::API_URL_INTERNATIONAL, "https://api.yescaptcha.com");
    assert_eq!(yescaptcha::API_URL_CHINA, "https://cn.yescaptcha.com");
    assert_eq!(yescaptcha::DEFAULT_API_URL, yescaptcha::API_URL_INTERNATIONAL);
    assert_eq!(yescaptcha::DEFAULT_TIMEOUT_SECS, 30);
}
