use mistralai_client::v1::client::{
    is_stream_done, status_is_success, Client, HttpMethod, Transport, DEFAULT_MAX_RETRIES,
    DEFAULT_TIMEOUT,
};
use mistralai_client::v1::constants::API_URL_BASE;
use mistralai_client::v1::error::ClientError;
use mistralai_client::v1::tool::{CallError, ToolCall, ToolCallFunction};

type TestClient = Client<&'static str>;

fn call(id: Option<&str>, name: &str, arguments: &str) -> ToolCall {
    ToolCall {
        id: id.map(|s| s.to_string()),
        function: ToolCallFunction {
            name: name.to_string(),
            arguments: arguments.to_string(),
        },
    }
}

#[test]
fn new_with_api_key_and_options() {
    let client = TestClient::new(
        Some("your_api_key_here".to_string()),
        None,
        None,
        Some(3),
        Some(60),
    );
    assert!(client.is_ok());
    let client = client.unwrap();
    assert_eq!(client.api_key, "your_api_key_here");
    assert_eq!(client.endpoint, API_URL_BASE);
    assert_eq!(client.endpoint, "https://api.mistral.ai/v1");
    assert_eq!(client.max_retries, 3);
    assert_eq!(client.timeout, 60);
}

#[test]
fn new_defaults() {
    let client = TestClient::new(Some("k".to_string()), None, None, None, None).unwrap();
    assert_eq!(client.max_retries, 5);
    assert_eq!(client.timeout, 120);
    assert_eq!(DEFAULT_MAX_RETRIES, 5);
    assert_eq!(DEFAULT_TIMEOUT, 120);
    assert!(client.last_function_call_results.is_empty());
}

#[test]
fn new_key_from_parameter_wins_over_environment() {
    let client = TestClient::new(
        Some("param".to_string()),
        Some("env".to_string()),
        Some("http://localhost:8080".to_string()),
        None,
        None,
    )
    .unwrap();
    assert_eq!(client.api_key, "param");
    assert_eq!(client.endpoint, "http://localhost:8080");
}

#[test]
fn new_key_from_environment() {
    let client = TestClient::new(None, Some("env".to_string()), None, None, None).unwrap();
    assert_eq!(client.api_key, "env");
}

#[test]
fn new_without_any_key_fails() {
    let client = TestClient::new(None, None, None, Some(3), Some(60));
    assert_eq!(client.err(), Some(ClientError::MissingApiKey));
}

#[test]
fn register_then_find() {
    let mut client = TestClient::new(Some("k".to_string()), None, None, None, None).unwrap();
    assert_eq!(client.find_function("get_city_temperature"), None);
    client.register_function("get_city_temperature", "first");
    client.register_function("other", "other");
    assert_eq!(client.find_function("get_city_temperature"), Some(&"first"));
    client.register_function("get_city_temperature", "second");
    assert_eq!(client.find_function("get_city_temperature"), Some(&"second"));
    assert_eq!(client.find_function("other"), Some(&"other"));
    assert_eq!(client.find_function("get_city"), None);
}

#[test]
fn recorded_results_follow_calls() {
    let mut client = TestClient::new(Some("k".to_string()), None, None, None, None).unwrap();
    client.register_function("get_city_temperature", "f");
    let calls = vec![
        call(Some("a1"), "get_city_temperature", "{\"city\":\"Paris\"}"),
        call(None, "unknown_function", "{}"),
    ];
    let outputs: Vec<Option<String>> = calls
        .iter()
        .map(|c| {
            client
                .find_function(&c.function.name)
                .map(|_| "20°C".to_string())
        })
        .collect();
    assert_eq!(outputs, vec![Some("20°C".to_string()), None]);
    client.record_function_call_results(&calls, outputs);
    assert_eq!(client.last_function_call_results.len(), 2);

    let last = client.get_last_function_call_result().unwrap();
    assert_eq!(last.id, None);
    assert_eq!(last.name, "unknown_function");
    assert_eq!(last.result.unwrap_err(), CallError::NotFound);

    let first = client.get_last_function_call_result().unwrap();
    assert_eq!(first.id, Some("a1".to_string()));
    assert_eq!(first.name, "get_city_temperature");
    assert_eq!(first.result.unwrap(), "20°C");

    assert!(client.get_last_function_call_result().is_none());
}

#[test]
fn take_all_results_in_order() {
    let mut client = TestClient::new(Some("k".to_string()), None, None, None, None).unwrap();
    client.register_function("f", "f");
    client.register_function("h", "h");
    let calls = vec![call(Some("1"), "f", "{}"), call(Some("2"), "g", "{}")];
    client.record_function_call_results(&calls, vec![Some("x".to_string()), None]);
    client.record_function_call_results(&vec![call(Some("3"), "h", "{}")], vec![Some("y".to_string())]);
    let all = client.get_last_function_calls_results();
    let ids: Vec<Option<String>> = all.iter().map(|r| r.id.clone()).collect();
    assert_eq!(
        ids,
        vec![Some("1".to_string()), Some("2".to_string()), Some("3".to_string())]
    );
    assert!(client.last_function_call_results.is_empty());
    assert!(client.get_last_function_calls_results().is_empty());
    assert!(client.get_last_function_call_result().is_none());
}

#[test]
fn call_error_message() {
    assert_eq!(CallError::NotFound.message(), "Tool does not exist");
}

#[test]
fn requests_for_each_endpoint() {
    let client = TestClient::new(Some("secret".to_string()), None, None, None, None).unwrap();
    let chat = client.chat_request(Transport::Blocking);
    assert_eq!(chat.method, HttpMethod::Post);
    assert_eq!(chat.url, "https://api.mistral.ai/v1/chat/completions");
    assert_eq!(chat.bearer_token, "secret");
    assert_eq!(chat.accept, "application/json");
    assert_eq!(chat.user_agent, "ivangabriele/mistralai-client-rs/0.14.0");

    let stream = client.chat_request(Transport::EventStream);
    assert_eq!(stream.accept, "text/event-stream");
    assert_eq!(stream.transport, Transport::EventStream);

    let embeddings = client.embeddings_request(Transport::Async);
    assert_eq!(embeddings.method, HttpMethod::Post);
    assert_eq!(embeddings.url, "https://api.mistral.ai/v1/embeddings");
    assert_eq!(embeddings.accept, "application/json");

    let models = client.list_models_request(Transport::Blocking);
    assert_eq!(models.method, HttpMethod::Get);
    assert_eq!(models.url, "https://api.mistral.ai/v1/models");
}

#[test]
fn status_success_range() {
    assert!(status_is_success(200));
    assert!(status_is_success(204));
    assert!(status_is_success(299));
    assert!(!status_is_success(199));
    assert!(!status_is_success(300));
    assert!(!status_is_success(404));
    assert!(!status_is_success(500));
}

#[test]
fn status_error_messages() {
    let client = TestClient::new(Some("k".to_string()), None, None, None, None).unwrap();
    let body = "{\"message\":\"Unauthorized\"}";
    let blocking_post = client.chat_request(Transport::Blocking);
    assert_eq!(
        blocking_post.error_for_status("401 Unauthorized", body).message,
        "{\"message\":\"Unauthorized\"}: 401 Unauthorized"
    );
    let async_post = client.chat_request(Transport::Async);
    assert_eq!(
        async_post.error_for_status("401 Unauthorized", body).message,
        "401 Unauthorized: {\"message\":\"Unauthorized\"}"
    );
    let blocking_get = client.list_models_request(Transport::Blocking);
    assert_eq!(
        blocking_get.error_for_status("500 Internal Server Error", "").message,
        "500 Internal Server Error: "
    );
    let stream = client.chat_request(Transport::EventStream);
    assert_eq!(stream.error_for_status("429 Too Many Requests", "slow").message, "429 Too Many Requests: slow");
}

#[test]
fn stream_done_marker() {
    assert!(is_stream_done("[DONE]"));
    assert!(!is_stream_done("{\"id\":\"x\"}"));
    assert!(!is_stream_done("[DONE] "));
    assert!(!is_stream_done(""));
}
