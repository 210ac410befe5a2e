use ollama_bridge::api::{
    client_error, find_model, generate_url, health_outcome, health_outcome_with, health_request,
    tags_url, translate_outcome, translate_outcome_with, translate_request, HttpReply,
    OllamaHealthPayload, TranslatePayload, GENERATE_TIMEOUT_SECS, TAGS_TIMEOUT_SECS,
};
use ollama_bridge::json::generate_body;
use ollama_bridge::status::{is_success, status_line_with};
use ollama_bridge::text::{decimal_string, model_matches, trim_trailing_slashes};

fn reply(status: u16, body: &str) -> Result<HttpReply, String> {
    Ok(HttpReply { status, body: body.to_string() })
}

fn decode_generated(body: &str) -> Result<String, String> {
    let v: serde_json::Value = serde_json::from_str(body).map_err(|e| e.to_string())?;
    v.get("response")
        .and_then(|r| r.as_str())
        .map(|s| s.to_string())
        .ok_or_else(|| "missing field `response`".to_string())
}

fn decode_names(body: &str) -> Result<Vec<String>, String> {
    let v: serde_json::Value = serde_json::from_str(body).map_err(|e| e.to_string())?;
    let models = v.get("models").and_then(|m| m.as_array()).ok_or("missing field `models`")?;
    let mut names = Vec::new();
    for m in models {
        names.push(m.get("name").and_then(|n| n.as_str()).ok_or("missing field `name`")?.to_string());
    }
    Ok(names)
}

fn payload(endpoint: &str) -> TranslatePayload {
    TranslatePayload {
        endpoint: endpoint.to_string(),
        model: "llama3".to_string(),
        prompt: "hello".to_string(),
        api_token: None,
        username: None,
        password: None,
    }
}

#[test]
fn trailing_slash_gives_one_slash_before_route() {
    assert_eq!(generate_url("http://localhost:11434/"), "http://localhost:11434/api/generate");
    assert_eq!(generate_url("http://localhost:11434///"), "http://localhost:11434/api/generate");
    assert_eq!(generate_url("http://localhost:11434"), "http://localhost:11434/api/generate");
    assert_eq!(tags_url("http://h:1/"), "http://h:1/api/tags");
    assert_eq!(tags_url(""), "/api/tags");
    assert_eq!(tags_url("///"), "/api/tags");
}

#[test]
fn trimming_is_idempotent() {
    let once = trim_trailing_slashes("http://x/y//");
    assert_eq!(once, "http://x/y");
    assert_eq!(trim_trailing_slashes(once), once);
    assert_eq!(trim_trailing_slashes("a/b"), "a/b");
}

#[test]
fn translate_returns_generated_text() {
    let body = "{\"response\": \"hola\"}";
    let r = translate_outcome(reply(200, body), decode_generated(body)).unwrap();
    assert_eq!(r.text, "hola");
}

#[test]
fn translate_bad_status_reports_code_and_body() {
    let body = "oops";
    let e = translate_outcome(reply(500, body), decode_generated(body)).err().unwrap();
    assert!(e.contains("500"));
    assert!(e.contains("oops"));
    assert_eq!(e, "Ollama 返回异常状态 500 Internal Server Error: oops");
}

#[test]
fn translate_decode_failure_is_distinct() {
    let body = "{\"other\": 1}";
    let e = translate_outcome(reply(200, body), decode_generated(body)).err().unwrap();
    assert!(e.starts_with("解析 Ollama 响应失败: "));
    let e2 = translate_outcome_with(reply(201, ""), None, Err("bad".to_string())).err().unwrap();
    assert_eq!(e2, "解析 Ollama 响应失败: bad");
}

#[test]
fn health_finds_tagged_model() {
    let body = "{\"models\":[{\"name\":\"llama3:8b\"}]}";
    let out = health_outcome("llama3", reply(200, body), decode_names(body)).unwrap();
    assert!(out.reachable);
    assert!(out.model_installed);
    assert_eq!(out.models, vec!["llama3:8b".to_string()]);
    assert_eq!(out.message, "检查通过：检测到模型 llama3");
}

#[test]
fn health_reports_missing_model() {
    let body = "{\"models\":[{\"name\":\"llama30\"},{\"name\":\"mistral:7b\"}]}";
    let out = health_outcome("llama3", reply(200, body), decode_names(body)).unwrap();
    assert!(out.reachable);
    assert!(!out.model_installed);
    assert_eq!(out.models, vec!["llama30".to_string(), "mistral:7b".to_string()]);
    assert_eq!(out.message, "Ollama 可访问，但未检测到模型 llama3");
}

#[test]
fn health_bad_status_is_soft() {
    let out = health_outcome("llama3", reply(503, "down"), Err("not json".to_string())).unwrap();
    assert!(!out.reachable);
    assert!(!out.model_installed);
    assert!(out.models.is_empty());
    assert!(out.message.contains("503"));
    assert_eq!(out.message, "Ollama 服务响应异常：503 Service Unavailable");
}

#[test]
fn health_decode_failure_is_error() {
    let body = "[]";
    let e = health_outcome("llama3", reply(200, body), decode_names(body)).err().unwrap();
    assert!(e.starts_with("解析 Ollama 模型列表失败: "));
}

#[test]
fn unreachable_server_is_error_for_both() {
    let t = translate_outcome(Err("connection refused".to_string()), Ok("x".to_string()));
    assert_eq!(t.err().unwrap(), "请求 Ollama 失败: connection refused");
    let h = health_outcome("llama3", Err("connection refused".to_string()), Ok(vec![]));
    assert_eq!(h.err().unwrap(), "无法访问 Ollama 服务: connection refused");
}

#[test]
fn unknown_status_line() {
    let h = health_outcome("m", reply(599, ""), Ok(vec![])).unwrap();
    assert_eq!(h.message, "Ollama 服务响应异常：599 <unknown status code>");
    let e = translate_outcome(reply(404, "no"), Ok(String::new())).err().unwrap();
    assert_eq!(e, "Ollama 返回异常状态 404 Not Found: no");
    assert_eq!(status_line_with(418, Some("Teapot".to_string())), "418 Teapot");
    let h = health_outcome_with("m", reply(302, ""), None, Ok(vec![])).unwrap();
    assert_eq!(h.message, "Ollama 服务响应异常：302 <unknown status code>");
}

#[test]
fn success_class_bounds() {
    assert!(!is_success(199));
    assert!(is_success(200));
    assert!(is_success(299));
    assert!(!is_success(300));
}

#[test]
fn decimal_digits() {
    assert_eq!(decimal_string(0), "0");
    assert_eq!(decimal_string(7), "7");
    assert_eq!(decimal_string(503), "503");
    assert_eq!(decimal_string(65535), "65535");
}

#[test]
fn model_name_matching() {
    assert!(model_matches("llama3", "llama3"));
    assert!(model_matches("llama3:8b", "llama3"));
    assert!(model_matches("llama3:", "llama3"));
    assert!(!model_matches("llama30", "llama3"));
    assert!(!model_matches("llama", "llama3"));
    assert!(!model_matches("llama3", "llama3:8b"));
    assert!(!model_matches("x", ""));
    assert!(model_matches(":x", ""));
    assert!(find_model(&vec!["a".to_string(), "b:1".to_string()], "b"));
    assert!(!find_model(&vec![], "b"));
}

#[test]
fn body_escapes_strings() {
    assert_eq!(
        generate_body("llama3", "say \"hi\"\n"),
        "{\"model\":\"llama3\",\"prompt\":\"say \\\"hi\\\"\\n\",\"stream\":false}"
    );
    assert_eq!(
        generate_body("a\\b\u{1}\u{1f}\u{8}\u{c}\t\r/é", ""),
        "{\"model\":\"a\\\\b\\u0001\\u001f\\b\\f\\t\\r/é\",\"prompt\":\"\",\"stream\":false}"
    );
    let v: serde_json::Value = serde_json::from_str(&generate_body("m", "p")).unwrap();
    assert_eq!(v["stream"], serde_json::Value::Bool(false));
}

#[test]
fn translate_request_credentials() {
    let mut p = payload("http://h/");
    let r = translate_request(&p);
    assert_eq!(r.url, "http://h/api/generate");
    assert_eq!(r.body, "{\"model\":\"llama3\",\"prompt\":\"hello\",\"stream\":false}");
    assert_eq!(r.bearer_token, None);
    assert_eq!(r.basic_auth, None);
    assert_eq!(r.timeout_secs, GENERATE_TIMEOUT_SECS);
    p.api_token = Some(String::new());
    p.username = Some(String::new());
    p.password = Some(String::new());
    let r = translate_request(&p);
    assert_eq!(r.bearer_token, None);
    assert_eq!(r.basic_auth, None);
    p.api_token = Some("tok".to_string());
    p.password = Some("pw".to_string());
    let r = translate_request(&p);
    assert_eq!(r.bearer_token, Some("tok".to_string()));
    assert_eq!(r.basic_auth, Some((String::new(), "pw".to_string())));
    p.username = None;
    assert_eq!(translate_request(&p).basic_auth, Some((String::new(), "pw".to_string())));
    p.username = Some("user".to_string());
    p.password = None;
    assert_eq!(translate_request(&p).basic_auth, Some(("user".to_string(), String::new())));
    p.username = None;
    assert_eq!(translate_request(&p).basic_auth, None);
}

#[test]
fn health_request_plan() {
    let p = OllamaHealthPayload { endpoint: "http://h//".to_string(), model: "m".to_string() };
    let r = health_request(&p);
    assert_eq!(r.url, "http://h/api/tags");
    assert_eq!(r.timeout_secs, TAGS_TIMEOUT_SECS);
}

#[test]
fn client_error_message() {
    assert_eq!(client_error("tls"), "创建 HTTP 客户端失败: tls");
}
