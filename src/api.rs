//! The two request flows against the inference server: what to send, and
//! what each answer of the server (or its absence) becomes.
//!
//! The caller performs the HTTP exchange and JSON decoding; this module
//! decides the request from a payload, and the result from what came back.
use vstd::prelude::*;
use crate::json::{generate_body, generate_body_of};
use crate::status::{
    is_success, opt_view, reason_phrase, reason_phrase_of, status_line, status_line_with,
    success_code,
};
use crate::text::{model_matches, names_model, trim_slashes, trim_trailing_slashes};

verus! {

/// Seconds a generation request may take before the transport gives up.
pub const GENERATE_TIMEOUT_SECS: u64 = 180;

/// Seconds a model-listing request may take before the transport gives up.
pub const TAGS_TIMEOUT_SECS: u64 = 15;

/// What the front-end asks to translate, and with which credentials.
pub struct TranslatePayload {
    pub endpoint: String,
    pub model: String,
    pub prompt: String,
    pub api_token: Option<String>,
    pub username: Option<String>,
    pub password: Option<String>,
}

/// The server to probe and the model expected on it.
pub struct OllamaHealthPayload {
    pub endpoint: String,
    pub model: String,
}

/// The generated text.
pub struct TranslateOutput {
    pub text: String,
}

/// The outcome of a probe that reached the transport layer.
pub struct OllamaHealthOutput {
    pub reachable: bool,
    pub model_installed: bool,
    pub models: Vec<String>,
    pub message: String,
}

/// The abstract value of an `OllamaHealthOutput`.
pub struct HealthView {
    pub reachable: bool,
    pub model_installed: bool,
    pub models: Seq<Seq<char>>,
    pub message: Seq<char>,
}

impl View for OllamaHealthOutput {
    type V = HealthView;

    open spec fn view(&self) -> HealthView {
        HealthView {
            reachable: self.reachable,
            model_installed: self.model_installed,
            models: strings_view(self.models@),
            message: self.message@,
        }
    }
}

/// A POST to the generation route, ready to send.
///
/// The two credentials are independent: when both are present the bearer
/// token is attached first and the basic-auth pair after it. Each is kept
/// only when it carries something; a missing username or password of the
/// pair is sent as empty.
pub struct GenerateRequest {
    pub url: String,
    pub body: String,
    pub bearer_token: Option<String>,
    pub basic_auth: Option<(String, String)>,
    pub timeout_secs: u64,
}

/// A GET on the model-listing route, ready to send.
pub struct TagsRequest {
    pub url: String,
    pub timeout_secs: u64,
}

/// An answer of the server: its status code and its body as text.
pub struct HttpReply {
    pub status: u16,
    pub body: String,
}

/// The views of a sequence of strings.
pub open spec fn strings_view(s: Seq<String>) -> Seq<Seq<char>> {
    s.map_values(|t: String| t@)
}

/// The view of a string result.
pub open spec fn text_result_view(r: Result<String, String>) -> Result<Seq<char>, Seq<char>> {
    match r {
        Ok(t) => Ok(t@),
        Err(e) => Err(e@),
    }
}

/// The view of a decoded model list.
pub open spec fn list_result_view(r: Result<Vec<String>, String>) -> Result<Seq<Seq<char>>, Seq<char>> {
    match r {
        Ok(v) => Ok(strings_view(v@)),
        Err(e) => Err(e@),
    }
}

/// The view of what the transport handed back: status and body, or the
/// transport's description of its failure.
pub open spec fn sent_view(sent: Result<HttpReply, String>) -> Result<(u16, Seq<char>), Seq<char>> {
    match sent {
        Ok(r) => Ok((r.status, r.body@)),
        Err(e) => Err(e@),
    }
}

/// The registered reason phrase of the status that came back, if any did.
pub open spec fn sent_reason(sent: Result<HttpReply, String>) -> Option<Seq<char>> {
    match sent {
        Ok(r) => reason_phrase_of(r.status),
        Err(_) => None,
    }
}

/// The generation route, relative to the server's base URL.
pub open spec fn generate_route() -> Seq<char> {
    "/api/generate"@
}

/// The model-listing route, relative to the server's base URL.
pub open spec fn tags_route() -> Seq<char> {
    "/api/tags"@
}

/// The URL of `route` on the server at `endpoint`.
pub open spec fn route_url(endpoint: Seq<char>, route: Seq<char>) -> Seq<char> {
    trim_slashes(endpoint) + route
}

/// The endpoint without trailing slashes, followed by `route`.
fn join_route(endpoint: &str, route: &str) -> (r: String)
    ensures
        r@ == route_url(endpoint@, route@),
{
    let mut r = String::from_str(trim_trailing_slashes(endpoint));
    r.append(route);
    r
}

/// The URL of the generation route of the server at `endpoint`.
pub fn generate_url(endpoint: &str) -> (r: String)
    ensures
        r@ == route_url(endpoint@, generate_route()),
{
    join_route(endpoint, "/api/generate")
}

/// The URL of the model-listing route of the server at `endpoint`.
pub fn tags_url(endpoint: &str) -> (r: String)
    ensures
        r@ == route_url(endpoint@, tags_route()),
{
    join_route(endpoint, "/api/tags")
}

/// The bearer token to attach: a present, non-empty token.
pub open spec fn bearer_of(token: Option<Seq<char>>) -> Option<Seq<char>> {
    match token {
        Some(t) => if t.len() > 0 { Some(t) } else { None },
        None => None,
    }
}

/// A credential part as sent: a missing part counts as empty.
pub open spec fn part_or_empty(part: Option<Seq<char>>) -> Seq<char> {
    match part {
        Some(t) => t,
        None => Seq::empty(),
    }
}

/// The basic-auth pair to attach, a missing part counting as empty: attached
/// exactly when the username or the password is non-empty.
pub open spec fn basic_of(username: Option<Seq<char>>, password: Option<Seq<char>>) -> Option<(Seq<char>, Seq<char>)> {
    let u = part_or_empty(username);
    let p = part_or_empty(password);
    if u.len() > 0 || p.len() > 0 {
        Some((u, p))
    } else {
        None
    }
}

/// The view of an optional pair of strings.
pub open spec fn pair_view(p: Option<(String, String)>) -> Option<(Seq<char>, Seq<char>)> {
    match p {
        Some((u, w)) => Some((u@, w@)),
        None => None,
    }
}

/// The generation request for `payload`.
pub fn translate_request(payload: &TranslatePayload) -> (r: GenerateRequest)
    ensures
        r.url@ == route_url(payload.endpoint@, generate_route()),
        r.body@ == generate_body_of(payload.model@, payload.prompt@),
        opt_view(r.bearer_token) == bearer_of(opt_view(payload.api_token)),
        pair_view(r.basic_auth) == basic_of(opt_view(payload.username), opt_view(payload.password)),
        r.timeout_secs == GENERATE_TIMEOUT_SECS,
{
    let bearer_token = match &payload.api_token {
        Some(t) => if !t.as_str().is_empty() { Some(t.clone()) } else { None },
        None => None,
    };
    let username = match &payload.username {
        Some(u) => u.clone(),
        None => String::new(),
    };
    let password = match &payload.password {
        Some(p) => p.clone(),
        None => String::new(),
    };
    let basic_auth = if !username.as_str().is_empty() || !password.as_str().is_empty() {
        Some((username, password))
    } else {
        None
    };
    GenerateRequest {
        url: generate_url(payload.endpoint.as_str()),
        body: generate_body(payload.model.as_str(), payload.prompt.as_str()),
        bearer_token,
        basic_auth,
        timeout_secs: GENERATE_TIMEOUT_SECS,
    }
}

/// The model-listing request for `payload`.
pub fn health_request(payload: &OllamaHealthPayload) -> (r: TagsRequest)
    ensures
        r.url@ == route_url(payload.endpoint@, tags_route()),
        r.timeout_secs == TAGS_TIMEOUT_SECS,
{
    TagsRequest { url: tags_url(payload.endpoint.as_str()), timeout_secs: TAGS_TIMEOUT_SECS }
}

// The texts that open each message shown to the user.

pub open spec fn send_failed_prefix() -> Seq<char> {
    "请求 Ollama 失败: "@
}

pub open spec fn bad_status_prefix() -> Seq<char> {
    "Ollama 返回异常状态 "@
}

pub open spec fn decode_failed_prefix() -> Seq<char> {
    "解析 Ollama 响应失败: "@
}

pub open spec fn unreachable_prefix() -> Seq<char> {
    "无法访问 Ollama 服务: "@
}

pub open spec fn unhealthy_prefix() -> Seq<char> {
    "Ollama 服务响应异常："@
}

pub open spec fn list_failed_prefix() -> Seq<char> {
    "解析 Ollama 模型列表失败: "@
}

pub open spec fn installed_prefix() -> Seq<char> {
    "检查通过：检测到模型 "@
}

pub open spec fn missing_prefix() -> Seq<char> {
    "Ollama 可访问，但未检测到模型 "@
}

pub open spec fn client_failed_prefix() -> Seq<char> {
    "创建 HTTP 客户端失败: "@
}

/// `prefix` followed by `rest`.
fn prefixed(prefix: &str, rest: &str) -> (r: String)
    ensures
        r@ == prefix@ + rest@,
{
    let mut r = String::from_str(prefix);
    r.append(rest);
    r
}

/// The error reported when the HTTP client itself cannot be set up.
pub fn client_error(error: &str) -> (r: String)
    ensures
        r@ == client_failed_prefix() + error@,
{
    prefixed("创建 HTTP 客户端失败: ", error)
}

/// What a translation returns, given what the transport handed back, the
/// reason phrase of the status, and the body decoded as a generation answer
/// (consulted only after a success status).
pub open spec fn translate_outcome_of(
    sent: Result<(u16, Seq<char>), Seq<char>>,
    reason: Option<Seq<char>>,
    decoded: Result<Seq<char>, Seq<char>>,
) -> Result<Seq<char>, Seq<char>> {
    match sent {
        Err(e) => Err(send_failed_prefix() + e),
        Ok((status, body)) => if !success_code(status) {
            Err(bad_status_prefix() + status_line(status, reason) + ": "@ + body)
        } else {
            match decoded {
                Ok(text) => Ok(text),
                Err(e) => Err(decode_failed_prefix() + e),
            }
        },
    }
}

/// The view of a translation result: the text, or the error message.
pub open spec fn translate_view(r: Result<TranslateOutput, String>) -> Result<Seq<char>, Seq<char>> {
    match r {
        Ok(o) => Ok(o.text@),
        Err(e) => Err(e@),
    }
}

/// The result of a translation, with the reason phrase of the status given.
pub fn translate_outcome_with(
    sent: Result<HttpReply, String>,
    reason: Option<String>,
    decoded: Result<String, String>,
) -> (r: Result<TranslateOutput, String>)
    ensures
        translate_view(r) == translate_outcome_of(
            sent_view(sent),
            opt_view(reason),
            text_result_view(decoded),
        ),
{
    match sent {
        Err(e) => Err(prefixed("请求 Ollama 失败: ", e.as_str())),
        Ok(reply) => {
            if !is_success(reply.status) {
                let mut r = String::from_str("Ollama 返回异常状态 ");
                let line = status_line_with(reply.status, reason);
                r.append(line.as_str());
                r.append(": ");
                r.append(reply.body.as_str());
                Err(r)
            } else {
                match decoded {
                    Ok(text) => Ok(TranslateOutput { text }),
                    Err(e) => Err(prefixed("解析 Ollama 响应失败: ", e.as_str())),
                }
            }
        },
    }
}

/// The result of a translation, given what the transport handed back and the
/// body decoded as a generation answer.
pub fn translate_outcome(sent: Result<HttpReply, String>, decoded: Result<String, String>) -> (r:
    Result<TranslateOutput, String>)
    ensures
        translate_view(r) == translate_outcome_of(
            sent_view(sent),
            sent_reason(sent),
            text_result_view(decoded),
        ),
        sent is Err ==> r is Err,
{
    let reason = match &sent {
        Ok(reply) => reason_phrase(reply.status),
        Err(_) => None,
    };
    translate_outcome_with(sent, reason, decoded)
}

/// Some listed model names the requested one.
pub open spec fn installed_in(models: Seq<Seq<char>>, model: Seq<char>) -> bool {
    exists|i: int| 0 <= i < models.len() && names_model(#[trigger] models[i], model)
}

/// Decides `installed_in` over the listed names.
pub fn find_model(models: &Vec<String>, model: &str) -> (r: bool)
    ensures
        r == installed_in(strings_view(models@), model@),
{
    let mut i: usize = 0;
    while i < models.len()
        invariant
            i <= models@.len(),
            forall|j: int| 0 <= j < i ==> !names_model(#[trigger] strings_view(models@)[j], model@),
        decreases models@.len() - i,
    {
        if model_matches(models[i].as_str(), model) {
            assert(names_model(strings_view(models@)[i as int], model@));
            return true;
        }
        i = i + 1;
    }
    false
}

/// The message of a probe that reached the server and read its model list.
pub open spec fn health_message_of(installed: bool, model: Seq<char>) -> Seq<char> {
    if installed {
        installed_prefix() + model
    } else {
        missing_prefix() + model
    }
}

/// What a probe returns, given what the transport handed back, the reason
/// phrase of the status, and the body decoded as a model list (consulted only
/// after a success status).
pub open spec fn health_outcome_of(
    model: Seq<char>,
    sent: Result<(u16, Seq<char>), Seq<char>>,
    reason: Option<Seq<char>>,
    listed: Result<Seq<Seq<char>>, Seq<char>>,
) -> Result<HealthView, Seq<char>> {
    match sent {
        Err(e) => Err(unreachable_prefix() + e),
        Ok((status, _)) => if !success_code(status) {
            Ok(
                HealthView {
                    reachable: false,
                    model_installed: false,
                    models: Seq::empty(),
                    message: unhealthy_prefix() + status_line(status, reason),
                },
            )
        } else {
            match listed {
                Ok(models) => Ok(
                    HealthView {
                        reachable: true,
                        model_installed: installed_in(models, model),
                        models,
                        message: health_message_of(installed_in(models, model), model),
                    },
                ),
                Err(e) => Err(list_failed_prefix() + e),
            }
        },
    }
}

/// The view of a probe result.
pub open spec fn health_view(r: Result<OllamaHealthOutput, String>) -> Result<HealthView, Seq<char>> {
    match r {
        Ok(o) => Ok(o@),
        Err(e) => Err(e@),
    }
}

/// The result of a probe for `model`, with the reason phrase of the status given.
pub fn health_outcome_with(
    model: &str,
    sent: Result<HttpReply, String>,
    reason: Option<String>,
    listed: Result<Vec<String>, String>,
) -> (r: Result<OllamaHealthOutput, String>)
    ensures
        health_view(r) == health_outcome_of(
            model@,
            sent_view(sent),
            opt_view(reason),
            list_result_view(listed),
        ),
{
    match sent {
        Err(e) => Err(prefixed("无法访问 Ollama 服务: ", e.as_str())),
        Ok(reply) => {
            if !is_success(reply.status) {
                let line = status_line_with(reply.status, reason);
                let out = OllamaHealthOutput {
                    reachable: false,
                    model_installed: false,
                    models: Vec::new(),
                    message: prefixed("Ollama 服务响应异常：", line.as_str()),
                };
                assert(out@.models =~= Seq::<Seq<char>>::empty());
                Ok(out)
            } else {
                match listed {
                    Ok(models) => {
                        let model_installed = find_model(&models, model);
                        let message = if model_installed {
                            prefixed("检查通过：检测到模型 ", model)
                        } else {
                            prefixed("Ollama 可访问，但未检测到模型 ", model)
                        };
                        Ok(OllamaHealthOutput { reachable: true, model_installed, models, message })
                    },
                    Err(e) => Err(prefixed("解析 Ollama 模型列表失败: ", e.as_str())),
                }
            }
        },
    }
}

/// The result of a probe for `model`, given what the transport handed back
/// and the body decoded as a model list.
pub fn health_outcome(
    model: &str,
    sent: Result<HttpReply, String>,
    listed: Result<Vec<String>, String>,
) -> (r: Result<OllamaHealthOutput, String>)
    ensures
        health_view(r) == health_outcome_of(
            model@,
            sent_view(sent),
            sent_reason(sent),
            list_result_view(listed),
        ),
        sent is Err ==> r is Err,
        (sent matches Ok(reply) && !success_code(reply.status)) ==> (r matches Ok(o)
            && !o.reachable && !o.model_installed && o.models@.len() == 0),
{
    let reason = match &sent {
        Ok(reply) => reason_phrase(reply.status),
        Err(_) => None,
    };
    let r = health_outcome_with(model, sent, reason, listed);
    proof {
        if r is Ok {
            assert(strings_view(r->Ok_0.models@).len() == r->Ok_0.models@.len());
        }
    }
    r
}

} // verus!
