//! Per-vendor translation of the normalized message list into each LLM
//! API's wire format, and of each API's response back into plain text.
//! Request URLs, headers and JSON bodies are built, character for
//! character, by verified code; reading a vendor's JSON response goes
//! through trusted extractors over serde_json.

use vstd::prelude::*;
use vstd::string::*;
use crate::json::{json_str, append_json_string};
use crate::text::{str_eq, push_char, u64_to_dec, dec_digits, spec_digit, digit_char};

verus! {

/// The vendor an API configuration speaks to.
#[derive(PartialEq, Eq, Structural, Clone, Copy, Debug)]
pub enum ApiProvider {
    OpenAI,
    Anthropic,
    Google,
    Ollama,
    Custom,
}

/// One LLM API configuration. The sampling temperature is kept in
/// hundredths, so that the wire rendering is exact.
pub struct ApiConfig {
    pub id: String,
    pub name: String,
    pub provider: ApiProvider,
    pub api_key: String,
    pub base_url: Option<String>,
    pub model: String,
    pub temperature_centi: u32,
    pub max_tokens: Option<u32>,
    pub is_default: bool,
}

/// One wire-neutral chat message.
pub struct ChatMessage {
    pub role: String,
    pub content: String,
}

/// One choice of an OpenAI-shaped completion response.
pub struct ChatChoice {
    pub message: ChatMessage,
}

/// An OpenAI-shaped completion response.
pub struct ChatCompletionResponse {
    pub choices: Vec<ChatChoice>,
}

/// A normalized completion request.
pub struct ChatCompletionRequest {
    pub messages: Vec<ChatMessage>,
    pub model: String,
    pub temperature_centi: u32,
    pub max_tokens: Option<u32>,
}

/// One HTTP header.
pub struct Header {
    pub name: String,
    pub value: String,
}

/// Everything the transport needs for one completion call.
pub struct HttpRequest {
    pub url: String,
    pub headers: Vec<Header>,
    pub body: String,
}

/// Why a completion call failed short of its transport.
#[derive(Debug)]
pub enum AdapterError {
    /// The vendor answered outside the 2xx range; the raw body is kept
    /// for diagnostics.
    Http { status: u16, body: String },
    /// A 2xx response did not hold the expected shape; the raw body is
    /// kept for diagnostics.
    Shape { body: String },
    /// A custom provider was configured without a base URL.
    MissingBaseUrl,
}

impl AdapterError {
    /// The human-readable rendering of this failure; the raw response
    /// body is never dropped.
    pub fn message(&self) -> (r: String)
        ensures
            match self {
                AdapterError::Http { status, body } => r@ == "API request failed: "@ + body@,
                AdapterError::Shape { body } => r@ == "Invalid response format: "@ + body@,
                AdapterError::MissingBaseUrl => r@
                    == "Base URL is required for custom providers"@,
            },
    {
        match self {
            AdapterError::Http { status: _, body } => {
                let mut m = String::from_str("API request failed: ");
                m.append(body.as_str());
                m
            },
            AdapterError::Shape { body } => {
                let mut m = String::from_str("Invalid response format: ");
                m.append(body.as_str());
                m
            },
            AdapterError::MissingBaseUrl => String::from_str(
                "Base URL is required for custom providers",
            ),
        }
    }
}

/// The role/content views of a message list.
pub open spec fn msg_views(ms: Seq<ChatMessage>) -> Seq<(Seq<char>, Seq<char>)> {
    ms.map_values(|m: ChatMessage| (m.role@, m.content@))
}

/// The header name/value views of a header list.
pub open spec fn header_views(hs: Seq<Header>) -> Seq<(Seq<char>, Seq<char>)> {
    hs.map_values(|h: Header| (h.name@, h.value@))
}

/// The URL a completion request goes to: the configured base URL where
/// one is set, else the vendor's default; Ollama appends its chat path;
/// Google embeds the model in the path and the credential as a query
/// parameter; a custom provider must configure a base URL.
pub open spec fn spec_request_url(
    provider: ApiProvider,
    base_url: Option<Seq<char>>,
    model: Seq<char>,
    api_key: Seq<char>,
) -> Option<Seq<char>> {
    match provider {
        ApiProvider::OpenAI => Some(
            match base_url {
                Some(u) => u,
                None => "https://api.openai.com/v1/chat/completions"@,
            },
        ),
        ApiProvider::Anthropic => Some(
            match base_url {
                Some(u) => u,
                None => "https://api.anthropic.com/v1/messages"@,
            },
        ),
        ApiProvider::Ollama => Some(
            (match base_url {
                Some(u) => u,
                None => "http://localhost:11434"@,
            }) + "/api/chat"@,
        ),
        ApiProvider::Google => Some(
            (match base_url {
                Some(u) => u,
                None => "https://generativelanguage.googleapis.com/v1beta/models"@,
            }) + "/"@ + model + ":generateContent?key="@ + api_key,
        ),
        ApiProvider::Custom => base_url,
    }
}

/// The headers of a completion request: bearer auth for the
/// OpenAI-compatible shape, the vendor header pair for Anthropic, a bare
/// JSON content type for Ollama and Google; a custom provider adds auth
/// only when a credential is present.
pub open spec fn spec_request_headers(provider: ApiProvider, api_key: Seq<char>) -> Seq<
    (Seq<char>, Seq<char>),
> {
    match provider {
        ApiProvider::OpenAI => seq![
            ("Authorization"@, "Bearer "@ + api_key),
            ("Content-Type"@, "application/json"@),
        ],
        ApiProvider::Anthropic => seq![
            ("x-api-key"@, api_key),
            ("anthropic-version"@, "2023-06-01"@),
            ("Content-Type"@, "application/json"@),
        ],
        ApiProvider::Ollama => seq![("Content-Type"@, "application/json"@)],
        ApiProvider::Google => seq![("Content-Type"@, "application/json"@)],
        ApiProvider::Custom => if api_key.len() > 0 {
            seq![
                ("Content-Type"@, "application/json"@),
                ("Authorization"@, "Bearer "@ + api_key),
            ]
        } else {
            seq![("Content-Type"@, "application/json"@)]
        },
    }
}

/// The decimal rendering of the temperature, in hundredths: an integer
/// part and exactly two fractional digits.
pub open spec fn temp_text(centi: int) -> Seq<char> {
    dec_digits(centi / 100) + seq!['.', spec_digit((centi % 100) / 10), spec_digit(centi % 100 % 10)]
}

/// One OpenAI-shaped message object.
pub open spec fn openai_msg_obj(role: Seq<char>, content: Seq<char>) -> Seq<char> {
    "{\"role\":"@ + json_str(role) + ",\"content\":"@ + json_str(content) + "}"@
}

/// A comma-separated list of OpenAI-shaped message objects.
pub open spec fn openai_msgs(ms: Seq<(Seq<char>, Seq<char>)>) -> Seq<char>
    decreases ms.len(),
{
    if ms.len() == 0 {
        Seq::empty()
    } else if ms.len() == 1 {
        openai_msg_obj(ms[0].0, ms[0].1)
    } else {
        openai_msgs(ms.drop_last()) + ","@ + openai_msg_obj(ms.last().0, ms.last().1)
    }
}

/// A message role collapsed onto the two the Anthropic API accepts.
pub open spec fn collapsed_role(role: Seq<char>) -> Seq<char> {
    if role == "assistant"@ {
        "assistant"@
    } else {
        "user"@
    }
}

/// A comma-separated list of Anthropic message objects: the OpenAI shape
/// with the role collapsed.
pub open spec fn anthropic_msgs(ms: Seq<(Seq<char>, Seq<char>)>) -> Seq<char>
    decreases ms.len(),
{
    if ms.len() == 0 {
        Seq::empty()
    } else if ms.len() == 1 {
        openai_msg_obj(collapsed_role(ms[0].0), ms[0].1)
    } else {
        anthropic_msgs(ms.drop_last()) + ","@ + openai_msg_obj(
            collapsed_role(ms.last().0),
            ms.last().1,
        )
    }
}

/// A message role mapped onto the two the Google API accepts.
pub open spec fn google_role(role: Seq<char>) -> Seq<char> {
    if role == "assistant"@ {
        "model"@
    } else {
        "user"@
    }
}

/// One Google content object: the role and a single text part.
pub open spec fn google_msg_obj(role: Seq<char>, content: Seq<char>) -> Seq<char> {
    "{\"role\":"@ + json_str(google_role(role)) + ",\"parts\":[{\"text\":"@ + json_str(content)
        + "}]}"@
}

/// A comma-separated list of Google content objects.
pub open spec fn google_msgs(ms: Seq<(Seq<char>, Seq<char>)>) -> Seq<char>
    decreases ms.len(),
{
    if ms.len() == 0 {
        Seq::empty()
    } else if ms.len() == 1 {
        google_msg_obj(ms[0].0, ms[0].1)
    } else {
        google_msgs(ms.drop_last()) + ","@ + google_msg_obj(ms.last().0, ms.last().1)
    }
}

/// A number, or the JSON null.
pub open spec fn opt_tokens_text(mt: Option<u32>) -> Seq<char> {
    match mt {
        Some(n) => dec_digits(n as int),
        None => "null"@,
    }
}

/// A number, with the vendor default of 1000 where none is configured.
pub open spec fn tokens_or_default(mt: Option<u32>) -> Seq<char> {
    match mt {
        Some(n) => dec_digits(n as int),
        None => dec_digits(1000),
    }
}

/// The request body of the OpenAI-compatible shape, shared by the
/// OpenAI and custom vendors; with `stream` set it asks for incremental
/// delivery.
pub open spec fn openai_body(
    model: Seq<char>,
    ms: Seq<(Seq<char>, Seq<char>)>,
    temperature_centi: int,
    max_tokens: Option<u32>,
    stream: bool,
) -> Seq<char> {
    "{\"model\":"@ + json_str(model) + ",\"messages\":["@ + openai_msgs(ms) + "],\"temperature\":"@
        + temp_text(temperature_centi) + ",\"max_tokens\":"@ + opt_tokens_text(max_tokens) + (
    if stream {
        ",\"stream\":true}"@
    } else {
        "}"@
    })
}

/// The Anthropic request body.
pub open spec fn anthropic_body(
    model: Seq<char>,
    ms: Seq<(Seq<char>, Seq<char>)>,
    max_tokens: Option<u32>,
) -> Seq<char> {
    "{\"model\":"@ + json_str(model) + ",\"max_tokens\":"@ + tokens_or_default(max_tokens)
        + ",\"messages\":["@ + anthropic_msgs(ms) + "]}"@
}

/// The Ollama request body; non-streaming delivery is requested
/// explicitly.
pub open spec fn ollama_body(
    model: Seq<char>,
    ms: Seq<(Seq<char>, Seq<char>)>,
    temperature_centi: int,
) -> Seq<char> {
    "{\"model\":"@ + json_str(model) + ",\"messages\":["@ + openai_msgs(ms)
        + "],\"stream\":false,\"options\":{\"temperature\":"@ + temp_text(temperature_centi)
        + "}}"@
}

/// The Google request body.
pub open spec fn google_body(
    ms: Seq<(Seq<char>, Seq<char>)>,
    temperature_centi: int,
    max_tokens: Option<u32>,
) -> Seq<char> {
    "{\"contents\":["@ + google_msgs(ms) + "],\"generationConfig\":{\"temperature\":"@ + temp_text(
        temperature_centi,
    ) + ",\"maxOutputTokens\":"@ + tokens_or_default(max_tokens) + "}}"@
}

/// The body a configuration and message list translate to.
pub open spec fn spec_request_body(
    provider: ApiProvider,
    model: Seq<char>,
    ms: Seq<(Seq<char>, Seq<char>)>,
    temperature_centi: int,
    max_tokens: Option<u32>,
    stream: bool,
) -> Seq<char> {
    match provider {
        ApiProvider::OpenAI => openai_body(model, ms, temperature_centi, max_tokens, stream),
        ApiProvider::Custom => openai_body(model, ms, temperature_centi, max_tokens, stream),
        ApiProvider::Anthropic => anthropic_body(model, ms, max_tokens),
        ApiProvider::Ollama => ollama_body(model, ms, temperature_centi),
        ApiProvider::Google => google_body(ms, temperature_centi, max_tokens),
    }
}

fn append_temp(out: &mut String, centi: u32)
    ensures
        final(out)@ == old(out)@ + temp_text(centi as int),
{
    let whole = u64_to_dec((centi / 100) as u64);
    out.append(whole.as_str());
    push_char(out, '.');
    push_char(out, digit_char(((centi % 100) / 10) as u8));
    push_char(out, digit_char((centi % 100 % 10) as u8));
    proof {
        assert(out@ =~= old(out)@ + temp_text(centi as int));
    }
}

fn append_opt_tokens(out: &mut String, mt: &Option<u32>)
    ensures
        final(out)@ == old(out)@ + opt_tokens_text(*mt),
{
    match mt {
        Some(n) => {
            let d = u64_to_dec(*n as u64);
            out.append(d.as_str());
        },
        None => {
            out.append("null");
        },
    }
}

fn append_tokens_or_default(out: &mut String, mt: &Option<u32>)
    ensures
        final(out)@ == old(out)@ + tokens_or_default(*mt),
{
    match mt {
        Some(n) => {
            let d = u64_to_dec(*n as u64);
            out.append(d.as_str());
        },
        None => {
            let d = u64_to_dec(1000);
            out.append(d.as_str());
        },
    }
}

fn append_openai_msg(out: &mut String, role: &str, content: &str)
    ensures
        final(out)@ == old(out)@ + openai_msg_obj(role@, content@),
{
    out.append("{\"role\":");
    append_json_string(out, role);
    out.append(",\"content\":");
    append_json_string(out, content);
    out.append("}");
    proof {
        assert(out@ =~= old(out)@ + openai_msg_obj(role@, content@));
    }
}

fn append_openai_msgs(out: &mut String, ms: &Vec<ChatMessage>)
    ensures
        final(out)@ == old(out)@ + openai_msgs(msg_views(ms@)),
{
    let n = ms.len();
    let mut i: usize = 0;
    proof {
        assert(out@ + openai_msgs(msg_views(ms@).take(0)) =~= out@);
    }
    while i < n
        invariant
            n == ms@.len(),
            i <= n,
            out@ == old(out)@ + openai_msgs(msg_views(ms@).take(i as int)),
        decreases n - i,
    {
        if i > 0 {
            out.append(",");
        }
        append_openai_msg(out, ms[i].role.as_str(), ms[i].content.as_str());
        proof {
            reveal_strlit(",");
            assert(msg_views(ms@).take(i + 1 as int).drop_last() =~= msg_views(ms@).take(i as int));
            assert(msg_views(ms@).take(i + 1 as int).last() == msg_views(ms@)[i as int]);
            if i == 0 {
                assert(msg_views(ms@).take(1) =~= seq![msg_views(ms@)[0]]);
                assert(out@ =~= old(out)@ + openai_msgs(msg_views(ms@).take(1)));
            } else {
                assert(out@ =~= old(out)@ + openai_msgs(msg_views(ms@).take(i + 1 as int)));
            }
        }
        i += 1;
    }
    proof {
        assert(msg_views(ms@).take(n as int) =~= msg_views(ms@));
    }
}

fn append_anthropic_msgs(out: &mut String, ms: &Vec<ChatMessage>)
    ensures
        final(out)@ == old(out)@ + anthropic_msgs(msg_views(ms@)),
{
    let n = ms.len();
    let mut i: usize = 0;
    proof {
        assert(out@ + anthropic_msgs(msg_views(ms@).take(0)) =~= out@);
    }
    while i < n
        invariant
            n == ms@.len(),
            i <= n,
            out@ == old(out)@ + anthropic_msgs(msg_views(ms@).take(i as int)),
        decreases n - i,
    {
        if i > 0 {
            out.append(",");
        }
        let role = if str_eq(ms[i].role.as_str(), "assistant") {
            "assistant"
        } else {
            "user"
        };
        append_openai_msg(out, role, ms[i].content.as_str());
        proof {
            reveal_strlit(",");
            assert(msg_views(ms@).take(i + 1 as int).drop_last() =~= msg_views(ms@).take(i as int));
            assert(msg_views(ms@).take(i + 1 as int).last() == msg_views(ms@)[i as int]);
            if i == 0 {
                assert(msg_views(ms@).take(1) =~= seq![msg_views(ms@)[0]]);
                assert(out@ =~= old(out)@ + anthropic_msgs(msg_views(ms@).take(1)));
            } else {
                assert(out@ =~= old(out)@ + anthropic_msgs(msg_views(ms@).take(i + 1 as int)));
            }
        }
        i += 1;
    }
    proof {
        assert(msg_views(ms@).take(n as int) =~= msg_views(ms@));
    }
}

fn append_google_msgs(out: &mut String, ms: &Vec<ChatMessage>)
    ensures
        final(out)@ == old(out)@ + google_msgs(msg_views(ms@)),
{
    let n = ms.len();
    let mut i: usize = 0;
    proof {
        assert(out@ + google_msgs(msg_views(ms@).take(0)) =~= out@);
    }
    while i < n
        invariant
            n == ms@.len(),
            i <= n,
            out@ == old(out)@ + google_msgs(msg_views(ms@).take(i as int)),
        decreases n - i,
    {
        if i > 0 {
            out.append(",");
        }
        let ghost pre = out@;
        out.append("{\"role\":");
        let role = if str_eq(ms[i].role.as_str(), "assistant") {
            "model"
        } else {
            "user"
        };
        append_json_string(out, role);
        out.append(",\"parts\":[{\"text\":");
        append_json_string(out, ms[i].content.as_str());
        out.append("}]}");
        proof {
            reveal_strlit(",");
            assert(out@ =~= pre + google_msg_obj(msg_views(ms@)[i as int].0, msg_views(
                ms@,
            )[i as int].1));
            assert(msg_views(ms@).take(i + 1 as int).drop_last() =~= msg_views(ms@).take(i as int));
            assert(msg_views(ms@).take(i + 1 as int).last() == msg_views(ms@)[i as int]);
            if i == 0 {
                assert(msg_views(ms@).take(1) =~= seq![msg_views(ms@)[0]]);
                assert(out@ =~= old(out)@ + google_msgs(msg_views(ms@).take(1)));
            } else {
                assert(out@ =~= old(out)@ + google_msgs(msg_views(ms@).take(i + 1 as int)));
            }
        }
        i += 1;
    }
    proof {
        assert(msg_views(ms@).take(n as int) =~= msg_views(ms@));
    }
}

/// Builds the request body for one completion call.
pub fn build_request_body(config: &ApiConfig, messages: &Vec<ChatMessage>, stream: bool) -> (r:
    String)
    ensures
        r@ == spec_request_body(
            config.provider,
            config.model@,
            msg_views(messages@),
            config.temperature_centi as int,
            config.max_tokens,
            stream,
        ),
{
    let mut out = String::new();
    match config.provider {
        ApiProvider::OpenAI | ApiProvider::Custom => {
            out.append("{\"model\":");
            append_json_string(&mut out, config.model.as_str());
            out.append(",\"messages\":[");
            append_openai_msgs(&mut out, messages);
            out.append("],\"temperature\":");
            append_temp(&mut out, config.temperature_centi);
            out.append(",\"max_tokens\":");
            append_opt_tokens(&mut out, &config.max_tokens);
            if stream {
                out.append(",\"stream\":true}");
            } else {
                out.append("}");
            }
            proof {
                assert(out@ =~= openai_body(
                    config.model@,
                    msg_views(messages@),
                    config.temperature_centi as int,
                    config.max_tokens,
                    stream,
                ));
            }
        },
        ApiProvider::Anthropic => {
            out.append("{\"model\":");
            append_json_string(&mut out, config.model.as_str());
            out.append(",\"max_tokens\":");
            append_tokens_or_default(&mut out, &config.max_tokens);
            out.append(",\"messages\":[");
            append_anthropic_msgs(&mut out, messages);
            out.append("]}");
            proof {
                assert(out@ =~= anthropic_body(
                    config.model@,
                    msg_views(messages@),
                    config.max_tokens,
                ));
            }
        },
        ApiProvider::Ollama => {
            out.append("{\"model\":");
            append_json_string(&mut out, config.model.as_str());
            out.append(",\"messages\":[");
            append_openai_msgs(&mut out, messages);
            out.append("],\"stream\":false,\"options\":{\"temperature\":");
            append_temp(&mut out, config.temperature_centi);
            out.append("}}");
            proof {
                assert(out@ =~= ollama_body(
                    config.model@,
                    msg_views(messages@),
                    config.temperature_centi as int,
                ));
            }
        },
        ApiProvider::Google => {
            out.append("{\"contents\":[");
            append_google_msgs(&mut out, messages);
            out.append("],\"generationConfig\":{\"temperature\":");
            append_temp(&mut out, config.temperature_centi);
            out.append(",\"maxOutputTokens\":");
            append_tokens_or_default(&mut out, &config.max_tokens);
            out.append("}}");
            proof {
                assert(out@ =~= google_body(
                    msg_views(messages@),
                    config.temperature_centi as int,
                    config.max_tokens,
                ));
            }
        },
    }
    out
}

/// Resolves the URL of one completion call; a custom provider without a
/// base URL is refused.
pub fn request_url(config: &ApiConfig) -> (r: Result<String, AdapterError>)
    ensures
        match r {
            Ok(u) => spec_request_url(
                config.provider,
                crate::dispatch::opt_view(config.base_url),
                config.model@,
                config.api_key@,
            ) == Some(u@),
            Err(e) => config.provider is Custom && config.base_url is None && e
                is MissingBaseUrl,
        },
{
    match config.provider {
        ApiProvider::OpenAI => Ok(
            match &config.base_url {
                Some(u) => u.clone(),
                None => String::from_str("https://api.openai.com/v1/chat/completions"),
            },
        ),
        ApiProvider::Anthropic => Ok(
            match &config.base_url {
                Some(u) => u.clone(),
                None => String::from_str("https://api.anthropic.com/v1/messages"),
            },
        ),
        ApiProvider::Ollama => {
            let mut u = match &config.base_url {
                Some(u) => u.clone(),
                None => String::from_str("http://localhost:11434"),
            };
            u.append("/api/chat");
            Ok(u)
        },
        ApiProvider::Google => {
            let mut u = match &config.base_url {
                Some(u) => u.clone(),
                None => String::from_str(
                    "https://generativelanguage.googleapis.com/v1beta/models",
                ),
            };
            u.append("/");
            u.append(config.model.as_str());
            u.append(":generateContent?key=");
            u.append(config.api_key.as_str());
            Ok(u)
        },
        ApiProvider::Custom => match &config.base_url {
            Some(u) => Ok(u.clone()),
            None => Err(AdapterError::MissingBaseUrl),
        },
    }
}

fn header(name: &str, value: String) -> (r: Header)
    ensures
        r.name@ == name@,
        r.value == value,
{
    Header { name: String::from_str(name), value }
}

/// Builds the headers of one completion call.
pub fn request_headers(config: &ApiConfig) -> (r: Vec<Header>)
    ensures
        header_views(r@) == spec_request_headers(config.provider, config.api_key@),
{
    let mut r: Vec<Header> = Vec::new();
    match config.provider {
        ApiProvider::OpenAI => {
            let mut auth = String::from_str("Bearer ");
            auth.append(config.api_key.as_str());
            r.push(header("Authorization", auth));
            r.push(header("Content-Type", String::from_str("application/json")));
        },
        ApiProvider::Anthropic => {
            r.push(header("x-api-key", config.api_key.clone()));
            r.push(header("anthropic-version", String::from_str("2023-06-01")));
            r.push(header("Content-Type", String::from_str("application/json")));
        },
        ApiProvider::Ollama => {
            r.push(header("Content-Type", String::from_str("application/json")));
        },
        ApiProvider::Google => {
            r.push(header("Content-Type", String::from_str("application/json")));
        },
        ApiProvider::Custom => {
            r.push(header("Content-Type", String::from_str("application/json")));
            if config.api_key.as_str().unicode_len() > 0 {
                let mut auth = String::from_str("Bearer ");
                auth.append(config.api_key.as_str());
                r.push(header("Authorization", auth));
            }
        },
    }
    proof {
        assert(header_views(r@) =~= spec_request_headers(config.provider, config.api_key@));
    }
    r
}

/// Builds one complete transport request: URL, headers and body.
pub fn build_request(config: &ApiConfig, messages: &Vec<ChatMessage>, stream: bool) -> (r: Result<
    HttpRequest,
    AdapterError,
>)
    ensures
        match r {
            Ok(req) => {
                &&& spec_request_url(
                    config.provider,
                    crate::dispatch::opt_view(config.base_url),
                    config.model@,
                    config.api_key@,
                ) == Some(req.url@)
                &&& header_views(req.headers@) == spec_request_headers(
                    config.provider,
                    config.api_key@,
                )
                &&& req.body@ == spec_request_body(
                    config.provider,
                    config.model@,
                    msg_views(messages@),
                    config.temperature_centi as int,
                    config.max_tokens,
                    stream,
                )
            },
            Err(e) => config.provider is Custom && config.base_url is None && e
                is MissingBaseUrl,
        },
{
    let url = match request_url(config) {
        Ok(u) => u,
        Err(e) => {
            return Err(e);
        },
    };
    let headers = request_headers(config);
    let body = build_request_body(config, messages, stream);
    Ok(HttpRequest { url, headers, body })
}

/// What an OpenAI-shaped completion response holds.
///
/// Relies on `serde_json::from_str`: the body is parsed as JSON and the
/// `choices[0].message.content` string is read out of it; a function of
/// the body text alone.
pub uninterp spec fn openai_content_of(body: Seq<char>) -> Option<Seq<char>>;

/// What an Anthropic completion response holds: `content[0].text`.
///
/// Relies on `serde_json::from_str`; a function of the body text alone.
pub uninterp spec fn anthropic_content_of(body: Seq<char>) -> Option<Seq<char>>;

/// What an Ollama completion response holds: `message.content`.
///
/// Relies on `serde_json::from_str`; a function of the body text alone.
pub uninterp spec fn ollama_content_of(body: Seq<char>) -> Option<Seq<char>>;

/// What a Google completion response holds:
/// `candidates[0].content.parts[0].text`.
///
/// Relies on `serde_json::from_str`; a function of the body text alone.
pub uninterp spec fn google_content_of(body: Seq<char>) -> Option<Seq<char>>;

/// Relies on `serde_json::from_str` to read `choices[0].message.content`
/// out of an OpenAI-shaped response body.
#[verifier::external_body]
fn extract_openai_content(body: &str) -> (r: Option<String>)
    ensures
        match r {
            Some(s) => openai_content_of(body@) == Some(s@),
            None => openai_content_of(body@) is None,
        },
{
    let parsed: serde_json::Value = serde_json::from_str(body).ok()?;
    let content = parsed.get("choices")?.get(0)?.get("message")?.get("content")?;
    content.as_str().map(|s| s.to_string())
}

/// Relies on `serde_json::from_str` to read `content[0].text` out of an
/// Anthropic response body.
#[verifier::external_body]
fn extract_anthropic_content(body: &str) -> (r: Option<String>)
    ensures
        match r {
            Some(s) => anthropic_content_of(body@) == Some(s@),
            None => anthropic_content_of(body@) is None,
        },
{
    let parsed: serde_json::Value = serde_json::from_str(body).ok()?;
    let content = parsed.get("content")?.get(0)?.get("text")?;
    content.as_str().map(|s| s.to_string())
}

/// Relies on `serde_json::from_str` to read `message.content` out of an
/// Ollama response body.
#[verifier::external_body]
fn extract_ollama_content(body: &str) -> (r: Option<String>)
    ensures
        match r {
            Some(s) => ollama_content_of(body@) == Some(s@),
            None => ollama_content_of(body@) is None,
        },
{
    let parsed: serde_json::Value = serde_json::from_str(body).ok()?;
    let content = parsed.get("message")?.get("content")?;
    content.as_str().map(|s| s.to_string())
}

/// Relies on `serde_json::from_str` to read
/// `candidates[0].content.parts[0].text` out of a Google response body.
#[verifier::external_body]
fn extract_google_content(body: &str) -> (r: Option<String>)
    ensures
        match r {
            Some(s) => google_content_of(body@) == Some(s@),
            None => google_content_of(body@) is None,
        },
{
    let parsed: serde_json::Value = serde_json::from_str(body).ok()?;
    let content = parsed.get("candidates")?.get(0)?.get("content")?.get("parts")?.get(0)?.get(
        "text",
    )?;
    content.as_str().map(|s| s.to_string())
}

/// What a vendor's response body holds, by vendor.
pub open spec fn spec_content_of(provider: ApiProvider, body: Seq<char>) -> Option<Seq<char>> {
    match provider {
        ApiProvider::OpenAI => openai_content_of(body),
        ApiProvider::Custom => openai_content_of(body),
        ApiProvider::Anthropic => anthropic_content_of(body),
        ApiProvider::Ollama => ollama_content_of(body),
        ApiProvider::Google => google_content_of(body),
    }
}

/// Turns one HTTP answer into the completion text. A status outside the
/// 2xx range is a failure carrying the raw body; a 2xx body of the wrong
/// shape is a failure carrying the raw body; otherwise the extracted
/// text is returned.
pub fn response_text(provider: ApiProvider, status: u16, body: String) -> (r: Result<
    String,
    AdapterError,
>)
    ensures
        !(200 <= status < 300) ==> (r matches Err(e) && e matches AdapterError::Http {
            status: s,
            body: b,
        } && s == status && b == body),
        (200 <= status < 300) ==> match spec_content_of(provider, body@) {
            Some(c) => r matches Ok(t) && t@ == c,
            None => r matches Err(e) && e matches AdapterError::Shape { body: b } && b == body,
        },
{
    if status < 200 || status >= 300 {
        return Err(AdapterError::Http { status, body });
    }
    let extracted = match provider {
        ApiProvider::OpenAI | ApiProvider::Custom => extract_openai_content(body.as_str()),
        ApiProvider::Anthropic => extract_anthropic_content(body.as_str()),
        ApiProvider::Ollama => extract_ollama_content(body.as_str()),
        ApiProvider::Google => extract_google_content(body.as_str()),
    };
    match extracted {
        Some(t) => Ok(t),
        None => Err(AdapterError::Shape { body }),
    }
}

} // verus!
