use llm_gateway::auth::build_auth_request;
use llm_gateway::auth::effective_scope;
use llm_gateway::auth::parse_auth_response;
use llm_gateway::codec::chat_request_json;
use llm_gateway::codec::chat_response_from_json;
use llm_gateway::codec::embedded_request_json;
use llm_gateway::codec::embedded_response_from_json;
use llm_gateway::codec::message_json;
use llm_gateway::codec::message_from_json;
use llm_gateway::json::Json;
use llm_gateway::msg::ChatMessage;
use llm_gateway::msg::ChatRequest;
use llm_gateway::msg::EmbeddedRequest;
use llm_gateway::msg::FunctionCall;
use llm_gateway::msg::FunctionSpec;
use llm_gateway::msg::Tool;
use llm_gateway::msg::ToolCall;
use llm_gateway::msg::ToolChoice;
use llm_gateway::auth::AuthProvider;
use llm_gateway::auth::DeepseekAuth;
use llm_gateway::auth::GigaChatAuth;
use llm_gateway::services::GenericLLMService;
use llm_gateway::strutil::ascii_upper;
use llm_gateway::token::AuthToken;
use llm_gateway::token::TokenInterceptor;
use llm_gateway::strutil::error_payload;
use llm_gateway::strutil::escape_json;
use llm_gateway::LlmError;

/// Turns a library document into plain JSON text, via serde_json.
fn to_value(j: &Json) -> serde_json::Value {
    match j {
        Json::Null => serde_json::Value::Null,
        Json::Bool(b) => serde_json::Value::Bool(*b),
        Json::Int(i) => serde_json::Value::Number(serde_json::Number::from(*i)),
        Json::Num(s) => {
            let f: f64 = s.parse().unwrap();
            serde_json::Value::Number(serde_json::Number::from_f64(f).unwrap())
        },
        Json::Str(s) => serde_json::Value::String(s.clone()),
        Json::Arr(items) => serde_json::Value::Array(items.iter().map(to_value).collect()),
        Json::Obj(fields) => {
            let mut map = serde_json::Map::new();
            for (k, v) in fields {
                map.insert(k.clone(), to_value(v));
            }
            serde_json::Value::Object(map)
        },
    }
}

/// Turns plain JSON text back into a library document.
fn from_value(v: &serde_json::Value) -> Json {
    match v {
        serde_json::Value::Null => Json::Null,
        serde_json::Value::Bool(b) => Json::Bool(*b),
        serde_json::Value::Number(n) => {
            if let Some(i) = n.as_i64() {
                Json::Int(i)
            } else {
                Json::Num(n.to_string())
            }
        },
        serde_json::Value::String(s) => Json::Str(s.clone()),
        serde_json::Value::Array(items) => Json::Arr(items.iter().map(from_value).collect()),
        serde_json::Value::Object(map) => {
            Json::Obj(map.iter().map(|(k, v)| (k.clone(), from_value(v))).collect())
        },
    }
}

fn full_message() -> ChatMessage {
    ChatMessage {
        role: "assistant".to_string(),
        content: Some("let me check".to_string()),
        tool_calls: Some(vec![ToolCall {
            id: "call-7".to_string(),
            type_: "function".to_string(),
            function: FunctionCall {
                name: "get_current_price".to_string(),
                arguments: "{\"ticker\":\"AAPL\"}".to_string(),
            },
        }]),
        tool_call_id: Some("prev-call".to_string()),
        name: Some("tooly".to_string()),
    }
}

#[test]
fn chat_request_serializes_to_the_expected_wire_text() {
    let schema = Json::Obj(vec![("type".to_string(), Json::Str("object".to_string()))]);
    let request = ChatRequest {
        model: "giga-1".to_string(),
        messages: vec![ChatMessage {
            role: "user".to_string(),
            content: Some("hi".to_string()),
            tool_calls: None,
            tool_call_id: None,
            name: None,
        }],
        temperature: Some("0.1".to_string()),
        tools: Some(vec![Tool {
            type_: "function".to_string(),
            function: FunctionSpec {
                name: "get_current_price".to_string(),
                description: Some("quote".to_string()),
                parameters: schema,
            },
        }]),
        tool_choice: Some(ToolChoice::Auto),
    };
    let wire = to_value(&chat_request_json(&request));
    let expected: serde_json::Value = serde_json::from_str(
        "{\"model\":\"giga-1\",\
          \"messages\":[{\"role\":\"user\",\"content\":\"hi\"}],\
          \"temperature\":0.1,\
          \"tools\":[{\"type\":\"function\",\"function\":{\"name\":\"get_current_price\",\
              \"description\":\"quote\",\"parameters\":{\"type\":\"object\"}}}],\
          \"tool_choice\":\"auto\"}",
    )
    .unwrap();
    assert_eq!(wire, expected);
}

#[test]
fn populated_message_survives_the_wire_round_trip() {
    let m = full_message();
    let doc = message_json(&m);
    // Through real JSON text and back: field order and unknown-field
    // tolerance come from the text layer.
    let text = to_value(&doc).to_string();
    let back_doc = from_value(&serde_json::from_str(&text).unwrap());
    let back = message_from_json(&back_doc).unwrap();
    assert_eq!(format!("{:?}", back), format!("{:?}", m));
}

#[test]
fn empty_optionals_stay_empty_through_the_wire() {
    let m = ChatMessage {
        role: "user".to_string(),
        content: None,
        tool_calls: None,
        tool_call_id: None,
        name: None,
    };
    let doc = message_json(&m);
    let text = to_value(&doc).to_string();
    assert_eq!(text, "{\"content\":null,\"role\":\"user\"}");
    let back = message_from_json(&from_value(&serde_json::from_str(&text).unwrap())).unwrap();
    assert!(back.content.is_none());
    assert!(back.tool_calls.is_none());
}

#[test]
fn chat_response_decodes_from_wire_text_in_any_field_order() {
    let text = "{\"choices\":[{\"finish_reason\":\"stop\",\"index\":0,\
                 \"message\":{\"role\":\"assistant\",\"content\":\"hello\",\
                    \"tool_calls\":[{\"id\":\"c1\",\"type\":\"function\",\
                       \"function\":{\"name\":\"t\",\"arguments\":\"{}\"}}]}}],\
                 \"created\":1700000000,\"id\":\"resp-1\",\"model\":\"giga-1\",\
                 \"object\":\"chat.completion\",\
                 \"usage\":{\"prompt_tokens\":1,\"completion_tokens\":2,\"total_tokens\":3},\
                 \"unknown_extra\":42}";
    let doc = from_value(&serde_json::from_str(text).unwrap());
    let resp = chat_response_from_json(&doc).unwrap();
    assert_eq!(resp.id.as_deref(), Some("resp-1"));
    assert_eq!(resp.created, Some(1_700_000_000));
    assert_eq!(resp.choices.len(), 1);
    let m = resp.choices[0].message.as_ref().unwrap();
    assert_eq!(m.content.as_deref(), Some("hello"));
    assert_eq!(m.tool_calls.as_ref().unwrap()[0].id, "c1");
    assert_eq!(resp.usage.as_ref().unwrap().total_tokens, 3);
}

#[test]
fn malformed_chat_response_is_a_decode_failure() {
    let doc = from_value(&serde_json::from_str("{\"choices\":\"oops\"}").unwrap());
    match chat_response_from_json(&doc) {
        Err(LlmError::Decode(_)) => {},
        other => panic!("expected a decode failure, got {:?}", other),
    }
}

#[test]
fn embedding_request_and_response_cross_the_wire() {
    let req = EmbeddedRequest { model: "emb-1".to_string(), input: vec!["hello".to_string()] };
    let wire = to_value(&embedded_request_json(&req));
    let expected: serde_json::Value =
        serde_json::from_str("{\"model\":\"emb-1\",\"input\":[\"hello\"]}").unwrap();
    assert_eq!(wire, expected);

    let text = "{\"object\":\"list\",\"model\":\"emb-1\",\
                 \"data\":[{\"object\":\"embedding\",\"index\":0,\
                    \"embedding\":[0.25,1.5],\
                    \"usage\":{\"prompt_tokens\":4}}]}";
    let doc = from_value(&serde_json::from_str(text).unwrap());
    let resp = embedded_response_from_json(&doc).unwrap();
    assert_eq!(resp.data.len(), 1);
    assert_eq!(resp.data[0].embedding, vec!["0.25".to_string(), "1.5".to_string()]);
    assert_eq!(resp.data[0].usage.prompt_tokens, 4);
}

#[test]
fn auth_request_carries_basic_credential_and_scope() {
    let r = build_auth_request("c2VjcmV0", "GIGACHAT_API_PERS", "https://auth.example/oauth", "rq-1");
    assert_eq!(r.url, "https://auth.example/oauth");
    assert_eq!(r.headers[2].0, "Authorization");
    assert_eq!(r.headers[2].1, "Basic c2VjcmV0");
    assert_eq!(r.headers[1].1, "rq-1");
    assert_eq!(r.form[0], ("scope".to_string(), "GIGACHAT_API_PERS".to_string()));
    assert_eq!(effective_scope(None), "GIGACHAT_API_PERS");
    assert_eq!(effective_scope(Some("OTHER".to_string())), "OTHER");
}

#[test]
fn auth_response_yields_token_only_on_success_payload() {
    let good = from_value(
        &serde_json::from_str("{\"access_token\":\"tok\",\"expires_at\":1700000000000}").unwrap(),
    );
    let t = parse_auth_response(200, &good).unwrap();
    assert_eq!(t.access_token, "tok");
    assert_eq!(t.expires_at_ms, 1_700_000_000_000);

    assert!(matches!(parse_auth_response(401, &good), Err(LlmError::Auth(_))));
    let empty = from_value(
        &serde_json::from_str("{\"access_token\":\"\",\"expires_at\":5}").unwrap(),
    );
    assert!(matches!(parse_auth_response(200, &empty), Err(LlmError::Auth(_))));
    let missing = from_value(&serde_json::from_str("{\"expires_at\":5}").unwrap());
    assert!(matches!(parse_auth_response(200, &missing), Err(LlmError::Auth(_))));
}

#[test]
fn identifier_upper_casing_and_json_escaping() {
    assert_eq!(ascii_upper("GigaChat"), "GIGACHAT");
    assert_eq!(ascii_upper("deepseek-2"), "DEEPSEEK-2");
    assert_eq!(escape_json("a\"b\\c\nd"), "a\\\"b\\\\c\\nd");
    let payload = error_payload("tool \"x\" failed");
    assert_eq!(payload, "{\"error\":\"tool \\\"x\\\" failed\"}");
    // The payload is itself valid JSON.
    let v: serde_json::Value = serde_json::from_str(&payload).unwrap();
    assert_eq!(v["error"], "tool \"x\" failed");
}

#[test]
fn auth_strategies_decorate_requests_with_bearer_headers() {
    let interceptor = TokenInterceptor::new(AuthToken {
        access_token: "live-token".to_string(),
        expires_at_ms: 0,
    })
    .unwrap();
    let service = GenericLLMService::new(GigaChatAuth::new(interceptor), "https://upstream.example/api/v1");
    assert_eq!(service.chat_url(), "https://upstream.example/api/v1/chat/completions");
    assert_eq!(service.embeddings_url(), "https://upstream.example/api/v1/embeddings");
    let headers = service.request_headers();
    assert_eq!(headers.len(), 3);
    assert_eq!(headers[2], ("Authorization".to_string(), "Bearer live-token".to_string()));

    let static_auth = DeepseekAuth { api_key: "fixed-key".to_string() };
    let mut hs: Vec<(String, String)> = Vec::new();
    static_auth.with_auth(&mut hs);
    assert_eq!(hs[0].1, "Bearer fixed-key");

    let embed = service.make_embed_request("emb".to_string(), "text".to_string());
    assert_eq!(embed.input, vec!["text".to_string()]);
    let empty = llm_gateway::msg::EmbeddedResponse {
        object: "list".to_string(),
        model: "emb".to_string(),
        data: vec![],
    };
    assert!(matches!(service.decode_embedding(&empty), Err(llm_gateway::LlmError::EmptyResult)));
}

#[test]
fn price_tool_announces_its_schema() {
    let price = llm_gateway::tool::AssetPriceTool;
    assert_eq!(price.name(), "get_current_price");
    let schema = to_value(&price.parameters());
    assert_eq!(schema["type"], "object");
    assert_eq!(schema["properties"]["ticker"]["type"], "string");
    assert_eq!(schema["properties"]["currency"]["default"], "USD");
    assert_eq!(schema["required"][0], "ticker");
    let out = price.execute(&"{\"ticker\":\"AAPL\"}".to_string()).unwrap();
    let v: serde_json::Value = serde_json::from_str(&out).unwrap();
    assert_eq!(v["price"]["currency"], "USD");
}

#[test]
fn upstream_errors_name_the_status() {
    assert_eq!(llm_gateway::strutil::u16_decimal(0), "0");
    assert_eq!(llm_gateway::strutil::u16_decimal(7), "7");
    assert_eq!(llm_gateway::strutil::u16_decimal(503), "503");
    assert_eq!(llm_gateway::strutil::u16_decimal(65535), "65535");
    assert_eq!(LlmError::Upstream(500).message(), "upstream returned status 500");
}

#[test]
fn non_success_exchange_status_is_named_in_the_error() {
    let good = from_value(
        &serde_json::from_str("{\"access_token\":\"tok\",\"expires_at\":5}").unwrap(),
    );
    match parse_auth_response(401, &good) {
        Err(LlmError::Auth(detail)) => {
            assert_eq!(detail, "exchange returned status 401");
            assert!(LlmError::Auth(detail).message().contains("401"));
        },
        other => panic!("expected an auth failure, got {:?}", other),
    }
    match parse_auth_response(503, &good) {
        Err(LlmError::Auth(detail)) => assert!(detail.contains("503")),
        other => panic!("expected an auth failure, got {:?}", other),
    }
}

#[test]
fn control_characters_escape_to_valid_json() {
    assert_eq!(escape_json("\u{0}"), "\\u0000");
    assert_eq!(escape_json("a\u{1f}b"), "a\\u001fb");
    assert_eq!(escape_json("bell\u{7}"), "bell\\u0007");
    let payload = error_payload("tool died \u{1b}[31m loudly");
    let v: serde_json::Value = serde_json::from_str(&payload).unwrap();
    assert_eq!(v["error"], "tool died \u{1b}[31m loudly");
}
