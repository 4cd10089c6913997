use llm_gateway::config::Model;
use llm_gateway::config::ModelData;
use llm_gateway::config::initial_models;
use llm_gateway::history::History;
use llm_gateway::msg::Alternative;
use llm_gateway::msg::ChatMessage;
use llm_gateway::msg::ChatResponse;
use llm_gateway::msg::FunctionCall;
use llm_gateway::msg::ToolCall;
use llm_gateway::msg::default_temperature;
use llm_gateway::provider::LlmProvider;
use llm_gateway::registry::ToolRegistry;
use llm_gateway::retry::RetryDecision;
use llm_gateway::retry::RetrySession;
use llm_gateway::retry::UpstreamEvent;
use llm_gateway::services::ChatFlow;
use llm_gateway::services::ChatStep;
use llm_gateway::services::build_tool_messages;
use llm_gateway::services::resolve_calls;
use llm_gateway::token::AuthToken;
use llm_gateway::token::TokenInterceptor;
use llm_gateway::tool::AssetPriceTool;
use llm_gateway::LlmError;

fn msg(role: &str, content: &str) -> ChatMessage {
    ChatMessage {
        role: role.to_string(),
        content: Some(content.to_string()),
        tool_calls: None,
        tool_call_id: None,
        name: None,
    }
}

fn response_with(message: Option<ChatMessage>) -> ChatResponse {
    ChatResponse {
        id: Some("r1".to_string()),
        object: None,
        created: Some(1),
        model: Some("m".to_string()),
        choices: vec![Alternative {
            index: 0,
            message,
            finish_reason: "stop".to_string(),
            delta: None,
        }],
        usage: None,
    }
}

fn tool_call(id: &str, name: &str, arguments: &str) -> ToolCall {
    ToolCall {
        id: id.to_string(),
        type_: "function".to_string(),
        function: FunctionCall { name: name.to_string(), arguments: arguments.to_string() },
    }
}

#[test]
fn token_from_valid_exchange_is_readable_and_non_empty() {
    let t = AuthToken { access_token: "tok-1".to_string(), expires_at_ms: 2_000 };
    let m = TokenInterceptor::new(t).unwrap();
    let got = m.get_token();
    assert!(!got.is_empty());
    assert_eq!(got, "tok-1");
}

#[test]
fn empty_exchange_token_is_refused() {
    let t = AuthToken { access_token: String::new(), expires_at_ms: 2_000 };
    assert!(TokenInterceptor::new(t).is_err());
}

#[test]
fn refresh_is_scheduled_at_expiry() {
    let t = AuthToken { access_token: "tok".to_string(), expires_at_ms: 10_000 };
    let m = TokenInterceptor::new(t).unwrap();
    assert_eq!(m.initial_refresh_delay_ms(4_000), 6_000);
}

#[test]
fn invalid_clock_delta_falls_back_to_one_minute() {
    let t = AuthToken { access_token: "tok".to_string(), expires_at_ms: 1_000 };
    let m = TokenInterceptor::new(t).unwrap();
    assert_eq!(m.initial_refresh_delay_ms(5_000), 60_000);
}

#[test]
fn failed_refresh_keeps_token_and_retries_in_five_seconds() {
    let t = AuthToken { access_token: "still-good".to_string(), expires_at_ms: 1_000 };
    let mut m = TokenInterceptor::new(t).unwrap();
    let delay = m.on_refresh_failure();
    assert_eq!(delay, 5_000);
    assert_eq!(m.get_token(), "still-good");
}

#[test]
fn successful_refresh_replaces_token() {
    let t = AuthToken { access_token: "old".to_string(), expires_at_ms: 1_000 };
    let mut m = TokenInterceptor::new(t).unwrap();
    let fresh = AuthToken { access_token: "new".to_string(), expires_at_ms: 9_000 };
    let delay = m.on_refresh_success(fresh, 4_000);
    assert_eq!(delay, 5_000);
    assert_eq!(m.get_token(), "new");
}

#[test]
fn history_never_exceeds_capacity_and_evicts_oldest_first() {
    let mut h = History::with_capacity(3);
    for i in 0..5 {
        h.enqueue(msg("user", &format!("m{}", i)));
        assert!(h.len() <= 3);
    }
    let kept = h.to_vec();
    assert_eq!(kept.len(), 3);
    assert_eq!(kept[0].content.as_deref(), Some("m2"));
    assert_eq!(kept[1].content.as_deref(), Some("m3"));
    assert_eq!(kept[2].content.as_deref(), Some("m4"));
}

#[test]
fn history_extend_evicts_in_batch_order() {
    let mut h = History::with_capacity(2);
    let batch = vec![msg("a", "1"), msg("b", "2"), msg("c", "3")];
    h.extend(&batch);
    let kept = h.to_vec();
    assert_eq!(kept.len(), 2);
    assert_eq!(kept[0].role, "b");
    assert_eq!(kept[1].role, "c");
    h.clear();
    assert_eq!(h.len(), 0);
}

#[test]
fn registry_rescan_skips_malformed_module_but_registers_the_rest() {
    let price = AssetPriceTool;
    let results = vec![
        Ok(price.entry(0)),
        Err("module without entry point".to_string()),
        Ok(llm_gateway::registry::ToolEntry {
            name: "other_tool".to_string(),
            description: "another capability".to_string(),
            parameters: llm_gateway::json::Json::Null,
            handle: 2,
        }),
    ];
    let reg = ToolRegistry::rescan(results);
    assert!(reg.get_tool(&"get_current_price".to_string()).is_some());
    assert!(reg.get_tool(&"other_tool".to_string()).is_some());
    assert!(reg.get_tool(&"missing".to_string()).is_none());
    let specs = reg.tools_specs();
    assert_eq!(specs.len(), 2);
    assert_eq!(specs[0].type_, "function");
}

#[test]
fn provider_directory_routes_case_insensitively() {
    let mut dir = LlmProvider::new();
    let h = dir.register("gigachat");
    assert_eq!(dir.resolve("GigaChat").unwrap(), h);
    assert_eq!(dir.resolve("gigachat").unwrap(), h);
    let h2 = dir.register("gigachat");
    assert_eq!(h2, h);
}

#[test]
fn unregistered_provider_fails_with_its_name_in_the_message() {
    let dir = LlmProvider::new();
    let err = dir.resolve("GigaChat").unwrap_err();
    match &err {
        LlmError::ProviderNotFound(name) => assert_eq!(name, "GIGACHAT"),
        other => panic!("unexpected error: {:?}", other),
    }
    let body = err.message();
    assert!(body.contains("GIGACHAT"));
}

#[test]
fn retry_budget_exhausts_on_repeated_server_errors() {
    let mut session = RetrySession::new();
    for _ in 0..100 {
        assert_eq!(session.observe(UpstreamEvent::Status(500)), RetryDecision::Retry);
    }
    let last = session.observe(UpstreamEvent::Status(500));
    assert_eq!(last, RetryDecision::GiveUp(LlmError::Transport));
}

#[test]
fn client_errors_are_never_retried() {
    let mut session = RetrySession::new();
    assert_eq!(
        session.observe(UpstreamEvent::Status(404)),
        RetryDecision::GiveUp(LlmError::Upstream(404))
    );
    assert_eq!(session.observe(UpstreamEvent::Status(200)), RetryDecision::Accept);
    assert_eq!(session.observe(UpstreamEvent::TransportFailure), RetryDecision::Retry);
}

#[test]
fn chat_with_registered_tool_round_trips_the_tool_result() {
    // The registry holds the reference price tool.
    let price = AssetPriceTool;
    let reg = ToolRegistry::rescan(vec![Ok(price.entry(0))]);
    let tools = Some(reg.tools_specs());

    let (mut flow, first_request) =
        ChatFlow::start("model-x".to_string(), default_temperature(), &vec![msg("user", "price of AAPL?")], tools);
    assert_eq!(first_request.messages.len(), 1);
    assert_eq!(first_request.temperature.as_deref(), Some("0.1"));

    // The model answers with one tool call.
    let mut assistant = msg("assistant", "");
    assistant.content = None;
    assistant.tool_calls =
        Some(vec![tool_call("call-1", "get_current_price", "{\"ticker\":\"AAPL\"}")]);
    let step = flow.on_response(&response_with(Some(assistant)));
    let calls = match step {
        ChatStep::ToolRound(calls) => calls,
        other => panic!("expected a tool round, got {:?}", other),
    };
    assert_eq!(calls.len(), 1);

    let resolved = resolve_calls(&calls, &reg).unwrap();
    assert_eq!(resolved.len(), 1);
    assert_eq!(resolved[0].name, "get_current_price");
    assert_eq!(resolved[0].handle, 0);

    // Execute and feed the result back.
    let outcome = price.execute(&resolved[0].arguments);
    let messages = build_tool_messages(&resolved, &vec![outcome]);
    assert_eq!(messages.len(), 1);
    assert_eq!(messages[0].role, "tool");
    assert_eq!(
        messages[0].content.as_deref(),
        Some("{\"price\":{\"value\":123.45,\"currency\":\"USD\"}}")
    );
    assert_eq!(messages[0].tool_call_id.as_deref(), Some("call-1"));
    assert_eq!(messages[0].name.as_deref(), Some("get_current_price"));

    let follow_up = flow.follow_up(&messages, None);
    // history: user message, assistant tool-call message, tool result.
    assert_eq!(follow_up.messages.len(), 3);

    let step = flow.on_response(&response_with(Some(msg("assistant", "AAPL is 123.45 USD"))));
    match step {
        ChatStep::Done(Ok(out)) => assert_eq!(out.content.as_deref(), Some("AAPL is 123.45 USD")),
        other => panic!("expected a finished chat, got {:?}", other),
    }
    flow.finish();
}

#[test]
fn unresolved_tool_calls_are_skipped_without_messages() {
    let reg = ToolRegistry::new();
    let calls = vec![tool_call("c1", "nonexistent_tool", "{}")];
    let resolved = resolve_calls(&calls, &reg).unwrap();
    assert!(resolved.is_empty());
    let messages = build_tool_messages(&resolved, &vec![]);
    assert!(messages.is_empty());
}

#[test]
fn resolved_and_unresolved_calls_keep_model_order() {
    let price = AssetPriceTool;
    let mut reg_entries = vec![Ok(price.entry(0))];
    reg_entries.push(Ok(llm_gateway::registry::ToolEntry {
        name: "second_tool".to_string(),
        description: "d".to_string(),
        parameters: llm_gateway::json::Json::Null,
        handle: 1,
    }));
    let reg = ToolRegistry::rescan(reg_entries);
    let calls = vec![
        tool_call("c1", "get_current_price", "{}"),
        tool_call("c2", "missing_tool", "{}"),
        tool_call("c3", "second_tool", "{}"),
    ];
    let resolved = resolve_calls(&calls, &reg).unwrap();
    assert_eq!(resolved.len(), 2);
    assert_eq!(resolved[0].id, "c1");
    assert_eq!(resolved[1].id, "c3");
    // One message per resolved call, in order; a failing tool degrades into
    // an error payload instead of aborting.
    let outcomes = vec![Ok("{\"v\":1}".to_string()), Err("boom \"x\"".to_string())];
    let messages = build_tool_messages(&resolved, &outcomes);
    assert_eq!(messages.len(), 2);
    assert_eq!(messages[0].content.as_deref(), Some("{\"v\":1}"));
    assert_eq!(messages[1].content.as_deref(), Some("{\"error\":\"boom \\\"x\\\"\"}"));
    assert_eq!(messages[1].tool_call_id.as_deref(), Some("c3"));
}

#[test]
fn invalid_tool_arguments_fail_the_request() {
    let price = AssetPriceTool;
    let reg = ToolRegistry::rescan(vec![Ok(price.entry(0))]);
    let calls = vec![tool_call("c1", "get_current_price", "{not json")];
    match resolve_calls(&calls, &reg) {
        Err(LlmError::Decode(_)) => {},
        other => panic!("expected a decode failure, got {:?}", other),
    }
    // Valid JSON arguments pass.
    let ok_calls = vec![tool_call("c1", "get_current_price", "{\"ticker\":\"AAPL\"}")];
    assert!(resolve_calls(&ok_calls, &reg).is_ok());
}

#[test]
fn response_without_usable_message_fails_with_no_message() {
    let (mut flow, _req) =
        ChatFlow::start("m".to_string(), "0.1".to_string(), &vec![msg("user", "hi")], None);
    let step = flow.on_response(&response_with(None));
    match step {
        ChatStep::Done(Err(LlmError::NoMessage)) => {},
        other => panic!("expected the no-message failure, got {:?}", other),
    }
    let empty = ChatResponse {
        id: None,
        object: None,
        created: None,
        model: None,
        choices: vec![],
        usage: None,
    };
    match flow.on_response(&empty) {
        ChatStep::Done(Err(LlmError::NoMessage)) => {},
        other => panic!("expected the no-message failure, got {:?}", other),
    }
}

#[test]
fn configured_models_register_and_bare_ones_do_not() {
    let mut models = initial_models();
    assert_eq!(models[0].to_string(), "gigachat");
    assert_eq!(models[1].to_string(), "deepseek");
    assert!(!models[0].configured());
    models[0].set_data(ModelData { token: "example-key".to_string(), scope: None });
    assert!(models[0].configured());
    match &models[0] {
        Model::GigaChat(Some(_)) => {},
        other => panic!("unexpected model state: {:?}", other),
    }
}

#[test]
fn error_messages_describe_each_failure() {
    assert_eq!(LlmError::Transport.message(), "transport error: retries exhausted");
    assert_eq!(LlmError::NoMessage.message(), "No valid message in response");
    assert_eq!(LlmError::EmptyResult.message(), "empty embedding result");
    assert_eq!(LlmError::Auth("boom".to_string()).message(), "auth failed: boom");
    assert_eq!(
        LlmError::Decode("bad".to_string()).message(),
        "malformed response: bad"
    );
}

#[test]
fn request_tools_are_omitted_exactly_when_none_is_registered() {
    let empty = ToolRegistry::new();
    assert!(empty.tools_for_request().is_none());
    let price = AssetPriceTool;
    let reg = ToolRegistry::rescan(vec![Ok(price.entry(0))]);
    let tools = reg.tools_for_request().unwrap();
    assert_eq!(tools.len(), 1);
    assert_eq!(tools[0].function.name, "get_current_price");
}
