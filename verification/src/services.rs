//! The conversation orchestrator and the generic provider pipeline. One
//! chat invocation seeds a fresh bounded history with the caller's
//! messages, submits it, and — when the model's first answer carries tool
//! calls — executes each resolvable call in the order the model gave them,
//! feeds the results back as `role: "tool"` messages, and returns the
//! model's follow-up content. The network sits outside; every step's
//! decision is made here.
use vstd::prelude::*;

use crate::auth::AuthProvider;
use crate::history::fifo_extend;
use crate::history::fifo_push;
use crate::history::History;
use crate::msg::clone_message;
use crate::msg::clone_opt_string;
use crate::msg::clone_tool_calls;
use crate::msg::ChatMessage;
use crate::msg::ChatMessageV;
use crate::msg::ChatRequest;
use crate::msg::ChatRequestV;
use crate::msg::ChatResponse;
use crate::msg::EmbeddedRequest;
use crate::msg::EmbeddedResponse;
use crate::msg::ServiceChatResponse;
use crate::msg::ServiceEmbeddingResponse;
use crate::msg::Tool;
use crate::msg::ToolCall;
use crate::msg::ToolCallV;
use crate::msg::ToolChoice;
use crate::msg::ToolChoiceV;
use crate::registry::find_entry;
use crate::registry::ToolEntry;
use crate::registry::ToolRegistry;
use crate::strutil::error_payload;
use crate::strutil::spec_escape;
use crate::LlmError;

verus! {

/// The bounded history's capacity: how many recent messages each chat
/// round may carry.
pub const HISTORY_SIZE: usize = 100;

/// Whether a piece of text parses as JSON.
pub uninterp spec fn json_ok(s: Seq<char>) -> bool;

/// Relies on `serde_json::from_str::<serde_json::Value>`: whether text is
/// valid JSON depends on the text alone.
#[verifier::external_body]
fn json_text_ok(s: &str) -> (r: bool)
    ensures
        r == json_ok(s@),
{
    serde_json::from_str::<serde_json::Value>(s).is_ok()
}

/// One provider pipeline: an auth strategy plus the upstream's base URL.
/// The HTTP transport and retry loop run at the process edge, against the
/// URLs, headers and bodies built here.
#[derive(Clone, Debug)]
pub struct GenericLLMService<A> {
    pub auth: A,
    pub base_url: String,
}

impl<A: AuthProvider> GenericLLMService<A> {
    /// Binds an auth strategy to one upstream.
    pub fn new(auth: A, base_url: &str) -> (r: GenericLLMService<A>)
        ensures
            r.auth == auth,
            r.base_url@ == base_url@,
    {
        GenericLLMService { auth, base_url: base_url.to_owned() }
    }

    /// Where chat requests go.
    pub fn chat_url(&self) -> (r: String)
        ensures
            r@ == self.base_url@ + "/chat/completions"@,
    {
        let mut url = self.base_url.clone();
        url.append("/chat/completions");
        url
    }

    /// Where embedding requests go.
    pub fn embeddings_url(&self) -> (r: String)
        ensures
            r@ == self.base_url@ + "/embeddings"@,
    {
        let mut url = self.base_url.clone();
        url.append("/embeddings");
        url
    }

    /// The headers of every upstream call: content negotiation plus this
    /// provider's credential.
    pub fn request_headers(&self) -> (r: Vec<(String, String)>)
        ensures
            r.deep_view() =~= seq![
                ("Accept"@, "application/json"@),
                ("Content-Type"@, "application/json"@),
                ("Authorization"@, "Bearer "@ + self.auth.bearer_spec()),
            ],
    {
        let mut headers: Vec<(String, String)> = Vec::new();
        headers.push(("Accept".to_owned(), "application/json".to_owned()));
        headers.push(("Content-Type".to_owned(), "application/json".to_owned()));
        self.auth.with_auth(&mut headers);
        headers
    }

    /// Frames one embedding call: the single input, boxed as the upstream
    /// expects it.
    pub fn make_embed_request(&self, model: String, input: String) -> (r: EmbeddedRequest)
        ensures
            r.model@ == model@,
            r.input.deep_view() =~= seq![input@],
    {
        let mut inputs: Vec<String> = Vec::new();
        inputs.push(input);
        EmbeddedRequest { model, input: inputs }
    }

    /// Reads an embedding response: the first entry's vector, or the
    /// empty-result failure when the upstream sent no entries.
    pub fn decode_embedding(&self, resp: &EmbeddedResponse) -> (r: Result<
        ServiceEmbeddingResponse,
        LlmError,
    >)
        ensures
            resp.data@.len() == 0 ==> r == Err::<ServiceEmbeddingResponse, LlmError>(
                LlmError::EmptyResult,
            ),
            resp.data@.len() > 0 ==> (r matches Ok(s) && s.content.deep_view()
                == resp.data@[0].embedding.deep_view()),
    {
        if resp.data.len() == 0 {
            return Err(LlmError::EmptyResult);
        }
        let first = &resp.data[0];
        let mut content: Vec<String> = Vec::new();
        let mut i: usize = 0;
        while i < first.embedding.len()
            invariant
                i <= first.embedding@.len(),
                content.deep_view() =~= first.embedding.deep_view().take(i as int),
            decreases first.embedding@.len() - i,
        {
            let c = first.embedding[i].clone();
            let ghost cm = c;
            let ghost pre = content;
            content.push(c);
            proof {
                crate::lemma_deep_view_push(pre, content, cm);
                assert(content.deep_view() =~= first.embedding.deep_view().take(i + 1));
            }
            i = i + 1;
        }
        proof {
            assert(content.deep_view() =~= first.embedding.deep_view());
        }
        Ok(ServiceEmbeddingResponse { content })
    }
}

impl GenericLLMService<crate::auth::GigaChatAuth> {
    /// Binds the OAuth-exchange strategy — an already-initialized token
    /// lifecycle manager — to the GigaChat upstream.
    pub fn create(interceptor: crate::token::TokenInterceptor) -> (r: GenericLLMService<
        crate::auth::GigaChatAuth,
    >)
        ensures
            r.auth.token_interceptor == interceptor,
            r.base_url@ == "https://gigachat.devices.sberbank.ru/api/v1"@,
    {
        GenericLLMService::new(
            crate::auth::GigaChatAuth::new(interceptor),
            "https://gigachat.devices.sberbank.ru/api/v1",
        )
    }
}

impl GenericLLMService<crate::auth::DeepseekAuth> {
    /// Binds the static-key strategy to the Deepseek upstream.
    pub fn create(config: &crate::config::ModelData) -> (r: GenericLLMService<
        crate::auth::DeepseekAuth,
    >)
        ensures
            r.auth.api_key@ == config.token@,
            r.base_url@ == "https://api.deepseek.com"@,
    {
        GenericLLMService::new(
            crate::auth::DeepseekAuth { api_key: config.token.clone() },
            "https://api.deepseek.com",
        )
    }
}

/// One tool call the model asked for, resolved against the registry: the
/// call's identity plus the handle of the capability to execute.
#[derive(Clone, Debug, PartialEq, Eq)]
pub struct ResolvedCall {
    pub id: String,
    pub name: String,
    pub arguments: String,
    pub handle: usize,
}

/// Mathematical image of a `ResolvedCall`.
#[verifier::ext_equal]
pub struct ResolvedCallV {
    pub id: Seq<char>,
    pub name: Seq<char>,
    pub arguments: Seq<char>,
    pub handle: usize,
}

impl DeepView for ResolvedCall {
    type V = ResolvedCallV;

    open spec fn deep_view(&self) -> ResolvedCallV {
        ResolvedCallV {
            id: self.id@,
            name: self.name@,
            arguments: self.arguments@,
            handle: self.handle,
        }
    }
}

/// The calls of one batch that resolve against the registry, in the order
/// the model gave them: a call to an unregistered name is skipped, a call
/// to a registered one keeps its identity and takes that entry's handle.
pub open spec fn spec_resolve(calls: Seq<ToolCallV>, reg: Seq<ToolEntry>) -> Seq<ResolvedCallV>
    decreases calls.len(),
{
    if calls.len() == 0 {
        Seq::<ResolvedCallV>::empty()
    } else {
        let rest = spec_resolve(calls.drop_first(), reg);
        match find_entry(reg, calls[0].function.name) {
            Some(e) => seq![
                ResolvedCallV {
                    id: calls[0].id,
                    name: calls[0].function.name,
                    arguments: calls[0].function.arguments,
                    handle: e.handle,
                },
            ] + rest,
            None => rest,
        }
    }
}

/// Every resolvable call of the batch carries valid JSON arguments.
pub open spec fn spec_args_ok(calls: Seq<ToolCallV>, reg: Seq<ToolEntry>) -> bool {
    forall|i: int|
        0 <= i < calls.len() && find_entry(reg, (#[trigger] calls[i]).function.name) is Some
            ==> json_ok(calls[i].function.arguments)
}

/// Resolving one more call appends its resolution, if any.
proof fn lemma_resolve_snoc(calls: Seq<ToolCallV>, c: ToolCallV, reg: Seq<ToolEntry>)
    ensures
        spec_resolve(calls.push(c), reg) == spec_resolve(calls, reg) + (match find_entry(
            reg,
            c.function.name,
        ) {
            Some(e) => seq![
                ResolvedCallV {
                    id: c.id,
                    name: c.function.name,
                    arguments: c.function.arguments,
                    handle: e.handle,
                },
            ],
            None => Seq::<ResolvedCallV>::empty(),
        }),
    decreases calls.len(),
{
    let t = calls.push(c);
    if calls.len() == 0 {
        reveal_with_fuel(spec_resolve, 3);
        assert(t[0] == c);
        assert(t.drop_first() =~= Seq::<ToolCallV>::empty());
        assert(t.drop_first() == calls);
        assert(spec_resolve(calls, reg) =~= Seq::<ResolvedCallV>::empty());
        match find_entry(reg, c.function.name) {
            Some(e) => {
                assert(spec_resolve(t, reg) =~= spec_resolve(calls, reg) + seq![
                    ResolvedCallV {
                        id: c.id,
                        name: c.function.name,
                        arguments: c.function.arguments,
                        handle: e.handle,
                    },
                ]);
            },
            None => {
                assert(spec_resolve(t, reg) =~= spec_resolve(calls, reg));
            },
        }
    } else {
        assert(t[0] == calls[0]);
        assert(t.drop_first() =~= calls.drop_first().push(c));
        lemma_resolve_snoc(calls.drop_first(), c, reg);
        match find_entry(reg, calls[0].function.name) {
            Some(e0) => {
                assert(spec_resolve(t, reg) =~= spec_resolve(calls, reg) + (match find_entry(
                    reg,
                    c.function.name,
                ) {
                    Some(e) => seq![
                        ResolvedCallV {
                            id: c.id,
                            name: c.function.name,
                            arguments: c.function.arguments,
                            handle: e.handle,
                        },
                    ],
                    None => Seq::<ResolvedCallV>::empty(),
                }));
            },
            None => {
            },
        }
    }
}

/// The law of a tool round's shape: the resolved batch is exactly the
/// model's calls restricted to registered names — in the model's order,
/// one resolution per registered call, none for an unregistered one —
/// each carrying its call's identity and its entry's handle. Together with
/// `build_tool_messages`, which emits exactly one `role: "tool"` message
/// per resolved call in the same order, this pins down the messages of a
/// tool round.
pub proof fn lemma_resolve_is_ordered_filter(calls: Seq<ToolCallV>, reg: Seq<ToolEntry>)
    ensures
        spec_resolve(calls, reg) == calls.filter(
            |c: ToolCallV| find_entry(reg, c.function.name) is Some,
        ).map_values(
            |c: ToolCallV|
                ResolvedCallV {
                    id: c.id,
                    name: c.function.name,
                    arguments: c.function.arguments,
                    handle: find_entry(reg, c.function.name)->0.handle,
                },
        ),
    decreases calls.len(),
{
    reveal(Seq::filter);
    if calls.len() == 0 {
        assert(calls.filter(|c: ToolCallV| find_entry(reg, c.function.name) is Some).map_values(
            |c: ToolCallV|
                ResolvedCallV {
                    id: c.id,
                    name: c.function.name,
                    arguments: c.function.arguments,
                    handle: find_entry(reg, c.function.name)->0.handle,
                },
        ) =~= Seq::<ResolvedCallV>::empty());
        assert(spec_resolve(calls, reg) =~= Seq::<ResolvedCallV>::empty());
    } else {
        let init = calls.drop_last();
        let c = calls.last();
        lemma_resolve_is_ordered_filter(init, reg);
        assert(calls =~= init.push(c));
        lemma_resolve_snoc(init, c, reg);
        let filtered = init.filter(|x: ToolCallV| find_entry(reg, x.function.name) is Some);
        match find_entry(reg, c.function.name) {
            Some(e) => {
                assert(spec_resolve(calls, reg) =~= spec_resolve(init, reg).push(
                    ResolvedCallV {
                        id: c.id,
                        name: c.function.name,
                        arguments: c.function.arguments,
                        handle: e.handle,
                    },
                ));
                assert(calls.filter(|x: ToolCallV| find_entry(reg, x.function.name) is Some)
                    == filtered.push(c));
                assert(filtered.push(c).map_values(
                    |x: ToolCallV|
                        ResolvedCallV {
                            id: x.id,
                            name: x.function.name,
                            arguments: x.function.arguments,
                            handle: find_entry(reg, x.function.name)->0.handle,
                        },
                ) =~= filtered.map_values(
                    |x: ToolCallV|
                        ResolvedCallV {
                            id: x.id,
                            name: x.function.name,
                            arguments: x.function.arguments,
                            handle: find_entry(reg, x.function.name)->0.handle,
                        },
                ).push(
                    ResolvedCallV {
                        id: c.id,
                        name: c.function.name,
                        arguments: c.function.arguments,
                        handle: e.handle,
                    },
                ));
            },
            None => {
                assert(spec_resolve(calls, reg) =~= spec_resolve(init, reg));
                assert(calls.filter(|x: ToolCallV| find_entry(reg, x.function.name) is Some)
                    == filtered);
            },
        }
    }
}

/// Resolves a batch of tool calls against the registry, in order: calls to
/// unregistered names are skipped without failing the request; a
/// registered call whose arguments are not valid JSON fails the whole
/// request with a decode error.
pub fn resolve_calls(calls: &Vec<ToolCall>, registry: &ToolRegistry) -> (r: Result<
    Vec<ResolvedCall>,
    LlmError,
>)
    ensures
        r is Ok <==> spec_args_ok(calls.deep_view(), registry@),
        r matches Ok(v) ==> v.deep_view() == spec_resolve(calls.deep_view(), registry@),
        r matches Err(e) ==> e matches LlmError::Decode(d) && d@
            == "tool arguments are not valid JSON"@,
{
    let ghost cv = calls.deep_view();
    let mut out: Vec<ResolvedCall> = Vec::new();
    let mut i: usize = 0;
    proof {
        assert(cv.take(0) =~= Seq::<ToolCallV>::empty());
        assert(out.deep_view() =~= spec_resolve(cv.take(0), registry@));
    }
    while i < calls.len()
        invariant
            cv == calls.deep_view(),
            cv.len() == calls@.len(),
            i <= calls@.len(),
            out.deep_view() == spec_resolve(cv.take(i as int), registry@),
            forall|k: int|
                0 <= k < i && find_entry(registry@, (#[trigger] cv[k]).function.name) is Some
                    ==> json_ok(cv[k].function.arguments),
        decreases calls@.len() - i,
    {
        let call = &calls[i];
        proof {
            assert(cv[i as int] == calls@[i as int].deep_view());
            assert(cv.take(i + 1) =~= cv.take(i as int).push(cv[i as int]));
            lemma_resolve_snoc(cv.take(i as int), cv[i as int], registry@);
        }
        match registry.get_tool(&call.function.name) {
            Some(entry) => {
                let ok = json_text_ok(call.function.arguments.as_str());
                if !ok {
                    return Err(LlmError::Decode("tool arguments are not valid JSON".to_owned()));
                }
                let rc = ResolvedCall {
                    id: call.id.clone(),
                    name: call.function.name.clone(),
                    arguments: call.function.arguments.clone(),
                    handle: entry.handle,
                };
                let ghost rcm = rc;
                let ghost pre = out;
                out.push(rc);
                proof {
                    crate::lemma_deep_view_push(pre, out, rcm);
                    assert(out.deep_view() =~= spec_resolve(cv.take(i + 1), registry@));
                }
            },
            None => {
                proof {
                    assert(out.deep_view() =~= spec_resolve(cv.take(i + 1), registry@));
                }
            },
        }
        i = i + 1;
    }
    proof {
        assert(cv.take(cv.len() as int) =~= cv);
    }
    Ok(out)
}

/// Packages each executed call's outcome as one `role: "tool"` message,
/// in the order the calls were resolved: the result payload when the tool
/// ran, or a JSON object carrying the error when it failed — a failing
/// tool degrades the conversation, it never aborts it.
pub fn build_tool_messages(resolved: &Vec<ResolvedCall>, outcomes: &Vec<Result<String, String>>)
    -> (r: Vec<ChatMessage>)
    requires
        resolved@.len() == outcomes@.len(),
    ensures
        r.deep_view().len() == resolved@.len(),
        forall|i: int|
            0 <= i < resolved@.len() ==> (#[trigger] r.deep_view()[i]) == (ChatMessageV {
                role: "tool"@,
                content: Some(
                    match outcomes@[i] {
                        Ok(s) => s@,
                        Err(e) => "{\"error\":\""@ + spec_escape(e@) + "\"}"@,
                    },
                ),
                tool_calls: None,
                tool_call_id: Some(resolved@[i].id@),
                name: Some(resolved@[i].name@),
            }),
{
    let mut out: Vec<ChatMessage> = Vec::new();
    let mut i: usize = 0;
    while i < resolved.len()
        invariant
            resolved@.len() == outcomes@.len(),
            i <= resolved@.len(),
            out.deep_view().len() == i,
            forall|k: int|
                0 <= k < i ==> (#[trigger] out.deep_view()[k]) == (ChatMessageV {
                    role: "tool"@,
                    content: Some(
                        match outcomes@[k] {
                            Ok(s) => s@,
                            Err(e) => "{\"error\":\""@ + spec_escape(e@) + "\"}"@,
                        },
                    ),
                    tool_calls: None,
                    tool_call_id: Some(resolved@[k].id@),
                    name: Some(resolved@[k].name@),
                }),
        decreases resolved@.len() - i,
    {
        let content: String = match &outcomes[i] {
            Ok(s) => s.clone(),
            Err(e) => error_payload(e.as_str()),
        };
        let m = ChatMessage {
            role: "tool".to_owned(),
            content: Some(content),
            tool_calls: None,
            tool_call_id: Some(resolved[i].id.clone()),
            name: Some(resolved[i].name.clone()),
        };
        let ghost mm = m;
        let ghost pre = out;
        out.push(m);
        proof {
            crate::lemma_deep_view_push(pre, out, mm);
        }
        i = i + 1;
    }
    out
}

/// What the orchestrator asks of its driver after one model response:
/// execute a batch of tool calls, or hand the finished outcome back.
#[derive(Debug)]
pub enum ChatStep {
    /// The model requested these tool calls; execute them in order.
    ToolRound(Vec<ToolCall>),
    /// The conversation is over, successfully or not.
    Done(Result<ServiceChatResponse, LlmError>),
}

/// One chat invocation's state: the bounded history, the request
/// parameters it was started with, and how many model rounds have been
/// absorbed. Tool calls are acted on only in the model's first answer;
/// the answer after the tool round ends the conversation.
#[derive(Debug)]
pub struct ChatFlow {
    history: History,
    model: String,
    temperature: String,
    rounds: u32,
}

impl ChatFlow {
    /// The history's image.
    pub closed spec fn hist(&self) -> Seq<ChatMessageV> {
        self.history@
    }

    /// The model identifier this invocation targets.
    pub closed spec fn model_spec(&self) -> Seq<char> {
        self.model@
    }

    /// The sampling temperature lexeme of this invocation.
    pub closed spec fn temperature_spec(&self) -> Seq<char> {
        self.temperature@
    }

    /// How many model responses have been absorbed.
    pub closed spec fn rounds_spec(&self) -> u32 {
        self.rounds
    }

    /// The history is a well-formed window of the configured capacity.
    pub closed spec fn wf(&self) -> bool {
        &&& self.history.wf()
        &&& self.history.cap() == HISTORY_SIZE
    }

    /// Builds the upstream request for whatever the history now holds.
    fn make_request(&self, tools: Option<Vec<Tool>>) -> (r: ChatRequest)
        ensures
            r.deep_view() == (ChatRequestV {
                model: self.model_spec(),
                messages: self.hist(),
                temperature: Some(self.temperature_spec()),
                tools: tools.deep_view(),
                tool_choice: Some(ToolChoiceV::Auto),
            }),
    {
        let r = ChatRequest {
            model: self.model.clone(),
            messages: self.history.to_vec(),
            temperature: Some(self.temperature.clone()),
            tools,
            tool_choice: Some(ToolChoice::Auto),
        };
        proof {
            assert(r.deep_view() =~~= (ChatRequestV {
                model: self.model_spec(),
                messages: self.hist(),
                temperature: Some(self.temperature_spec()),
                tools: r.tools.deep_view(),
                tool_choice: Some(ToolChoiceV::Auto),
            }));
        }
        r
    }

    /// Opens a chat invocation: seeds a fresh bounded history with the
    /// caller's messages and frames the first upstream request — the full
    /// window, the temperature, the registered tool specs (`None` when no
    /// tool is registered), and `tool_choice: auto`.
    pub fn start(
        model: String,
        temperature: String,
        messages: &Vec<ChatMessage>,
        tools: Option<Vec<Tool>>,
    ) -> (r: (ChatFlow, ChatRequest))
        ensures
            r.0.wf(),
            r.0.rounds_spec() == 0,
            r.0.model_spec() == model@,
            r.0.temperature_spec() == temperature@,
            r.0.hist() == fifo_extend(
                Seq::<ChatMessageV>::empty(),
                messages.deep_view(),
                HISTORY_SIZE as int,
            ),
            r.1.deep_view() == (ChatRequestV {
                model: model@,
                messages: r.0.hist(),
                temperature: Some(temperature@),
                tools: tools.deep_view(),
                tool_choice: Some(ToolChoiceV::Auto),
            }),
    {
        let mut history = History::with_capacity(HISTORY_SIZE);
        history.extend(messages);
        let flow = ChatFlow { history, model, temperature, rounds: 0 };
        let ghost tv = tools.deep_view();
        let req = flow.make_request(tools);
        (flow, req)
    }

    /// Absorbs one model response. The first choice's message enters the
    /// history; in the first round a message carrying tool calls opens a
    /// tool round; otherwise the conversation finishes with that message's
    /// content — or with the no-message failure when the response has no
    /// usable message.
    pub fn on_response(&mut self, resp: &ChatResponse) -> (step: ChatStep)
        requires
            old(self).wf(),
        ensures
            final(self).wf(),
            final(self).model_spec() == old(self).model_spec(),
            final(self).temperature_spec() == old(self).temperature_spec(),
            (resp.choices@.len() > 0 && resp.choices@[0].message is Some) ==> final(self).hist()
                == fifo_push(
                old(self).hist(),
                HISTORY_SIZE as int,
                resp.choices@[0].message->0.deep_view(),
            ),
            (resp.choices@.len() == 0 || resp.choices@[0].message is None) ==> ({
                &&& final(self).hist() == old(self).hist()
                &&& step matches ChatStep::Done(d)
                &&& d == Err::<ServiceChatResponse, LlmError>(LlmError::NoMessage)
            }),
            ({
                &&& resp.choices@.len() > 0
                &&& resp.choices@[0].message matches Some(m)
                &&& old(self).rounds_spec() == 0
                &&& m.tool_calls is Some
            }) ==> ({
                &&& step matches ChatStep::ToolRound(calls)
                &&& calls.deep_view() == resp.choices@[0].message->0.tool_calls->0.deep_view()
                &&& final(self).rounds_spec() == 1
            }),
            ({
                &&& resp.choices@.len() > 0
                &&& resp.choices@[0].message matches Some(m)
                &&& (old(self).rounds_spec() != 0 || m.tool_calls is None)
            }) ==> ({
                &&& step matches ChatStep::Done(d)
                &&& d matches Ok(s)
                &&& s.content.deep_view() == resp.choices@[0].message->0.content.deep_view()
            }),
    {
        if resp.choices.len() == 0 {
            return ChatStep::Done(Err(LlmError::NoMessage));
        }
        let alt = &resp.choices[0];
        match &alt.message {
            None => ChatStep::Done(Err(LlmError::NoMessage)),
            Some(msg) => {
                proof {
                    assert(resp.choices@[0].message->0 == *msg);
                }
                self.history.enqueue(clone_message(msg));
                if self.rounds == 0 {
                    match &msg.tool_calls {
                        Some(calls) => {
                            self.rounds = 1;
                            return ChatStep::ToolRound(clone_tool_calls(calls));
                        },
                        None => {},
                    }
                }
                ChatStep::Done(
                    Ok(ServiceChatResponse { content: clone_opt_string(&msg.content) }),
                )
            },
        }
    }

    /// Feeds a finished tool round back: the tool messages join the
    /// history in order, and the follow-up request carries the grown
    /// window under the same parameters.
    pub fn follow_up(&mut self, tool_messages: &Vec<ChatMessage>, tools: Option<Vec<Tool>>) -> (r:
        ChatRequest)
        requires
            old(self).wf(),
        ensures
            final(self).wf(),
            final(self).model_spec() == old(self).model_spec(),
            final(self).temperature_spec() == old(self).temperature_spec(),
            final(self).rounds_spec() == old(self).rounds_spec(),
            final(self).hist() == fifo_extend(
                old(self).hist(),
                tool_messages.deep_view(),
                HISTORY_SIZE as int,
            ),
            r.deep_view() == (ChatRequestV {
                model: old(self).model_spec(),
                messages: final(self).hist(),
                temperature: Some(old(self).temperature_spec()),
                tools: tools.deep_view(),
                tool_choice: Some(ToolChoiceV::Auto),
            }),
    {
        self.history.extend(tool_messages);
        self.make_request(tools)
    }

    /// Ends the invocation: the history is cleared — conversation context
    /// does not outlive one client request.
    pub fn finish(&mut self)
        requires
            old(self).wf(),
        ensures
            final(self).wf(),
            final(self).hist() == Seq::<ChatMessageV>::empty(),
    {
        self.history.clear();
    }
}

} // verus!
