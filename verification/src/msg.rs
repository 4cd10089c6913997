//! The normalized wire data model shared by every provider: chat messages,
//! tool calls, chat/embedding requests and responses, and the gateway's own
//! client-facing request/response shapes.
//!
//! Temperatures and embedding coordinates travel as raw decimal lexemes
//! (`String`); the gateway never computes with them, it only moves them
//! between the client and the upstream wire.
use vstd::prelude::*;

verus! {

/// The function a model asked to run: a name plus opaque JSON-text arguments.
#[derive(Clone, Debug, PartialEq, Eq)]
pub struct FunctionCall {
    pub name: String,
    pub arguments: String,
}

/// One tool invocation requested by the model inside a response.
#[derive(Clone, Debug, PartialEq, Eq)]
pub struct ToolCall {
    pub id: String,
    pub type_: String,
    pub function: FunctionCall,
}

/// One conversation turn. `role` is "system", "user", "assistant" or "tool";
/// a tool-result message carries the originating call id and tool name.
#[derive(Clone, Debug, PartialEq, Eq)]
pub struct ChatMessage {
    pub role: String,
    pub content: Option<String>,
    pub tool_calls: Option<Vec<ToolCall>>,
    pub tool_call_id: Option<String>,
    pub name: Option<String>,
}

/// Names one specific function the model is directed to call.
#[derive(Clone, Debug, PartialEq, Eq)]
pub struct FunctionToolChoice {
    pub name: String,
}

/// How the model may use tools. Outgoing requests always send `Auto`.
#[derive(Clone, Debug, PartialEq, Eq)]
pub enum ToolChoice {
    Auto,
    Forbidden,
    SpecificTool { type_: String, function: FunctionToolChoice },
}

/// The JSON-schema description of one tool, attached to outgoing requests
/// so the model knows what it may call.
#[derive(Debug)]
pub struct FunctionSpec {
    pub name: String,
    pub description: Option<String>,
    pub parameters: crate::json::Json,
}

/// A tool entry on the wire: always of type "function".
#[derive(Debug)]
pub struct Tool {
    pub type_: String,
    pub function: FunctionSpec,
}

/// The upstream chat request: model, message window, optional temperature
/// (a raw decimal lexeme), the registered tool specs, and the tool policy.
#[derive(Debug)]
pub struct ChatRequest {
    pub model: String,
    pub messages: Vec<ChatMessage>,
    pub temperature: Option<String>,
    pub tools: Option<Vec<Tool>>,
    pub tool_choice: Option<ToolChoice>,
}

/// Token accounting reported by the upstream.
#[derive(Clone, Copy, Debug, PartialEq, Eq)]
pub struct Usage {
    pub prompt_tokens: i32,
    pub completion_tokens: i32,
    pub total_tokens: i32,
}

/// A streaming fragment of a choice; present only in streamed responses.
#[derive(Clone, Debug, PartialEq, Eq)]
pub struct DeltaMessage {
    pub role: Option<String>,
    pub content: Option<String>,
    pub tool_calls: Option<Vec<ToolCall>>,
}

/// One alternative completion returned by the upstream.
#[derive(Clone, Debug, PartialEq, Eq)]
pub struct Alternative {
    pub index: i32,
    pub message: Option<ChatMessage>,
    pub finish_reason: String,
    pub delta: Option<DeltaMessage>,
}

/// The upstream chat response.
#[derive(Clone, Debug, PartialEq, Eq)]
pub struct ChatResponse {
    pub id: Option<String>,
    pub object: Option<String>,
    pub created: Option<i64>,
    pub model: Option<String>,
    pub choices: Vec<Alternative>,
    pub usage: Option<Usage>,
}

/// The upstream embedding request.
#[derive(Clone, Debug, PartialEq, Eq)]
pub struct EmbeddedRequest {
    pub model: String,
    pub input: Vec<String>,
}

/// Token accounting of one embedding entry.
#[derive(Clone, Copy, Debug, PartialEq, Eq)]
pub struct EmbeddedUsage {
    pub prompt_tokens: u32,
}

/// One embedding entry; coordinates are raw decimal lexemes.
#[derive(Clone, Debug, PartialEq, Eq)]
pub struct EmbeddedData {
    pub object: String,
    pub index: u32,
    pub embedding: Vec<String>,
    pub usage: EmbeddedUsage,
}

/// The upstream embedding response.
#[derive(Clone, Debug, PartialEq, Eq)]
pub struct EmbeddedResponse {
    pub object: String,
    pub model: String,
    pub data: Vec<EmbeddedData>,
}

/// An inbound client chat request, routed by `provider`.
#[derive(Clone, Debug, PartialEq, Eq)]
pub struct ServiceChatRequest {
    pub provider: String,
    pub model: String,
    pub messages: Vec<ChatMessage>,
    pub temperature: String,
}

/// An inbound client embedding request.
#[derive(Clone, Debug, PartialEq, Eq)]
pub struct ServiceEmbeddingRequest {
    pub provider: String,
    pub model: String,
    pub input: String,
}

/// The gateway's answer to a chat request: the final assistant content.
#[derive(Clone, Debug, PartialEq, Eq)]
pub struct ServiceChatResponse {
    pub content: Option<String>,
}

/// The gateway's answer to an embedding request: one vector of raw
/// decimal lexemes.
#[derive(Clone, Debug, PartialEq, Eq)]
pub struct ServiceEmbeddingResponse {
    pub content: Vec<String>,
}

/// The temperature used when a client request does not name one.
pub fn default_temperature() -> (r: String)
    ensures
        r@ == "0.1"@,
{
    "0.1".to_owned()
}

/// Mathematical image of a `FunctionCall`.
#[verifier::ext_equal]
pub struct FunctionCallV {
    pub name: Seq<char>,
    pub arguments: Seq<char>,
}

impl DeepView for FunctionCall {
    type V = FunctionCallV;

    open spec fn deep_view(&self) -> FunctionCallV {
        FunctionCallV { name: self.name@, arguments: self.arguments@ }
    }
}

/// Mathematical image of a `ToolCall`.
#[verifier::ext_equal]
pub struct ToolCallV {
    pub id: Seq<char>,
    pub type_: Seq<char>,
    pub function: FunctionCallV,
}

impl DeepView for ToolCall {
    type V = ToolCallV;

    open spec fn deep_view(&self) -> ToolCallV {
        ToolCallV {
            id: self.id@,
            type_: self.type_@,
            function: self.function.deep_view(),
        }
    }
}

/// Mathematical image of a `ChatMessage`.
#[verifier::ext_equal]
pub struct ChatMessageV {
    pub role: Seq<char>,
    pub content: Option<Seq<char>>,
    pub tool_calls: Option<Seq<ToolCallV>>,
    pub tool_call_id: Option<Seq<char>>,
    pub name: Option<Seq<char>>,
}

impl DeepView for ChatMessage {
    type V = ChatMessageV;

    open spec fn deep_view(&self) -> ChatMessageV {
        ChatMessageV {
            role: self.role@,
            content: self.content.deep_view(),
            tool_calls: self.tool_calls.deep_view(),
            tool_call_id: self.tool_call_id.deep_view(),
            name: self.name.deep_view(),
        }
    }
}

/// Copies an optional string; the image is unchanged.
pub fn clone_opt_string(o: &Option<String>) -> (r: Option<String>)
    ensures
        r.deep_view() == o.deep_view(),
{
    match o {
        Option::Some(s) => Option::Some(s.clone()),
        Option::None => Option::None,
    }
}

/// Copies a function call; the image is unchanged.
pub fn clone_function_call(f: &FunctionCall) -> (r: FunctionCall)
    ensures
        r.deep_view() == f.deep_view(),
{
    FunctionCall { name: f.name.clone(), arguments: f.arguments.clone() }
}

/// Copies a tool call; the image is unchanged.
pub fn clone_tool_call(t: &ToolCall) -> (r: ToolCall)
    ensures
        r.deep_view() == t.deep_view(),
{
    ToolCall { id: t.id.clone(), type_: t.type_.clone(), function: clone_function_call(&t.function) }
}

/// Copies a list of tool calls; the image is unchanged.
pub fn clone_tool_calls(v: &Vec<ToolCall>) -> (r: Vec<ToolCall>)
    ensures
        r.deep_view() == v.deep_view(),
{
    let mut out: Vec<ToolCall> = Vec::new();
    let mut i: usize = 0;
    while i < v.len()
        invariant
            i <= v@.len(),
            out.deep_view() =~= v.deep_view().take(i as int),
        decreases v@.len() - i,
    {
        let c = clone_tool_call(&v[i]);
        let ghost cm = c;
        let ghost pre = out;
        out.push(c);
        proof {
            crate::lemma_deep_view_push(pre, out, cm);
            assert(out.deep_view() =~= v.deep_view().take(i + 1));
        }
        i = i + 1;
    }
    proof {
        assert(out.deep_view() =~= v.deep_view());
    }
    out
}

/// Copies one conversation turn; the image is unchanged.
pub fn clone_message(m: &ChatMessage) -> (r: ChatMessage)
    ensures
        r.deep_view() == m.deep_view(),
{
    let tool_calls = match &m.tool_calls {
        Option::Some(v) => Option::Some(clone_tool_calls(v)),
        Option::None => Option::None,
    };
    ChatMessage {
        role: m.role.clone(),
        content: clone_opt_string(&m.content),
        tool_calls,
        tool_call_id: clone_opt_string(&m.tool_call_id),
        name: clone_opt_string(&m.name),
    }
}

/// Mathematical image of a `FunctionToolChoice`.
#[verifier::ext_equal]
pub struct FunctionToolChoiceV {
    pub name: Seq<char>,
}

impl DeepView for FunctionToolChoice {
    type V = FunctionToolChoiceV;

    open spec fn deep_view(&self) -> FunctionToolChoiceV {
        FunctionToolChoiceV { name: self.name@ }
    }
}

/// Mathematical image of a `ToolChoice`.
#[verifier::ext_equal]
pub enum ToolChoiceV {
    Auto,
    Forbidden,
    SpecificTool { type_: Seq<char>, function: FunctionToolChoiceV },
}

impl DeepView for ToolChoice {
    type V = ToolChoiceV;

    open spec fn deep_view(&self) -> ToolChoiceV {
        match self {
            ToolChoice::Auto => ToolChoiceV::Auto,
            ToolChoice::Forbidden => ToolChoiceV::Forbidden,
            ToolChoice::SpecificTool { type_, function } => ToolChoiceV::SpecificTool {
                type_: type_@,
                function: function.deep_view(),
            },
        }
    }
}

/// Mathematical image of a `FunctionSpec`.
#[verifier::ext_equal]
pub struct FunctionSpecV {
    pub name: Seq<char>,
    pub description: Option<Seq<char>>,
    pub parameters: crate::json::JsonV,
}

impl DeepView for FunctionSpec {
    type V = FunctionSpecV;

    open spec fn deep_view(&self) -> FunctionSpecV {
        FunctionSpecV {
            name: self.name@,
            description: self.description.deep_view(),
            parameters: self.parameters.deep_view(),
        }
    }
}

/// Mathematical image of a `Tool`.
#[verifier::ext_equal]
pub struct ToolV {
    pub type_: Seq<char>,
    pub function: FunctionSpecV,
}

impl DeepView for Tool {
    type V = ToolV;

    open spec fn deep_view(&self) -> ToolV {
        ToolV { type_: self.type_@, function: self.function.deep_view() }
    }
}

/// Mathematical image of a `ChatRequest`.
#[verifier::ext_equal]
pub struct ChatRequestV {
    pub model: Seq<char>,
    pub messages: Seq<ChatMessageV>,
    pub temperature: Option<Seq<char>>,
    pub tools: Option<Seq<ToolV>>,
    pub tool_choice: Option<ToolChoiceV>,
}

impl DeepView for ChatRequest {
    type V = ChatRequestV;

    open spec fn deep_view(&self) -> ChatRequestV {
        ChatRequestV {
            model: self.model@,
            messages: self.messages.deep_view(),
            temperature: self.temperature.deep_view(),
            tools: self.tools.deep_view(),
            tool_choice: self.tool_choice.deep_view(),
        }
    }
}

impl DeepView for Usage {
    type V = Usage;

    open spec fn deep_view(&self) -> Usage {
        *self
    }
}

/// Mathematical image of a `DeltaMessage`.
#[verifier::ext_equal]
pub struct DeltaMessageV {
    pub role: Option<Seq<char>>,
    pub content: Option<Seq<char>>,
    pub tool_calls: Option<Seq<ToolCallV>>,
}

impl DeepView for DeltaMessage {
    type V = DeltaMessageV;

    open spec fn deep_view(&self) -> DeltaMessageV {
        DeltaMessageV {
            role: self.role.deep_view(),
            content: self.content.deep_view(),
            tool_calls: self.tool_calls.deep_view(),
        }
    }
}

/// Mathematical image of an `Alternative`.
#[verifier::ext_equal]
pub struct AlternativeV {
    pub index: i32,
    pub message: Option<ChatMessageV>,
    pub finish_reason: Seq<char>,
    pub delta: Option<DeltaMessageV>,
}

impl DeepView for Alternative {
    type V = AlternativeV;

    open spec fn deep_view(&self) -> AlternativeV {
        AlternativeV {
            index: self.index,
            message: self.message.deep_view(),
            finish_reason: self.finish_reason@,
            delta: self.delta.deep_view(),
        }
    }
}

/// Mathematical image of a `ChatResponse`.
#[verifier::ext_equal]
pub struct ChatResponseV {
    pub id: Option<Seq<char>>,
    pub object: Option<Seq<char>>,
    pub created: Option<i64>,
    pub model: Option<Seq<char>>,
    pub choices: Seq<AlternativeV>,
    pub usage: Option<Usage>,
}

impl DeepView for ChatResponse {
    type V = ChatResponseV;

    open spec fn deep_view(&self) -> ChatResponseV {
        ChatResponseV {
            id: self.id.deep_view(),
            object: self.object.deep_view(),
            created: self.created.deep_view(),
            model: self.model.deep_view(),
            choices: self.choices.deep_view(),
            usage: self.usage.deep_view(),
        }
    }
}

/// Mathematical image of an `EmbeddedRequest`.
#[verifier::ext_equal]
pub struct EmbeddedRequestV {
    pub model: Seq<char>,
    pub input: Seq<Seq<char>>,
}

impl DeepView for EmbeddedRequest {
    type V = EmbeddedRequestV;

    open spec fn deep_view(&self) -> EmbeddedRequestV {
        EmbeddedRequestV { model: self.model@, input: self.input.deep_view() }
    }
}

impl DeepView for EmbeddedUsage {
    type V = EmbeddedUsage;

    open spec fn deep_view(&self) -> EmbeddedUsage {
        *self
    }
}

/// Mathematical image of an `EmbeddedData`.
#[verifier::ext_equal]
pub struct EmbeddedDataV {
    pub object: Seq<char>,
    pub index: u32,
    pub embedding: Seq<Seq<char>>,
    pub usage: EmbeddedUsage,
}

impl DeepView for EmbeddedData {
    type V = EmbeddedDataV;

    open spec fn deep_view(&self) -> EmbeddedDataV {
        EmbeddedDataV {
            object: self.object@,
            index: self.index,
            embedding: self.embedding.deep_view(),
            usage: self.usage,
        }
    }
}

/// Mathematical image of an `EmbeddedResponse`.
#[verifier::ext_equal]
pub struct EmbeddedResponseV {
    pub object: Seq<char>,
    pub model: Seq<char>,
    pub data: Seq<EmbeddedDataV>,
}

impl DeepView for EmbeddedResponse {
    type V = EmbeddedResponseV;

    open spec fn deep_view(&self) -> EmbeddedResponseV {
        EmbeddedResponseV {
            object: self.object@,
            model: self.model@,
            data: self.data.deep_view(),
        }
    }
}

} // verus!
