//! The wire format: a total mapping of each chat type into the JSON
//! document model and back. Optional fields that the upstream treats as
//! omissible (`tool_calls`, `tool_call_id`, `name`, a request's
//! `temperature`, `tools` and `tool_choice`, a choice's `delta`) leave the
//! object when empty; the others are written as `null`. Decoding accepts
//! fields in any order and ignores unknown ones; a missing or `null`
//! optional reads back as empty, so the mapping is lossless.
use vstd::prelude::*;

use crate::json::Json;
use crate::json::JsonV;
use crate::json::lookup;
use crate::json::vlookup;
use crate::json::lemma_json_view_fields;
use crate::json::lemma_json_view_seq;
use crate::json::json_view_fields;
use crate::json::json_view_seq;
use crate::msg::FunctionCall;
use crate::msg::FunctionCallV;
use crate::msg::ToolCall;
use crate::msg::ToolCallV;
use crate::msg::ChatMessage;
use crate::msg::ChatMessageV;
use crate::msg::FunctionToolChoiceV;
use crate::msg::ToolChoiceV;
use crate::msg::FunctionSpecV;
use crate::msg::ToolV;
use crate::msg::ChatRequestV;
use crate::msg::Usage;
use crate::msg::DeltaMessageV;
use crate::msg::AlternativeV;
use crate::msg::ChatResponseV;
use crate::msg::FunctionSpec;
use crate::msg::Tool;
use crate::msg::ToolChoice;
use crate::msg::ChatRequest;
use crate::msg::DeltaMessage;
use crate::msg::Alternative;
use crate::msg::ChatResponse;
use crate::msg::EmbeddedRequest;
use crate::msg::EmbeddedRequestV;
use crate::msg::EmbeddedData;
use crate::msg::EmbeddedDataV;
use crate::msg::EmbeddedUsage;
use crate::msg::EmbeddedResponse;
use crate::msg::EmbeddedResponseV;
use crate::LlmError;

verus! {

/// A lookup walks past a segment that does not hold its key.
pub proof fn lemma_vlookup_append_miss(
    a: Seq<(Seq<char>, JsonV)>,
    b: Seq<(Seq<char>, JsonV)>,
    k: Seq<char>,
)
    requires
        forall|i: int| 0 <= i < a.len() ==> (#[trigger] a[i]).0 != k,
    ensures
        vlookup(a + b, k) == vlookup(b, k),
    decreases a.len(),
{
    if a.len() == 0 {
        assert(a + b =~= b);
    } else {
        assert((a + b)[0] == a[0]);
        assert((a + b).drop_first() =~= a.drop_first() + b);
        lemma_vlookup_append_miss(a.drop_first(), b, k);
    }
}

/// A lookup that succeeds in a segment is unchanged by what follows it.
pub proof fn lemma_vlookup_append_hit(
    a: Seq<(Seq<char>, JsonV)>,
    b: Seq<(Seq<char>, JsonV)>,
    k: Seq<char>,
)
    requires
        vlookup(a, k) is Some,
    ensures
        vlookup(a + b, k) == vlookup(a, k),
    decreases a.len(),
{
    assert((a + b)[0] == a[0]);
    assert((a + b).drop_first() =~= a.drop_first() + b);
    if a[0].0 != k {
        lemma_vlookup_append_hit(a.drop_first(), b, k);
    }
}

/// A function call on the wire: `{"name": ..., "arguments": ...}`.
pub open spec fn function_call_to_json(f: FunctionCallV) -> JsonV {
    JsonV::Obj(seq![("name"@, JsonV::Str(f.name)), ("arguments"@, JsonV::Str(f.arguments))])
}

/// Reads a function call back from a document.
pub open spec fn function_call_of_json(j: JsonV) -> Option<FunctionCallV> {
    match j {
        JsonV::Obj(fs) => match (vlookup(fs, "name"@), vlookup(fs, "arguments"@)) {
            (Some(JsonV::Str(name)), Some(JsonV::Str(arguments))) => Some(
                FunctionCallV { name, arguments },
            ),
            _ => None,
        },
        _ => None,
    }
}

/// Writing then reading a function call loses nothing.
pub proof fn lemma_function_call_roundtrip(f: FunctionCallV)
    ensures
        function_call_of_json(function_call_to_json(f)) == Some(f),
{
    reveal_strlit("name");
    reveal_strlit("arguments");
    reveal_with_fuel(vlookup, 4);
    assert("name"@ != "arguments"@) by {
        assert("name"@.len() == 4);
        assert("arguments"@.len() == 9);
    }
    let fs = seq![("name"@, JsonV::Str(f.name)), ("arguments"@, JsonV::Str(f.arguments))];
    assert(fs.drop_first() =~= seq![("arguments"@, JsonV::Str(f.arguments))]);
    assert(vlookup(fs, "name"@) == Some(JsonV::Str(f.name)));
    assert(vlookup(fs, "arguments"@) == Some(JsonV::Str(f.arguments)));
}

/// A tool call on the wire: its id, its kind, and the function asked for.
pub open spec fn tool_call_to_json(t: ToolCallV) -> JsonV {
    JsonV::Obj(
        seq![
            ("id"@, JsonV::Str(t.id)),
            ("type"@, JsonV::Str(t.type_)),
            ("function"@, function_call_to_json(t.function)),
        ],
    )
}

/// Reads a tool call back from a document.
pub open spec fn tool_call_of_json(j: JsonV) -> Option<ToolCallV> {
    match j {
        JsonV::Obj(fs) => match (vlookup(fs, "id"@), vlookup(fs, "type"@), vlookup(
            fs,
            "function"@,
        )) {
            (Some(JsonV::Str(id)), Some(JsonV::Str(type_)), Some(fj)) => match
                function_call_of_json(fj) {
                Some(function) => Some(ToolCallV { id, type_, function }),
                None => None,
            },
            _ => None,
        },
        _ => None,
    }
}

/// Writing then reading a tool call loses nothing.
pub proof fn lemma_tool_call_roundtrip(t: ToolCallV)
    ensures
        tool_call_of_json(tool_call_to_json(t)) == Some(t),
{
    reveal_strlit("id");
    reveal_strlit("type");
    reveal_strlit("function");
    reveal_strlit("name");
    reveal_strlit("arguments");
    reveal_with_fuel(vlookup, 5);
    assert("id"@ != "type"@ && "id"@ != "function"@ && "type"@ != "function"@) by {
        assert("id"@.len() == 2);
        assert("type"@.len() == 4);
        assert("function"@.len() == 8);
    }
    let fs = seq![
        ("id"@, JsonV::Str(t.id)),
        ("type"@, JsonV::Str(t.type_)),
        ("function"@, function_call_to_json(t.function)),
    ];
    assert(fs.drop_first() =~= seq![
        ("type"@, JsonV::Str(t.type_)),
        ("function"@, function_call_to_json(t.function)),
    ]);
    assert(fs.drop_first().drop_first() =~= seq![
        ("function"@, function_call_to_json(t.function)),
    ]);
    assert(vlookup(fs, "id"@) == Some(JsonV::Str(t.id)));
    assert(vlookup(fs, "type"@) == Some(JsonV::Str(t.type_)));
    assert(vlookup(fs, "function"@) == Some(function_call_to_json(t.function)));
    lemma_function_call_roundtrip(t.function);
}

/// A batch of tool calls on the wire.
pub open spec fn tool_calls_to_json(s: Seq<ToolCallV>) -> Seq<JsonV> {
    s.map_values(|t: ToolCallV| tool_call_to_json(t))
}

/// Reads a batch of tool calls back: every element must read back.
pub open spec fn tool_calls_of_json(s: Seq<JsonV>) -> Option<Seq<ToolCallV>> {
    if forall|i: int| 0 <= i < s.len() ==> (#[trigger] tool_call_of_json(s[i])) is Some {
        Some(s.map_values(|j: JsonV| tool_call_of_json(j)->0))
    } else {
        None
    }
}

/// Writing then reading a batch of tool calls loses nothing.
pub proof fn lemma_tool_calls_roundtrip(s: Seq<ToolCallV>)
    ensures
        tool_calls_of_json(tool_calls_to_json(s)) == Some(s),
{
    let w = tool_calls_to_json(s);
    assert forall|i: int| 0 <= i < w.len() implies (#[trigger] tool_call_of_json(w[i])) is Some by {
        lemma_tool_call_roundtrip(s[i]);
    }
    assert(w.map_values(|j: JsonV| tool_call_of_json(j)->0) =~= s) by {
        assert forall|i: int| 0 <= i < s.len() implies tool_call_of_json(w[i])->0 == s[i] by {
            lemma_tool_call_roundtrip(s[i]);
        }
    }
}

/// A conversation turn on the wire: `role` and `content` always (a missing
/// content is `null`); `tool_calls`, `tool_call_id` and `name` only when
/// present.
pub open spec fn message_to_json(m: ChatMessageV) -> JsonV {
    JsonV::Obj(message_fields(m))
}

/// The field list a conversation turn serializes to.
pub open spec fn message_fields(m: ChatMessageV) -> Seq<(Seq<char>, JsonV)> {
    seq![
        ("role"@, JsonV::Str(m.role)),
        (
            "content"@,
            match m.content {
                Some(c) => JsonV::Str(c),
                None => JsonV::Null,
            },
        ),
    ] + (match m.tool_calls {
        Some(tc) => seq![("tool_calls"@, JsonV::Arr(tool_calls_to_json(tc)))],
        None => Seq::<(Seq<char>, JsonV)>::empty(),
    }) + (match m.tool_call_id {
        Some(id) => seq![("tool_call_id"@, JsonV::Str(id))],
        None => Seq::<(Seq<char>, JsonV)>::empty(),
    }) + (match m.name {
        Some(n) => seq![("name"@, JsonV::Str(n))],
        None => Seq::<(Seq<char>, JsonV)>::empty(),
    })
}

/// Reads an optional string field: absent and `null` both mean empty.
pub open spec fn opt_string_of_json(fs: Seq<(Seq<char>, JsonV)>, k: Seq<char>) -> Option<
    Option<Seq<char>>,
> {
    match vlookup(fs, k) {
        None => Some(None),
        Some(JsonV::Null) => Some(None),
        Some(JsonV::Str(s)) => Some(Some(s)),
        Some(_) => None,
    }
}

/// Reads a conversation turn back from a document.
pub open spec fn message_of_json(j: JsonV) -> Option<ChatMessageV> {
    match j {
        JsonV::Obj(fs) => match (vlookup(fs, "role"@), opt_string_of_json(fs, "content"@),
        opt_string_of_json(fs, "tool_call_id"@), opt_string_of_json(fs, "name"@)) {
            (Some(JsonV::Str(role)), Some(content), Some(tool_call_id), Some(name)) => match
                vlookup(fs, "tool_calls"@) {
                None => Some(ChatMessageV { role, content, tool_calls: None, tool_call_id, name }),
                Some(JsonV::Null) => Some(
                    ChatMessageV { role, content, tool_calls: None, tool_call_id, name },
                ),
                Some(JsonV::Arr(a)) => match tool_calls_of_json(a) {
                    Some(tc) => Some(
                        ChatMessageV { role, content, tool_calls: Some(tc), tool_call_id, name },
                    ),
                    None => None,
                },
                Some(_) => None,
            },
            _ => None,
        },
        _ => None,
    }
}

/// Writing then reading a conversation turn loses nothing: every populated
/// optional field survives the trip, and empty ones stay empty.
pub proof fn lemma_message_roundtrip(m: ChatMessageV)
    ensures
        message_of_json(message_to_json(m)) == Some(m),
{
    reveal_strlit("role");
    reveal_strlit("content");
    reveal_strlit("tool_calls");
    reveal_strlit("tool_call_id");
    reveal_strlit("name");
    reveal_with_fuel(vlookup, 7);
    assert("role"@.len() == 4 && "content"@.len() == 7 && "tool_calls"@.len() == 10
        && "tool_call_id"@.len() == 12 && "name"@.len() == 4);
    assert("role"@ != "name"@) by {
        assert("role"@[0] == 'r');
        assert("name"@[0] == 'n');
    }
    assert("role"@ != "content"@ && "role"@ != "tool_calls"@ && "role"@ != "tool_call_id"@);
    assert("content"@ != "tool_calls"@ && "content"@ != "tool_call_id"@ && "content"@
        != "name"@);
    assert("tool_calls"@ != "tool_call_id"@ && "tool_calls"@ != "name"@);
    assert("tool_call_id"@ != "name"@);
    let base = seq![
        ("role"@, JsonV::Str(m.role)),
        (
            "content"@,
            match m.content {
                Some(c) => JsonV::Str(c),
                None => JsonV::Null,
            },
        ),
    ];
    let s_tc = (match m.tool_calls {
        Some(tc) => seq![("tool_calls"@, JsonV::Arr(tool_calls_to_json(tc)))],
        None => Seq::<(Seq<char>, JsonV)>::empty(),
    });
    let s_id = (match m.tool_call_id {
        Some(id) => seq![("tool_call_id"@, JsonV::Str(id))],
        None => Seq::<(Seq<char>, JsonV)>::empty(),
    });
    let s_nm = (match m.name {
        Some(n) => seq![("name"@, JsonV::Str(n))],
        None => Seq::<(Seq<char>, JsonV)>::empty(),
    });
    let fs = message_fields(m);
    assert(fs =~= base + s_tc + s_id + s_nm);
    assert(base.drop_first() =~= seq![
        (
            "content"@,
            match m.content {
                Some(c) => JsonV::Str(c),
                None => JsonV::Null,
            },
        ),
    ]);
    // role
    assert(vlookup(base, "role"@) == Some(JsonV::Str(m.role)));
    lemma_vlookup_append_hit(base, s_tc, "role"@);
    lemma_vlookup_append_hit(base + s_tc, s_id, "role"@);
    lemma_vlookup_append_hit(base + s_tc + s_id, s_nm, "role"@);
    assert(vlookup(fs, "role"@) == Some(JsonV::Str(m.role)));
    // content
    assert(vlookup(base, "content"@) is Some);
    lemma_vlookup_append_hit(base, s_tc, "content"@);
    lemma_vlookup_append_hit(base + s_tc, s_id, "content"@);
    lemma_vlookup_append_hit(base + s_tc + s_id, s_nm, "content"@);
    assert(opt_string_of_json(fs, "content"@) == Some(m.content));
    // tool_calls
    match m.tool_calls {
        Some(tc) => {
            lemma_vlookup_append_miss(base, s_tc + s_id + s_nm, "tool_calls"@);
            assert(base + (s_tc + s_id + s_nm) =~= fs);
            assert(vlookup(s_tc + s_id + s_nm, "tool_calls"@) == Some(
                JsonV::Arr(tool_calls_to_json(tc)),
            ));
            assert(vlookup(fs, "tool_calls"@) == Some(JsonV::Arr(tool_calls_to_json(tc))));
            lemma_tool_calls_roundtrip(tc);
        },
        None => {
            assert(s_tc =~= Seq::<(Seq<char>, JsonV)>::empty());
            lemma_vlookup_append_miss(base + s_tc + s_id + s_nm, Seq::empty(), "tool_calls"@);
            assert((base + s_tc + s_id + s_nm) + Seq::<(Seq<char>, JsonV)>::empty() =~= fs);
            assert(vlookup(fs, "tool_calls"@) is None);
        },
    }
    // tool_call_id
    match m.tool_call_id {
        Some(id) => {
            lemma_vlookup_append_miss(base + s_tc, s_id + s_nm, "tool_call_id"@);
            assert((base + s_tc) + (s_id + s_nm) =~= fs);
            assert(vlookup(s_id + s_nm, "tool_call_id"@) == Some(JsonV::Str(id)));
            assert(vlookup(fs, "tool_call_id"@) == Some(JsonV::Str(id)));
        },
        None => {
            lemma_vlookup_append_miss(fs, Seq::empty(), "tool_call_id"@);
            assert(fs + Seq::<(Seq<char>, JsonV)>::empty() =~= fs);
            assert(vlookup(fs, "tool_call_id"@) is None);
        },
    }
    // name
    match m.name {
        Some(n) => {
            lemma_vlookup_append_miss(base + s_tc + s_id, s_nm, "name"@);
            assert((base + s_tc + s_id) + s_nm =~= fs);
            assert(vlookup(s_nm, "name"@) == Some(JsonV::Str(n)));
            assert(vlookup(fs, "name"@) == Some(JsonV::Str(n)));
        },
        None => {
            lemma_vlookup_append_miss(fs, Seq::empty(), "name"@);
            assert(fs + Seq::<(Seq<char>, JsonV)>::empty() =~= fs);
            assert(vlookup(fs, "name"@) is None);
        },
    }
}

/// A directed tool choice on the wire.
pub open spec fn tool_choice_to_json(c: ToolChoiceV) -> JsonV {
    match c {
        ToolChoiceV::Auto => JsonV::Str("auto"@),
        ToolChoiceV::Forbidden => JsonV::Str("none"@),
        ToolChoiceV::SpecificTool { type_, function } => JsonV::Obj(
            seq![
                ("type"@, JsonV::Str(type_)),
                ("function"@, JsonV::Obj(seq![("name"@, JsonV::Str(function.name))])),
            ],
        ),
    }
}

/// Reads a tool choice back from a document.
pub open spec fn tool_choice_of_json(j: JsonV) -> Option<ToolChoiceV> {
    match j {
        JsonV::Str(s) => if s == "auto"@ {
            Some(ToolChoiceV::Auto)
        } else if s == "none"@ {
            Some(ToolChoiceV::Forbidden)
        } else {
            None
        },
        JsonV::Obj(fs) => match (vlookup(fs, "type"@), vlookup(fs, "function"@)) {
            (Some(JsonV::Str(type_)), Some(JsonV::Obj(ffs))) => match vlookup(ffs, "name"@) {
                Some(JsonV::Str(name)) => Some(
                    ToolChoiceV::SpecificTool {
                        type_,
                        function: FunctionToolChoiceV { name },
                    },
                ),
                _ => None,
            },
            _ => None,
        },
        _ => None,
    }
}

/// Writing then reading a tool choice loses nothing.
pub proof fn lemma_tool_choice_roundtrip(c: ToolChoiceV)
    ensures
        tool_choice_of_json(tool_choice_to_json(c)) == Some(c),
{
    reveal_strlit("auto");
    reveal_strlit("none");
    reveal_strlit("type");
    reveal_strlit("function");
    reveal_strlit("name");
    reveal_with_fuel(vlookup, 4);
    assert("auto"@ != "none"@) by {
        assert("auto"@[0] == 'a');
        assert("none"@[0] == 'n');
    }
    assert("type"@ != "function"@) by {
        assert("type"@.len() == 4);
        assert("function"@.len() == 8);
    }
    match c {
        ToolChoiceV::SpecificTool { type_, function } => {
            let fs = seq![
                ("type"@, JsonV::Str(type_)),
                ("function"@, JsonV::Obj(seq![("name"@, JsonV::Str(function.name))])),
            ];
            assert(fs.drop_first() =~= seq![
                ("function"@, JsonV::Obj(seq![("name"@, JsonV::Str(function.name))])),
            ]);
            assert(vlookup(fs, "type"@) == Some(JsonV::Str(type_)));
            assert(vlookup(fs, "function"@) == Some(
                JsonV::Obj(seq![("name"@, JsonV::Str(function.name))]),
            ));
        },
        _ => {},
    }
}

/// A tool's function spec on the wire: name and description always
/// (description may be `null`), and the JSON-schema parameters verbatim.
pub open spec fn function_spec_to_json(f: FunctionSpecV) -> JsonV {
    JsonV::Obj(
        seq![
            ("name"@, JsonV::Str(f.name)),
            (
                "description"@,
                match f.description {
                    Some(d) => JsonV::Str(d),
                    None => JsonV::Null,
                },
            ),
            ("parameters"@, f.parameters),
        ],
    )
}

/// Reads a function spec back from a document.
pub open spec fn function_spec_of_json(j: JsonV) -> Option<FunctionSpecV> {
    match j {
        JsonV::Obj(fs) => match (vlookup(fs, "name"@), opt_string_of_json(fs, "description"@),
        vlookup(fs, "parameters"@)) {
            (Some(JsonV::Str(name)), Some(description), Some(parameters)) => Some(
                FunctionSpecV { name, description, parameters },
            ),
            _ => None,
        },
        _ => None,
    }
}

/// Writing then reading a function spec loses nothing.
pub proof fn lemma_function_spec_roundtrip(f: FunctionSpecV)
    ensures
        function_spec_of_json(function_spec_to_json(f)) == Some(f),
{
    reveal_strlit("name");
    reveal_strlit("description");
    reveal_strlit("parameters");
    reveal_with_fuel(vlookup, 5);
    assert("name"@.len() == 4 && "description"@.len() == 11 && "parameters"@.len() == 10);
    let fs = function_spec_to_json(f)->Obj_0;
    assert(fs.drop_first() =~= fs.subrange(1, 3));
    assert(fs.drop_first().drop_first() =~= fs.subrange(2, 3));
    assert(vlookup(fs, "name"@) == Some(JsonV::Str(f.name)));
    assert(opt_string_of_json(fs, "description"@) == Some(f.description));
    assert(vlookup(fs, "parameters"@) == Some(f.parameters));
}

/// A tool on the wire: its kind and its function spec.
pub open spec fn tool_to_json(t: ToolV) -> JsonV {
    JsonV::Obj(
        seq![("type"@, JsonV::Str(t.type_)), ("function"@, function_spec_to_json(t.function))],
    )
}

/// Reads a tool back from a document.
pub open spec fn tool_of_json(j: JsonV) -> Option<ToolV> {
    match j {
        JsonV::Obj(fs) => match (vlookup(fs, "type"@), vlookup(fs, "function"@)) {
            (Some(JsonV::Str(type_)), Some(fj)) => match function_spec_of_json(fj) {
                Some(function) => Some(ToolV { type_, function }),
                None => None,
            },
            _ => None,
        },
        _ => None,
    }
}

/// Writing then reading a tool loses nothing.
pub proof fn lemma_tool_roundtrip(t: ToolV)
    ensures
        tool_of_json(tool_to_json(t)) == Some(t),
{
    reveal_strlit("type");
    reveal_strlit("function");
    reveal_with_fuel(vlookup, 4);
    assert("type"@ != "function"@) by {
        assert("type"@.len() == 4);
        assert("function"@.len() == 8);
    }
    let fs = tool_to_json(t)->Obj_0;
    assert(fs.drop_first() =~= seq![("function"@, function_spec_to_json(t.function))]);
    assert(vlookup(fs, "type"@) == Some(JsonV::Str(t.type_)));
    assert(vlookup(fs, "function"@) == Some(function_spec_to_json(t.function)));
    lemma_function_spec_roundtrip(t.function);
}

/// The batch of offered tools on the wire.
pub open spec fn tools_to_json(s: Seq<ToolV>) -> Seq<JsonV> {
    s.map_values(|t: ToolV| tool_to_json(t))
}

/// Reads the batch of offered tools back: every element must read back.
pub open spec fn tools_of_json(s: Seq<JsonV>) -> Option<Seq<ToolV>> {
    if forall|i: int| 0 <= i < s.len() ==> (#[trigger] tool_of_json(s[i])) is Some {
        Some(s.map_values(|j: JsonV| tool_of_json(j)->0))
    } else {
        None
    }
}

/// Writing then reading the tool batch loses nothing.
pub proof fn lemma_tools_roundtrip(s: Seq<ToolV>)
    ensures
        tools_of_json(tools_to_json(s)) == Some(s),
{
    let w = tools_to_json(s);
    assert forall|i: int| 0 <= i < w.len() implies (#[trigger] tool_of_json(w[i])) is Some by {
        lemma_tool_roundtrip(s[i]);
    }
    assert(w.map_values(|j: JsonV| tool_of_json(j)->0) =~= s) by {
        assert forall|i: int| 0 <= i < s.len() implies tool_of_json(w[i])->0 == s[i] by {
            lemma_tool_roundtrip(s[i]);
        }
    }
}

/// The message window on the wire.
pub open spec fn messages_to_json(s: Seq<ChatMessageV>) -> Seq<JsonV> {
    s.map_values(|m: ChatMessageV| message_to_json(m))
}

/// Reads the message window back: every element must read back.
pub open spec fn messages_of_json(s: Seq<JsonV>) -> Option<Seq<ChatMessageV>> {
    if forall|i: int| 0 <= i < s.len() ==> (#[trigger] message_of_json(s[i])) is Some {
        Some(s.map_values(|j: JsonV| message_of_json(j)->0))
    } else {
        None
    }
}

/// Writing then reading the message window loses nothing.
pub proof fn lemma_messages_roundtrip(s: Seq<ChatMessageV>)
    ensures
        messages_of_json(messages_to_json(s)) == Some(s),
{
    let w = messages_to_json(s);
    assert forall|i: int| 0 <= i < w.len() implies (#[trigger] message_of_json(w[i])) is Some by {
        lemma_message_roundtrip(s[i]);
    }
    assert(w.map_values(|j: JsonV| message_of_json(j)->0) =~= s) by {
        assert forall|i: int| 0 <= i < s.len() implies message_of_json(w[i])->0 == s[i] by {
            lemma_message_roundtrip(s[i]);
        }
    }
}

/// A chat request on the wire: model and messages always; temperature (a
/// raw decimal lexeme), tools and tool_choice only when present.
pub open spec fn chat_request_fields(r: ChatRequestV) -> Seq<(Seq<char>, JsonV)> {
    seq![
        ("model"@, JsonV::Str(r.model)),
        ("messages"@, JsonV::Arr(messages_to_json(r.messages))),
    ] + (match r.temperature {
        Some(t) => seq![("temperature"@, JsonV::Num(t))],
        None => Seq::<(Seq<char>, JsonV)>::empty(),
    }) + (match r.tools {
        Some(ts) => seq![("tools"@, JsonV::Arr(tools_to_json(ts)))],
        None => Seq::<(Seq<char>, JsonV)>::empty(),
    }) + (match r.tool_choice {
        Some(c) => seq![("tool_choice"@, tool_choice_to_json(c))],
        None => Seq::<(Seq<char>, JsonV)>::empty(),
    })
}

/// A chat request as one document.
pub open spec fn chat_request_to_json(r: ChatRequestV) -> JsonV {
    JsonV::Obj(chat_request_fields(r))
}

/// Reads a chat request back from a document.
pub open spec fn chat_request_of_json(j: JsonV) -> Option<ChatRequestV> {
    match j {
        JsonV::Obj(fs) => match (vlookup(fs, "model"@), vlookup(fs, "messages"@)) {
            (Some(JsonV::Str(model)), Some(JsonV::Arr(mj))) => match messages_of_json(mj) {
                Some(messages) => {
                    let temperature = match vlookup(fs, "temperature"@) {
                        None => Some(None),
                        Some(JsonV::Null) => Some(None),
                        Some(JsonV::Num(t)) => Some(Some(t)),
                        Some(_) => None,
                    };
                    let tools = match vlookup(fs, "tools"@) {
                        None => Some(None),
                        Some(JsonV::Null) => Some(None),
                        Some(JsonV::Arr(tj)) => match tools_of_json(tj) {
                            Some(ts) => Some(Some(ts)),
                            None => None,
                        },
                        Some(_) => None,
                    };
                    let tool_choice = match vlookup(fs, "tool_choice"@) {
                        None => Some(None),
                        Some(JsonV::Null) => Some(None),
                        Some(cj) => match tool_choice_of_json(cj) {
                            Some(c) => Some(Some(c)),
                            None => None,
                        },
                    };
                    match (temperature, tools, tool_choice) {
                        (Some(temperature), Some(tools), Some(tool_choice)) => Some(
                            ChatRequestV { model, messages, temperature, tools, tool_choice },
                        ),
                        _ => None,
                    }
                },
                None => None,
            },
            _ => None,
        },
        _ => None,
    }
}

/// Writing then reading a chat request loses nothing: the wire format is
/// lossless for every populated optional field.
pub proof fn lemma_chat_request_roundtrip(r: ChatRequestV)
    ensures
        chat_request_of_json(chat_request_to_json(r)) == Some(r),
{
    reveal_strlit("model");
    reveal_strlit("messages");
    reveal_strlit("temperature");
    reveal_strlit("tools");
    reveal_strlit("tool_choice");
    reveal_with_fuel(vlookup, 7);
    assert("model"@.len() == 5 && "messages"@.len() == 8 && "temperature"@.len() == 11
        && "tools"@.len() == 5 && "tool_choice"@.len() == 11);
    assert("model"@ != "tools"@) by {
        assert("model"@[0] == 'm');
        assert("tools"@[0] == 't');
    }
    assert("temperature"@ != "tool_choice"@) by {
        assert("temperature"@[1] == 'e');
        assert("tool_choice"@[1] == 'o');
    }
    let base = seq![
        ("model"@, JsonV::Str(r.model)),
        ("messages"@, JsonV::Arr(messages_to_json(r.messages))),
    ];
    let s_t = (match r.temperature {
        Some(t) => seq![("temperature"@, JsonV::Num(t))],
        None => Seq::<(Seq<char>, JsonV)>::empty(),
    });
    let s_ts = (match r.tools {
        Some(ts) => seq![("tools"@, JsonV::Arr(tools_to_json(ts)))],
        None => Seq::<(Seq<char>, JsonV)>::empty(),
    });
    let s_c = (match r.tool_choice {
        Some(c) => seq![("tool_choice"@, tool_choice_to_json(c))],
        None => Seq::<(Seq<char>, JsonV)>::empty(),
    });
    let fs = chat_request_fields(r);
    assert(fs =~= base + s_t + s_ts + s_c);
    assert(base.drop_first() =~= seq![
        ("messages"@, JsonV::Arr(messages_to_json(r.messages))),
    ]);
    // model, messages
    assert(vlookup(base, "model"@) == Some(JsonV::Str(r.model)));
    assert(vlookup(base, "messages"@) == Some(JsonV::Arr(messages_to_json(r.messages))));
    lemma_vlookup_append_hit(base, s_t, "model"@);
    lemma_vlookup_append_hit(base + s_t, s_ts, "model"@);
    lemma_vlookup_append_hit(base + s_t + s_ts, s_c, "model"@);
    lemma_vlookup_append_hit(base, s_t, "messages"@);
    lemma_vlookup_append_hit(base + s_t, s_ts, "messages"@);
    lemma_vlookup_append_hit(base + s_t + s_ts, s_c, "messages"@);
    assert(vlookup(fs, "model"@) == Some(JsonV::Str(r.model)));
    assert(vlookup(fs, "messages"@) == Some(JsonV::Arr(messages_to_json(r.messages))));
    lemma_messages_roundtrip(r.messages);
    // temperature
    match r.temperature {
        Some(t) => {
            lemma_vlookup_append_miss(base, s_t + s_ts + s_c, "temperature"@);
            assert(base + (s_t + s_ts + s_c) =~= fs);
            assert(vlookup(s_t + s_ts + s_c, "temperature"@) == Some(JsonV::Num(t)));
            assert(vlookup(fs, "temperature"@) == Some(JsonV::Num(t)));
        },
        None => {
            lemma_vlookup_append_miss(fs, Seq::empty(), "temperature"@);
            assert(fs + Seq::<(Seq<char>, JsonV)>::empty() =~= fs);
            assert(vlookup(fs, "temperature"@) is None);
        },
    }
    // tools
    match r.tools {
        Some(ts) => {
            lemma_vlookup_append_miss(base + s_t, s_ts + s_c, "tools"@);
            assert((base + s_t) + (s_ts + s_c) =~= fs);
            assert(vlookup(s_ts + s_c, "tools"@) == Some(JsonV::Arr(tools_to_json(ts))));
            assert(vlookup(fs, "tools"@) == Some(JsonV::Arr(tools_to_json(ts))));
            lemma_tools_roundtrip(ts);
        },
        None => {
            lemma_vlookup_append_miss(fs, Seq::empty(), "tools"@);
            assert(fs + Seq::<(Seq<char>, JsonV)>::empty() =~= fs);
            assert(vlookup(fs, "tools"@) is None);
        },
    }
    // tool_choice
    match r.tool_choice {
        Some(c) => {
            lemma_vlookup_append_miss(base + s_t + s_ts, s_c, "tool_choice"@);
            assert((base + s_t + s_ts) + s_c =~= fs);
            assert(vlookup(s_c, "tool_choice"@) == Some(tool_choice_to_json(c)));
            assert(vlookup(fs, "tool_choice"@) == Some(tool_choice_to_json(c)));
            lemma_tool_choice_roundtrip(c);
            assert(tool_choice_to_json(c) is Null == false);
        },
        None => {
            lemma_vlookup_append_miss(fs, Seq::empty(), "tool_choice"@);
            assert(fs + Seq::<(Seq<char>, JsonV)>::empty() =~= fs);
            assert(vlookup(fs, "tool_choice"@) is None);
        },
    }
}

/// Token accounting on the wire.
pub open spec fn usage_to_json(u: Usage) -> JsonV {
    JsonV::Obj(
        seq![
            ("prompt_tokens"@, JsonV::Int(u.prompt_tokens as i64)),
            ("completion_tokens"@, JsonV::Int(u.completion_tokens as i64)),
            ("total_tokens"@, JsonV::Int(u.total_tokens as i64)),
        ],
    )
}

/// Reads token accounting back from a document.
pub open spec fn usage_of_json(j: JsonV) -> Option<Usage> {
    match j {
        JsonV::Obj(fs) => match (vlookup(fs, "prompt_tokens"@), vlookup(
            fs,
            "completion_tokens"@,
        ), vlookup(fs, "total_tokens"@)) {
            (Some(JsonV::Int(p)), Some(JsonV::Int(c)), Some(JsonV::Int(t))) => if
                i32::MIN <= p <= i32::MAX && i32::MIN <= c <= i32::MAX && i32::MIN <= t
                <= i32::MAX {
                Some(
                    Usage {
                        prompt_tokens: p as i32,
                        completion_tokens: c as i32,
                        total_tokens: t as i32,
                    },
                )
            } else {
                None
            },
            _ => None,
        },
        _ => None,
    }
}

/// Writing then reading token accounting loses nothing.
pub proof fn lemma_usage_roundtrip(u: Usage)
    ensures
        usage_of_json(usage_to_json(u)) == Some(u),
{
    reveal_strlit("prompt_tokens");
    reveal_strlit("completion_tokens");
    reveal_strlit("total_tokens");
    reveal_with_fuel(vlookup, 5);
    assert("prompt_tokens"@.len() == 13 && "completion_tokens"@.len() == 17
        && "total_tokens"@.len() == 12);
    let fs = usage_to_json(u)->Obj_0;
    assert(fs.drop_first() =~= fs.subrange(1, 3));
    assert(fs.drop_first().drop_first() =~= fs.subrange(2, 3));
    assert(vlookup(fs, "prompt_tokens"@) == Some(JsonV::Int(u.prompt_tokens as i64)));
    assert(vlookup(fs, "completion_tokens"@) == Some(JsonV::Int(u.completion_tokens as i64)));
    assert(vlookup(fs, "total_tokens"@) == Some(JsonV::Int(u.total_tokens as i64)));
}

/// A streamed fragment on the wire: role and content always, tool calls
/// only when present.
pub open spec fn delta_fields(d: DeltaMessageV) -> Seq<(Seq<char>, JsonV)> {
    seq![
        (
            "role"@,
            match d.role {
                Some(r) => JsonV::Str(r),
                None => JsonV::Null,
            },
        ),
        (
            "content"@,
            match d.content {
                Some(c) => JsonV::Str(c),
                None => JsonV::Null,
            },
        ),
    ] + (match d.tool_calls {
        Some(tc) => seq![("tool_calls"@, JsonV::Arr(tool_calls_to_json(tc)))],
        None => Seq::<(Seq<char>, JsonV)>::empty(),
    })
}

/// A streamed fragment as one document.
pub open spec fn delta_to_json(d: DeltaMessageV) -> JsonV {
    JsonV::Obj(delta_fields(d))
}

/// Reads a streamed fragment back from a document.
pub open spec fn delta_of_json(j: JsonV) -> Option<DeltaMessageV> {
    match j {
        JsonV::Obj(fs) => match (opt_string_of_json(fs, "role"@), opt_string_of_json(
            fs,
            "content"@,
        )) {
            (Some(role), Some(content)) => match vlookup(fs, "tool_calls"@) {
                None => Some(DeltaMessageV { role, content, tool_calls: None }),
                Some(JsonV::Null) => Some(DeltaMessageV { role, content, tool_calls: None }),
                Some(JsonV::Arr(a)) => match tool_calls_of_json(a) {
                    Some(tc) => Some(DeltaMessageV { role, content, tool_calls: Some(tc) }),
                    None => None,
                },
                Some(_) => None,
            },
            _ => None,
        },
        _ => None,
    }
}

/// Writing then reading a streamed fragment loses nothing.
pub proof fn lemma_delta_roundtrip(d: DeltaMessageV)
    ensures
        delta_of_json(delta_to_json(d)) == Some(d),
{
    reveal_strlit("role");
    reveal_strlit("content");
    reveal_strlit("tool_calls");
    reveal_with_fuel(vlookup, 5);
    assert("role"@.len() == 4 && "content"@.len() == 7 && "tool_calls"@.len() == 10);
    let base = seq![
        (
            "role"@,
            match d.role {
                Some(r) => JsonV::Str(r),
                None => JsonV::Null,
            },
        ),
        (
            "content"@,
            match d.content {
                Some(c) => JsonV::Str(c),
                None => JsonV::Null,
            },
        ),
    ];
    let s_tc = (match d.tool_calls {
        Some(tc) => seq![("tool_calls"@, JsonV::Arr(tool_calls_to_json(tc)))],
        None => Seq::<(Seq<char>, JsonV)>::empty(),
    });
    let fs = delta_fields(d);
    assert(fs =~= base + s_tc);
    assert(base.drop_first() =~= base.subrange(1, 2));
    assert(vlookup(base, "role"@) is Some);
    assert(vlookup(base, "content"@) is Some);
    lemma_vlookup_append_hit(base, s_tc, "role"@);
    lemma_vlookup_append_hit(base, s_tc, "content"@);
    assert(opt_string_of_json(fs, "role"@) == Some(d.role));
    assert(opt_string_of_json(fs, "content"@) == Some(d.content));
    match d.tool_calls {
        Some(tc) => {
            lemma_vlookup_append_miss(base, s_tc, "tool_calls"@);
            assert(vlookup(s_tc, "tool_calls"@) == Some(JsonV::Arr(tool_calls_to_json(tc))));
            assert(vlookup(fs, "tool_calls"@) == Some(JsonV::Arr(tool_calls_to_json(tc))));
            lemma_tool_calls_roundtrip(tc);
        },
        None => {
            lemma_vlookup_append_miss(fs, Seq::empty(), "tool_calls"@);
            assert(fs + Seq::<(Seq<char>, JsonV)>::empty() =~= fs);
            assert(vlookup(fs, "tool_calls"@) is None);
        },
    }
}

/// One choice on the wire: its index, its message (possibly `null`), the
/// finish reason, and — only in streamed responses — a delta.
pub open spec fn alternative_fields(a: AlternativeV) -> Seq<(Seq<char>, JsonV)> {
    seq![
        ("index"@, JsonV::Int(a.index as i64)),
        (
            "message"@,
            match a.message {
                Some(m) => message_to_json(m),
                None => JsonV::Null,
            },
        ),
        ("finish_reason"@, JsonV::Str(a.finish_reason)),
    ] + (match a.delta {
        Some(d) => seq![("delta"@, delta_to_json(d))],
        None => Seq::<(Seq<char>, JsonV)>::empty(),
    })
}

/// One choice as a document.
pub open spec fn alternative_to_json(a: AlternativeV) -> JsonV {
    JsonV::Obj(alternative_fields(a))
}

/// Reads one choice back from a document.
pub open spec fn alternative_of_json(j: JsonV) -> Option<AlternativeV> {
    match j {
        JsonV::Obj(fs) => match (vlookup(fs, "index"@), vlookup(fs, "finish_reason"@)) {
            (Some(JsonV::Int(ix)), Some(JsonV::Str(finish_reason))) => if i32::MIN <= ix
                <= i32::MAX {
                let message = match vlookup(fs, "message"@) {
                    None => Some(None),
                    Some(JsonV::Null) => Some(None),
                    Some(mj) => match message_of_json(mj) {
                        Some(m) => Some(Some(m)),
                        None => None,
                    },
                };
                let delta = match vlookup(fs, "delta"@) {
                    None => Some(None),
                    Some(JsonV::Null) => Some(None),
                    Some(dj) => match delta_of_json(dj) {
                        Some(d) => Some(Some(d)),
                        None => None,
                    },
                };
                match (message, delta) {
                    (Some(message), Some(delta)) => Some(
                        AlternativeV { index: ix as i32, message, finish_reason, delta },
                    ),
                    _ => None,
                }
            } else {
                None
            },
            _ => None,
        },
        _ => None,
    }
}

/// Writing then reading one choice loses nothing.
pub proof fn lemma_alternative_roundtrip(a: AlternativeV)
    ensures
        alternative_of_json(alternative_to_json(a)) == Some(a),
{
    reveal_strlit("index");
    reveal_strlit("message");
    reveal_strlit("finish_reason");
    reveal_strlit("delta");
    reveal_with_fuel(vlookup, 6);
    assert("index"@.len() == 5 && "message"@.len() == 7 && "finish_reason"@.len() == 13
        && "delta"@.len() == 5);
    assert("index"@ != "delta"@) by {
        assert("index"@[0] == 'i');
        assert("delta"@[0] == 'd');
    }
    let base = seq![
        ("index"@, JsonV::Int(a.index as i64)),
        (
            "message"@,
            match a.message {
                Some(m) => message_to_json(m),
                None => JsonV::Null,
            },
        ),
        ("finish_reason"@, JsonV::Str(a.finish_reason)),
    ];
    let s_d = (match a.delta {
        Some(d) => seq![("delta"@, delta_to_json(d))],
        None => Seq::<(Seq<char>, JsonV)>::empty(),
    });
    let fs = alternative_fields(a);
    assert(fs =~= base + s_d);
    assert(base.drop_first() =~= base.subrange(1, 3));
    assert(base.drop_first().drop_first() =~= base.subrange(2, 3));
    assert(vlookup(base, "index"@) == Some(JsonV::Int(a.index as i64)));
    assert(vlookup(base, "message"@) is Some);
    assert(vlookup(base, "finish_reason"@) == Some(JsonV::Str(a.finish_reason)));
    lemma_vlookup_append_hit(base, s_d, "index"@);
    lemma_vlookup_append_hit(base, s_d, "message"@);
    lemma_vlookup_append_hit(base, s_d, "finish_reason"@);
    match a.message {
        Some(m) => {
            lemma_message_roundtrip(m);
            assert(message_to_json(m) is Null == false);
        },
        None => {},
    }
    match a.delta {
        Some(d) => {
            lemma_vlookup_append_miss(base, s_d, "delta"@);
            assert(vlookup(s_d, "delta"@) == Some(delta_to_json(d)));
            assert(vlookup(fs, "delta"@) == Some(delta_to_json(d)));
            lemma_delta_roundtrip(d);
            assert(delta_to_json(d) is Null == false);
        },
        None => {
            lemma_vlookup_append_miss(fs, Seq::empty(), "delta"@);
            assert(fs + Seq::<(Seq<char>, JsonV)>::empty() =~= fs);
            assert(vlookup(fs, "delta"@) is None);
        },
    }
}

/// The choice list on the wire.
pub open spec fn alternatives_to_json(s: Seq<AlternativeV>) -> Seq<JsonV> {
    s.map_values(|a: AlternativeV| alternative_to_json(a))
}

/// Reads the choice list back: every element must read back.
pub open spec fn alternatives_of_json(s: Seq<JsonV>) -> Option<Seq<AlternativeV>> {
    if forall|i: int| 0 <= i < s.len() ==> (#[trigger] alternative_of_json(s[i])) is Some {
        Some(s.map_values(|j: JsonV| alternative_of_json(j)->0))
    } else {
        None
    }
}

/// Writing then reading the choice list loses nothing.
pub proof fn lemma_alternatives_roundtrip(s: Seq<AlternativeV>)
    ensures
        alternatives_of_json(alternatives_to_json(s)) == Some(s),
{
    let w = alternatives_to_json(s);
    assert forall|i: int| 0 <= i < w.len() implies (#[trigger] alternative_of_json(w[i]))
        is Some by {
        lemma_alternative_roundtrip(s[i]);
    }
    assert(w.map_values(|j: JsonV| alternative_of_json(j)->0) =~= s) by {
        assert forall|i: int| 0 <= i < s.len() implies alternative_of_json(w[i])->0 == s[i] by {
            lemma_alternative_roundtrip(s[i]);
        }
    }
}

/// A chat response on the wire: every field is always present; the
/// optional ones are `null` when empty.
pub open spec fn chat_response_to_json(r: ChatResponseV) -> JsonV {
    JsonV::Obj(
        seq![
            (
                "id"@,
                match r.id {
                    Some(s) => JsonV::Str(s),
                    None => JsonV::Null,
                },
            ),
            (
                "object"@,
                match r.object {
                    Some(s) => JsonV::Str(s),
                    None => JsonV::Null,
                },
            ),
            (
                "created"@,
                match r.created {
                    Some(c) => JsonV::Int(c),
                    None => JsonV::Null,
                },
            ),
            (
                "model"@,
                match r.model {
                    Some(s) => JsonV::Str(s),
                    None => JsonV::Null,
                },
            ),
            ("choices"@, JsonV::Arr(alternatives_to_json(r.choices))),
            (
                "usage"@,
                match r.usage {
                    Some(u) => usage_to_json(u),
                    None => JsonV::Null,
                },
            ),
        ],
    )
}

/// Reads a chat response back from a document.
pub open spec fn chat_response_of_json(j: JsonV) -> Option<ChatResponseV> {
    match j {
        JsonV::Obj(fs) => match (opt_string_of_json(fs, "id"@), opt_string_of_json(
            fs,
            "object"@,
        ), opt_string_of_json(fs, "model"@), vlookup(fs, "choices"@)) {
            (Some(id), Some(object), Some(model), Some(JsonV::Arr(cj))) => match
                alternatives_of_json(cj) {
                Some(choices) => {
                    let created = match vlookup(fs, "created"@) {
                        None => Some(None),
                        Some(JsonV::Null) => Some(None),
                        Some(JsonV::Int(c)) => Some(Some(c)),
                        Some(_) => None,
                    };
                    let usage = match vlookup(fs, "usage"@) {
                        None => Some(None),
                        Some(JsonV::Null) => Some(None),
                        Some(uj) => match usage_of_json(uj) {
                            Some(u) => Some(Some(u)),
                            None => None,
                        },
                    };
                    match (created, usage) {
                        (Some(created), Some(usage)) => Some(
                            ChatResponseV { id, object, created, model, choices, usage },
                        ),
                        _ => None,
                    }
                },
                None => None,
            },
            _ => None,
        },
        _ => None,
    }
}

/// Writing then reading a chat response loses nothing: the wire format is
/// lossless for every populated optional field.
pub proof fn lemma_chat_response_roundtrip(r: ChatResponseV)
    ensures
        chat_response_of_json(chat_response_to_json(r)) == Some(r),
{
    reveal_strlit("id");
    reveal_strlit("object");
    reveal_strlit("created");
    reveal_strlit("model");
    reveal_strlit("choices");
    reveal_strlit("usage");
    reveal_with_fuel(vlookup, 8);
    assert("id"@.len() == 2 && "object"@.len() == 6 && "created"@.len() == 7 && "model"@.len()
        == 5 && "choices"@.len() == 7 && "usage"@.len() == 5);
    assert("created"@ != "choices"@) by {
        assert("created"@[1] == 'r');
        assert("choices"@[1] == 'h');
    }
    assert("model"@ != "usage"@) by {
        assert("model"@[0] == 'm');
        assert("usage"@[0] == 'u');
    }
    let fs = chat_response_to_json(r)->Obj_0;
    assert(fs.drop_first() =~= fs.subrange(1, 6));
    assert(fs.drop_first().drop_first() =~= fs.subrange(2, 6));
    assert(fs.subrange(2, 6).drop_first() =~= fs.subrange(3, 6));
    assert(fs.subrange(3, 6).drop_first() =~= fs.subrange(4, 6));
    assert(fs.subrange(4, 6).drop_first() =~= fs.subrange(5, 6));
    assert(opt_string_of_json(fs, "id"@) == Some(r.id));
    assert(opt_string_of_json(fs, "object"@) == Some(r.object));
    assert(opt_string_of_json(fs, "model"@) == Some(r.model));
    assert(vlookup(fs, "choices"@) == Some(JsonV::Arr(alternatives_to_json(r.choices))));
    lemma_alternatives_roundtrip(r.choices);
    match r.created {
        Some(c) => {
            assert(vlookup(fs, "created"@) == Some(JsonV::Int(c)));
        },
        None => {
            assert(vlookup(fs, "created"@) == Some(JsonV::Null));
        },
    }
    match r.usage {
        Some(u) => {
            assert(vlookup(fs, "usage"@) == Some(usage_to_json(u)));
            lemma_usage_roundtrip(u);
            assert(usage_to_json(u) is Null == false);
        },
        None => {
            assert(vlookup(fs, "usage"@) == Some(JsonV::Null));
        },
    }
}

/// Appends one field to an object under construction.
pub(crate) fn push_field(fields: &mut Vec<(String, Json)>, key: &str, value: Json)
    ensures
        final(fields).deep_view() == old(fields).deep_view().push((key@, value.deep_view())),
{
    let p = (key.to_owned(), value);
    let ghost pm = p;
    let ghost pre = *fields;
    fields.push(p);
    proof {
        crate::lemma_deep_view_push(pre, *fields, pm);
    }
}

/// Seals an object under construction into a document.
pub(crate) fn seal_obj(fields: Vec<(String, Json)>) -> (r: Json)
    ensures
        r.deep_view() == JsonV::Obj(fields.deep_view()),
{
    let ghost fdv = fields.deep_view();
    let r = Json::Obj(fields);
    proof {
        lemma_json_view_fields(r->Obj_0@);
        assert(json_view_fields(r->Obj_0@) =~= fdv);
        assert(r.deep_view() =~~= JsonV::Obj(fdv));
    }
    r
}

/// Seals a document list into an array document.
pub(crate) fn seal_arr(items: Vec<Json>) -> (r: Json)
    ensures
        r.deep_view() == JsonV::Arr(items.deep_view()),
{
    let ghost idv = items.deep_view();
    let r = Json::Arr(items);
    proof {
        lemma_json_view_seq(r->Arr_0@);
        assert(json_view_seq(r->Arr_0@) =~= idv);
        assert(r.deep_view() =~~= JsonV::Arr(idv));
    }
    r
}

/// Writes a function call as a document.
pub fn function_call_json(f: &FunctionCall) -> (r: Json)
    ensures
        r.deep_view() == function_call_to_json(f.deep_view()),
{
    let mut fields: Vec<(String, Json)> = Vec::new();
    push_field(&mut fields, "name", Json::Str(f.name.clone()));
    push_field(&mut fields, "arguments", Json::Str(f.arguments.clone()));
    proof {
        assert(fields.deep_view() =~= function_call_to_json(f.deep_view())->Obj_0);
    }
    let r = seal_obj(fields);
    proof {
        assert(r.deep_view() =~~= function_call_to_json(f.deep_view()));
    }
    r
}

/// Writes a tool call as a document.
pub fn tool_call_json(t: &ToolCall) -> (r: Json)
    ensures
        r.deep_view() == tool_call_to_json(t.deep_view()),
{
    let mut fields: Vec<(String, Json)> = Vec::new();
    push_field(&mut fields, "id", Json::Str(t.id.clone()));
    push_field(&mut fields, "type", Json::Str(t.type_.clone()));
    push_field(&mut fields, "function", function_call_json(&t.function));
    proof {
        assert(fields.deep_view() =~= tool_call_to_json(t.deep_view())->Obj_0);
    }
    let r = seal_obj(fields);
    proof {
        assert(r.deep_view() =~~= tool_call_to_json(t.deep_view()));
    }
    r
}

/// Writes a batch of tool calls as documents.
pub fn tool_calls_json(s: &Vec<ToolCall>) -> (r: Vec<Json>)
    ensures
        r.deep_view() == tool_calls_to_json(s.deep_view()),
{
    let mut out: Vec<Json> = Vec::new();
    let mut i: usize = 0;
    while i < s.len()
        invariant
            i <= s@.len(),
            out.deep_view() =~= tool_calls_to_json(s.deep_view()).take(i as int),
        decreases s@.len() - i,
    {
        let c = tool_call_json(&s[i]);
        let ghost cm = c;
        let ghost pre = out;
        out.push(c);
        proof {
            crate::lemma_deep_view_push(pre, out, cm);
            assert(out.deep_view() =~= tool_calls_to_json(s.deep_view()).take(i + 1));
        }
        i = i + 1;
    }
    proof {
        assert(out.deep_view() =~= tool_calls_to_json(s.deep_view()));
    }
    out
}

/// Writes a conversation turn as a document.
pub fn message_json(m: &ChatMessage) -> (r: Json)
    ensures
        r.deep_view() == message_to_json(m.deep_view()),
{
    let mut fields: Vec<(String, Json)> = Vec::new();
    push_field(&mut fields, "role", Json::Str(m.role.clone()));
    let content = match &m.content {
        Some(c) => Json::Str(c.clone()),
        None => Json::Null,
    };
    push_field(&mut fields, "content", content);
    match &m.tool_calls {
        Some(tc) => {
            push_field(&mut fields, "tool_calls", seal_arr(tool_calls_json(tc)));
        },
        None => {},
    }
    match &m.tool_call_id {
        Some(id) => {
            push_field(&mut fields, "tool_call_id", Json::Str(id.clone()));
        },
        None => {},
    }
    match &m.name {
        Some(n) => {
            push_field(&mut fields, "name", Json::Str(n.clone()));
        },
        None => {},
    }
    proof {
        assert(fields.deep_view() =~= message_fields(m.deep_view()));
    }
    let r = seal_obj(fields);
    proof {
        assert(r.deep_view() =~~= message_to_json(m.deep_view()));
    }
    r
}

/// Writes the message window as documents.
pub fn messages_json(s: &Vec<ChatMessage>) -> (r: Vec<Json>)
    ensures
        r.deep_view() == messages_to_json(s.deep_view()),
{
    let mut out: Vec<Json> = Vec::new();
    let mut i: usize = 0;
    while i < s.len()
        invariant
            i <= s@.len(),
            out.deep_view() =~= messages_to_json(s.deep_view()).take(i as int),
        decreases s@.len() - i,
    {
        let c = message_json(&s[i]);
        let ghost cm = c;
        let ghost pre = out;
        out.push(c);
        proof {
            crate::lemma_deep_view_push(pre, out, cm);
            assert(out.deep_view() =~= messages_to_json(s.deep_view()).take(i + 1));
        }
        i = i + 1;
    }
    proof {
        assert(out.deep_view() =~= messages_to_json(s.deep_view()));
    }
    out
}

/// Writes a tool's function spec as a document.
pub fn function_spec_json(f: &FunctionSpec) -> (r: Json)
    ensures
        r.deep_view() == function_spec_to_json(f.deep_view()),
{
    let mut fields: Vec<(String, Json)> = Vec::new();
    push_field(&mut fields, "name", Json::Str(f.name.clone()));
    let description = match &f.description {
        Some(d) => Json::Str(d.clone()),
        None => Json::Null,
    };
    push_field(&mut fields, "description", description);
    push_field(&mut fields, "parameters", crate::json::clone_json(&f.parameters));
    proof {
        assert(fields.deep_view() =~= function_spec_to_json(f.deep_view())->Obj_0);
    }
    let r = seal_obj(fields);
    proof {
        assert(r.deep_view() =~~= function_spec_to_json(f.deep_view()));
    }
    r
}

/// Writes a tool as a document.
pub fn tool_json(t: &Tool) -> (r: Json)
    ensures
        r.deep_view() == tool_to_json(t.deep_view()),
{
    let mut fields: Vec<(String, Json)> = Vec::new();
    push_field(&mut fields, "type", Json::Str(t.type_.clone()));
    push_field(&mut fields, "function", function_spec_json(&t.function));
    proof {
        assert(fields.deep_view() =~= tool_to_json(t.deep_view())->Obj_0);
    }
    let r = seal_obj(fields);
    proof {
        assert(r.deep_view() =~~= tool_to_json(t.deep_view()));
    }
    r
}

/// Writes the offered tool batch as documents.
pub fn tools_json(s: &Vec<Tool>) -> (r: Vec<Json>)
    ensures
        r.deep_view() == tools_to_json(s.deep_view()),
{
    let mut out: Vec<Json> = Vec::new();
    let mut i: usize = 0;
    while i < s.len()
        invariant
            i <= s@.len(),
            out.deep_view() =~= tools_to_json(s.deep_view()).take(i as int),
        decreases s@.len() - i,
    {
        let c = tool_json(&s[i]);
        let ghost cm = c;
        let ghost pre = out;
        out.push(c);
        proof {
            crate::lemma_deep_view_push(pre, out, cm);
            assert(out.deep_view() =~= tools_to_json(s.deep_view()).take(i + 1));
        }
        i = i + 1;
    }
    proof {
        assert(out.deep_view() =~= tools_to_json(s.deep_view()));
    }
    out
}

/// Writes a tool choice as a document.
pub fn tool_choice_json(c: &ToolChoice) -> (r: Json)
    ensures
        r.deep_view() == tool_choice_to_json(c.deep_view()),
{
    match c {
        ToolChoice::Auto => Json::Str("auto".to_owned()),
        ToolChoice::Forbidden => Json::Str("none".to_owned()),
        ToolChoice::SpecificTool { type_, function } => {
            let mut ffields: Vec<(String, Json)> = Vec::new();
            push_field(&mut ffields, "name", Json::Str(function.name.clone()));
            let ghost ffdv = ffields.deep_view();
            let fj = seal_obj(ffields);
            proof {
                assert(ffdv.len() == 1);
                assert(ffdv[0].0 == "name"@);
                assert(ffdv[0].1 == JsonV::Str(function.name@));
                assert(ffdv =~~= seq![("name"@, JsonV::Str(function.name@))]);
                assert(fj.deep_view() =~~= JsonV::Obj(
                    seq![("name"@, JsonV::Str(function.name@))],
                ));
            }
            let mut fields: Vec<(String, Json)> = Vec::new();
            push_field(&mut fields, "type", Json::Str(type_.clone()));
            push_field(&mut fields, "function", fj);
            proof {
                assert(fields.deep_view() =~~= tool_choice_to_json(c.deep_view())->Obj_0);
            }
            let r = seal_obj(fields);
            proof {
                assert(r.deep_view() =~~= tool_choice_to_json(c.deep_view()));
            }
            r
        },
    }
}

/// Writes a whole chat request as a document, exactly as the wire format
/// defines it.
pub fn chat_request_json(r: &ChatRequest) -> (j: Json)
    ensures
        j.deep_view() == chat_request_to_json(r.deep_view()),
{
    let mut fields: Vec<(String, Json)> = Vec::new();
    push_field(&mut fields, "model", Json::Str(r.model.clone()));
    push_field(&mut fields, "messages", seal_arr(messages_json(&r.messages)));
    match &r.temperature {
        Some(t) => {
            push_field(&mut fields, "temperature", Json::Num(t.clone()));
        },
        None => {},
    }
    match &r.tools {
        Some(ts) => {
            push_field(&mut fields, "tools", seal_arr(tools_json(ts)));
        },
        None => {},
    }
    match &r.tool_choice {
        Some(c) => {
            push_field(&mut fields, "tool_choice", tool_choice_json(c));
        },
        None => {},
    }
    proof {
        assert(fields.deep_view() =~= chat_request_fields(r.deep_view()));
    }
    let j = seal_obj(fields);
    proof {
        assert(j.deep_view() =~~= chat_request_to_json(r.deep_view()));
    }
    j
}

/// Reads one optional string field: absent and `null` both mean empty;
/// any other non-string value is malformed.
fn get_opt_string(fields: &Vec<(String, Json)>, key: &String) -> (r: Result<Option<String>, LlmError>)
    ensures
        r matches Ok(v) ==> opt_string_of_json(fields.deep_view(), key@) == Some(v.deep_view()),
        r is Err ==> opt_string_of_json(fields.deep_view(), key@) is None,
        r matches Err(e) ==> e is Decode,
{
    match lookup(fields, key) {
        None => Ok(None),
        Some(j) => match j {
            Json::Null => Ok(None),
            Json::Str(v) => Ok(Some(v.clone())),
            _ => Err(LlmError::Decode("malformed response".to_owned())),
        },
    }
}

/// Reads a function call back from a document.
pub fn function_call_from_json(j: &Json) -> (r: Result<FunctionCall, LlmError>)
    ensures
        r matches Ok(v) ==> function_call_of_json(j.deep_view()) == Some(v.deep_view()),
        r is Err ==> function_call_of_json(j.deep_view()) is None,
        r matches Err(e) ==> e is Decode,
{
    let malformed = "malformed response";
    match j {
        Json::Obj(fields) => {
            proof {
                lemma_json_view_fields(fields@);
                assert(*j == Json::Obj(*fields));
                assert(json_view_fields(fields@) =~= fields.deep_view());
            }
            let name: String = match lookup(fields, &"name".to_owned()) {
                Some(nj) => match nj {
                    Json::Str(s) => s.clone(),
                    _ => {
                        return Err(LlmError::Decode(malformed.to_owned()));
                    },
                },
                _ => {
                    return Err(LlmError::Decode(malformed.to_owned()));
                },
            };
            let arguments: String = match lookup(fields, &"arguments".to_owned()) {
                Some(aj) => match aj {
                    Json::Str(s) => s.clone(),
                    _ => {
                        return Err(LlmError::Decode(malformed.to_owned()));
                    },
                },
                _ => {
                    return Err(LlmError::Decode(malformed.to_owned()));
                },
            };
            Ok(FunctionCall { name, arguments })
        },
        _ => Err(LlmError::Decode(malformed.to_owned())),
    }
}

/// Reads a tool call back from a document.
pub fn tool_call_from_json(j: &Json) -> (r: Result<ToolCall, LlmError>)
    ensures
        r matches Ok(v) ==> tool_call_of_json(j.deep_view()) == Some(v.deep_view()),
        r is Err ==> tool_call_of_json(j.deep_view()) is None,
        r matches Err(e) ==> e is Decode,
{
    let malformed = "malformed response";
    match j {
        Json::Obj(fields) => {
            proof {
                lemma_json_view_fields(fields@);
                assert(*j == Json::Obj(*fields));
                assert(json_view_fields(fields@) =~= fields.deep_view());
            }
            let id: String = match lookup(fields, &"id".to_owned()) {
                Some(nj) => match nj {
                    Json::Str(s) => s.clone(),
                    _ => {
                        return Err(LlmError::Decode(malformed.to_owned()));
                    },
                },
                _ => {
                    return Err(LlmError::Decode(malformed.to_owned()));
                },
            };
            let type_: String = match lookup(fields, &"type".to_owned()) {
                Some(nj) => match nj {
                    Json::Str(s) => s.clone(),
                    _ => {
                        return Err(LlmError::Decode(malformed.to_owned()));
                    },
                },
                _ => {
                    return Err(LlmError::Decode(malformed.to_owned()));
                },
            };
            let function: FunctionCall = match lookup(fields, &"function".to_owned()) {
                Some(fj) => match function_call_from_json(fj) {
                    Ok(f) => f,
                    Err(e) => {
                        return Err(e);
                    },
                },
                _ => {
                    return Err(LlmError::Decode(malformed.to_owned()));
                },
            };
            Ok(ToolCall { id, type_, function })
        },
        _ => Err(LlmError::Decode(malformed.to_owned())),
    }
}

/// Reads a batch of tool calls back from an array.
pub fn tool_calls_from_json(items: &Vec<Json>) -> (r: Result<Vec<ToolCall>, LlmError>)
    ensures
        r matches Ok(v) ==> tool_calls_of_json(items.deep_view()) == Some(v.deep_view()),
        r is Err ==> tool_calls_of_json(items.deep_view()) is None,
        r matches Err(e) ==> e is Decode,
{
    let ghost dv = items.deep_view();
    let mut out: Vec<ToolCall> = Vec::new();
    let mut i: usize = 0;
    while i < items.len()
        invariant
            dv == items.deep_view(),
            dv.len() == items@.len(),
            i <= items@.len(),
            out.deep_view().len() == i,
            forall|k: int|
                0 <= k < i ==> (#[trigger] tool_call_of_json(dv[k])) is Some
                    && tool_call_of_json(dv[k])->0 == out.deep_view()[k],
        decreases items@.len() - i,
    {
        proof {
            assert(dv[i as int] == items@[i as int].deep_view());
        }
        match tool_call_from_json(&items[i]) {
            Ok(t) => {
                let ghost tm = t;
                let ghost pre = out;
                out.push(t);
                proof {
                    crate::lemma_deep_view_push(pre, out, tm);
                }
            },
            Err(e) => {
                proof {
                    assert(tool_call_of_json(dv[i as int]) is None);
                    assert(!(forall|k: int|
                        0 <= k < dv.len() ==> (#[trigger] tool_call_of_json(dv[k])) is Some));
                }
                return Err(e);
            },
        }
        i = i + 1;
    }
    proof {
        assert(out.deep_view() =~= dv.map_values(|x: JsonV| tool_call_of_json(x)->0));
    }
    Ok(out)
}

/// Reads a conversation turn back from a document.
pub fn message_from_json(j: &Json) -> (r: Result<ChatMessage, LlmError>)
    ensures
        r matches Ok(v) ==> message_of_json(j.deep_view()) == Some(v.deep_view()),
        r is Err ==> message_of_json(j.deep_view()) is None,
        r matches Err(e) ==> e is Decode,
{
    let malformed = "malformed response";
    match j {
        Json::Obj(fields) => {
            proof {
                lemma_json_view_fields(fields@);
                assert(*j == Json::Obj(*fields));
                assert(json_view_fields(fields@) =~= fields.deep_view());
            }
            let role: String = match lookup(fields, &"role".to_owned()) {
                Some(nj) => match nj {
                    Json::Str(s) => s.clone(),
                    _ => {
                        return Err(LlmError::Decode(malformed.to_owned()));
                    },
                },
                _ => {
                    return Err(LlmError::Decode(malformed.to_owned()));
                },
            };
            let content: Option<String> = match get_opt_string(fields, &"content".to_owned()) {
                Ok(v) => v,
                Err(e) => {
                    return Err(e);
                },
            };
            let tool_call_id: Option<String> = match get_opt_string(
                fields,
                &"tool_call_id".to_owned(),
            ) {
                Ok(v) => v,
                Err(e) => {
                    return Err(e);
                },
            };
            let name: Option<String> = match get_opt_string(fields, &"name".to_owned()) {
                Ok(v) => v,
                Err(e) => {
                    return Err(e);
                },
            };
            let tool_calls: Option<Vec<ToolCall>> = match lookup(fields, &"tool_calls".to_owned()) {
                None => None,
                Some(tj) => match tj {
                    Json::Null => None,
                    Json::Arr(a) => {
                        proof {
                            lemma_json_view_seq(a@);
                            assert(*tj == Json::Arr(*a));
                            assert(json_view_seq(a@) =~= a.deep_view());
                        }
                        match tool_calls_from_json(a) {
                            Ok(tc) => Some(tc),
                            Err(e) => {
                                return Err(e);
                            },
                        }
                    },
                    _ => {
                        return Err(LlmError::Decode(malformed.to_owned()));
                    },
                },
            };
            Ok(ChatMessage { role, content, tool_calls, tool_call_id, name })
        },
        _ => Err(LlmError::Decode(malformed.to_owned())),
    }
}

/// Reads token accounting back from a document.
pub fn usage_from_json(j: &Json) -> (r: Result<Usage, LlmError>)
    ensures
        r matches Ok(v) ==> usage_of_json(j.deep_view()) == Some(v),
        r is Err ==> usage_of_json(j.deep_view()) is None,
        r matches Err(e) ==> e is Decode,
{
    let malformed = "malformed response";
    match j {
        Json::Obj(fields) => {
            proof {
                lemma_json_view_fields(fields@);
                assert(*j == Json::Obj(*fields));
                assert(json_view_fields(fields@) =~= fields.deep_view());
            }
            let prompt_tokens: i32 = match lookup(fields, &"prompt_tokens".to_owned()) {
                Some(nj) => match nj {
                    Json::Int(v) => {
                        if *v < i32::MIN as i64 || *v > i32::MAX as i64 {
                            return Err(LlmError::Decode(malformed.to_owned()));
                        }
                        #[verifier::truncate] (*v as i32)
                    },
                    _ => {
                        return Err(LlmError::Decode(malformed.to_owned()));
                    },
                },
                _ => {
                    return Err(LlmError::Decode(malformed.to_owned()));
                },
            };
            let completion_tokens: i32 = match lookup(fields, &"completion_tokens".to_owned()) {
                Some(nj) => match nj {
                    Json::Int(v) => {
                        if *v < i32::MIN as i64 || *v > i32::MAX as i64 {
                            return Err(LlmError::Decode(malformed.to_owned()));
                        }
                        #[verifier::truncate] (*v as i32)
                    },
                    _ => {
                        return Err(LlmError::Decode(malformed.to_owned()));
                    },
                },
                _ => {
                    return Err(LlmError::Decode(malformed.to_owned()));
                },
            };
            let total_tokens: i32 = match lookup(fields, &"total_tokens".to_owned()) {
                Some(nj) => match nj {
                    Json::Int(v) => {
                        if *v < i32::MIN as i64 || *v > i32::MAX as i64 {
                            return Err(LlmError::Decode(malformed.to_owned()));
                        }
                        #[verifier::truncate] (*v as i32)
                    },
                    _ => {
                        return Err(LlmError::Decode(malformed.to_owned()));
                    },
                },
                _ => {
                    return Err(LlmError::Decode(malformed.to_owned()));
                },
            };
            Ok(Usage { prompt_tokens, completion_tokens, total_tokens })
        },
        _ => Err(LlmError::Decode(malformed.to_owned())),
    }
}

/// Reads a streamed fragment back from a document.
pub fn delta_from_json(j: &Json) -> (r: Result<DeltaMessage, LlmError>)
    ensures
        r matches Ok(v) ==> delta_of_json(j.deep_view()) == Some(v.deep_view()),
        r is Err ==> delta_of_json(j.deep_view()) is None,
        r matches Err(e) ==> e is Decode,
{
    let malformed = "malformed response";
    match j {
        Json::Obj(fields) => {
            proof {
                lemma_json_view_fields(fields@);
                assert(*j == Json::Obj(*fields));
                assert(json_view_fields(fields@) =~= fields.deep_view());
            }
            let role: Option<String> = match get_opt_string(fields, &"role".to_owned()) {
                Ok(v) => v,
                Err(e) => {
                    return Err(e);
                },
            };
            let content: Option<String> = match get_opt_string(fields, &"content".to_owned()) {
                Ok(v) => v,
                Err(e) => {
                    return Err(e);
                },
            };
            let tool_calls: Option<Vec<ToolCall>> = match lookup(fields, &"tool_calls".to_owned()) {
                None => None,
                Some(tj) => match tj {
                    Json::Null => None,
                    Json::Arr(a) => {
                        proof {
                            lemma_json_view_seq(a@);
                            assert(*tj == Json::Arr(*a));
                            assert(json_view_seq(a@) =~= a.deep_view());
                        }
                        match tool_calls_from_json(a) {
                            Ok(tc) => Some(tc),
                            Err(e) => {
                                return Err(e);
                            },
                        }
                    },
                    _ => {
                        return Err(LlmError::Decode(malformed.to_owned()));
                    },
                },
            };
            Ok(DeltaMessage { role, content, tool_calls })
        },
        _ => Err(LlmError::Decode(malformed.to_owned())),
    }
}

/// Reads one choice back from a document.
pub fn alternative_from_json(j: &Json) -> (r: Result<Alternative, LlmError>)
    ensures
        r matches Ok(v) ==> alternative_of_json(j.deep_view()) == Some(v.deep_view()),
        r is Err ==> alternative_of_json(j.deep_view()) is None,
        r matches Err(e) ==> e is Decode,
{
    let malformed = "malformed response";
    match j {
        Json::Obj(fields) => {
            proof {
                lemma_json_view_fields(fields@);
                assert(*j == Json::Obj(*fields));
                assert(json_view_fields(fields@) =~= fields.deep_view());
            }
            let index: i32 = match lookup(fields, &"index".to_owned()) {
                Some(nj) => match nj {
                    Json::Int(v) => {
                        if *v < i32::MIN as i64 || *v > i32::MAX as i64 {
                            return Err(LlmError::Decode(malformed.to_owned()));
                        }
                        #[verifier::truncate] (*v as i32)
                    },
                    _ => {
                        return Err(LlmError::Decode(malformed.to_owned()));
                    },
                },
                _ => {
                    return Err(LlmError::Decode(malformed.to_owned()));
                },
            };
            let finish_reason: String = match lookup(fields, &"finish_reason".to_owned()) {
                Some(nj) => match nj {
                    Json::Str(s) => s.clone(),
                    _ => {
                        return Err(LlmError::Decode(malformed.to_owned()));
                    },
                },
                _ => {
                    return Err(LlmError::Decode(malformed.to_owned()));
                },
            };
            let message: Option<ChatMessage> = match lookup(fields, &"message".to_owned()) {
                None => None,
                Some(mj) => match mj {
                    Json::Null => None,
                    _ => match message_from_json(mj) {
                        Ok(m) => Some(m),
                        Err(e) => {
                            return Err(e);
                        },
                    },
                },
            };
            let delta: Option<DeltaMessage> = match lookup(fields, &"delta".to_owned()) {
                None => None,
                Some(dj) => match dj {
                    Json::Null => None,
                    _ => match delta_from_json(dj) {
                        Ok(d) => Some(d),
                        Err(e) => {
                            return Err(e);
                        },
                    },
                },
            };
            Ok(Alternative { index, message, finish_reason, delta })
        },
        _ => Err(LlmError::Decode(malformed.to_owned())),
    }
}

/// Reads the choice list back from an array.
pub fn alternatives_from_json(items: &Vec<Json>) -> (r: Result<Vec<Alternative>, LlmError>)
    ensures
        r matches Ok(v) ==> alternatives_of_json(items.deep_view()) == Some(v.deep_view()),
        r is Err ==> alternatives_of_json(items.deep_view()) is None,
        r matches Err(e) ==> e is Decode,
{
    let ghost dv = items.deep_view();
    let mut out: Vec<Alternative> = Vec::new();
    let mut i: usize = 0;
    while i < items.len()
        invariant
            dv == items.deep_view(),
            dv.len() == items@.len(),
            i <= items@.len(),
            out.deep_view().len() == i,
            forall|k: int|
                0 <= k < i ==> (#[trigger] alternative_of_json(dv[k])) is Some
                    && alternative_of_json(dv[k])->0 == out.deep_view()[k],
        decreases items@.len() - i,
    {
        proof {
            assert(dv[i as int] == items@[i as int].deep_view());
        }
        match alternative_from_json(&items[i]) {
            Ok(t) => {
                let ghost tm = t;
                let ghost pre = out;
                out.push(t);
                proof {
                    crate::lemma_deep_view_push(pre, out, tm);
                }
            },
            Err(e) => {
                proof {
                    assert(alternative_of_json(dv[i as int]) is None);
                    assert(!(forall|k: int|
                        0 <= k < dv.len() ==> (#[trigger] alternative_of_json(dv[k])) is Some));
                }
                return Err(e);
            },
        }
        i = i + 1;
    }
    proof {
        assert(out.deep_view() =~= dv.map_values(|x: JsonV| alternative_of_json(x)->0));
    }
    Ok(out)
}

/// Reads a whole chat response back from a document, exactly as the wire
/// format defines it; anything that does not match the schema is a decode
/// failure.
pub fn chat_response_from_json(j: &Json) -> (r: Result<ChatResponse, LlmError>)
    ensures
        r matches Ok(v) ==> chat_response_of_json(j.deep_view()) == Some(v.deep_view()),
        r is Err ==> chat_response_of_json(j.deep_view()) is None,
        r matches Err(e) ==> e is Decode,
{
    let malformed = "malformed response";
    match j {
        Json::Obj(fields) => {
            proof {
                lemma_json_view_fields(fields@);
                assert(*j == Json::Obj(*fields));
                assert(json_view_fields(fields@) =~= fields.deep_view());
            }
            let id: Option<String> = match get_opt_string(fields, &"id".to_owned()) {
                Ok(v) => v,
                Err(e) => {
                    return Err(e);
                },
            };
            let object: Option<String> = match get_opt_string(fields, &"object".to_owned()) {
                Ok(v) => v,
                Err(e) => {
                    return Err(e);
                },
            };
            let model: Option<String> = match get_opt_string(fields, &"model".to_owned()) {
                Ok(v) => v,
                Err(e) => {
                    return Err(e);
                },
            };
            let created: Option<i64> = match lookup(fields, &"created".to_owned()) {
                None => None,
                Some(cj) => match cj {
                    Json::Null => None,
                    Json::Int(c) => Some(*c),
                    _ => {
                        return Err(LlmError::Decode(malformed.to_owned()));
                    },
                },
            };
            let choices: Vec<Alternative> = match lookup(fields, &"choices".to_owned()) {
                Some(cj) => match cj {
                    Json::Arr(a) => {
                        proof {
                            lemma_json_view_seq(a@);
                            assert(*cj == Json::Arr(*a));
                            assert(json_view_seq(a@) =~= a.deep_view());
                        }
                        match alternatives_from_json(a) {
                            Ok(cs) => cs,
                            Err(e) => {
                                return Err(e);
                            },
                        }
                    },
                    _ => {
                        return Err(LlmError::Decode(malformed.to_owned()));
                    },
                },
                _ => {
                    return Err(LlmError::Decode(malformed.to_owned()));
                },
            };
            let usage: Option<Usage> = match lookup(fields, &"usage".to_owned()) {
                None => None,
                Some(uj) => match uj {
                    Json::Null => None,
                    _ => match usage_from_json(uj) {
                        Ok(u) => Some(u),
                        Err(e) => {
                            return Err(e);
                        },
                    },
                },
            };
            Ok(ChatResponse { id, object, created, model, choices, usage })
        },
        _ => Err(LlmError::Decode(malformed.to_owned())),
    }
}

/// An embedding request on the wire: the model and the input strings.
pub open spec fn embedded_request_to_json(r: EmbeddedRequestV) -> JsonV {
    JsonV::Obj(
        seq![
            ("model"@, JsonV::Str(r.model)),
            ("input"@, JsonV::Arr(r.input.map_values(|s: Seq<char>| JsonV::Str(s)))),
        ],
    )
}

/// Writes an embedding request as a document.
pub fn embedded_request_json(r: &EmbeddedRequest) -> (j: Json)
    ensures
        j.deep_view() == embedded_request_to_json(r.deep_view()),
{
    let mut items: Vec<Json> = Vec::new();
    let mut i: usize = 0;
    while i < r.input.len()
        invariant
            i <= r.input@.len(),
            items.deep_view() =~= r.input.deep_view().map_values(
                |s: Seq<char>| JsonV::Str(s),
            ).take(i as int),
        decreases r.input@.len() - i,
    {
        let c = Json::Str(r.input[i].clone());
        let ghost cm = c;
        let ghost pre = items;
        items.push(c);
        proof {
            crate::lemma_deep_view_push(pre, items, cm);
            assert(items.deep_view() =~= r.input.deep_view().map_values(
                |s: Seq<char>| JsonV::Str(s),
            ).take(i + 1));
        }
        i = i + 1;
    }
    proof {
        assert(items.deep_view() =~= r.input.deep_view().map_values(
            |s: Seq<char>| JsonV::Str(s),
        ));
    }
    let mut fields: Vec<(String, Json)> = Vec::new();
    push_field(&mut fields, "model", Json::Str(r.model.clone()));
    push_field(&mut fields, "input", seal_arr(items));
    proof {
        assert(fields.deep_view() =~= embedded_request_to_json(r.deep_view())->Obj_0);
    }
    let j = seal_obj(fields);
    proof {
        assert(j.deep_view() =~~= embedded_request_to_json(r.deep_view()));
    }
    j
}

/// Reads one embedding entry back from a document: its kind, its index,
/// the coordinate lexemes, and its token accounting.
pub open spec fn embedded_data_of_json(j: JsonV) -> Option<EmbeddedDataV> {
    match j {
        JsonV::Obj(fs) => match (vlookup(fs, "object"@), vlookup(fs, "index"@), vlookup(
            fs,
            "embedding"@,
        ), vlookup(fs, "usage"@)) {
            (
                Some(JsonV::Str(object)),
                Some(JsonV::Int(ix)),
                Some(JsonV::Arr(emb)),
                Some(JsonV::Obj(ufs)),
            ) => if 0 <= ix <= u32::MAX && (forall|i: int|
                0 <= i < emb.len() ==> (#[trigger] emb[i]) is Num) {
                match vlookup(ufs, "prompt_tokens"@) {
                    Some(JsonV::Int(pt)) => if 0 <= pt <= u32::MAX {
                        Some(
                            EmbeddedDataV {
                                object,
                                index: ix as u32,
                                embedding: emb.map_values(|e: JsonV| e->Num_0),
                                usage: EmbeddedUsage { prompt_tokens: pt as u32 },
                            },
                        )
                    } else {
                        None
                    },
                    _ => None,
                }
            } else {
                None
            },
            _ => None,
        },
        _ => None,
    }
}

/// Reads a list of embedding entries back from an array.
fn embedded_data_list_from_json(items: &Vec<Json>) -> (r: Result<Vec<EmbeddedData>, LlmError>)
    ensures
        r matches Ok(v) ==> ({
            &&& forall|i: int|
                0 <= i < items.deep_view().len() ==> (#[trigger] embedded_data_of_json(
                    items.deep_view()[i],
                )) is Some
            &&& v.deep_view() == items.deep_view().map_values(
                |d: JsonV| embedded_data_of_json(d)->0,
            )
        }),
        r is Err ==> !(forall|i: int|
            0 <= i < items.deep_view().len() ==> (#[trigger] embedded_data_of_json(
                items.deep_view()[i],
            )) is Some),
        r matches Err(e) ==> e is Decode,
{
    let ghost adv = items.deep_view();
    let mut out: Vec<EmbeddedData> = Vec::new();
    let mut i: usize = 0;
    while i < items.len()
        invariant
            adv == items.deep_view(),
            adv.len() == items@.len(),
            i <= items@.len(),
            out.deep_view().len() == i,
            forall|k: int|
                0 <= k < i ==> (#[trigger] embedded_data_of_json(adv[k])) is Some
                    && embedded_data_of_json(adv[k])->0 == out.deep_view()[k],
        decreases items@.len() - i,
    {
        proof {
            assert(adv[i as int] == items@[i as int].deep_view());
        }
        match embedded_data_from_json(&items[i]) {
            Ok(d) => {
                let ghost dm = d;
                let ghost pre = out;
                out.push(d);
                proof {
                    crate::lemma_deep_view_push(pre, out, dm);
                }
            },
            Err(e) => {
                proof {
                    assert(embedded_data_of_json(adv[i as int]) is None);
                }
                return Err(e);
            },
        }
        i = i + 1;
    }
    proof {
        assert(out.deep_view() =~= adv.map_values(|d: JsonV| embedded_data_of_json(d)->0));
    }
    Ok(out)
}

/// Reads an embedding response back from a document.
pub open spec fn embedded_response_of_json(j: JsonV) -> Option<EmbeddedResponseV> {
    match j {
        JsonV::Obj(fs) => match (vlookup(fs, "object"@), vlookup(fs, "model"@), vlookup(
            fs,
            "data"@,
        )) {
            (Some(JsonV::Str(object)), Some(JsonV::Str(model)), Some(JsonV::Arr(dj))) => if
                forall|i: int|
                0 <= i < dj.len() ==> (#[trigger] embedded_data_of_json(dj[i])) is Some {
                Some(
                    EmbeddedResponseV {
                        object,
                        model,
                        data: dj.map_values(|d: JsonV| embedded_data_of_json(d)->0),
                    },
                )
            } else {
                None
            },
            _ => None,
        },
        _ => None,
    }
}

/// Reads one embedding entry back from a document.
pub fn embedded_data_from_json(j: &Json) -> (r: Result<EmbeddedData, LlmError>)
    ensures
        r matches Ok(v) ==> embedded_data_of_json(j.deep_view()) == Some(v.deep_view()),
        r is Err ==> embedded_data_of_json(j.deep_view()) is None,
        r matches Err(e) ==> e is Decode,
{
    let malformed = "malformed response";
    match j {
        Json::Obj(fields) => {
            proof {
                lemma_json_view_fields(fields@);
                assert(*j == Json::Obj(*fields));
                assert(json_view_fields(fields@) =~= fields.deep_view());
            }
            let object: String = match lookup(fields, &"object".to_owned()) {
                Some(nj) => match nj {
                    Json::Str(s) => s.clone(),
                    _ => {
                        return Err(LlmError::Decode(malformed.to_owned()));
                    },
                },
                _ => {
                    return Err(LlmError::Decode(malformed.to_owned()));
                },
            };
            let index: u32 = match lookup(fields, &"index".to_owned()) {
                Some(nj) => match nj {
                    Json::Int(v) => {
                        if *v < 0 || *v > u32::MAX as i64 {
                            return Err(LlmError::Decode(malformed.to_owned()));
                        }
                        #[verifier::truncate] (*v as u32)
                    },
                    _ => {
                        return Err(LlmError::Decode(malformed.to_owned()));
                    },
                },
                _ => {
                    return Err(LlmError::Decode(malformed.to_owned()));
                },
            };
            let embedding: Vec<String> = match lookup(fields, &"embedding".to_owned()) {
                Some(ej) => match ej {
                    Json::Arr(a) => {
                        proof {
                            lemma_json_view_seq(a@);
                            assert(*ej == Json::Arr(*a));
                            assert(json_view_seq(a@) =~= a.deep_view());
                        }
                        let ghost adv = a.deep_view();
                        let mut out: Vec<String> = Vec::new();
                        let mut i: usize = 0;
                        let mut bad: bool = false;
                        while i < a.len()
                            invariant
                                adv == a.deep_view(),
                                adv.len() == a@.len(),
                                i <= a@.len(),
                                !bad ==> out.deep_view().len() == i,
                                !bad ==> forall|k: int|
                                    0 <= k < i ==> (#[trigger] adv[k]) is Num
                                        && adv[k]->Num_0 == out.deep_view()[k],
                                bad ==> exists|k: int|
                                    0 <= k < adv.len() && !((#[trigger] adv[k]) is Num),
                            decreases a@.len() - i,
                        {
                            proof {
                                assert(adv[i as int] == a@[i as int].deep_view());
                            }
                            match &a[i] {
                                Json::Num(n) => {
                                    let c = n.clone();
                                    let ghost cm = c;
                                    let ghost pre = out;
                                    out.push(c);
                                    proof {
                                        crate::lemma_deep_view_push(pre, out, cm);
                                    }
                                },
                                _ => {
                                    bad = true;
                                },
                            }
                            i = i + 1;
                        }
                        if bad {
                            return Err(LlmError::Decode(malformed.to_owned()));
                        }
                        proof {
                            assert(out.deep_view() =~= adv.map_values(|e: JsonV| e->Num_0));
                        }
                        out
                    },
                    _ => {
                        return Err(LlmError::Decode(malformed.to_owned()));
                    },
                },
                _ => {
                    return Err(LlmError::Decode(malformed.to_owned()));
                },
            };
            let usage: EmbeddedUsage = match lookup(fields, &"usage".to_owned()) {
                Some(uj) => match uj {
                    Json::Obj(ufields) => {
                        proof {
                            lemma_json_view_fields(ufields@);
                            assert(*uj == Json::Obj(*ufields));
                            assert(json_view_fields(ufields@) =~= ufields.deep_view());
                        }
                        match lookup(ufields, &"prompt_tokens".to_owned()) {
                            Some(pj) => match pj {
                                Json::Int(v) => {
                                    if *v < 0 || *v > u32::MAX as i64 {
                                        return Err(LlmError::Decode(malformed.to_owned()));
                                    }
                                    EmbeddedUsage {
                                        prompt_tokens: #[verifier::truncate] (*v as u32),
                                    }
                                },
                                _ => {
                                    return Err(LlmError::Decode(malformed.to_owned()));
                                },
                            },
                            _ => {
                                return Err(LlmError::Decode(malformed.to_owned()));
                            },
                        }
                    },
                    _ => {
                        return Err(LlmError::Decode(malformed.to_owned()));
                    },
                },
                _ => {
                    return Err(LlmError::Decode(malformed.to_owned()));
                },
            };
            Ok(EmbeddedData { object, index, embedding, usage })
        },
        _ => Err(LlmError::Decode(malformed.to_owned())),
    }
}

/// Reads an embedding response back from a document.
pub fn embedded_response_from_json(j: &Json) -> (r: Result<EmbeddedResponse, LlmError>)
    ensures
        r matches Ok(v) ==> embedded_response_of_json(j.deep_view()) == Some(v.deep_view()),
        r is Err ==> embedded_response_of_json(j.deep_view()) is None,
        r matches Err(e) ==> e is Decode,
{
    let malformed = "malformed response";
    match j {
        Json::Obj(fields) => {
            proof {
                lemma_json_view_fields(fields@);
                assert(*j == Json::Obj(*fields));
                assert(json_view_fields(fields@) =~= fields.deep_view());
            }
            let object: String = match lookup(fields, &"object".to_owned()) {
                Some(nj) => match nj {
                    Json::Str(s) => s.clone(),
                    _ => {
                        return Err(LlmError::Decode(malformed.to_owned()));
                    },
                },
                _ => {
                    return Err(LlmError::Decode(malformed.to_owned()));
                },
            };
            let model: String = match lookup(fields, &"model".to_owned()) {
                Some(nj) => match nj {
                    Json::Str(s) => s.clone(),
                    _ => {
                        return Err(LlmError::Decode(malformed.to_owned()));
                    },
                },
                _ => {
                    return Err(LlmError::Decode(malformed.to_owned()));
                },
            };
            let data: Vec<EmbeddedData> = match lookup(fields, &"data".to_owned()) {
                Some(dj) => match dj {
                    Json::Arr(a) => {
                        proof {
                            lemma_json_view_seq(a@);
                            assert(*dj == Json::Arr(*a));
                            assert(json_view_seq(a@) =~= a.deep_view());
                        }
                        match embedded_data_list_from_json(a) {
                            Ok(ds) => ds,
                            Err(e) => {
                                return Err(e);
                            },
                        }
                    },
                    _ => {
                        return Err(LlmError::Decode(malformed.to_owned()));
                    },
                },
                _ => {
                    return Err(LlmError::Decode(malformed.to_owned()));
                },
            };
            Ok(EmbeddedResponse { object, model, data })
        },
        _ => Err(LlmError::Decode(malformed.to_owned())),
    }
}

} // verus!
