//! What is made of the service's reply.

use vstd::prelude::*;
use serde_json::Value;
use crate::agent::json::{
    element, elements, keys, lemma_stands_further, length_at, member, nested_string_member, parse,
    parsed_string_members, stands_at, string_at, string_member, text_view, Step,
};
use crate::agent::service::{or_text, text_or};
use crate::agent::types::{AgentResponse, StreamEvent, ToolCall, ToolCallView};

verus! {

/// A tool call as it stands in the service's answer, each part present or not.
#[derive(Debug)]
pub struct RawToolCall {
    pub id: Option<String>,
    pub name: Option<String>,
    /// The arguments, as JSON text.
    pub arguments: Option<String>,
}

/// A raw tool call as the contracts see it.
pub ghost struct RawToolCallView {
    pub id: Option<Seq<char>>,
    pub name: Option<Seq<char>>,
    pub arguments: Option<Seq<char>>,
}

impl View for RawToolCall {
    type V = RawToolCallView;

    open spec fn view(&self) -> RawToolCallView {
        RawToolCallView {
            id: text_view(self.id),
            name: text_view(self.name),
            arguments: text_view(self.arguments),
        }
    }
}

impl DeepView for RawToolCall {
    type V = RawToolCallView;

    open spec fn deep_view(&self) -> RawToolCallView {
        self@
    }
}

/// The raw tool call in a JSON value: the identifier under `id`, and in the
/// object under `function` the name under `name` and the arguments under
/// `arguments`, each where it is a string.
pub open spec fn raw_call_in(call: Value) -> RawToolCallView {
    RawToolCallView {
        id: string_at(call, keys(seq!["id"@])),
        name: string_at(call, keys(seq!["function"@, "name"@])),
        arguments: string_at(call, keys(seq!["function"@, "arguments"@])),
    }
}

/// Reads the raw tool call in a JSON value.
pub fn raw_tool_call(call: &Value) -> (r: RawToolCall)
    ensures
        r@ == raw_call_in(*call),
{
    RawToolCall {
        id: string_member(call, "id"),
        name: nested_string_member(call, "function", "name"),
        arguments: nested_string_member(call, "function", "arguments"),
    }
}

/// Reads the raw tool calls in JSON values, one in each.
pub fn raw_tool_calls(calls: &Vec<Value>) -> (r: Vec<RawToolCall>)
    ensures
        r.deep_view() == calls@.map_values(|call: Value| raw_call_in(call)),
{
    let mut raws: Vec<RawToolCall> = Vec::new();
    let mut i: usize = 0;
    while i < calls.len()
        invariant
            i <= calls.len(),
            raws.len() == i,
            forall|j: int| 0 <= j < i ==> raws[j]@ == raw_call_in(calls[j]),
        decreases calls.len() - i,
    {
        raws.push(raw_tool_call(&calls[i]));
        i = i + 1;
    }
    assert(raws.deep_view() =~= calls@.map_values(|call: Value| raw_call_in(call)));
    raws
}

/// The call that a raw call stands for: it needs an identifier, a name and
/// arguments that are valid JSON.
pub open spec fn tool_call_of(raw: RawToolCallView) -> Option<ToolCallView> {
    match (raw.id, raw.name, raw.arguments) {
        (Some(id), Some(name), Some(arguments)) => match parsed_string_members(arguments) {
            Some(members) => Some(ToolCallView { id, name, arguments: members }),
            None => None,
        },
        _ => None,
    }
}

/// The view of a call that may be there.
pub open spec fn call_view(call: Option<ToolCall>) -> Option<ToolCallView> {
    match call {
        Some(call) => Some(call@),
        None => None,
    }
}

/// Makes a tool call of a raw one, parsing its arguments; `None` if a part
/// is missing or the arguments are not valid JSON.
pub fn tool_call_from_raw(raw: &RawToolCall) -> (r: Option<ToolCall>)
    ensures
        call_view(r) == tool_call_of(raw@),
{
    match (&raw.id, &raw.name, &raw.arguments) {
        (Some(id), Some(name), Some(arguments)) => match parse(arguments.as_str()) {
            Some(value) => Some(ToolCall { id: id.clone(), name: name.clone(), arguments: value }),
            None => None,
        },
        _ => None,
    }
}

/// The calls that raw calls stand for, in their order; those that stand for
/// none are left out.
pub open spec fn tool_calls_of(raws: Seq<RawToolCallView>) -> Seq<ToolCallView>
    decreases raws.len(),
{
    if raws.len() == 0 {
        Seq::<ToolCallView>::empty()
    } else {
        match tool_call_of(raws.last()) {
            Some(call) => tool_calls_of(raws.drop_last()).push(call),
            None => tool_calls_of(raws.drop_last()),
        }
    }
}

/// Makes tool calls of raw ones, leaving out those that come to nothing.
pub fn tool_calls_from_raw(raws: &Vec<RawToolCall>) -> (r: Vec<ToolCall>)
    ensures
        r.deep_view() == tool_calls_of(raws.deep_view()),
{
    let mut calls: Vec<ToolCall> = Vec::new();
    let mut i: usize = 0;
    assert(raws.deep_view().take(0) =~= Seq::<RawToolCallView>::empty());
    assert(calls.deep_view() =~= Seq::<ToolCallView>::empty());
    while i < raws.len()
        invariant
            i <= raws.len(),
            calls.deep_view() == tool_calls_of(raws.deep_view().take(i as int)),
        decreases raws.len() - i,
    {
        let ghost before = calls.deep_view();
        proof {
            assert(raws.deep_view().take(i + 1).drop_last() =~= raws.deep_view().take(i as int));
            assert(raws.deep_view().take(i + 1).last() == raws[i as int]@);
        }
        match tool_call_from_raw(&raws[i]) {
            Some(call) => {
                calls.push(call);
                assert(calls.deep_view() =~= before.push(call@));
            },
            None => {},
        }
        i = i + 1;
    }
    assert(raws.deep_view().take(raws.len() as int) =~= raws.deep_view());
    calls
}

/// The answer made of what was found in the service's reply: the content, or
/// none; the tool calls; the reason given for finishing, or `stop`.
pub fn response_from_parts(
    content: Option<String>,
    tool_calls: Vec<ToolCall>,
    finish_reason: Option<String>,
) -> (r: AgentResponse)
    ensures
        r.content@ == or_text(content, Seq::empty()),
        r.tool_calls == tool_calls,
        r.finish_reason@ == or_text(finish_reason, "stop"@),
{
    proof {
        reveal_strlit("");
        assert(""@ =~= Seq::<char>::empty());
    }
    AgentResponse {
        content: text_or(content, ""),
        tool_calls,
        finish_reason: text_or(finish_reason, "stop"),
    }
}

/// The first choice of the service's reply, each part present or not.
#[derive(Debug)]
pub struct RawChoice {
    /// The text of the message.
    pub content: Option<String>,
    /// The tool calls of the message.
    pub tool_calls: Option<Vec<RawToolCall>>,
    /// Why the model stopped.
    pub finish_reason: Option<String>,
}

/// The view of raw tool calls that may be there.
pub open spec fn raw_calls_view(tool_calls: Option<Vec<RawToolCall>>) -> Option<
    Seq<RawToolCallView>,
> {
    match tool_calls {
        Some(raws) => Some(raws.deep_view()),
        None => None,
    }
}

/// The tool calls that a choice stands for.
pub open spec fn choice_calls(tool_calls: Option<Seq<RawToolCallView>>) -> Seq<ToolCallView> {
    match tool_calls {
        Some(raws) => tool_calls_of(raws),
        None => Seq::<ToolCallView>::empty(),
    }
}

/// The answer that a choice stands for: its content, or none; its tool calls
/// as far as they come to anything; its reason for finishing, or `stop`.
pub fn response_from_choice(choice: RawChoice) -> (r: AgentResponse)
    ensures
        r.content@ == or_text(choice.content, Seq::empty()),
        r.tool_calls.deep_view() == choice_calls(raw_calls_view(choice.tool_calls)),
        r.finish_reason@ == or_text(choice.finish_reason, "stop"@),
{
    let tool_calls = match &choice.tool_calls {
        Some(raws) => tool_calls_from_raw(raws),
        None => {
            let none: Vec<ToolCall> = Vec::new();
            assert(none.deep_view() =~= Seq::<ToolCallView>::empty());
            none
        },
    };
    response_from_parts(choice.content, tool_calls, choice.finish_reason)
}

/// The raw tool calls in JSON values that may be there.
pub open spec fn raw_calls_in(calls: Option<&Vec<Value>>) -> Option<Seq<RawToolCallView>> {
    match calls {
        Some(calls) => Some(calls@.map_values(|call: Value| raw_call_in(call))),
        None => None,
    }
}

/// Reads a choice of the service's reply: in the object under `message` the
/// content under `content`, beside it the reason for finishing under
/// `finish_reason`, each where it is a string; and the raw tool calls in
/// `calls`, which are the elements of the message's `tool_calls` where that
/// is an array.
pub fn read_choice(choice: &Value, calls: Option<&Vec<Value>>) -> (r: RawChoice)
    ensures
        text_view(r.content) == string_at(*choice, keys(seq!["message"@, "content"@])),
        text_view(r.finish_reason) == string_at(*choice, keys(seq!["finish_reason"@])),
        raw_calls_view(r.tool_calls) == raw_calls_in(calls),
{
    RawChoice {
        content: nested_string_member(choice, "message", "content"),
        tool_calls: match calls {
            Some(calls) => Some(raw_tool_calls(calls)),
            None => None,
        },
        finish_reason: string_member(choice, "finish_reason"),
    }
}

/// The given text, or `fallback` where there is none.
pub open spec fn text_or_else(given: Option<Seq<char>>, fallback: Seq<char>) -> Seq<char> {
    match given {
        Some(text) => text,
        None => fallback,
    }
}

/// The answer in a choice of the service's reply, where `calls` are the
/// elements of the `tool_calls` of its message, if that is an array: the
/// content of the message, or none; the tool calls that come to anything;
/// the reason for finishing, or `stop`.
pub fn parse_choice(choice: &Value, calls: Option<&Vec<Value>>) -> (r: AgentResponse)
    ensures
        r.content@ == text_or_else(
            string_at(*choice, keys(seq!["message"@, "content"@])),
            Seq::empty(),
        ),
        r.tool_calls.deep_view() == choice_calls(raw_calls_in(calls)),
        r.finish_reason@ == text_or_else(string_at(*choice, keys(seq!["finish_reason"@])), "stop"@),
{
    response_from_choice(read_choice(choice, calls))
}

/// The raw tool call at the end of a path in a JSON value; see
/// [`raw_call_in`].
pub open spec fn raw_call_at(value: Value, path: Seq<Step>) -> RawToolCallView {
    RawToolCallView {
        id: string_at(value, path + keys(seq!["id"@])),
        name: string_at(value, path + keys(seq!["function"@, "name"@])),
        arguments: string_at(value, path + keys(seq!["function"@, "arguments"@])),
    }
}

/// The raw tool calls in the elements of the array at the end of a path in a
/// JSON value, if the path leads to an array.
pub open spec fn raw_calls_at(value: Value, path: Seq<Step>) -> Option<Seq<RawToolCallView>> {
    match length_at(value, path) {
        Some(length) => Some(
            Seq::new(length, |i: int| raw_call_at(value, path.push(Step::Index(i)))),
        ),
        None => None,
    }
}

/// The path to the choice that is read: the first of the reply's `choices`.
pub open spec fn first_choice() -> Seq<Step> {
    seq![Step::Key("choices"@), Step::Index(0)]
}

/// The path to the tool calls of the choice that is read.
pub open spec fn tool_calls_path() -> Seq<Step> {
    first_choice() + keys(seq!["message"@, "tool_calls"@])
}

/// A value that stands at the end of a path holds the raw tool call that
/// stands there.
proof fn lemma_raw_call_stands(call: Value, value: Value, path: Seq<Step>)
    requires
        stands_at(call, value, path),
    ensures
        raw_call_in(call) == raw_call_at(value, path),
{
    assert(string_at(call, keys(seq!["id"@])) == string_at(value, path + keys(seq!["id"@])));
    assert(string_at(call, keys(seq!["function"@, "name"@])) == string_at(
        value,
        path + keys(seq!["function"@, "name"@]),
    ));
    assert(string_at(call, keys(seq!["function"@, "arguments"@])) == string_at(
        value,
        path + keys(seq!["function"@, "arguments"@]),
    ));
}

/// Reads the service's reply: the answer is in the first of its `choices`.
/// The content is the string under `content` in the choice's `message`, or
/// none; the reason for finishing is the string under `finish_reason` in
/// the choice, or `stop`; the tool calls are those in the elements of the
/// message's `tool_calls`, where that is an array, as far as they come to
/// anything.
pub fn parse_response(reply: &Value) -> (r: AgentResponse)
    ensures
        r.content@ == text_or_else(
            string_at(*reply, first_choice() + keys(seq!["message"@, "content"@])),
            Seq::empty(),
        ),
        r.tool_calls.deep_view() == choice_calls(raw_calls_at(*reply, tool_calls_path())),
        r.finish_reason@ == text_or_else(
            string_at(*reply, first_choice() + keys(seq!["finish_reason"@])),
            "stop"@,
        ),
{
    let choices = member(reply, "choices");
    let choice = element(choices, 0);
    let message = member(choice, "message");
    let array = member(message, "tool_calls");
    let calls = elements(array);
    proof {
        let to_choices = seq![Step::Key("choices"@)];
        let to_first = seq![Step::Index(0)];
        let to_message = seq![Step::Key("message"@)];
        let to_array = seq![Step::Key("tool_calls"@)];
        lemma_stands_further(*choice, *choices, *reply, to_first, to_choices);
        assert(to_choices + to_first =~= first_choice());
        lemma_stands_further(*message, *choice, *reply, to_message, first_choice());
        lemma_stands_further(*array, *message, *reply, to_array, first_choice() + to_message);
        assert(first_choice() + to_message + to_array =~= tool_calls_path());
        // The content and the reason for finishing.
        assert(string_at(*choice, keys(seq!["message"@, "content"@])) == string_at(
            *reply,
            first_choice() + keys(seq!["message"@, "content"@]),
        ));
        assert(string_at(*choice, keys(seq!["finish_reason"@])) == string_at(
            *reply,
            first_choice() + keys(seq!["finish_reason"@]),
        ));
        // The tool calls.
        assert(length_at(*array, Seq::empty()) == length_at(
            *reply,
            tool_calls_path() + Seq::empty(),
        ));
        assert(tool_calls_path() + Seq::<Step>::empty() =~= tool_calls_path());
        match calls {
            Some(items) => {
                let found = items@.map_values(|call: Value| raw_call_in(call));
                let stated = raw_calls_at(*reply, tool_calls_path())->0;
                assert forall|i: int| 0 <= i < items.len() implies found[i] == stated[i] by {
                    let to_item = seq![Step::Index(i)];
                    assert(stands_at(items[i], *array, to_item));
                    lemma_stands_further(items[i], *array, *reply, to_item, tool_calls_path());
                    assert(tool_calls_path() + to_item =~= tool_calls_path().push(
                        Step::Index(i),
                    ));
                    lemma_raw_call_stands(
                        items[i],
                        *reply,
                        tool_calls_path().push(Step::Index(i)),
                    );
                }
                assert(found =~= stated);
            },
            None => {},
        }
        assert(raw_calls_in(calls) == raw_calls_at(*reply, tool_calls_path()));
    }
    parse_choice(choice, calls)
}

/// The events of a streamed answer. Streaming is not spoken with the service
/// yet: the events are the same whatever was asked.
pub fn stream_events() -> (r: Vec<StreamEvent>)
    ensures
        r.len() == 4,
        r[0] matches StreamEvent::TextDelta(text) && text@ == "Hello"@,
        r[1] matches StreamEvent::TextDelta(text) && text@ == " from"@,
        r[2] matches StreamEvent::TextDelta(text) && text@ == " agent!"@,
        r[3] is Done,
{
    let mut events: Vec<StreamEvent> = Vec::new();
    events.push(StreamEvent::TextDelta("Hello".to_owned()));
    events.push(StreamEvent::TextDelta(" from".to_owned()));
    events.push(StreamEvent::TextDelta(" agent!".to_owned()));
    events.push(StreamEvent::Done);
    events
}

} // verus!
