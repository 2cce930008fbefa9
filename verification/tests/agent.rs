use agent_ui::agent::json::{nested_string_member, string_member};
use agent_ui::agent::response::{
    parse_choice, parse_response, raw_tool_call, raw_tool_calls, read_choice, response_from_choice,
    response_from_parts, stream_events, tool_call_from_raw, tool_calls_from_raw, RawChoice,
    RawToolCall,
};
use agent_ui::agent::service::{AgentConfig, AgentService};
use agent_ui::agent::turn::{AgentAction, AgentLoop, AgentPhase, MAX_ROUNDS};
use agent_ui::agent::tools::{
    get_available_tools, list_files_report, plan_tool, run_command_report, search_code_report,
    tool_result_text, write_file_report, ToolAction, ToolError,
};
use agent_ui::agent::types::{AgentRequest, AgentResponse, ChatMessage, StreamEvent, ToolCall};
use serde_json::Value;

fn json(text: &str) -> Value {
    serde_json::from_str(text).unwrap()
}

fn roles_and_contents(messages: &[ChatMessage]) -> Vec<(String, String)> {
    messages.iter().map(|m| (m.role.clone(), m.content.clone())).collect()
}

fn pair(role: &str, content: &str) -> (String, String) {
    (role.to_string(), content.to_string())
}

fn default_service() -> AgentService {
    AgentService::new(AgentConfig::from_settings(None, None, None))
}

#[test]
fn chat_messages_by_role() {
    let m = ChatMessage::user("a".to_string());
    assert_eq!((m.role.as_str(), m.content.as_str()), ("user", "a"));
    let m = ChatMessage::assistant("b".to_string());
    assert_eq!((m.role.as_str(), m.content.as_str()), ("assistant", "b"));
    let m = ChatMessage::system("c".to_string());
    assert_eq!((m.role.as_str(), m.content.as_str()), ("system", "c"));
    let m = ChatMessage::tool("d".to_string());
    assert_eq!((m.role.as_str(), m.content.as_str()), ("tool", "d"));
    let d = m.duplicate();
    assert_eq!((d.role.as_str(), d.content.as_str()), ("tool", "d"));
}

#[test]
fn the_catalogue_of_tools() {
    let tools = get_available_tools();
    let names: Vec<&str> = tools.iter().map(|t| t.name.as_str()).collect();
    assert_eq!(names, vec!["read_file", "write_file", "list_files", "search_code", "run_command"]);
    let descriptions: Vec<&str> = tools.iter().map(|t| t.description.as_str()).collect();
    assert_eq!(
        descriptions,
        vec![
            "Read the contents of a file",
            "Write content to a file",
            "List files in a directory",
            "Search for code patterns in the codebase",
            "Run a shell command",
        ]
    );
    let required: Vec<Vec<String>> = tools.iter().map(|t| t.parameters.required.clone()).collect();
    assert_eq!(
        required,
        vec![
            vec!["path".to_string()],
            vec!["path".to_string(), "content".to_string()],
            vec!["path".to_string()],
            vec!["query".to_string()],
            vec!["command".to_string()],
        ]
    );
    let properties: Vec<Vec<(String, String, String)>> = tools
        .iter()
        .map(|t| {
            t.parameters
                .properties
                .iter()
                .map(|p| (p.name.clone(), p.value_type.clone(), p.description.clone()))
                .collect()
        })
        .collect();
    let p = |name: &str, description: &str| {
        (name.to_string(), "string".to_string(), description.to_string())
    };
    assert_eq!(
        properties,
        vec![
            vec![p("path", "The path to the file to read")],
            vec![
                p("path", "The path to the file to write"),
                p("content", "The content to write to the file"),
            ],
            vec![p("path", "The directory path to list")],
            vec![p("query", "The search query"), p("path", "Optional path to search in")],
            vec![p("command", "The command to run"), p("cwd", "Working directory (optional)")],
        ]
    );
}

#[test]
fn plans_for_each_tool() {
    match plan_tool("read_file", &json(r#"{"path": "a.txt"}"#)) {
        Ok(ToolAction::ReadFile { path }) => assert_eq!(path, "a.txt"),
        other => panic!("{:?}", other),
    }
    match plan_tool("write_file", &json(r#"{"path": "a.txt", "content": "你好"}"#)) {
        Ok(ToolAction::WriteFile { path, content }) => {
            assert_eq!(path, "a.txt");
            assert_eq!(content, "你好");
        }
        other => panic!("{:?}", other),
    }
    match plan_tool("list_files", &json(r#"{"path": "src"}"#)) {
        Ok(ToolAction::ListFiles { path }) => assert_eq!(path, "src"),
        other => panic!("{:?}", other),
    }
    match plan_tool("search_code", &json(r#"{"query": "fn main", "path": "src"}"#)) {
        Ok(ToolAction::SearchCode { query }) => assert_eq!(query, "fn main"),
        other => panic!("{:?}", other),
    }
    match plan_tool("run_command", &json(r#"{"command": "ls", "cwd": "/tmp"}"#)) {
        Ok(ToolAction::RunCommand { command, cwd }) => {
            assert_eq!(command, "ls");
            assert_eq!(cwd, Some("/tmp".to_string()));
        }
        other => panic!("{:?}", other),
    }
    match plan_tool("run_command", &json(r#"{"command": "ls", "cwd": 3}"#)) {
        Ok(ToolAction::RunCommand { command, cwd }) => {
            assert_eq!(command, "ls");
            assert_eq!(cwd, None);
        }
        other => panic!("{:?}", other),
    }
}

#[test]
fn plans_fail_on_missing_arguments() {
    let missing = |name: &str, arguments: &str| match plan_tool(name, &json(arguments)) {
        Err(ToolError::Missing(key)) => key,
        other => panic!("{:?}", other),
    };
    assert_eq!(missing("read_file", "{}"), "path");
    assert_eq!(missing("read_file", r#"{"path": 3}"#), "path");
    assert_eq!(missing("read_file", r#"["path"]"#), "path");
    assert_eq!(missing("read_file", "null"), "path");
    assert_eq!(missing("read_file", r#""path""#), "path");
    assert_eq!(missing("write_file", r#"{"content": "x"}"#), "path");
    assert_eq!(missing("write_file", "{}"), "path");
    assert_eq!(missing("write_file", r#"{"path": "x"}"#), "content");
    assert_eq!(missing("list_files", r#"{"Path": "x"}"#), "path");
    assert_eq!(missing("search_code", r#"{"path": "x"}"#), "query");
    assert_eq!(missing("run_command", r#"{"cwd": "x"}"#), "command");
}

#[test]
fn plans_fail_on_unknown_tools() {
    match plan_tool("delete_file", &json(r#"{"path": "a.txt"}"#)) {
        Err(ToolError::UnknownTool(name)) => assert_eq!(name, "delete_file"),
        other => panic!("{:?}", other),
    }
    match plan_tool("", &json("{}")) {
        Err(ToolError::UnknownTool(name)) => assert_eq!(name, ""),
        other => panic!("{:?}", other),
    }
    match plan_tool("Read_file", &json(r#"{"path": "a.txt"}"#)) {
        Err(ToolError::UnknownTool(name)) => assert_eq!(name, "Read_file"),
        other => panic!("{:?}", other),
    }
}

#[test]
fn errors_in_words() {
    assert_eq!(ToolError::Missing("path".to_string()).message(), "Missing path");
    assert_eq!(ToolError::UnknownTool("x".to_string()).message(), "Unknown tool: x");
    assert_eq!(ToolError::Failed("No such file".to_string()).message(), "No such file");
}

#[test]
fn reports() {
    assert_eq!(write_file_report("a.txt"), "Successfully wrote to a.txt");
    assert_eq!(search_code_report("fn main"), "Searching for: fn main");
    assert_eq!(list_files_report(&vec!["a".to_string(), "b".to_string()]), "a\nb");
    assert_eq!(list_files_report(&Vec::new()), "");
    assert_eq!(run_command_report(true, "out", "err"), "out");
    assert_eq!(run_command_report(false, "out", "err"), "Error:\nout\nerr");
    assert_eq!(run_command_report(false, "", ""), "Error:\n\n");
}

#[test]
fn tool_results_for_the_transcript() {
    assert_eq!(tool_result_text(Ok("fine".to_string())), "fine");
    assert_eq!(
        tool_result_text(Err(ToolError::Missing("path".to_string()))),
        "Error: Missing path"
    );
    assert_eq!(
        tool_result_text(Err(ToolError::UnknownTool("x".to_string()))),
        "Error: Unknown tool: x"
    );
    assert_eq!(tool_result_text(Err(ToolError::Failed("denied".to_string()))), "Error: denied");
}

#[test]
fn configuration_defaults() {
    let config = AgentConfig::from_settings(None, None, None);
    assert_eq!(config.api_key, "");
    assert_eq!(config.api_base, "https://api.openai.com/v1");
    assert_eq!(config.model, "gpt-4");
    let config = AgentConfig::from_settings(
        Some("k".to_string()),
        Some("http://localhost:1/v1".to_string()),
        Some("m".to_string()),
    );
    assert_eq!(config.api_key, "k");
    assert_eq!(config.api_base, "http://localhost:1/v1");
    assert_eq!(config.model, "m");
}

#[test]
fn endpoint_and_authorization() {
    let service = AgentService::new(AgentConfig::from_settings(
        Some("SECRET".to_string()),
        Some("http://host/v1".to_string()),
        None,
    ));
    assert_eq!(service.endpoint(), "http://host/v1/chat/completions");
    assert_eq!(service.authorization(), "Bearer SECRET");
    assert_eq!(service.config().model, "gpt-4");
}

#[test]
fn requests_offer_every_tool() {
    let service = default_service();
    let request = service.message_request(vec![ChatMessage::user("hi".to_string())]);
    assert!(!request.stream);
    assert_eq!(roles_and_contents(&request.messages), vec![pair("user", "hi")]);
    assert_eq!(request.tools.as_ref().map(|t| t.len()), Some(5));
    let request = service.stream_request(Vec::new());
    assert!(request.stream);
    assert!(request.messages.is_empty());
    assert_eq!(request.tools.as_ref().unwrap()[4].name, "run_command");
}

#[test]
fn the_body_wraps_tools_as_functions() {
    let service = default_service();
    let request = service.message_request(vec![
        ChatMessage::system("be brief".to_string()),
        ChatMessage::user("hi".to_string()),
    ]);
    let body = service.build_api_request(&request);
    assert_eq!(body.model, "gpt-4");
    assert!(!body.stream);
    assert_eq!(
        roles_and_contents(&body.messages),
        vec![pair("system", "be brief"), pair("user", "hi")]
    );
    assert_eq!(body.tool_choice, Some("auto".to_string()));
    let tools = body.tools.unwrap();
    assert_eq!(tools.len(), 5);
    for (tool, offered) in tools.iter().zip(get_available_tools().iter()) {
        assert_eq!(tool.kind, "function");
        assert_eq!(tool.function.name, offered.name);
        assert_eq!(tool.function.description, offered.description);
        assert_eq!(tool.function.parameters.required, offered.parameters.required);
        assert_eq!(
            tool.function.parameters.properties.len(),
            offered.parameters.properties.len()
        );
        for (p, q) in tool
            .function
            .parameters
            .properties
            .iter()
            .zip(offered.parameters.properties.iter())
        {
            assert_eq!(p.name, q.name);
            assert_eq!(p.value_type, q.value_type);
            assert_eq!(p.description, q.description);
        }
    }
}

#[test]
fn the_body_without_tools_has_no_choice() {
    let service = default_service();
    let request = AgentRequest {
        messages: vec![ChatMessage::user("hi".to_string())],
        tools: None,
        stream: true,
    };
    let body = service.build_api_request(&request);
    assert!(body.stream);
    assert!(body.tools.is_none());
    assert_eq!(body.tool_choice, None);
}

#[test]
fn raw_tool_calls_need_every_part() {
    let raw = |id: Option<&str>, name: Option<&str>, arguments: Option<&str>| RawToolCall {
        id: id.map(String::from),
        name: name.map(String::from),
        arguments: arguments.map(String::from),
    };
    let call = tool_call_from_raw(&raw(Some("c1"), Some("read_file"), Some(r#"{"path": "a"}"#)))
        .unwrap();
    assert_eq!(call.id, "c1");
    assert_eq!(call.name, "read_file");
    assert_eq!(call.arguments, json(r#"{"path": "a"}"#));
    assert!(tool_call_from_raw(&raw(None, Some("n"), Some("{}"))).is_none());
    assert!(tool_call_from_raw(&raw(Some("c"), None, Some("{}"))).is_none());
    assert!(tool_call_from_raw(&raw(Some("c"), Some("n"), None)).is_none());
    assert!(tool_call_from_raw(&raw(Some("c"), Some("n"), Some("{"))).is_none());
    assert!(tool_call_from_raw(&raw(Some("c"), Some("n"), Some(""))).is_none());
    assert!(tool_call_from_raw(&raw(Some("c"), Some("n"), Some("{} x"))).is_none());
    let call = tool_call_from_raw(&raw(Some("c"), Some("n"), Some("[1, 2]"))).unwrap();
    assert_eq!(call.arguments, json("[1,2]"));
}

#[test]
fn raw_tool_calls_that_come_to_nothing_are_left_out() {
    let raw = |id: Option<&str>, arguments: &str| RawToolCall {
        id: id.map(String::from),
        name: Some("n".to_string()),
        arguments: Some(arguments.to_string()),
    };
    let raws = vec![
        raw(Some("a"), "{}"),
        raw(None, "{}"),
        raw(Some("b"), "}"),
        raw(Some("c"), "null"),
    ];
    let calls = tool_calls_from_raw(&raws);
    let ids: Vec<&str> = calls.iter().map(|c| c.id.as_str()).collect();
    assert_eq!(ids, vec!["a", "c"]);
    assert!(tool_calls_from_raw(&Vec::new()).is_empty());
}

#[test]
fn responses_from_choices() {
    let response =
        response_from_choice(RawChoice { content: None, tool_calls: None, finish_reason: None });
    assert_eq!(response.content, "");
    assert!(response.tool_calls.is_empty());
    assert_eq!(response.finish_reason, "stop");
    let response = response_from_choice(RawChoice {
        content: Some("text".to_string()),
        tool_calls: Some(vec![
            RawToolCall {
                id: Some("a".to_string()),
                name: Some("list_files".to_string()),
                arguments: Some(r#"{"path": "."}"#.to_string()),
            },
            RawToolCall { id: Some("b".to_string()), name: None, arguments: None },
        ]),
        finish_reason: Some("length".to_string()),
    });
    assert_eq!(response.content, "text");
    assert_eq!(response.finish_reason, "length");
    assert_eq!(response.tool_calls.len(), 1);
    assert_eq!(response.tool_calls[0].name, "list_files");
    assert_eq!(response.tool_calls[0].arguments, json(r#"{"path": "."}"#));
}

#[test]
fn responses_from_parts() {
    let response = response_from_parts(None, Vec::new(), None);
    assert_eq!(response.content, "");
    assert!(response.tool_calls.is_empty());
    assert_eq!(response.finish_reason, "stop");
    let call = ToolCall { id: "c".to_string(), name: "n".to_string(), arguments: json("{}") };
    let response =
        response_from_parts(Some("hi".to_string()), vec![call], Some("tool_calls".to_string()));
    assert_eq!(response.content, "hi");
    assert_eq!(response.tool_calls.len(), 1);
    assert_eq!(response.tool_calls[0].id, "c");
    assert_eq!(response.finish_reason, "tool_calls");
}

#[test]
fn a_plain_reply_is_read() {
    let reply = json(
        r#"{"choices": [{"message": {"role": "assistant", "content": "Hello!"}, "finish_reason": "stop"}]}"#,
    );
    let response = parse_response(&reply);
    assert_eq!(response.content, "Hello!");
    assert!(response.tool_calls.is_empty());
    assert_eq!(response.finish_reason, "stop");
}

#[test]
fn a_reply_with_tool_calls_is_read() {
    let reply = json(
        r#"{"choices": [{"message": {"content": null, "tool_calls": [
            {"id": "c1", "type": "function", "function": {"name": "read_file", "arguments": "{\"path\": \"a.txt\"}"}},
            {"id": "c2", "function": {"name": "broken", "arguments": "{not json"}},
            {"function": {"name": "no_id", "arguments": "{}"}},
            {"id": "c4", "function": {"arguments": "{}"}},
            {"id": "c5", "function": {"name": "no_arguments"}},
            {"id": "c6", "function": {"name": "object_arguments", "arguments": {"path": "x"}}},
            {"id": "c7", "function": {"name": "run_command", "arguments": "{\"command\": \"ls\"}"}}
        ]}, "finish_reason": "tool_calls"}, {"message": {"content": "second"}}]}"#,
    );
    let response = parse_response(&reply);
    assert_eq!(response.content, "");
    assert_eq!(response.finish_reason, "tool_calls");
    let calls: Vec<(&str, &str)> =
        response.tool_calls.iter().map(|c| (c.id.as_str(), c.name.as_str())).collect();
    assert_eq!(calls, vec![("c1", "read_file"), ("c7", "run_command")]);
    assert_eq!(response.tool_calls[0].arguments, json(r#"{"path": "a.txt"}"#));
    match plan_tool(&response.tool_calls[1].name, &response.tool_calls[1].arguments) {
        Ok(ToolAction::RunCommand { command, cwd }) => {
            assert_eq!(command, "ls");
            assert_eq!(cwd, None);
        }
        other => panic!("{:?}", other),
    }
}

#[test]
fn a_reply_of_another_shape_gives_defaults() {
    for text in ["{}", "[]", "null", "3", r#"{"choices": []}"#, r#"{"choices": {"0": 1}}"#,
        r#"{"choices": [{"message": {"content": 5, "tool_calls": {"id": "x"}}, "finish_reason": 7}]}"#]
    {
        let response = parse_response(&json(text));
        assert_eq!(response.content, "", "{}", text);
        assert!(response.tool_calls.is_empty(), "{}", text);
        assert_eq!(response.finish_reason, "stop", "{}", text);
    }
}

#[test]
fn the_stream_is_fixed() {
    let events = stream_events();
    assert_eq!(events.len(), 4);
    let texts: Vec<String> = events
        .iter()
        .filter_map(|e| match e {
            StreamEvent::TextDelta(text) => Some(text.clone()),
            _ => None,
        })
        .collect();
    assert_eq!(texts, vec!["Hello", " from", " agent!"]);
    assert!(matches!(events[3], StreamEvent::Done));
    assert!(matches!(events[0], StreamEvent::TextDelta(_)));
}

fn answer(content: &str, calls: usize) -> AgentResponse {
    let mut tool_calls = Vec::new();
    for i in 0..calls {
        tool_calls.push(ToolCall {
            id: format!("c{}", i),
            name: "search_code".to_string(),
            arguments: json(r#"{"query": "x"}"#),
        });
    }
    AgentResponse {
        content: content.to_string(),
        tool_calls,
        finish_reason: "stop".to_string(),
    }
}

#[test]
fn a_turn_without_tools_ends_with_the_answer() {
    let mut turn = AgentLoop::new("hi".to_string());
    assert_eq!(turn.phase(), AgentPhase::AwaitingResponse);
    assert_eq!(roles_and_contents(&turn.transcript()), vec![pair("user", "hi")]);
    match turn.on_response(answer("hello", 0)) {
        AgentAction::Finish(text) => assert_eq!(text, "hello"),
        other => panic!("{:?}", other),
    }
    assert_eq!(turn.phase(), AgentPhase::Finished);
    assert_eq!(turn.final_response(), "hello");
    assert_eq!(
        roles_and_contents(&turn.transcript()),
        vec![pair("user", "hi"), pair("assistant", "hello")]
    );
}

#[test]
fn an_empty_answer_leaves_the_transcript_alone() {
    let mut turn = AgentLoop::new("hi".to_string());
    match turn.on_response(answer("", 0)) {
        AgentAction::Finish(text) => assert_eq!(text, ""),
        other => panic!("{:?}", other),
    }
    assert_eq!(roles_and_contents(&turn.transcript()), vec![pair("user", "hi")]);
}

#[test]
fn tool_results_join_the_transcript() {
    let mut turn = AgentLoop::new("hi".to_string());
    match turn.on_response(answer("let me look", 2)) {
        AgentAction::Execute(calls) => {
            assert_eq!(calls.len(), 2);
            assert_eq!(calls[0].id, "c0");
            assert_eq!(calls[1].id, "c1");
        }
        other => panic!("{:?}", other),
    }
    assert_eq!(turn.phase(), AgentPhase::AwaitingTools);
    let results = vec![pair("c0", "first"), pair("c1", "second")];
    match turn.on_tool_results(results) {
        AgentAction::Send(transcript) => assert_eq!(
            roles_and_contents(&transcript),
            vec![
                pair("user", "hi"),
                pair("assistant", "let me look"),
                pair("tool", "first"),
                pair("tool", "second"),
            ]
        ),
        other => panic!("{:?}", other),
    }
    assert_eq!(turn.phase(), AgentPhase::AwaitingResponse);
    assert_eq!(turn.rounds(), 1);
    match turn.on_response(answer("", 1)) {
        AgentAction::Execute(calls) => assert_eq!(calls.len(), 1),
        other => panic!("{:?}", other),
    }
    assert_eq!(turn.final_response(), "let me look");
    turn.on_tool_results(Vec::new());
    match turn.on_response(answer("done", 0)) {
        AgentAction::Finish(text) => assert_eq!(text, "done"),
        other => panic!("{:?}", other),
    }
}

#[test]
fn a_turn_asks_at_most_ten_times() {
    assert_eq!(MAX_ROUNDS, 10);
    let mut turn = AgentLoop::new("hi".to_string());
    let mut asked = 1;
    loop {
        match turn.on_response(answer("working", 1)) {
            AgentAction::Execute(_) => {}
            other => panic!("{:?}", other),
        }
        match turn.on_tool_results(vec![pair("c0", "r")]) {
            AgentAction::Send(_) => asked += 1,
            AgentAction::Finish(text) => {
                assert_eq!(text, "working");
                break;
            }
            other => panic!("{:?}", other),
        }
    }
    assert_eq!(asked, 10);
    assert_eq!(turn.rounds(), 10);
    assert_eq!(turn.phase(), AgentPhase::Finished);
    assert_eq!(turn.transcript().len(), 21);
}

#[test]
fn every_tool_of_the_catalogue_can_be_planned() {
    for tool in get_available_tools() {
        let mut object = serde_json::Map::new();
        for key in &tool.parameters.required {
            object.insert(key.clone(), Value::String("x".to_string()));
        }
        assert!(plan_tool(&tool.name, &Value::Object(object.clone())).is_ok(), "{}", tool.name);
        for key in &tool.parameters.required {
            let mut fewer = object.clone();
            fewer.remove(key);
            match plan_tool(&tool.name, &Value::Object(fewer)) {
                Err(ToolError::Missing(missing)) => assert_eq!(&missing, key),
                other => panic!("{:?}", other),
            }
        }
    }
}

#[test]
fn strings_are_found_by_key() {
    let value = json(r#"{"a": "x", "b": 3, "c": {"d": "y", "e": ["z"]}, "f": null, "": "empty"}"#);
    assert_eq!(string_member(&value, "a"), Some("x".to_string()));
    assert_eq!(string_member(&value, "b"), None);
    assert_eq!(string_member(&value, "c"), None);
    assert_eq!(string_member(&value, "f"), None);
    assert_eq!(string_member(&value, "missing"), None);
    assert_eq!(string_member(&value, ""), Some("empty".to_string()));
    assert_eq!(nested_string_member(&value, "c", "d"), Some("y".to_string()));
    assert_eq!(nested_string_member(&value, "c", "e"), None);
    assert_eq!(nested_string_member(&value, "a", "d"), None);
    assert_eq!(nested_string_member(&value, "missing", "d"), None);
    assert_eq!(string_member(&json(r#"["a"]"#), "0"), None);
    assert_eq!(string_member(&json(r#""a""#), "a"), None);
}

#[test]
fn raw_tool_calls_are_read_part_by_part() {
    let raw = raw_tool_call(&json(
        r#"{"id": "c1", "function": {"name": "read_file", "arguments": "{}"}}"#,
    ));
    assert_eq!(raw.id, Some("c1".to_string()));
    assert_eq!(raw.name, Some("read_file".to_string()));
    assert_eq!(raw.arguments, Some("{}".to_string()));
    let raw = raw_tool_call(&json(r#"{"id": 7, "function": {"name": null}, "name": "top"}"#));
    assert_eq!(raw.id, None);
    assert_eq!(raw.name, None);
    assert_eq!(raw.arguments, None);
    let raw = raw_tool_call(&json(r#"{"function": "name"}"#));
    assert_eq!((raw.id, raw.name, raw.arguments), (None, None, None));
    let raws = raw_tool_calls(&vec![json(r#"{"id": "a"}"#), json("[]"), json(r#"{"id": "b"}"#)]);
    let ids: Vec<Option<String>> = raws.into_iter().map(|raw| raw.id).collect();
    assert_eq!(ids, vec![Some("a".to_string()), None, Some("b".to_string())]);
}

#[test]
fn a_choice_is_read_part_by_part() {
    let choice = json(
        r#"{"message": {"content": "hi", "tool_calls": "none"}, "finish_reason": "length"}"#,
    );
    let raw = read_choice(&choice, None);
    assert_eq!(raw.content, Some("hi".to_string()));
    assert_eq!(raw.finish_reason, Some("length".to_string()));
    assert!(raw.tool_calls.is_none());
    let calls = vec![json(r#"{"id": "a"}"#)];
    let raw = read_choice(&json(r#"{"content": "top", "message": {}}"#), Some(&calls));
    assert_eq!(raw.content, None);
    assert_eq!(raw.finish_reason, None);
    assert_eq!(raw.tool_calls.map(|raws| raws.len()), Some(1));
}

#[test]
fn a_choice_is_parsed() {
    let choice = json(r#"{"message": {"content": "hi"}, "finish_reason": "tool_calls"}"#);
    let calls = vec![
        json(r#"{"id": "a", "function": {"name": "list_files", "arguments": "{\"path\": \".\"}"}}"#),
        json(r#"{"id": "b", "function": {"name": "list_files", "arguments": "nonsense"}}"#),
    ];
    let response = parse_choice(&choice, Some(&calls));
    assert_eq!(response.content, "hi");
    assert_eq!(response.finish_reason, "tool_calls");
    assert_eq!(response.tool_calls.len(), 1);
    assert_eq!(response.tool_calls[0].id, "a");
    let response = parse_choice(&json("{}"), None);
    assert_eq!(response.content, "");
    assert_eq!(response.finish_reason, "stop");
    assert!(response.tool_calls.is_empty());
}

#[test]
fn only_the_first_choice_is_read() {
    let reply = json(
        r#"{"choices": [
            {"message": {"content": "first", "tool_calls": []}, "finish_reason": "stop"},
            {"message": {"content": "second", "tool_calls": [
                {"id": "x", "function": {"name": "list_files", "arguments": "{}"}}
            ]}, "finish_reason": "length"}
        ]}"#,
    );
    let response = parse_response(&reply);
    assert_eq!(response.content, "first");
    assert_eq!(response.finish_reason, "stop");
    assert!(response.tool_calls.is_empty());
    let reply = json(r#"{"choices": {"0": {"message": {"content": "keyed"}}}}"#);
    assert_eq!(parse_response(&reply).content, "");
    let reply = json(r#"[{"message": {"content": "bare"}}]"#);
    assert_eq!(parse_response(&reply).content, "");
}
