//! The JSON-RPC front-end: dispatch, the tool catalog, argument validation,
//! and the rendering of replies and failures.

use wsl_terminal::json::{jint, jstr, obj1, obj2, obj3, Json};
use wsl_terminal::json_text::to_json_string;
use wsl_terminal::mcp::server::{
    handle_request, parse_error_response, plan_tool_call, render_tool_reply,
    tool_get_themes, transport_error_message, Dispatch, PendingTool, ToolPlan,
};
use wsl_terminal::mcp::tools::get_tools;
use wsl_terminal::mcp::types::{ContentBlock, JsonRpcRequest, ToolResult};

fn request(method: &str, params: Json) -> JsonRpcRequest {
    JsonRpcRequest {
        jsonrpc: String::from("2.0"),
        id: Some(jint(1)),
        method: String::from(method),
        params,
    }
}

fn result_text(t: &ToolResult) -> String {
    let ContentBlock::Text { text } = &t.content[0];
    text.clone()
}

#[test]
fn initialize_answers_the_fixed_handshake() {
    let d = handle_request(&request("initialize", Json::Null));
    let Dispatch::Reply(resp) = d else { panic!("expected a reply") };
    let body = to_json_string(&resp.to_json());
    assert_eq!(
        body,
        "{\"jsonrpc\":\"2.0\",\"id\":1,\"result\":{\"protocolVersion\":\"2024-11-05\",\
         \"capabilities\":{\"tools\":{\"listChanged\":false}},\
         \"serverInfo\":{\"name\":\"wsl-terminal\",\"version\":\"0.4.0\"}}}"
    );
}

#[test]
fn initialized_and_ping_reply_with_empty_results() {
    let d = handle_request(&request("initialized", Json::Null));
    let Dispatch::Reply(resp) = d else { panic!("expected a reply") };
    assert_eq!(to_json_string(&resp.to_json()), "{\"jsonrpc\":\"2.0\",\"result\":{}}");

    let d = handle_request(&request("ping", Json::Null));
    let Dispatch::Reply(resp) = d else { panic!("expected a reply") };
    assert_eq!(to_json_string(&resp.to_json()), "{\"jsonrpc\":\"2.0\",\"id\":1,\"result\":{}}");
}

#[test]
fn an_unrecognized_method_is_method_not_found() {
    let d = handle_request(&request("tools/destroy", Json::Null));
    let Dispatch::Reply(resp) = d else { panic!("expected a reply") };
    let e = resp.error.expect("an error object");
    assert_eq!(e.code, -32601);
    assert_eq!(e.message, "Method not found: tools/destroy");
    assert!(resp.result.is_none());
}

#[test]
fn the_catalog_lists_sixteen_tools_with_their_schemas() {
    let tools = get_tools();
    assert_eq!(tools.len(), 16);
    let names: Vec<&str> = tools.iter().map(|t| t.name.as_str()).collect();
    assert_eq!(
        names,
        vec![
            "open_tab", "close_tab", "focus_tab", "get_tabs", "run_command", "get_output",
            "set_theme", "get_themes", "add_ssh", "remove_ssh", "list_ssh", "connect_ssh",
            "get_state", "show_window", "hide_window", "split_pane",
        ]
    );
    let close_schema = to_json_string(&tools[1].input_schema);
    assert_eq!(
        close_schema,
        "{\"type\":\"object\",\"properties\":{\"tab_id\":{\"type\":\"string\",\
         \"description\":\"The tab ID to close\"}},\"required\":[\"tab_id\"]}"
    );
    let d = handle_request(&request("tools/list", Json::Null));
    let Dispatch::Reply(resp) = d else { panic!("expected a reply") };
    let listing = to_json_string(&resp.to_json());
    assert!(listing.contains("\"inputSchema\""));
    assert!(listing.contains("split_pane"));
}

#[test]
fn an_unknown_tool_is_a_tool_error_not_a_transport_error() {
    let params = obj2("name", jstr("frobnicate"), "arguments", Json::empty_obj());
    let d = handle_request(&request("tools/call", params));
    let Dispatch::Reply(resp) = d else { panic!("expected a reply") };
    assert!(resp.error.is_none(), "must not be a JSON-RPC level error");
    let body = to_json_string(&resp.to_json());
    assert!(body.contains("\"isError\":true"));
    assert!(body.contains("Unknown tool: frobnicate"));
}

#[test]
fn bad_call_params_are_invalid_params() {
    let d = handle_request(&request("tools/call", Json::Null));
    let Dispatch::Reply(resp) = d else { panic!("expected a reply") };
    assert_eq!(resp.error.expect("an error object").code, -32602);

    let params = obj2("name", jstr("close_tab"), "arguments", Json::empty_obj());
    let d = handle_request(&request("tools/call", params));
    let Dispatch::Reply(resp) = d else { panic!("expected a reply") };
    assert!(resp.error.is_none());
    let body = to_json_string(&resp.to_json());
    assert!(body.contains("\"isError\":true"));
    assert!(body.contains("Invalid params: missing field `tab_id`"));
}

#[test]
fn a_valid_call_plans_its_round_trip() {
    let args = obj2("tab_id", jstr("t9"), "command", jstr("ls"));
    let params = obj2("name", jstr("run_command"), "arguments", args);
    let d = handle_request(&request("tools/call", params));
    let Dispatch::ToolCall { id, action, payload, pending } = d else {
        panic!("expected a round trip")
    };
    assert_eq!(to_json_string(&id.unwrap()), "1");
    assert_eq!(action, "run_command");
    assert_eq!(
        to_json_string(&payload),
        "{\"tab_id\":\"t9\",\"command\":\"ls\",\"wait_for_output\":false,\"timeout_ms\":5000}"
    );
    assert!(matches!(
        pending,
        PendingTool::RunCommand { wait_for_output: false, .. }
    ));
}

#[test]
fn split_pane_forwards_its_arguments_verbatim() {
    let args = obj3("tab_id", jstr("t"), "direction", jstr("vertical"), "odd", jint(1));
    let plan = plan_tool_call("split_pane", &args);
    let ToolPlan::RoundTrip { action, payload, pending } = plan else {
        panic!("expected a round trip")
    };
    assert_eq!(action, "split_pane");
    assert_eq!(to_json_string(&payload), to_json_string(&args));
    assert!(matches!(pending, PendingTool::SplitPane));
}

#[test]
fn every_listed_tool_accepts_minimal_valid_arguments() {
    for tool in get_tools() {
        let args = match tool.name.as_str() {
            "close_tab" | "focus_tab" | "get_output" => obj1("tab_id", jstr("")),
            "run_command" => obj2("tab_id", jstr(""), "command", jstr("")),
            "set_theme" => obj1("theme", jstr("")),
            "add_ssh" => obj3("name", jstr(""), "host", jstr(""), "user", jstr("")),
            "remove_ssh" | "connect_ssh" => obj1("id", jstr("")),
            "split_pane" => obj2("tab_id", jstr(""), "direction", jstr("horizontal")),
            _ => Json::empty_obj(),
        };
        match plan_tool_call(tool.name.as_str(), &args) {
            ToolPlan::RoundTrip { pending, .. } => {
                let transport_failure = transport_error_message(
                    "Connection refused (os error 111)",
                );
                let rendered = render_tool_reply(&pending, Err(transport_failure));
                assert_eq!(rendered.is_error, Some(true));
                assert!(result_text(&rendered).contains("Is WSL Terminal running?"));
            },
            ToolPlan::Immediate(t) => {
                assert_eq!(tool.name, "get_themes");
                assert!(t.is_error.is_none());
            },
        }
    }
}

#[test]
fn replies_render_into_their_tool_texts() {
    let reply = obj1("tab_id", jstr("abc123"));
    let t = render_tool_reply(&PendingTool::OpenTab { shell: String::from("wsl") }, Ok(reply));
    assert_eq!(result_text(&t), "Opened new wsl tab with ID: abc123");

    let t = render_tool_reply(
        &PendingTool::OpenTab { shell: String::from("cmd") },
        Ok(Json::empty_obj()),
    );
    assert_eq!(result_text(&t), "Opened new cmd tab with ID: unknown");

    let t = render_tool_reply(
        &PendingTool::RunCommand { tab_id: String::from("t"), wait_for_output: true },
        Ok(obj1("output", jstr("total 0\n"))),
    );
    assert_eq!(result_text(&t), "total 0\n");

    let t = render_tool_reply(
        &PendingTool::RunCommand { tab_id: String::from("t"), wait_for_output: false },
        Ok(Json::empty_obj()),
    );
    assert_eq!(result_text(&t), "Command sent to tab: t");

    let t = render_tool_reply(&PendingTool::GetState, Ok(obj1("theme", jstr("nord"))));
    assert_eq!(result_text(&t), "{\n  \"theme\": \"nord\"\n}");

    let t = render_tool_reply(&PendingTool::ShowWindow, Ok(Json::Null));
    assert_eq!(result_text(&t), "Window shown");
}

#[test]
fn the_theme_list_is_served_locally() {
    let t = tool_get_themes();
    let text = result_text(&t);
    assert_eq!(text.lines().count(), 32);
    assert!(text.starts_with("catppuccin-mocha\ndracula\n"));
    assert!(text.ends_with("\nvitesse-dark"));
}

#[test]
fn a_parse_failure_becomes_a_parse_error_response() {
    let resp = parse_error_response("expected value at line 1 column 1");
    let e = resp.error.expect("an error object");
    assert_eq!(e.code, -32700);
    assert_eq!(e.message, "Parse error: expected value at line 1 column 1");
    assert!(resp.id.is_none());
}
