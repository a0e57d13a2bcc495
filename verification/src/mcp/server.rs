//! The tool protocol's decisions: how a request is dispatched, what each
//! tool call plans for its control-plane round trip, and how the reply — or
//! the transport failure — is rendered for the caller.
//!
//! The standard-input loop, the socket connect and the timeout live at the
//! process edge; they hand these functions parsed documents and take typed
//! answers back.  A bad line never stops the loop: every fault becomes a
//! JSON-RPC error or a tool-level error result, and reading goes on.

use vstd::prelude::*;

use crate::json::{spec_get, Json, JsonView};
use crate::json_text::json_pretty;
use crate::mcp::tools::{get_tools, is_catalog_name};
use crate::mcp::types::{
    add_ssh_parse_ok, call_tool_parse_ok, close_tab_parse_ok, connect_ssh_parse_ok,
    content_block_json, content_blocks_json, def_bool, def_str, def_uint, focus_tab_parse_ok,
    get_output_parse_ok, id_view, is_error_result, is_text_result, open_tab_parse_ok, opt_str, req_str,
    remove_ssh_parse_ok, run_command_parse_ok, set_theme_parse_ok, tool_info_json,
    tool_infos_json, tool_result_json, u64_json, dup_id, AddSshParams, CallToolParams, Capabilities,
    CloseTabParams, ConnectSshParams, FocusTabParams, GetOutputParams, InitializeResult,
    JsonRpcRequest, JsonRpcResponse, ListToolsResult, OpenTabParams, RemoveSshParams,
    RunCommandParams, ServerInfo, SetThemeParams, ToolInfo, ToolResult, ToolsCapability,
};

verus! {

broadcast use vstd::string::group_string_axioms;

/// A string field of a reply document, with the fallback the rendering uses
/// where the field is missing or no string.
pub open spec fn str_field_or(v: JsonView, key: Seq<char>, dflt: Seq<char>) -> Seq<char> {
    match spec_get(v, key) {
        Some(JsonView::Str(s)) => s,
        _ => dflt,
    }
}

/// A response is the success carrying `result` for the request with this id.
pub open spec fn is_success_json(
    resp: JsonRpcResponse,
    id: Option<JsonView>,
    result: JsonView,
) -> bool {
    &&& resp.jsonrpc@ == "2.0"@
    &&& id_view(resp.id) == id
    &&& resp.result matches Some(v) && v@ == result
    &&& resp.error is None
}

/// A response is the JSON-RPC error with this code for the request with
/// this id.
pub open spec fn is_rpc_error(resp: JsonRpcResponse, id: Option<JsonView>, code: int) -> bool {
    &&& resp.jsonrpc@ == "2.0"@
    &&& id_view(resp.id) == id
    &&& resp.result is None
    &&& resp.error matches Some(e) && e.code as int == code
}

/// The JSON document of a plain-text tool result.
pub open spec fn text_result_json(msg: Seq<char>) -> JsonView {
    JsonView::Obj(
        seq![
            ("content"@, JsonView::Arr(
                seq![
                    JsonView::Obj(
                        seq![("type"@, JsonView::Str("text"@)), ("text"@, JsonView::Str(msg))],
                    ),
                ],
            )),
        ],
    )
}

/// The JSON document of a tool-level error result.
pub open spec fn error_result_json(msg: Seq<char>) -> JsonView {
    JsonView::Obj(
        seq![
            ("content"@, JsonView::Arr(
                seq![
                    JsonView::Obj(
                        seq![("type"@, JsonView::Str("text"@)), ("text"@, JsonView::Str(msg))],
                    ),
                ],
            )),
            ("isError"@, JsonView::Bool(true)),
        ],
    )
}

/// A text result's record renders to the text result's document.
pub broadcast proof fn lemma_text_result_json(t: ToolResult, msg: Seq<char>)
    requires
        #[trigger] is_text_result(t, msg),
    ensures
        tool_result_json(t) == text_result_json(msg),
{
    let c = t.content@;
    assert(content_blocks_json(c.subrange(1, c.len() as int)) =~= Seq::<JsonView>::empty());
    assert(content_blocks_json(c) =~= seq![content_block_json(c[0])]);
    assert(tool_result_json(t) =~~= text_result_json(msg));
}

/// An error result's record renders to the error result's document.
pub broadcast proof fn lemma_error_result_json(t: ToolResult, msg: Seq<char>)
    requires
        #[trigger] is_error_result(t, msg),
    ensures
        tool_result_json(t) == error_result_json(msg),
{
    let c = t.content@;
    assert(content_blocks_json(c.subrange(1, c.len() as int)) =~= Seq::<JsonView>::empty());
    assert(content_blocks_json(c) =~= seq![content_block_json(c[0])]);
    assert(content_block_json(c[0]) == JsonView::Obj(
        seq![("type"@, JsonView::Str("text"@)), ("text"@, JsonView::Str(msg))],
    ));
    assert(tool_result_json(t) matches JsonView::Obj(fs) && fs =~= seq![
        ("content"@, JsonView::Arr(seq![content_block_json(c[0])])),
        ("isError"@, JsonView::Bool(true)),
    ]);
    assert(tool_result_json(t) =~~= error_result_json(msg));
}

/// What a planned tool call still needs to render its reply.
pub enum PendingTool {
    OpenTab { shell: String },
    CloseTab { tab_id: String },
    FocusTab { tab_id: String },
    GetTabs,
    RunCommand { tab_id: String, wait_for_output: bool },
    GetOutput,
    SetTheme { theme: String },
    AddSsh { name: String },
    RemoveSsh { id: String },
    ListSsh,
    ConnectSsh,
    GetState,
    ShowWindow,
    HideWindow,
    SplitPane,
}

/// How one `tools/call` proceeds: a result already in hand, or one
/// control-plane round trip whose reply is still owed.
pub enum ToolPlan {
    Immediate(ToolResult),
    RoundTrip { action: String, payload: Json, pending: PendingTool },
}

/// What the front-end does with one request: answer at once, or perform the
/// planned round trip and then answer.
pub enum Dispatch {
    Reply(JsonRpcResponse),
    ToolCall { id: Option<Json>, action: String, payload: Json, pending: PendingTool },
}

/// The payload `open_tab` forwards, read off the argument document.
pub open spec fn open_tab_payload_of(v: JsonView) -> JsonView {
    JsonView::Obj(
        seq![("shell"@, JsonView::Str(def_str(v, "shell"@, "wsl"@)))] + (match opt_str(
            v,
            "distro"@,
        ) {
            Some(d) => seq![("distro"@, JsonView::Str(d))],
            None => Seq::empty(),
        }) + (match opt_str(v, "cwd"@) {
            Some(c) => seq![("cwd"@, JsonView::Str(c))],
            None => Seq::empty(),
        }) + (match opt_str(v, "title"@) {
            Some(t) => seq![("title"@, JsonView::Str(t))],
            None => Seq::empty(),
        }),
    )
}

/// The payload `run_command` forwards, read off the argument document.
pub open spec fn run_command_payload_of(v: JsonView) -> JsonView {
    JsonView::Obj(
        seq![
            ("tab_id"@, JsonView::Str(req_str(v, "tab_id"@))),
            ("command"@, JsonView::Str(req_str(v, "command"@))),
            ("wait_for_output"@, JsonView::Bool(def_bool(v, "wait_for_output"@, false))),
            ("timeout_ms"@, u64_json(def_uint(v, "timeout_ms"@, 5000) as u64)),
        ],
    )
}

/// The payload `get_output` forwards, read off the argument document.
pub open spec fn get_output_payload_of(v: JsonView) -> JsonView {
    JsonView::Obj(
        seq![
            ("tab_id"@, JsonView::Str(req_str(v, "tab_id"@))),
            ("lines"@, u64_json(def_uint(v, "lines"@, 100) as u64)),
        ],
    )
}

/// The payload `add_ssh` forwards, read off the argument document.
pub open spec fn add_ssh_payload_of(v: JsonView) -> JsonView {
    JsonView::Obj(
        seq![
            ("name"@, JsonView::Str(req_str(v, "name"@))),
            ("host"@, JsonView::Str(req_str(v, "host"@))),
            ("port"@, JsonView::Int(def_uint(v, "port"@, 22) as i64)),
            ("user"@, JsonView::Str(req_str(v, "user"@))),
        ],
    )
}

/// A plan is the `Invalid params` tool-level error, with some detail text.
pub open spec fn invalid_params_plan_spec(r: ToolPlan) -> bool {
    r matches ToolPlan::Immediate(t) && (exists|d: Seq<char>|
        is_error_result(t, "Invalid params: "@ + d))
}

/// What planning the named tool call yields, case by case in the catalog's
/// own order: the round trip with its action, payload and pending record
/// where the arguments are accepted; the `Invalid params` error where the
/// tool rejects them; the theme list on the spot; and, for a name not in the
/// catalog, the `Unknown tool` error naming it.
pub open spec fn plan_spec(name: Seq<char>, args: JsonView, r: ToolPlan) -> bool {
    if name == "open_tab"@ {
        if open_tab_parse_ok(args) {
            r matches ToolPlan::RoundTrip { action, payload, pending } && (action@ == name
                && payload@ == open_tab_payload_of(args) && (pending
                matches PendingTool::OpenTab { shell } && shell@ == def_str(
                args,
                "shell"@,
                "wsl"@,
            )))
        } else {
            invalid_params_plan_spec(r)
        }
    } else if name == "close_tab"@ {
        if close_tab_parse_ok(args) {
            r matches ToolPlan::RoundTrip { action, payload, pending } && (action@ == name
                && payload@ == JsonView::Obj(
                seq![("tab_id"@, JsonView::Str(req_str(args, "tab_id"@)))],
            ) && (pending matches PendingTool::CloseTab { tab_id } && tab_id@ == req_str(
                args,
                "tab_id"@,
            )))
        } else {
            invalid_params_plan_spec(r)
        }
    } else if name == "focus_tab"@ {
        if focus_tab_parse_ok(args) {
            r matches ToolPlan::RoundTrip { action, payload, pending } && (action@ == name
                && payload@ == JsonView::Obj(
                seq![("tab_id"@, JsonView::Str(req_str(args, "tab_id"@)))],
            ) && (pending matches PendingTool::FocusTab { tab_id } && tab_id@ == req_str(
                args,
                "tab_id"@,
            )))
        } else {
            invalid_params_plan_spec(r)
        }
    } else if name == "get_tabs"@ {
        r matches ToolPlan::RoundTrip { action, payload, pending } && (action@ == name
            && payload@ == JsonView::Obj(Seq::empty()) && pending is GetTabs)
    } else if name == "run_command"@ {
        if run_command_parse_ok(args) {
            r matches ToolPlan::RoundTrip { action, payload, pending } && (action@ == name
                && payload@ == run_command_payload_of(args) && (pending
                matches PendingTool::RunCommand { tab_id, wait_for_output } && tab_id@
                == req_str(args, "tab_id"@) && wait_for_output == def_bool(
                args,
                "wait_for_output"@,
                false,
            )))
        } else {
            invalid_params_plan_spec(r)
        }
    } else if name == "get_output"@ {
        if get_output_parse_ok(args) {
            r matches ToolPlan::RoundTrip { action, payload, pending } && (action@ == name
                && payload@ == get_output_payload_of(args) && pending is GetOutput)
        } else {
            invalid_params_plan_spec(r)
        }
    } else if name == "set_theme"@ {
        if set_theme_parse_ok(args) {
            r matches ToolPlan::RoundTrip { action, payload, pending } && (action@ == name
                && payload@ == JsonView::Obj(
                seq![("theme"@, JsonView::Str(req_str(args, "theme"@)))],
            ) && (pending matches PendingTool::SetTheme { theme } && theme@ == req_str(
                args,
                "theme"@,
            )))
        } else {
            invalid_params_plan_spec(r)
        }
    } else if name == "get_themes"@ {
        r matches ToolPlan::Immediate(t) && is_text_result(t, themes_text())
    } else if name == "add_ssh"@ {
        if add_ssh_parse_ok(args) {
            r matches ToolPlan::RoundTrip { action, payload, pending } && (action@ == name
                && payload@ == add_ssh_payload_of(args) && (pending
                matches PendingTool::AddSsh { name: n } && n@ == req_str(args, "name"@)))
        } else {
            invalid_params_plan_spec(r)
        }
    } else if name == "remove_ssh"@ {
        if remove_ssh_parse_ok(args) {
            r matches ToolPlan::RoundTrip { action, payload, pending } && (action@ == name
                && payload@ == JsonView::Obj(
                seq![("id"@, JsonView::Str(req_str(args, "id"@)))],
            ) && (pending matches PendingTool::RemoveSsh { id } && id@ == req_str(
                args,
                "id"@,
            )))
        } else {
            invalid_params_plan_spec(r)
        }
    } else if name == "list_ssh"@ {
        r matches ToolPlan::RoundTrip { action, payload, pending } && (action@ == name
            && payload@ == JsonView::Obj(Seq::empty()) && pending is ListSsh)
    } else if name == "connect_ssh"@ {
        if connect_ssh_parse_ok(args) {
            r matches ToolPlan::RoundTrip { action, payload, pending } && (action@ == name
                && payload@ == JsonView::Obj(
                seq![("id"@, JsonView::Str(req_str(args, "id"@)))],
            ) && pending is ConnectSsh)
        } else {
            invalid_params_plan_spec(r)
        }
    } else if name == "get_state"@ {
        r matches ToolPlan::RoundTrip { action, payload, pending } && (action@ == name
            && payload@ == JsonView::Obj(Seq::empty()) && pending is GetState)
    } else if name == "show_window"@ {
        r matches ToolPlan::RoundTrip { action, payload, pending } && (action@ == name
            && payload@ == JsonView::Obj(Seq::empty()) && pending is ShowWindow)
    } else if name == "hide_window"@ {
        r matches ToolPlan::RoundTrip { action, payload, pending } && (action@ == name
            && payload@ == JsonView::Obj(Seq::empty()) && pending is HideWindow)
    } else if name == "split_pane"@ {
        r matches ToolPlan::RoundTrip { action, payload, pending } && (action@ == name
            && payload@ == args && pending is SplitPane)
    } else {
        r matches ToolPlan::Immediate(t) && is_error_result(t, "Unknown tool: "@ + name)
    }
}

/// How the front-end lifts a plan into its dispatch: an immediate result is
/// wrapped into a successful response for the caller's id; a round trip is
/// handed on with everything it needs.
pub open spec fn dispatch_lifts(plan: ToolPlan, idv: Option<JsonView>, r: Dispatch) -> bool {
    match plan {
        ToolPlan::Immediate(t) => r matches Dispatch::Reply(resp) && is_success_json(
            resp,
            idv,
            tool_result_json(t),
        ),
        ToolPlan::RoundTrip { action, payload, pending } => r matches Dispatch::ToolCall {
            id,
            action: a2,
            payload: p2,
            pending: pd2,
        } && (id_view(id) == idv && a2@ == action@ && p2@ == payload@ && pd2 == pending),
    }
}

/// The minimal valid arguments of each catalog tool: an empty object for
/// the tools whose fields are all optional or absent, and an object holding
/// just the required strings — empty ones suffice — for the rest.
pub open spec fn minimal_tab_id_args() -> JsonView {
    JsonView::Obj(seq![("tab_id"@, JsonView::Str(Seq::empty()))])
}

/// Every listed tool accepts its minimal valid arguments: the catalog's
/// schemas name nothing as required that the validators would reject when
/// it is present and empty, so a round trip can be planned for each tool —
/// and a transport failure underneath it is caught and rendered as a
/// tool-level error, never a crash (see `render_tool_reply`).
pub proof fn lemma_minimal_args_accepted()
    ensures
        open_tab_parse_ok(JsonView::Obj(Seq::empty())),
        close_tab_parse_ok(minimal_tab_id_args()),
        focus_tab_parse_ok(minimal_tab_id_args()),
        run_command_parse_ok(
            JsonView::Obj(
                seq![
                    ("tab_id"@, JsonView::Str(Seq::empty())),
                    ("command"@, JsonView::Str(Seq::empty())),
                ],
            ),
        ),
        get_output_parse_ok(minimal_tab_id_args()),
        set_theme_parse_ok(JsonView::Obj(seq![("theme"@, JsonView::Str(Seq::empty()))])),
        add_ssh_parse_ok(
            JsonView::Obj(
                seq![
                    ("name"@, JsonView::Str(Seq::empty())),
                    ("host"@, JsonView::Str(Seq::empty())),
                    ("user"@, JsonView::Str(Seq::empty())),
                ],
            ),
        ),
        remove_ssh_parse_ok(JsonView::Obj(seq![("id"@, JsonView::Str(Seq::empty()))])),
        connect_ssh_parse_ok(JsonView::Obj(seq![("id"@, JsonView::Str(Seq::empty()))])),
{
    reveal_strlit("tab_id");
    reveal_strlit("command");
    reveal_strlit("wait_for_output");
    reveal_strlit("timeout_ms");
    reveal_strlit("lines");
    reveal_strlit("theme");
    reveal_strlit("name");
    reveal_strlit("host");
    reveal_strlit("port");
    reveal_strlit("user");
    reveal_strlit("shell");
    reveal_strlit("distro");
    reveal_strlit("cwd");
    reveal_strlit("title");
    reveal_strlit("id");
    assert("tab_id"@.len() == 6 && "command"@.len() == 7 && "wait_for_output"@.len() == 15
        && "timeout_ms"@.len() == 10 && "lines"@.len() == 5 && "theme"@.len() == 5
        && "name"@.len() == 4 && "host"@.len() == 4 && "port"@.len() == 4 && "user"@.len() == 4
        && "id"@.len() == 2 && "shell"@.len() == 5);
    assert("name"@[0] == 'n' && "host"@[0] == 'h' && "port"@[0] == 'p' && "user"@[0] == 'u');
    reveal_with_fuel(crate::json::lookup_field, 5);
    let e = Seq::<char>::empty();
    let one = seq![("tab_id"@, JsonView::Str(e))];
    assert(crate::json::lookup_field(one, "tab_id"@) == Some(JsonView::Str(e)));
    let two = seq![("tab_id"@, JsonView::Str(e)), ("command"@, JsonView::Str(e))];
    assert(crate::json::lookup_field(two, "tab_id"@) == Some(JsonView::Str(e)));
    assert(two.skip(1) =~= seq![("command"@, JsonView::Str(e))]);
    assert(crate::json::lookup_field(two, "command"@) == Some(JsonView::Str(e)));
    assert(two.skip(1).skip(1) =~= Seq::<(Seq<char>, JsonView)>::empty());
    assert(crate::json::lookup_field(two, "wait_for_output"@) is None);
    assert(crate::json::lookup_field(two, "timeout_ms"@) is None);
    assert(crate::json::lookup_field(one, "lines"@) is None);
    assert(one.skip(1) =~= Seq::<(Seq<char>, JsonView)>::empty());
    let theme = seq![("theme"@, JsonView::Str(e))];
    assert(crate::json::lookup_field(theme, "theme"@) == Some(JsonView::Str(e)));
    let ssh = seq![
        ("name"@, JsonView::Str(e)),
        ("host"@, JsonView::Str(e)),
        ("user"@, JsonView::Str(e)),
    ];
    assert(crate::json::lookup_field(ssh, "name"@) == Some(JsonView::Str(e)));
    assert(ssh.skip(1) =~= seq![("host"@, JsonView::Str(e)), ("user"@, JsonView::Str(e))]);
    assert(ssh.skip(1).skip(1) =~= seq![("user"@, JsonView::Str(e))]);
    assert(ssh.skip(1).skip(1).skip(1) =~= Seq::<(Seq<char>, JsonView)>::empty());
    assert(crate::json::lookup_field(ssh, "host"@) == Some(JsonView::Str(e)));
    assert(crate::json::lookup_field(ssh, "user"@) == Some(JsonView::Str(e)));
    assert(crate::json::lookup_field(ssh, "port"@) is None);
    let idf = seq![("id"@, JsonView::Str(e))];
    assert(crate::json::lookup_field(idf, "id"@) == Some(JsonView::Str(e)));
    assert(idf.skip(1) =~= Seq::<(Seq<char>, JsonView)>::empty());
    assert(crate::json::lookup_field(Seq::<(Seq<char>, JsonView)>::empty(), "shell"@) is None);
}

/// An unknown tool name is answered inside the protocol: the plan is the
/// `Unknown tool` error naming the tool, and its dispatch is a successful
/// JSON-RPC response whose result carries that tool-level error block —
/// never a transport-level JSON-RPC error.
pub proof fn lemma_unknown_tool_is_tool_error(
    name: Seq<char>,
    args: JsonView,
    idv: Option<JsonView>,
    plan: ToolPlan,
    r: Dispatch,
)
    requires
        !is_catalog_name(name),
        plan_spec(name, args, plan),
        dispatch_lifts(plan, idv, r),
    ensures
        plan matches ToolPlan::Immediate(t) && is_error_result(t, "Unknown tool: "@ + name),
        r matches Dispatch::Reply(resp) && (is_success_json(
            resp,
            idv,
            error_result_json("Unknown tool: "@ + name),
        ) && resp.error is None),
{
    broadcast use lemma_error_result_json;

}

/// Two pieces joined into one string.
fn msg2(a: &str, b: &str) -> (r: String)
    ensures
        r@ == a@ + b@,
{
    let mut s = String::from_str(a);
    s.append(b);
    s
}

/// Three pieces joined into one string.
fn msg3(a: &str, b: &str, c: &str) -> (r: String)
    ensures
        r@ == a@ + b@ + c@,
{
    let mut s = String::from_str(a);
    s.append(b);
    s.append(c);
    s
}

/// Four pieces joined into one string.
fn msg4(a: &str, b: &str, c: &str, d: &str) -> (r: String)
    ensures
        r@ == a@ + b@ + c@ + d@,
{
    let mut s = String::from_str(a);
    s.append(b);
    s.append(c);
    s.append(d);
    s
}

/// A string field of a reply document, with a fallback.
fn get_str_or(v: &Json, key: &str, dflt: &str) -> (r: String)
    ensures
        r@ == str_field_or(v@, key@, dflt@),
{
    match v.get(key) {
        Some(f) => match f.as_str() {
            Some(s) => s.clone(),
            None => String::from_str(dflt),
        },
        None => String::from_str(dflt),
    }
}

/// A tool-level `Invalid params` error, with the validator's words attached.
fn invalid_params_plan(e: &String) -> (r: ToolPlan)
    ensures
        r matches ToolPlan::Immediate(t) && (exists|d: Seq<char>|
            is_error_result(t, "Invalid params: "@ + d)),
{
    let m = msg2("Invalid params: ", e.as_str());
    let t = ToolResult::error(m.as_str());
    proof {
        assert(is_error_result(t, "Invalid params: "@ + e@));
    }
    ToolPlan::Immediate(t)
}

/// Plans one tool call.  An unknown tool name yields a tool-level error
/// naming the tool — never a transport-level JSON-RPC error; bad arguments
/// yield a tool-level `Invalid params` error exactly when the named tool
/// rejects them; `get_themes` is answered on the spot; every other catalog
/// tool becomes one control-plane round trip with its action, its payload
/// and what its rendering still needs.
#[verifier::rlimit(100)]
pub fn plan_tool_call(name: &str, args: &Json) -> (r: ToolPlan)
    ensures
        plan_spec(name@, args@, r),
{
    proof {
        reveal_strlit("open_tab");
        reveal_strlit("close_tab");
        reveal_strlit("focus_tab");
        reveal_strlit("get_tabs");
        reveal_strlit("run_command");
        reveal_strlit("get_output");
        reveal_strlit("set_theme");
        reveal_strlit("get_themes");
        reveal_strlit("add_ssh");
        reveal_strlit("remove_ssh");
        reveal_strlit("list_ssh");
        reveal_strlit("connect_ssh");
        reveal_strlit("get_state");
        reveal_strlit("show_window");
        reveal_strlit("hide_window");
        reveal_strlit("split_pane");
    }
    if crate::text::str_eq(name, "open_tab") {
        match OpenTabParams::from_json(args) {
            Ok(p) => {
                let payload = p.to_payload();
                proof {
                    assert(payload@ =~~= open_tab_payload_of(args@));
                }
                ToolPlan::RoundTrip {
                    action: String::from_str("open_tab"),
                    payload,
                    pending: PendingTool::OpenTab { shell: p.shell },
                }
            },
            Err(e) => invalid_params_plan(&e),
        }
    } else if crate::text::str_eq(name, "close_tab") {
        match CloseTabParams::from_json(args) {
            Ok(p) => {
                let payload = p.to_payload();
                ToolPlan::RoundTrip {
                    action: String::from_str("close_tab"),
                    payload,
                    pending: PendingTool::CloseTab { tab_id: p.tab_id },
                }
            },
            Err(e) => invalid_params_plan(&e),
        }
    } else if crate::text::str_eq(name, "focus_tab") {
        match FocusTabParams::from_json(args) {
            Ok(p) => {
                let payload = p.to_payload();
                ToolPlan::RoundTrip {
                    action: String::from_str("focus_tab"),
                    payload,
                    pending: PendingTool::FocusTab { tab_id: p.tab_id },
                }
            },
            Err(e) => invalid_params_plan(&e),
        }
    } else if crate::text::str_eq(name, "get_tabs") {
        ToolPlan::RoundTrip {
            action: String::from_str("get_tabs"),
            payload: Json::empty_obj(),
            pending: PendingTool::GetTabs,
        }
    } else if crate::text::str_eq(name, "run_command") {
        match RunCommandParams::from_json(args) {
            Ok(p) => {
                let payload = p.to_payload();
                proof {
                    assert(payload@ =~~= run_command_payload_of(args@));
                }
                ToolPlan::RoundTrip {
                    action: String::from_str("run_command"),
                    payload,
                    pending: PendingTool::RunCommand {
                        tab_id: p.tab_id,
                        wait_for_output: p.wait_for_output,
                    },
                }
            },
            Err(e) => invalid_params_plan(&e),
        }
    } else if crate::text::str_eq(name, "get_output") {
        match GetOutputParams::from_json(args) {
            Ok(p) => {
                let payload = p.to_payload();
                proof {
                    assert(payload@ =~~= get_output_payload_of(args@));
                }
                ToolPlan::RoundTrip {
                    action: String::from_str("get_output"),
                    payload,
                    pending: PendingTool::GetOutput,
                }
            },
            Err(e) => invalid_params_plan(&e),
        }
    } else if crate::text::str_eq(name, "set_theme") {
        match SetThemeParams::from_json(args) {
            Ok(p) => {
                let payload = p.to_payload();
                ToolPlan::RoundTrip {
                    action: String::from_str("set_theme"),
                    payload,
                    pending: PendingTool::SetTheme { theme: p.theme },
                }
            },
            Err(e) => invalid_params_plan(&e),
        }
    } else if crate::text::str_eq(name, "get_themes") {
        ToolPlan::Immediate(tool_get_themes())
    } else if crate::text::str_eq(name, "add_ssh") {
        match AddSshParams::from_json(args) {
            Ok(p) => {
                let payload = p.to_payload();
                proof {
                    assert(payload@ =~~= add_ssh_payload_of(args@));
                }
                ToolPlan::RoundTrip {
                    action: String::from_str("add_ssh"),
                    payload,
                    pending: PendingTool::AddSsh { name: p.name },
                }
            },
            Err(e) => invalid_params_plan(&e),
        }
    } else if crate::text::str_eq(name, "remove_ssh") {
        match RemoveSshParams::from_json(args) {
            Ok(p) => {
                let payload = p.to_payload();
                ToolPlan::RoundTrip {
                    action: String::from_str("remove_ssh"),
                    payload,
                    pending: PendingTool::RemoveSsh { id: p.id },
                }
            },
            Err(e) => invalid_params_plan(&e),
        }
    } else if crate::text::str_eq(name, "list_ssh") {
        ToolPlan::RoundTrip {
            action: String::from_str("list_ssh"),
            payload: Json::empty_obj(),
            pending: PendingTool::ListSsh,
        }
    } else if crate::text::str_eq(name, "connect_ssh") {
        match ConnectSshParams::from_json(args) {
            Ok(p) => {
                let payload = p.to_payload();
                ToolPlan::RoundTrip {
                    action: String::from_str("connect_ssh"),
                    payload,
                    pending: PendingTool::ConnectSsh,
                }
            },
            Err(e) => invalid_params_plan(&e),
        }
    } else if crate::text::str_eq(name, "get_state") {
        ToolPlan::RoundTrip {
            action: String::from_str("get_state"),
            payload: Json::empty_obj(),
            pending: PendingTool::GetState,
        }
    } else if crate::text::str_eq(name, "show_window") {
        ToolPlan::RoundTrip {
            action: String::from_str("show_window"),
            payload: Json::empty_obj(),
            pending: PendingTool::ShowWindow,
        }
    } else if crate::text::str_eq(name, "hide_window") {
        ToolPlan::RoundTrip {
            action: String::from_str("hide_window"),
            payload: Json::empty_obj(),
            pending: PendingTool::HideWindow,
        }
    } else if crate::text::str_eq(name, "split_pane") {
        ToolPlan::RoundTrip {
            action: String::from_str("split_pane"),
            payload: args.duplicate(),
            pending: PendingTool::SplitPane,
        }
    } else {
        let m = msg2("Unknown tool: ", name);
        ToolPlan::Immediate(ToolResult::error(m.as_str()))
    }
}

/// Renders the outcome of a tool call's round trip.  A transport failure is
/// caught and becomes a tool-level error carrying the transport's message —
/// the front-end never crashes over an unreachable control plane; a reply is
/// turned into the tool's text.
pub fn render_tool_reply(pending: &PendingTool, reply: Result<Json, String>) -> (r: ToolResult)
    ensures
        reply matches Err(e) ==> is_error_result(r, e@),
        reply matches Ok(v) ==> match *pending {
            PendingTool::OpenTab { shell } => is_text_result(
                r,
                "Opened new "@ + shell@ + " tab with ID: "@ + str_field_or(
                    v@,
                    "tab_id"@,
                    "unknown"@,
                ),
            ),
            PendingTool::CloseTab { tab_id } => is_text_result(r, "Closed tab: "@ + tab_id@),
            PendingTool::FocusTab { tab_id } => is_text_result(r, "Focused tab: "@ + tab_id@),
            PendingTool::GetTabs => is_text_result(r, json_pretty(v@, Seq::empty())),
            PendingTool::RunCommand { tab_id, wait_for_output } => if wait_for_output {
                is_text_result(r, str_field_or(v@, "output"@, ""@))
            } else {
                is_text_result(r, "Command sent to tab: "@ + tab_id@)
            },
            PendingTool::GetOutput => is_text_result(r, str_field_or(v@, "output"@, ""@)),
            PendingTool::SetTheme { theme } => is_text_result(
                r,
                "Theme changed to: "@ + theme@,
            ),
            PendingTool::AddSsh { name } => is_text_result(
                r,
                "Added SSH connection '"@ + name@ + "' with ID: "@ + str_field_or(
                    v@,
                    "id"@,
                    "unknown"@,
                ),
            ),
            PendingTool::RemoveSsh { id } => is_text_result(
                r,
                "Removed SSH connection: "@ + id@,
            ),
            PendingTool::ListSsh => is_text_result(r, json_pretty(v@, Seq::empty())),
            PendingTool::ConnectSsh => is_text_result(
                r,
                "SSH connection opened in tab: "@ + str_field_or(v@, "tab_id"@, "unknown"@),
            ),
            PendingTool::GetState => is_text_result(r, json_pretty(v@, Seq::empty())),
            PendingTool::ShowWindow => is_text_result(r, "Window shown"@),
            PendingTool::HideWindow => is_text_result(r, "Window hidden"@),
            PendingTool::SplitPane => is_text_result(
                r,
                "Pane split, new pane ID: "@ + str_field_or(v@, "pane_id"@, "unknown"@),
            ),
        },
{
    let v = match reply {
        Ok(v) => v,
        Err(e) => {
            return ToolResult::error(e.as_str());
        },
    };
    match pending {
        PendingTool::OpenTab { shell } => {
            let tab_id = get_str_or(&v, "tab_id", "unknown");
            let m = msg4("Opened new ", shell.as_str(), " tab with ID: ", tab_id.as_str());
            ToolResult::text(m.as_str())
        },
        PendingTool::CloseTab { tab_id } => {
            let m = msg2("Closed tab: ", tab_id.as_str());
            ToolResult::text(m.as_str())
        },
        PendingTool::FocusTab { tab_id } => {
            let m = msg2("Focused tab: ", tab_id.as_str());
            ToolResult::text(m.as_str())
        },
        PendingTool::GetTabs => {
            let formatted = crate::json_text::to_json_string_pretty(&v);
            ToolResult::text(formatted.as_str())
        },
        PendingTool::RunCommand { tab_id, wait_for_output } => {
            if *wait_for_output {
                let output = get_str_or(&v, "output", "");
                ToolResult::text(output.as_str())
            } else {
                let m = msg2("Command sent to tab: ", tab_id.as_str());
                ToolResult::text(m.as_str())
            }
        },
        PendingTool::GetOutput => {
            let output = get_str_or(&v, "output", "");
            ToolResult::text(output.as_str())
        },
        PendingTool::SetTheme { theme } => {
            let m = msg2("Theme changed to: ", theme.as_str());
            ToolResult::text(m.as_str())
        },
        PendingTool::AddSsh { name } => {
            let id = get_str_or(&v, "id", "unknown");
            let m = msg4("Added SSH connection '", name.as_str(), "' with ID: ", id.as_str());
            ToolResult::text(m.as_str())
        },
        PendingTool::RemoveSsh { id } => {
            let m = msg2("Removed SSH connection: ", id.as_str());
            ToolResult::text(m.as_str())
        },
        PendingTool::ListSsh => {
            let formatted = crate::json_text::to_json_string_pretty(&v);
            ToolResult::text(formatted.as_str())
        },
        PendingTool::ConnectSsh => {
            let tab_id = get_str_or(&v, "tab_id", "unknown");
            let m = msg2("SSH connection opened in tab: ", tab_id.as_str());
            ToolResult::text(m.as_str())
        },
        PendingTool::GetState => {
            let formatted = crate::json_text::to_json_string_pretty(&v);
            ToolResult::text(formatted.as_str())
        },
        PendingTool::ShowWindow => ToolResult::text("Window shown"),
        PendingTool::HideWindow => ToolResult::text("Window hidden"),
        PendingTool::SplitPane => {
            let pane_id = get_str_or(&v, "pane_id", "unknown");
            let m = msg2("Pane split, new pane ID: ", pane_id.as_str());
            ToolResult::text(m.as_str())
        },
    }
}

/// The text of the static theme list, one name per line.
pub open spec fn themes_text() -> Seq<char> {
    "catppuccin-mocha"@ + seq!['\n'] + "dracula"@ + seq!['\n'] + "nord"@ + seq!['\n']
        + "one-dark"@ + seq!['\n'] + "gruvbox-dark"@ + seq!['\n'] + "tokyo-night"@ + seq!['\n']
        + "solarized-dark"@ + seq!['\n'] + "vs-code-dark"@ + seq!['\n'] + "monokai"@
        + seq!['\n'] + "github-dark"@ + seq!['\n'] + "cyberpunk"@ + seq!['\n'] + "matrix"@
        + seq!['\n'] + "synthwave"@ + seq!['\n'] + "vaporwave"@ + seq!['\n'] + "neon-tokyo"@
        + seq!['\n'] + "hacker"@ + seq!['\n'] + "inferno"@ + seq!['\n'] + "toxic"@ + seq!['\n']
        + "ultraviolet"@ + seq!['\n'] + "bloodmoon"@ + seq!['\n'] + "abyss"@ + seq!['\n']
        + "rose-pine"@ + seq!['\n'] + "everforest"@ + seq!['\n'] + "kanagawa"@ + seq!['\n']
        + "palenight"@ + seq!['\n'] + "material-ocean"@ + seq!['\n'] + "horizon"@ + seq!['\n']
        + "andromeda"@ + seq!['\n'] + "moonlight"@ + seq!['\n'] + "night-owl"@ + seq!['\n']
        + "poimandres"@ + seq!['\n'] + "vitesse-dark"@
}

/// The static theme list, joined one name per line; no round trip is needed.
pub fn tool_get_themes() -> (r: ToolResult)
    ensures
        is_text_result(r, themes_text()),
{
    let mut out: Vec<char> = Vec::new();
    crate::json_text::push_str_chars(&mut out, "catppuccin-mocha");
    out.push('\n');
    crate::json_text::push_str_chars(&mut out, "dracula");
    out.push('\n');
    crate::json_text::push_str_chars(&mut out, "nord");
    out.push('\n');
    crate::json_text::push_str_chars(&mut out, "one-dark");
    out.push('\n');
    crate::json_text::push_str_chars(&mut out, "gruvbox-dark");
    out.push('\n');
    crate::json_text::push_str_chars(&mut out, "tokyo-night");
    out.push('\n');
    crate::json_text::push_str_chars(&mut out, "solarized-dark");
    out.push('\n');
    crate::json_text::push_str_chars(&mut out, "vs-code-dark");
    out.push('\n');
    crate::json_text::push_str_chars(&mut out, "monokai");
    out.push('\n');
    crate::json_text::push_str_chars(&mut out, "github-dark");
    out.push('\n');
    crate::json_text::push_str_chars(&mut out, "cyberpunk");
    out.push('\n');
    crate::json_text::push_str_chars(&mut out, "matrix");
    out.push('\n');
    crate::json_text::push_str_chars(&mut out, "synthwave");
    out.push('\n');
    crate::json_text::push_str_chars(&mut out, "vaporwave");
    out.push('\n');
    crate::json_text::push_str_chars(&mut out, "neon-tokyo");
    out.push('\n');
    crate::json_text::push_str_chars(&mut out, "hacker");
    out.push('\n');
    crate::json_text::push_str_chars(&mut out, "inferno");
    out.push('\n');
    crate::json_text::push_str_chars(&mut out, "toxic");
    out.push('\n');
    crate::json_text::push_str_chars(&mut out, "ultraviolet");
    out.push('\n');
    crate::json_text::push_str_chars(&mut out, "bloodmoon");
    out.push('\n');
    crate::json_text::push_str_chars(&mut out, "abyss");
    out.push('\n');
    crate::json_text::push_str_chars(&mut out, "rose-pine");
    out.push('\n');
    crate::json_text::push_str_chars(&mut out, "everforest");
    out.push('\n');
    crate::json_text::push_str_chars(&mut out, "kanagawa");
    out.push('\n');
    crate::json_text::push_str_chars(&mut out, "palenight");
    out.push('\n');
    crate::json_text::push_str_chars(&mut out, "material-ocean");
    out.push('\n');
    crate::json_text::push_str_chars(&mut out, "horizon");
    out.push('\n');
    crate::json_text::push_str_chars(&mut out, "andromeda");
    out.push('\n');
    crate::json_text::push_str_chars(&mut out, "moonlight");
    out.push('\n');
    crate::json_text::push_str_chars(&mut out, "night-owl");
    out.push('\n');
    crate::json_text::push_str_chars(&mut out, "poimandres");
    out.push('\n');
    crate::json_text::push_str_chars(&mut out, "vitesse-dark");
    proof {
        assert(out@ =~= themes_text());
    }
    let s = crate::json_text::chars_to_string(&out);
    ToolResult::text(s.as_str())
}

/// The fixed document the `initialize` answer renders to.
pub open spec fn initialize_json() -> JsonView {
    JsonView::Obj(
        seq![
            ("protocolVersion"@, JsonView::Str("2024-11-05"@)),
            ("capabilities"@, JsonView::Obj(
                seq![
                    ("tools"@, JsonView::Obj(
                        seq![("listChanged"@, JsonView::Bool(false))],
                    )),
                ],
            )),
            ("serverInfo"@, JsonView::Obj(
                seq![
                    ("name"@, JsonView::Str("wsl-terminal"@)),
                    ("version"@, JsonView::Str("0.4.0"@)),
                ],
            )),
        ],
    )
}

/// Answers `initialize`: the fixed protocol version, the capabilities and
/// the server's name and version, with no side effect.
pub fn handle_initialize(request: &JsonRpcRequest) -> (r: JsonRpcResponse)
    ensures
        is_success_json(r, id_view(request.id), initialize_json()),
{
    let result = InitializeResult {
        protocol_version: String::from_str("2024-11-05"),
        capabilities: Capabilities {
            tools: Some(ToolsCapability { list_changed: false }),
        },
        server_info: ServerInfo {
            name: String::from_str("wsl-terminal"),
            version: String::from_str("0.4.0"),
        },
    };
    let id = dup_id(&request.id);
    let value = result.to_json();
    proof {
        assert(result.capabilities.tools == Some(ToolsCapability { list_changed: false }));
        assert(value@ matches JsonView::Obj(fs) && fs =~= seq![
            ("protocolVersion"@, JsonView::Str("2024-11-05"@)),
            ("capabilities"@, JsonView::Obj(
                seq![
                    ("tools"@, JsonView::Obj(
                        seq![("listChanged"@, JsonView::Bool(false))],
                    )),
                ],
            )),
            ("serverInfo"@, JsonView::Obj(
                seq![
                    ("name"@, JsonView::Str("wsl-terminal"@)),
                    ("version"@, JsonView::Str("0.4.0"@)),
                ],
            )),
        ]);
        assert(value@ =~~= initialize_json());
    }
    JsonRpcResponse::success(id, value)
}

/// Answers the `initialized` notification: always success, with no id, to
/// keep the framing simple.
pub fn handle_initialized(_request: &JsonRpcRequest) -> (r: JsonRpcResponse)
    ensures
        is_success_json(r, Option::<JsonView>::None, JsonView::Obj(Seq::empty())),
{
    JsonRpcResponse::success(None, Json::empty_obj())
}

/// The JSON document of one catalog entry, by its parts.
pub open spec fn catalog_entry_json(name: Seq<char>, desc: Seq<char>, schema: JsonView) -> JsonView {
    JsonView::Obj(
        seq![
            ("name"@, JsonView::Str(name)),
            ("description"@, JsonView::Str(desc)),
            ("inputSchema"@, schema),
        ],
    )
}

/// A catalog list's entries render one to one, in place.
proof fn lemma_tool_infos_json(ts: Seq<ToolInfo>)
    ensures
        tool_infos_json(ts).len() == ts.len(),
        forall|i: int| 0 <= i < ts.len() ==> tool_infos_json(ts)[i] == tool_info_json(ts[i]),
    decreases ts.len(),
{
    if ts.len() > 0 {
        lemma_tool_infos_json(ts.subrange(1, ts.len() as int));
    }
}

/// The sixteen catalog entries, in their fixed order, as the `tools/list`
/// answer renders them.
pub open spec fn catalog_entries_ok(entries: Seq<JsonView>) -> bool {
    &&& entries.len() == 16
    &&& entries[0] == catalog_entry_json(
        "open_tab"@,
        "Open a new terminal tab with specified shell (wsl, powershell, cmd)"@,
        crate::mcp::tools::open_tab_schema(),
    )
    &&& entries[1] == catalog_entry_json(
        "close_tab"@,
        "Close a terminal tab by its ID"@,
        crate::mcp::tools::close_tab_schema(),
    )
    &&& entries[2] == catalog_entry_json(
        "focus_tab"@,
        "Focus/activate a specific tab"@,
        crate::mcp::tools::focus_tab_schema(),
    )
    &&& entries[3] == catalog_entry_json(
        "get_tabs"@,
        "List all open tabs with their info (id, title, shell, active state)"@,
        crate::mcp::tools::empty_schema(),
    )
    &&& entries[4] == catalog_entry_json(
        "run_command"@,
        "Execute a command in a specific terminal tab"@,
        crate::mcp::tools::run_command_schema(),
    )
    &&& entries[5] == catalog_entry_json(
        "get_output"@,
        "Get recent output from a terminal tab"@,
        crate::mcp::tools::get_output_schema(),
    )
    &&& entries[6] == catalog_entry_json(
        "set_theme"@,
        "Change the terminal theme"@,
        crate::mcp::tools::set_theme_schema(),
    )
    &&& entries[7] == catalog_entry_json(
        "get_themes"@,
        "List all available themes"@,
        crate::mcp::tools::empty_schema(),
    )
    &&& entries[8] == catalog_entry_json(
        "add_ssh"@,
        "Add a new SSH connection"@,
        crate::mcp::tools::add_ssh_schema(),
    )
    &&& entries[9] == catalog_entry_json(
        "remove_ssh"@,
        "Remove an SSH connection"@,
        crate::mcp::tools::remove_ssh_schema(),
    )
    &&& entries[10] == catalog_entry_json(
        "list_ssh"@,
        "List all saved SSH connections"@,
        crate::mcp::tools::empty_schema(),
    )
    &&& entries[11] == catalog_entry_json(
        "connect_ssh"@,
        "Open a new tab and connect via SSH"@,
        crate::mcp::tools::connect_ssh_schema(),
    )
    &&& entries[12] == catalog_entry_json(
        "get_state"@,
        "Get complete app state (tabs, theme, SSH connections)"@,
        crate::mcp::tools::empty_schema(),
    )
    &&& entries[13] == catalog_entry_json(
        "show_window"@,
        "Show and focus the terminal window"@,
        crate::mcp::tools::empty_schema(),
    )
    &&& entries[14] == catalog_entry_json(
        "hide_window"@,
        "Hide the terminal window"@,
        crate::mcp::tools::empty_schema(),
    )
    &&& entries[15] == catalog_entry_json(
        "split_pane"@,
        "Split the current pane horizontally or vertically"@,
        crate::mcp::tools::split_pane_schema(),
    )
}

/// A document is the whole catalog: one `tools` field holding the sixteen
/// entries.
pub open spec fn catalog_value_ok(v: JsonView) -> bool {
    &&& v matches JsonView::Obj(fs) && fs.len() == 1
    &&& v matches JsonView::Obj(fs) && fs[0].0 == "tools"@
    &&& v matches JsonView::Obj(fs) && (fs[0].1 matches JsonView::Arr(entries)
        && catalog_entries_ok(entries))
}

/// A response answers `tools/list` for this caller: a success whose result
/// holds the whole catalog, entry by entry, in its fixed order.
pub open spec fn is_list_tools_reply(resp: JsonRpcResponse, idv: Option<JsonView>) -> bool {
    &&& resp.jsonrpc@ == "2.0"@
    &&& id_view(resp.id) == idv
    &&& resp.error is None
    &&& resp.result matches Some(v) && catalog_value_ok(v@)
}

/// Answers `tools/list`: the static catalog, rendered entry by entry.
pub fn handle_list_tools(request: &JsonRpcRequest) -> (r: JsonRpcResponse)
    ensures
        is_list_tools_reply(r, id_view(request.id)),
{
    let result = ListToolsResult { tools: get_tools() };
    let id = dup_id(&request.id);
    let value = result.to_json();
    proof {
        lemma_tool_infos_json(result.tools@);
    }
    JsonRpcResponse::success(id, value)
}

/// An error response for a line that was not valid JSON: code `-32700`, the
/// parser's words attached, no id.
pub fn parse_error_response(detail: &str) -> (r: JsonRpcResponse)
    ensures
        is_rpc_error(r, Option::<JsonView>::None, -32700),
        r.error matches Some(e) && e.message@ == "Parse error: "@ + detail@,
{
    let m = msg2("Parse error: ", detail);
    JsonRpcResponse::error(None, -32700, m.as_str())
}

/// The message shown when the control-plane socket cannot be reached.
pub fn transport_error_message(detail: &str) -> (r: String)
    ensures
        r@ == "Connection failed: "@ + detail@ + ". Is WSL Terminal running?"@,
{
    msg3("Connection failed: ", detail, ". Is WSL Terminal running?")
}

/// Dispatches one request.  `initialize`, `initialized`, `tools/list` and
/// `ping` are answered on the spot; an unrecognized method gets the JSON-RPC
/// method-not-found error; `tools/call` with unreadable parameters gets the
/// invalid-params error; a readable call becomes its tool plan: either an
/// immediate reply or the round trip that is still owed.
#[verifier::rlimit(100)]
pub fn handle_request(request: &JsonRpcRequest) -> (r: Dispatch)
    ensures
        ({
            let idv = id_view(request.id);
            let m = request.method@;
            if m == "initialize"@ {
                r matches Dispatch::Reply(resp) && is_success_json(resp, idv, initialize_json())
            } else if m == "initialized"@ {
                r matches Dispatch::Reply(resp) && is_success_json(
                    resp,
                    Option::<JsonView>::None,
                    JsonView::Obj(Seq::empty()),
                )
            } else if m == "tools/list"@ {
                r matches Dispatch::Reply(resp) && is_list_tools_reply(resp, idv)
            } else if m == "tools/call"@ {
                if call_tool_parse_ok(request.params@) {
                    exists|plan: ToolPlan|
                        #[trigger] dispatch_lifts(plan, idv, r) && plan_spec(
                            req_str(request.params@, "name"@),
                            match spec_get(request.params@, "arguments"@) {
                                Some(a) => a,
                                None => JsonView::Null,
                            },
                            plan,
                        )
                } else {
                    r matches Dispatch::Reply(resp) && is_rpc_error(resp, idv, -32602)
                }
            } else if m == "ping"@ {
                r matches Dispatch::Reply(resp) && is_success_json(
                    resp,
                    idv,
                    JsonView::Obj(Seq::empty()),
                )
            } else {
                r matches Dispatch::Reply(resp) && (is_rpc_error(resp, idv, -32601) && (
                resp.error matches Some(e) && e.message@ == "Method not found: "@ + m))
            }
        }),
{
    broadcast use lemma_text_result_json, lemma_error_result_json;

    proof {
        reveal_strlit("initialize");
        reveal_strlit("initialized");
        reveal_strlit("tools/list");
        reveal_strlit("tools/call");
        reveal_strlit("ping");
    }
    if crate::text::str_eq(request.method.as_str(), "initialize") {
        Dispatch::Reply(handle_initialize(request))
    } else if crate::text::str_eq(request.method.as_str(), "initialized") {
        Dispatch::Reply(handle_initialized(request))
    } else if crate::text::str_eq(request.method.as_str(), "tools/list") {
        Dispatch::Reply(handle_list_tools(request))
    } else if crate::text::str_eq(request.method.as_str(), "tools/call") {
        handle_call_tool(request)
    } else if crate::text::str_eq(request.method.as_str(), "ping") {
        let id = dup_id(&request.id);
        Dispatch::Reply(JsonRpcResponse::success(id, Json::empty_obj()))
    } else {
        let id = dup_id(&request.id);
        let m = msg2("Method not found: ", request.method.as_str());
        Dispatch::Reply(JsonRpcResponse::error(id, -32601, m.as_str()))
    }
}

/// Handles `tools/call`: reads the parameters, then plans the named tool's
/// call; an immediate result is wrapped into a successful response at once.
#[verifier::rlimit(100)]
pub fn handle_call_tool(request: &JsonRpcRequest) -> (r: Dispatch)
    ensures
        !call_tool_parse_ok(request.params@) ==> (r matches Dispatch::Reply(resp)
            && is_rpc_error(resp, id_view(request.id), -32602)),
        call_tool_parse_ok(request.params@) ==> exists|plan: ToolPlan|
            #[trigger] dispatch_lifts(plan, id_view(request.id), r) && plan_spec(
                req_str(request.params@, "name"@),
                match spec_get(request.params@, "arguments"@) {
                    Some(a) => a,
                    None => JsonView::Null,
                },
                plan,
            ),
{
    broadcast use lemma_text_result_json, lemma_error_result_json;

    let id = dup_id(&request.id);
    let params = match CallToolParams::from_json(&request.params) {
        Ok(p) => p,
        Err(e) => {
            let m = msg2("Invalid params: ", e.as_str());
            return Dispatch::Reply(JsonRpcResponse::error(id, -32602, m.as_str()));
        },
    };
    let plan = plan_tool_call(params.name.as_str(), &params.arguments);
    let ghost gplan = plan;
    match plan {
        ToolPlan::Immediate(t) => {
            let value = t.to_json();
            let r = Dispatch::Reply(JsonRpcResponse::success(id, value));
            proof {
                assert(dispatch_lifts(gplan, id_view(request.id), r));
            }
            r
        },
        ToolPlan::RoundTrip { action, payload, pending } => {
            let r = Dispatch::ToolCall { id, action, payload, pending };
            proof {
                assert(dispatch_lifts(gplan, id_view(request.id), r));
            }
            r
        },
    }
}

} // verus!
