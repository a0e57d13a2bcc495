//! The static tool catalog: the sixteen operations the tool protocol
//! exposes, each with its name, its human description and the JSON schema of
//! its argument object.  The catalog never changes at run time.

use vstd::prelude::*;

use crate::json::{items_view, jstr, Json, JsonView};
use crate::mcp::types::ToolInfo;

verus! {

/// A property node of a schema: its JSON type and its description.
pub open spec fn sprop(typ: Seq<char>, desc: Seq<char>) -> JsonView {
    JsonView::Obj(
        seq![("type"@, JsonView::Str(typ)), ("description"@, JsonView::Str(desc))],
    )
}

/// A property node with a default value.
pub open spec fn sprop_dflt(typ: Seq<char>, desc: Seq<char>, dflt: JsonView) -> JsonView {
    JsonView::Obj(
        seq![
            ("type"@, JsonView::Str(typ)),
            ("description"@, JsonView::Str(desc)),
            ("default"@, dflt),
        ],
    )
}

/// A property node with an enumeration of the allowed values.
pub open spec fn sprop_enum(typ: Seq<char>, desc: Seq<char>, vals: Seq<JsonView>) -> JsonView {
    JsonView::Obj(
        seq![
            ("type"@, JsonView::Str(typ)),
            ("description"@, JsonView::Str(desc)),
            ("enum"@, JsonView::Arr(vals)),
        ],
    )
}

/// A property node with an enumeration and a default value.
pub open spec fn sprop_enum_dflt(
    typ: Seq<char>,
    desc: Seq<char>,
    vals: Seq<JsonView>,
    dflt: Seq<char>,
) -> JsonView {
    JsonView::Obj(
        seq![
            ("type"@, JsonView::Str(typ)),
            ("description"@, JsonView::Str(desc)),
            ("enum"@, JsonView::Arr(vals)),
            ("default"@, JsonView::Str(dflt)),
        ],
    )
}

/// An argument-object schema without required fields.
pub open spec fn sschema(props: JsonView) -> JsonView {
    JsonView::Obj(seq![("type"@, JsonView::Str("object"@)), ("properties"@, props)])
}

/// An argument-object schema with required fields.
pub open spec fn sschema_req(props: JsonView, req: Seq<JsonView>) -> JsonView {
    JsonView::Obj(
        seq![
            ("type"@, JsonView::Str("object"@)),
            ("properties"@, props),
            ("required"@, JsonView::Arr(req)),
        ],
    )
}

/// A property node: `{"type": ..., "description": ...}`.
fn prop(typ: &str, desc: &str) -> (r: Json)
    ensures
        r@ == sprop(typ@, desc@),
{
    crate::json::obj2("type", jstr(typ), "description", jstr(desc))
}

/// A property node with a default value.
fn prop_dflt(typ: &str, desc: &str, dflt: Json) -> (r: Json)
    ensures
        r@ == sprop_dflt(typ@, desc@, dflt@),
{
    crate::json::obj3("type", jstr(typ), "description", jstr(desc), "default", dflt)
}

/// An array of one string.
fn str_arr1(a: &str) -> (r: Json)
    ensures
        r@ == JsonView::Arr(seq![JsonView::Str(a@)]),
{
    let mut items: Vec<Json> = Vec::new();
    items.push(jstr(a));
    proof {
        crate::json::lemma_items_view(items@);
        assert(items_view(items@) =~= seq![JsonView::Str(a@)]);
    }
    Json::Arr(items)
}

/// An array of two strings, in order.
fn str_arr2(a: &str, b: &str) -> (r: Json)
    ensures
        r@ == JsonView::Arr(seq![JsonView::Str(a@), JsonView::Str(b@)]),
{
    let mut items: Vec<Json> = Vec::new();
    items.push(jstr(a));
    items.push(jstr(b));
    proof {
        crate::json::lemma_items_view(items@);
        assert(items_view(items@) =~= seq![JsonView::Str(a@), JsonView::Str(b@)]);
    }
    Json::Arr(items)
}

/// An array of three strings, in order.
fn str_arr3(a: &str, b: &str, c: &str) -> (r: Json)
    ensures
        r@ == JsonView::Arr(seq![JsonView::Str(a@), JsonView::Str(b@), JsonView::Str(c@)]),
{
    let mut items: Vec<Json> = Vec::new();
    items.push(jstr(a));
    items.push(jstr(b));
    items.push(jstr(c));
    proof {
        crate::json::lemma_items_view(items@);
        assert(items_view(items@) =~= seq![
            JsonView::Str(a@),
            JsonView::Str(b@),
            JsonView::Str(c@),
        ]);
    }
    Json::Arr(items)
}

/// The shell-selection property shared by `open_tab` and `split_pane`.
fn shell_prop(desc: &str) -> (r: Json)
    ensures
        r@ == sprop_enum_dflt(
            "string"@,
            desc@,
            seq![JsonView::Str("wsl"@), JsonView::Str("powershell"@), JsonView::Str("cmd"@)],
            "wsl"@,
        ),
{
    crate::json::obj4(
        "type",
        jstr("string"),
        "description",
        jstr(desc),
        "enum",
        str_arr3("wsl", "powershell", "cmd"),
        "default",
        jstr("wsl"),
    )
}

/// A schema of an argument object with no required fields.
fn schema(props: Json) -> (r: Json)
    ensures
        r@ == sschema(props@),
{
    crate::json::obj2("type", jstr("object"), "properties", props)
}

/// A schema of an argument object with required fields.
fn schema_req(props: Json, req: Json) -> (r: Json)
    ensures
        req@ matches JsonView::Arr(rs) ==> r@ == sschema_req(props@, rs),
{
    let r = crate::json::obj3("type", jstr("object"), "properties", props, "required", req);
    r
}

/// A schema of an empty argument object.
fn schema_empty() -> (r: Json)
    ensures
        r@ == sschema(JsonView::Obj(Seq::empty())),
{
    schema(Json::empty_obj())
}

/// The schema of `open_tab`'s arguments.
pub open spec fn open_tab_schema() -> JsonView {
    sschema(
        JsonView::Obj(
            seq![
                ("shell"@, sprop_enum_dflt(
                    "string"@,
                    "Shell type: wsl, powershell, or cmd"@,
                    seq![
                        JsonView::Str("wsl"@),
                        JsonView::Str("powershell"@),
                        JsonView::Str("cmd"@),
                    ],
                    "wsl"@,
                )),
                ("distro"@, sprop("string"@, "WSL distribution name (only for wsl shell)"@)),
                ("cwd"@, sprop("string"@, "Working directory to start in"@)),
                ("title"@, sprop("string"@, "Custom tab title"@)),
            ],
        ),
    )
}

/// The schema of `close_tab`'s arguments.
pub open spec fn close_tab_schema() -> JsonView {
    sschema_req(
        JsonView::Obj(seq![("tab_id"@, sprop("string"@, "The tab ID to close"@))]),
        seq![JsonView::Str("tab_id"@)],
    )
}

/// The schema of `focus_tab`'s arguments.
pub open spec fn focus_tab_schema() -> JsonView {
    sschema_req(
        JsonView::Obj(seq![("tab_id"@, sprop("string"@, "The tab ID to focus"@))]),
        seq![JsonView::Str("tab_id"@)],
    )
}

/// The schema of `run_command`'s arguments.
pub open spec fn run_command_schema() -> JsonView {
    sschema_req(
        JsonView::Obj(
            seq![
                ("tab_id"@, sprop("string"@, "The tab ID to run command in"@)),
                ("command"@, sprop("string"@, "The command to execute"@)),
                ("wait_for_output"@, sprop_dflt(
                    "boolean"@,
                    "Wait and return command output"@,
                    JsonView::Bool(false),
                )),
                ("timeout_ms"@, sprop_dflt(
                    "integer"@,
                    "Timeout in milliseconds when waiting for output"@,
                    JsonView::Int(5000),
                )),
            ],
        ),
        seq![JsonView::Str("tab_id"@), JsonView::Str("command"@)],
    )
}

/// The schema of `get_output`'s arguments.
pub open spec fn get_output_schema() -> JsonView {
    sschema_req(
        JsonView::Obj(
            seq![
                ("tab_id"@, sprop("string"@, "The tab ID to get output from"@)),
                ("lines"@, sprop_dflt(
                    "integer"@,
                    "Number of lines to retrieve"@,
                    JsonView::Int(100),
                )),
            ],
        ),
        seq![JsonView::Str("tab_id"@)],
    )
}

/// The schema of `set_theme`'s arguments.
pub open spec fn set_theme_schema() -> JsonView {
    sschema_req(
        JsonView::Obj(
            seq![
                ("theme"@, sprop(
                    "string"@,
                    "Theme name (catppuccin-mocha, dracula, nord, etc.)"@,
                )),
            ],
        ),
        seq![JsonView::Str("theme"@)],
    )
}

/// The schema of `add_ssh`'s arguments.
pub open spec fn add_ssh_schema() -> JsonView {
    sschema_req(
        JsonView::Obj(
            seq![
                ("name"@, sprop("string"@, "Display name for the connection"@)),
                ("host"@, sprop("string"@, "SSH host address"@)),
                ("port"@, sprop_dflt("integer"@, "SSH port"@, JsonView::Int(22))),
                ("user"@, sprop("string"@, "SSH username"@)),
            ],
        ),
        seq![JsonView::Str("name"@), JsonView::Str("host"@), JsonView::Str("user"@)],
    )
}

/// The schema of `remove_ssh`'s arguments.
pub open spec fn remove_ssh_schema() -> JsonView {
    sschema_req(
        JsonView::Obj(seq![("id"@, sprop("string"@, "SSH connection ID to remove"@))]),
        seq![JsonView::Str("id"@)],
    )
}

/// The schema of `connect_ssh`'s arguments.
pub open spec fn connect_ssh_schema() -> JsonView {
    sschema_req(
        JsonView::Obj(seq![("id"@, sprop("string"@, "SSH connection ID to connect to"@))]),
        seq![JsonView::Str("id"@)],
    )
}

/// The schema of `split_pane`'s arguments.
pub open spec fn split_pane_schema() -> JsonView {
    sschema_req(
        JsonView::Obj(
            seq![
                ("tab_id"@, sprop("string"@, "The tab ID to split"@)),
                ("direction"@, sprop_enum(
                    "string"@,
                    "Split direction"@,
                    seq![JsonView::Str("horizontal"@), JsonView::Str("vertical"@)],
                )),
                ("shell"@, sprop_enum_dflt(
                    "string"@,
                    "Shell for new pane"@,
                    seq![
                        JsonView::Str("wsl"@),
                        JsonView::Str("powershell"@),
                        JsonView::Str("cmd"@),
                    ],
                    "wsl"@,
                )),
            ],
        ),
        seq![JsonView::Str("tab_id"@), JsonView::Str("direction"@)],
    )
}

/// The schema of an argument object that takes nothing.
pub open spec fn empty_schema() -> JsonView {
    sschema(JsonView::Obj(Seq::empty()))
}

/// One catalog entry holds the given name, description and schema.
pub open spec fn tool_entry(t: ToolInfo, name: Seq<char>, desc: Seq<char>, schema: JsonView) -> bool {
    t.name@ == name && t.description@ == desc && t.input_schema@ == schema
}

/// Whether a name is one of the catalog's sixteen tools.
pub open spec fn is_catalog_name(n: Seq<char>) -> bool {
    ||| n == "open_tab"@
    ||| n == "close_tab"@
    ||| n == "focus_tab"@
    ||| n == "get_tabs"@
    ||| n == "run_command"@
    ||| n == "get_output"@
    ||| n == "set_theme"@
    ||| n == "get_themes"@
    ||| n == "add_ssh"@
    ||| n == "remove_ssh"@
    ||| n == "list_ssh"@
    ||| n == "connect_ssh"@
    ||| n == "get_state"@
    ||| n == "show_window"@
    ||| n == "hide_window"@
    ||| n == "split_pane"@
}

/// One catalog entry under its name.
fn tool_info(name: &str, desc: &str, input_schema: Json) -> (t: ToolInfo)
    ensures
        tool_entry(t, name@, desc@, input_schema@),
{
    ToolInfo {
        name: String::from_str(name),
        description: String::from_str(desc),
        input_schema,
    }
}

/// The whole catalog, in its fixed order.
pub fn get_tools() -> (r: Vec<ToolInfo>)
    ensures
        r@.len() == 16,
        tool_entry(
            r@[0],
            "open_tab"@,
            "Open a new terminal tab with specified shell (wsl, powershell, cmd)"@,
            open_tab_schema(),
        ),
        tool_entry(r@[1], "close_tab"@, "Close a terminal tab by its ID"@, close_tab_schema()),
        tool_entry(r@[2], "focus_tab"@, "Focus/activate a specific tab"@, focus_tab_schema()),
        tool_entry(
            r@[3],
            "get_tabs"@,
            "List all open tabs with their info (id, title, shell, active state)"@,
            empty_schema(),
        ),
        tool_entry(
            r@[4],
            "run_command"@,
            "Execute a command in a specific terminal tab"@,
            run_command_schema(),
        ),
        tool_entry(
            r@[5],
            "get_output"@,
            "Get recent output from a terminal tab"@,
            get_output_schema(),
        ),
        tool_entry(r@[6], "set_theme"@, "Change the terminal theme"@, set_theme_schema()),
        tool_entry(r@[7], "get_themes"@, "List all available themes"@, empty_schema()),
        tool_entry(r@[8], "add_ssh"@, "Add a new SSH connection"@, add_ssh_schema()),
        tool_entry(r@[9], "remove_ssh"@, "Remove an SSH connection"@, remove_ssh_schema()),
        tool_entry(r@[10], "list_ssh"@, "List all saved SSH connections"@, empty_schema()),
        tool_entry(
            r@[11],
            "connect_ssh"@,
            "Open a new tab and connect via SSH"@,
            connect_ssh_schema(),
        ),
        tool_entry(
            r@[12],
            "get_state"@,
            "Get complete app state (tabs, theme, SSH connections)"@,
            empty_schema(),
        ),
        tool_entry(
            r@[13],
            "show_window"@,
            "Show and focus the terminal window"@,
            empty_schema(),
        ),
        tool_entry(r@[14], "hide_window"@, "Hide the terminal window"@, empty_schema()),
        tool_entry(
            r@[15],
            "split_pane"@,
            "Split the current pane horizontally or vertically"@,
            split_pane_schema(),
        ),
{
    let mut tools: Vec<ToolInfo> = Vec::new();
    tools.push(
        tool_info(
            "open_tab",
            "Open a new terminal tab with specified shell (wsl, powershell, cmd)",
            schema(
                crate::json::obj4(
                    "shell",
                    shell_prop("Shell type: wsl, powershell, or cmd"),
                    "distro",
                    prop("string", "WSL distribution name (only for wsl shell)"),
                    "cwd",
                    prop("string", "Working directory to start in"),
                    "title",
                    prop("string", "Custom tab title"),
                ),
            ),
        ),
    );
    tools.push(
        tool_info(
            "close_tab",
            "Close a terminal tab by its ID",
            schema_req(
                crate::json::obj1("tab_id", prop("string", "The tab ID to close")),
                str_arr1("tab_id"),
            ),
        ),
    );
    tools.push(
        tool_info(
            "focus_tab",
            "Focus/activate a specific tab",
            schema_req(
                crate::json::obj1("tab_id", prop("string", "The tab ID to focus")),
                str_arr1("tab_id"),
            ),
        ),
    );
    tools.push(
        tool_info(
            "get_tabs",
            "List all open tabs with their info (id, title, shell, active state)",
            schema_empty(),
        ),
    );
    tools.push(
        tool_info(
            "run_command",
            "Execute a command in a specific terminal tab",
            schema_req(
                crate::json::obj4(
                    "tab_id",
                    prop("string", "The tab ID to run command in"),
                    "command",
                    prop("string", "The command to execute"),
                    "wait_for_output",
                    prop_dflt("boolean", "Wait and return command output", Json::Bool(false)),
                    "timeout_ms",
                    prop_dflt(
                        "integer",
                        "Timeout in milliseconds when waiting for output",
                        Json::Int(5000),
                    ),
                ),
                str_arr2("tab_id", "command"),
            ),
        ),
    );
    tools.push(
        tool_info(
            "get_output",
            "Get recent output from a terminal tab",
            schema_req(
                crate::json::obj2(
                    "tab_id",
                    prop("string", "The tab ID to get output from"),
                    "lines",
                    prop_dflt("integer", "Number of lines to retrieve", Json::Int(100)),
                ),
                str_arr1("tab_id"),
            ),
        ),
    );
    tools.push(
        tool_info(
            "set_theme",
            "Change the terminal theme",
            schema_req(
                crate::json::obj1(
                    "theme",
                    prop("string", "Theme name (catppuccin-mocha, dracula, nord, etc.)"),
                ),
                str_arr1("theme"),
            ),
        ),
    );
    tools.push(tool_info("get_themes", "List all available themes", schema_empty()));
    tools.push(
        tool_info(
            "add_ssh",
            "Add a new SSH connection",
            schema_req(
                crate::json::obj4(
                    "name",
                    prop("string", "Display name for the connection"),
                    "host",
                    prop("string", "SSH host address"),
                    "port",
                    prop_dflt("integer", "SSH port", Json::Int(22)),
                    "user",
                    prop("string", "SSH username"),
                ),
                str_arr3("name", "host", "user"),
            ),
        ),
    );
    tools.push(
        tool_info(
            "remove_ssh",
            "Remove an SSH connection",
            schema_req(
                crate::json::obj1("id", prop("string", "SSH connection ID to remove")),
                str_arr1("id"),
            ),
        ),
    );
    tools.push(tool_info("list_ssh", "List all saved SSH connections", schema_empty()));
    tools.push(
        tool_info(
            "connect_ssh",
            "Open a new tab and connect via SSH",
            schema_req(
                crate::json::obj1("id", prop("string", "SSH connection ID to connect to")),
                str_arr1("id"),
            ),
        ),
    );
    tools.push(
        tool_info(
            "get_state",
            "Get complete app state (tabs, theme, SSH connections)",
            schema_empty(),
        ),
    );
    tools.push(
        tool_info("show_window", "Show and focus the terminal window", schema_empty()),
    );
    tools.push(tool_info("hide_window", "Hide the terminal window", schema_empty()));
    tools.push(
        tool_info(
            "split_pane",
            "Split the current pane horizontally or vertically",
            schema_req(
                crate::json::obj3(
                    "tab_id",
                    prop("string", "The tab ID to split"),
                    "direction",
                    crate::json::obj3(
                        "type",
                        jstr("string"),
                        "description",
                        jstr("Split direction"),
                        "enum",
                        str_arr2("horizontal", "vertical"),
                    ),
                    "shell",
                    shell_prop("Shell for new pane"),
                ),
                str_arr2("tab_id", "direction"),
            ),
        ),
    );
    tools
}

} // verus!
