//! The tool protocol's data shapes: requests, responses, tool results and
//! the argument records of each tool, with their JSON renderings and the
//! validation that turns a caller's argument document into a typed record.

use vstd::prelude::*;

use crate::json::{fields_view, items_view, jstr, spec_get, Json, JsonView};

verus! {

/// One JSON-RPC request: the protocol tag, the caller's correlation id, the
/// method name, and the parameter document (`Null` where none was given).
pub struct JsonRpcRequest {
    pub jsonrpc: String,
    pub id: Option<Json>,
    pub method: String,
    pub params: Json,
}

/// One JSON-RPC response: exactly one of `result` and `error` is set.
pub struct JsonRpcResponse {
    pub jsonrpc: String,
    pub id: Option<Json>,
    pub result: Option<Json>,
    pub error: Option<JsonRpcError>,
}

/// A JSON-RPC error object.
pub struct JsonRpcError {
    pub code: i32,
    pub message: String,
    pub data: Option<Json>,
}

/// Whether a request document parses into a `JsonRpcRequest`: an object with
/// string `jsonrpc` and `method` fields; the id, if present, is any value,
/// and missing params default to `Null`.
pub open spec fn request_parse_ok(v: JsonView) -> bool {
    &&& v is Obj
    &&& spec_get(v, "jsonrpc"@) matches Some(JsonView::Str(_))
    &&& spec_get(v, "method"@) matches Some(JsonView::Str(_))
}

impl JsonRpcRequest {
    /// Reads a parsed request document into its typed shape; what does not
    /// carry the required string `jsonrpc` and `method` fields of an object
    /// is rejected, and the front-end answers with a parse error.
    pub fn from_json(v: &Json) -> (r: Result<JsonRpcRequest, String>)
        ensures
            match r {
                Ok(req) => {
                    &&& request_parse_ok(v@)
                    &&& spec_get(v@, "jsonrpc"@) == Some(JsonView::Str(req.jsonrpc@))
                    &&& spec_get(v@, "method"@) == Some(JsonView::Str(req.method@))
                    &&& match req.id {
                        Some(id) => spec_get(v@, "id"@) == Some(id@),
                        None => spec_get(v@, "id"@) is None,
                    }
                    &&& req.params@ == (match spec_get(v@, "params"@) {
                        Some(p) => p,
                        None => JsonView::Null,
                    })
                },
                Err(_) => !request_parse_ok(v@),
            },
    {
        if !v.is_object() {
            return Err(String::from_str("expected a JSON object"));
        }
        let jsonrpc = match v.get("jsonrpc") {
            Some(f) => match f.as_str() {
                Some(s) => s.clone(),
                None => {
                    return Err(String::from_str("field `jsonrpc` must be a string"));
                },
            },
            None => {
                return Err(String::from_str("missing field `jsonrpc`"));
            },
        };
        let method = match v.get("method") {
            Some(f) => match f.as_str() {
                Some(s) => s.clone(),
                None => {
                    return Err(String::from_str("field `method` must be a string"));
                },
            },
            None => {
                return Err(String::from_str("missing field `method`"));
            },
        };
        let id = match v.get("id") {
            Some(f) => Some(f.duplicate()),
            None => None,
        };
        let params = match v.get("params") {
            Some(f) => f.duplicate(),
            None => Json::Null,
        };
        Ok(JsonRpcRequest { jsonrpc, id, method, params })
    }
}

/// The JSON document of an error object: code and message, and the data
/// only where there is any.
pub open spec fn error_json(e: JsonRpcError) -> JsonView {
    JsonView::Obj(
        seq![("code"@, JsonView::Int(e.code as i64)), ("message"@, JsonView::Str(e.message@))]
            + (match e.data {
            Some(d) => seq![("data"@, d@)],
            None => Seq::empty(),
        }),
    )
}

/// The JSON document of a response: the protocol tag always; id, result and
/// error only where they are set.
pub open spec fn response_json(r: JsonRpcResponse) -> JsonView {
    JsonView::Obj(
        seq![("jsonrpc"@, JsonView::Str(r.jsonrpc@))] + (match r.id {
            Some(id) => seq![("id"@, id@)],
            None => Seq::empty(),
        }) + (match r.result {
            Some(v) => seq![("result"@, v@)],
            None => Seq::empty(),
        }) + (match r.error {
            Some(e) => seq![("error"@, error_json(e))],
            None => Seq::empty(),
        }),
    )
}

impl JsonRpcResponse {
    /// A successful response carrying `result` for the request with this id.
    pub fn success(id: Option<Json>, result: Json) -> (r: JsonRpcResponse)
        ensures
            r.jsonrpc@ == "2.0"@,
            r.id == id,
            r.result == Some(result),
            r.error is None,
    {
        JsonRpcResponse { jsonrpc: String::from_str("2.0"), id, result: Some(result), error: None }
    }

    /// An error response with this code and message for the request with
    /// this id.
    pub fn error(id: Option<Json>, code: i32, message: &str) -> (r: JsonRpcResponse)
        ensures
            r.jsonrpc@ == "2.0"@,
            r.id == id,
            r.result is None,
            r.error matches Some(e) && e.code == code && e.message@ == message@ && e.data
                is None,
    {
        JsonRpcResponse {
            jsonrpc: String::from_str("2.0"),
            id,
            result: None,
            error: Some(
                JsonRpcError { code, message: String::from_str(message), data: None },
            ),
        }
    }

    /// This response as the JSON document written on the wire.
    pub fn to_json(&self) -> (r: Json)
        ensures
            r@ == response_json(*self),
    {
        let mut fields: Vec<(String, Json)> = Vec::new();
        fields.push((String::from_str("jsonrpc"), Json::Str(self.jsonrpc.clone())));
        proof {
            crate::json::lemma_fields_view(fields@);
            assert(fields_view(fields@) =~= seq![("jsonrpc"@, JsonView::Str(self.jsonrpc@))]);
        }
        let ghost fv0 = fields_view(fields@);
        match &self.id {
            Some(id) => {
                fields.push((String::from_str("id"), id.duplicate()));
            },
            None => {},
        }
        proof {
            crate::json::lemma_fields_view(fields@);
            assert(fields_view(fields@) =~= fv0 + (match self.id {
                Some(id) => seq![("id"@, id@)],
                None => Seq::<(Seq<char>, JsonView)>::empty(),
            }));
        }
        let ghost fv1 = fields_view(fields@);
        match &self.result {
            Some(v) => {
                fields.push((String::from_str("result"), v.duplicate()));
            },
            None => {},
        }
        proof {
            crate::json::lemma_fields_view(fields@);
            assert(fields_view(fields@) =~= fv1 + (match self.result {
                Some(v) => seq![("result"@, v@)],
                None => Seq::<(Seq<char>, JsonView)>::empty(),
            }));
        }
        let ghost fv2 = fields_view(fields@);
        match &self.error {
            Some(e) => {
                let mut err_fields: Vec<(String, Json)> = Vec::new();
                err_fields.push((String::from_str("code"), Json::Int(e.code as i64)));
                err_fields.push((String::from_str("message"), Json::Str(e.message.clone())));
                proof {
                    crate::json::lemma_fields_view(err_fields@);
                    assert(fields_view(err_fields@) =~= seq![
                        ("code"@, JsonView::Int(e.code as i64)),
                        ("message"@, JsonView::Str(e.message@)),
                    ]);
                }
                let ghost ev0 = fields_view(err_fields@);
                match &e.data {
                    Some(d) => {
                        err_fields.push((String::from_str("data"), d.duplicate()));
                    },
                    None => {},
                }
                proof {
                    crate::json::lemma_fields_view(err_fields@);
                    assert(fields_view(err_fields@) =~= ev0 + (match e.data {
                        Some(d) => seq![("data"@, d@)],
                        None => Seq::<(Seq<char>, JsonView)>::empty(),
                    }));
                }
                fields.push((String::from_str("error"), Json::Obj(err_fields)));
            },
            None => {},
        }
        proof {
            crate::json::lemma_fields_view(fields@);
            assert(fields_view(fields@) =~= fv2 + (match self.error {
                Some(e) => seq![("error"@, error_json(e))],
                None => Seq::<(Seq<char>, JsonView)>::empty(),
            }));
            assert(fields_view(fields@) =~= seq![("jsonrpc"@, JsonView::Str(self.jsonrpc@))]
                + (match self.id {
                Some(id) => seq![("id"@, id@)],
                None => Seq::<(Seq<char>, JsonView)>::empty(),
            }) + (match self.result {
                Some(v) => seq![("result"@, v@)],
                None => Seq::<(Seq<char>, JsonView)>::empty(),
            }) + (match self.error {
                Some(e) => seq![("error"@, error_json(e))],
                None => Seq::<(Seq<char>, JsonView)>::empty(),
            }));
        }
        Json::Obj(fields)
    }
}

/// The name and version the server announces about itself.
pub struct ServerInfo {
    pub name: String,
    pub version: String,
}

/// What the server can do: for this protocol, a static tool catalog.
pub struct Capabilities {
    pub tools: Option<ToolsCapability>,
}

/// The tool capability: the catalog never changes at run time.
pub struct ToolsCapability {
    pub list_changed: bool,
}

/// The full answer to `initialize`.
pub struct InitializeResult {
    pub protocol_version: String,
    pub capabilities: Capabilities,
    pub server_info: ServerInfo,
}

/// One catalog entry: a tool's name, its human description, and the JSON
/// schema of its argument object.
pub struct ToolInfo {
    pub name: String,
    pub description: String,
    pub input_schema: Json,
}

/// The answer to `tools/list`: the whole catalog.
pub struct ListToolsResult {
    pub tools: Vec<ToolInfo>,
}

/// The parameters of `tools/call`: which tool, and the argument document
/// (`Null` where none was given).
pub struct CallToolParams {
    pub name: String,
    pub arguments: Json,
}

/// One block of a tool result's content; only text blocks exist here.
pub enum ContentBlock {
    Text { text: String },
}

/// What a tool call returns to the caller: content blocks, and an error
/// marker where the call failed at the tool level.
pub struct ToolResult {
    pub content: Vec<ContentBlock>,
    pub is_error: Option<bool>,
}

/// The JSON document of one content block.
pub open spec fn content_block_json(b: ContentBlock) -> JsonView {
    match b {
        ContentBlock::Text { text } => JsonView::Obj(
            seq![("type"@, JsonView::Str("text"@)), ("text"@, JsonView::Str(text@))],
        ),
    }
}

/// The JSON documents of a list of content blocks, in order.
pub open spec fn content_blocks_json(blocks: Seq<ContentBlock>) -> Seq<JsonView>
    decreases blocks.len(),
{
    if blocks.len() == 0 {
        Seq::empty()
    } else {
        seq![content_block_json(blocks[0])] + content_blocks_json(
            blocks.subrange(1, blocks.len() as int),
        )
    }
}

/// The JSON document of a tool result: the content always, the error marker
/// only where it is set.
pub open spec fn tool_result_json(t: ToolResult) -> JsonView {
    JsonView::Obj(
        seq![("content"@, JsonView::Arr(content_blocks_json(t.content@)))] + (match t.is_error {
            Some(b) => seq![("isError"@, JsonView::Bool(b))],
            None => Seq::empty(),
        }),
    )
}

/// A result is plain text when it carries one text block and no error
/// marker.
pub open spec fn is_text_result(t: ToolResult, msg: Seq<char>) -> bool {
    &&& t.content@.len() == 1
    &&& t.content@[0] matches ContentBlock::Text { text } && text@ == msg
    &&& t.is_error is None
}

/// A result is a tool-level error when it carries one text block holding the
/// message and the error marker set.
pub open spec fn is_error_result(t: ToolResult, msg: Seq<char>) -> bool {
    &&& t.content@.len() == 1
    &&& t.content@[0] matches ContentBlock::Text { text } && text@ == msg
    &&& t.is_error == Some(true)
}

/// Renders the content blocks from position `i` on as JSON documents.
fn content_blocks_to_json(blocks: &Vec<ContentBlock>, i: usize) -> (r: Vec<Json>)
    requires
        i <= blocks@.len(),
    ensures
        items_view(r@) == content_blocks_json(blocks@.skip(i as int)),
    decreases blocks@.len() - i,
{
    if i < blocks.len() {
        let ContentBlock::Text { text } = &blocks[i];
        let block = crate::json::obj2("type", jstr("text"), "text", Json::Str(text.clone()));
        let mut rest = content_blocks_to_json(blocks, i + 1);
        let ghost before = rest@;
        rest.insert(0, block);
        proof {
            assert(rest@ =~= seq![block] + before);
            crate::json::lemma_items_view(rest@);
            crate::json::lemma_items_view(before);
            assert(blocks@.skip(i as int)[0] == blocks@[i as int]);
            assert(blocks@.skip(i as int).subrange(1, blocks@.skip(i as int).len() as int)
                =~= blocks@.skip(i as int + 1));
            assert(items_view(rest@) =~= content_blocks_json(blocks@.skip(i as int)));
        }
        rest
    } else {
        let r: Vec<Json> = Vec::new();
        proof {
            assert(items_view(r@) =~= Seq::<JsonView>::empty());
            assert(content_blocks_json(blocks@.skip(i as int)) =~= Seq::<JsonView>::empty());
        }
        r
    }
}

impl ToolResult {
    /// A successful result carrying one text block.
    pub fn text(content: &str) -> (r: ToolResult)
        ensures
            is_text_result(r, content@),
    {
        let mut blocks: Vec<ContentBlock> = Vec::new();
        blocks.push(ContentBlock::Text { text: String::from_str(content) });
        ToolResult { content: blocks, is_error: None }
    }

    /// A tool-level error carrying its message as one text block.
    pub fn error(message: &str) -> (r: ToolResult)
        ensures
            is_error_result(r, message@),
    {
        let mut blocks: Vec<ContentBlock> = Vec::new();
        blocks.push(ContentBlock::Text { text: String::from_str(message) });
        ToolResult { content: blocks, is_error: Some(true) }
    }

    /// This result as the JSON document placed into the response.
    pub fn to_json(&self) -> (r: Json)
        ensures
            r@ == tool_result_json(*self),
    {
        let blocks = content_blocks_to_json(&self.content, 0);
        let mut fields: Vec<(String, Json)> = Vec::new();
        fields.push((String::from_str("content"), Json::Arr(blocks)));
        proof {
            crate::json::lemma_fields_view(fields@);
            assert(self.content@.skip(0) =~= self.content@);
            assert(fields_view(fields@) =~= seq![
                ("content"@, JsonView::Arr(content_blocks_json(self.content@))),
            ]);
        }
        let ghost fv0 = fields_view(fields@);
        match self.is_error {
            Some(b) => {
                fields.push((String::from_str("isError"), Json::Bool(b)));
            },
            None => {},
        }
        proof {
            crate::json::lemma_fields_view(fields@);
            assert(fields_view(fields@) =~= fv0 + (match self.is_error {
                Some(b) => seq![("isError"@, JsonView::Bool(b))],
                None => Seq::<(Seq<char>, JsonView)>::empty(),
            }));
        }
        Json::Obj(fields)
    }
}

/// The shell a tab opens with when none is named.
pub fn default_shell() -> (r: String)
    ensures
        r@ == "wsl"@,
{
    String::from_str("wsl")
}

/// How long a command waits for output when no timeout is named, in
/// milliseconds.
pub fn default_timeout() -> (r: u64)
    ensures
        r == 5000,
{
    5000
}

/// How many recent lines of output are fetched when no count is named.
pub fn default_lines() -> (r: usize)
    ensures
        r == 100,
{
    100
}

/// The SSH port used when none is named.
pub fn default_port() -> (r: u16)
    ensures
        r == 22,
{
    22
}

/// The value of an optional correlation id.
pub open spec fn id_view(o: Option<Json>) -> Option<JsonView> {
    match o {
        Some(v) => Some(v@),
        None => None,
    }
}

/// A copy of an optional correlation id with the same value.
pub fn dup_id(o: &Option<Json>) -> (r: Option<Json>)
    ensures
        id_view(r) == id_view(*o),
{
    match o {
        Some(v) => Some(v.duplicate()),
        None => None,
    }
}

/// The characters of an optional string.
pub open spec fn opt_view(o: Option<String>) -> Option<Seq<char>> {
    match o {
        Some(s) => Some(s@),
        None => None,
    }
}

/// Whether an argument object carries the required string field `key`.
pub open spec fn req_str_ok(v: JsonView, key: Seq<char>) -> bool {
    spec_get(v, key) matches Some(JsonView::Str(_))
}

/// The required string field `key`, where it is carried.
pub open spec fn req_str(v: JsonView, key: Seq<char>) -> Seq<char> {
    match spec_get(v, key) {
        Some(JsonView::Str(s)) => s,
        _ => Seq::empty(),
    }
}

/// Whether the optional string field `key` is acceptable: absent, null, or a
/// string.
pub open spec fn opt_str_ok(v: JsonView, key: Seq<char>) -> bool {
    match spec_get(v, key) {
        None => true,
        Some(JsonView::Null) => true,
        Some(JsonView::Str(_)) => true,
        _ => false,
    }
}

/// The optional string field `key`: its characters where it is a string,
/// nothing where it is absent or null.
pub open spec fn opt_str(v: JsonView, key: Seq<char>) -> Option<Seq<char>> {
    match spec_get(v, key) {
        Some(JsonView::Str(s)) => Some(s),
        _ => None,
    }
}

/// Whether the defaulted string field `key` is acceptable: absent or a
/// string; unlike an optional field, null is rejected.
pub open spec fn def_str_ok(v: JsonView, key: Seq<char>) -> bool {
    match spec_get(v, key) {
        None => true,
        Some(JsonView::Str(_)) => true,
        _ => false,
    }
}

/// The defaulted string field `key`, falling back to `dflt` where absent.
pub open spec fn def_str(v: JsonView, key: Seq<char>, dflt: Seq<char>) -> Seq<char> {
    match spec_get(v, key) {
        Some(JsonView::Str(s)) => s,
        _ => dflt,
    }
}

/// Whether the defaulted truth-value field `key` is acceptable.
pub open spec fn def_bool_ok(v: JsonView, key: Seq<char>) -> bool {
    match spec_get(v, key) {
        None => true,
        Some(JsonView::Bool(_)) => true,
        _ => false,
    }
}

/// The defaulted truth-value field `key`.
pub open spec fn def_bool(v: JsonView, key: Seq<char>, dflt: bool) -> bool {
    match spec_get(v, key) {
        Some(JsonView::Bool(b)) => b,
        _ => dflt,
    }
}

/// Whether the defaulted unsigned field `key` is acceptable: absent, or an
/// integer within `0 ..= bound`.
pub open spec fn def_uint_ok(v: JsonView, key: Seq<char>, bound: int) -> bool {
    match spec_get(v, key) {
        None => true,
        Some(JsonView::Int(n)) => 0 <= n && n <= bound,
        _ => false,
    }
}

/// The defaulted unsigned field `key`, as the integer it carries.
pub open spec fn def_uint(v: JsonView, key: Seq<char>, dflt: int) -> int {
    match spec_get(v, key) {
        Some(JsonView::Int(n)) => n as int,
        _ => dflt,
    }
}

/// The required string field `key` of an argument object, or why it cannot
/// be read.
fn get_req_str(args: &Json, key: &str) -> (r: Result<String, String>)
    ensures
        match r {
            Ok(s) => req_str_ok(args@, key@) && s@ == req_str(args@, key@),
            Err(_) => !req_str_ok(args@, key@),
        },
{
    match args.get(key) {
        Some(f) => match f.as_str() {
            Some(s) => Ok(s.clone()),
            None => {
                let mut m = String::from_str("field `");
                m.append(key);
                m.append("` must be a string");
                Err(m)
            },
        },
        None => {
            let mut m = String::from_str("missing field `");
            m.append(key);
            m.append("`");
            Err(m)
        },
    }
}

/// The optional string field `key` of an argument object, or why it cannot
/// be read.
fn get_opt_str(args: &Json, key: &str) -> (r: Result<Option<String>, String>)
    ensures
        match r {
            Ok(o) => opt_str_ok(args@, key@) && opt_view(o) == opt_str(args@, key@),
            Err(_) => !opt_str_ok(args@, key@),
        },
{
    match args.get(key) {
        Some(f) => match f.as_str() {
            Some(s) => Ok(Some(s.clone())),
            None => match f {
                Json::Null => Ok(None),
                _ => {
                    let mut m = String::from_str("field `");
                    m.append(key);
                    m.append("` must be a string");
                    Err(m)
                },
            },
        },
        None => Ok(None),
    }
}

/// The defaulted string field `key` of an argument object, or why it cannot
/// be read.
fn get_def_str(args: &Json, key: &str, dflt: &str) -> (r: Result<String, String>)
    ensures
        match r {
            Ok(s) => def_str_ok(args@, key@) && s@ == def_str(args@, key@, dflt@),
            Err(_) => !def_str_ok(args@, key@),
        },
{
    match args.get(key) {
        Some(f) => match f.as_str() {
            Some(s) => Ok(s.clone()),
            None => {
                let mut m = String::from_str("field `");
                m.append(key);
                m.append("` must be a string");
                Err(m)
            },
        },
        None => Ok(String::from_str(dflt)),
    }
}

/// The defaulted truth-value field `key` of an argument object, or why it
/// cannot be read.
fn get_def_bool(args: &Json, key: &str, dflt: bool) -> (r: Result<bool, String>)
    ensures
        match r {
            Ok(b) => def_bool_ok(args@, key@) && b == def_bool(args@, key@, dflt),
            Err(_) => !def_bool_ok(args@, key@),
        },
{
    match args.get(key) {
        Some(f) => match f.as_bool() {
            Some(b) => Ok(b),
            None => {
                let mut m = String::from_str("field `");
                m.append(key);
                m.append("` must be a boolean");
                Err(m)
            },
        },
        None => Ok(dflt),
    }
}

/// The defaulted unsigned field `key` of an argument object, held to the
/// given bound, or why it cannot be read.
fn get_def_uint(args: &Json, key: &str, dflt: u64, bound: u64) -> (r: Result<u64, String>)
    requires
        dflt <= bound,
    ensures
        match r {
            Ok(n) => def_uint_ok(args@, key@, bound as int) && n == def_uint(
                args@,
                key@,
                dflt as int,
            ) && n <= bound,
            Err(_) => !def_uint_ok(args@, key@, bound as int),
        },
{
    match args.get(key) {
        Some(f) => match f.as_int() {
            Some(n) => {
                if n >= 0 && (n as u64) <= bound {
                    Ok(n as u64)
                } else {
                    let mut m = String::from_str("field `");
                    m.append(key);
                    m.append("` is out of range");
                    Err(m)
                }
            },
            None => {
                let mut m = String::from_str("field `");
                m.append(key);
                m.append("` must be an integer");
                Err(m)
            },
        },
        None => Ok(dflt),
    }
}

/// An unsigned integer as a JSON document: an integer node while it fits,
/// its decimal text carried as a number otherwise.
pub open spec fn u64_json(n: u64) -> JsonView {
    if n <= i64::MAX as u64 {
        JsonView::Int(n as i64)
    } else {
        JsonView::Num(crate::json_text::nat_text(n as nat))
    }
}

/// An unsigned integer as a JSON document.
fn jint_u64(n: u64) -> (r: Json)
    ensures
        r@ == u64_json(n),
{
    if n <= (i64::MAX as u64) {
        Json::Int(n as i64)
    } else {
        Json::Num(crate::json_text::nat_string(n))
    }
}

/// Arguments of `open_tab`: which shell, and optionally a distribution, a
/// working directory and a tab title.
pub struct OpenTabParams {
    pub shell: String,
    pub distro: Option<String>,
    pub cwd: Option<String>,
    pub title: Option<String>,
}

/// Whether an argument document parses into `OpenTabParams`.
pub open spec fn open_tab_parse_ok(v: JsonView) -> bool {
    &&& v is Obj
    &&& def_str_ok(v, "shell"@)
    &&& opt_str_ok(v, "distro"@)
    &&& opt_str_ok(v, "cwd"@)
    &&& opt_str_ok(v, "title"@)
}

/// The payload `open_tab` forwards: the shell always, the optional fields
/// only where they were given.
pub open spec fn open_tab_payload(p: OpenTabParams) -> JsonView {
    JsonView::Obj(
        seq![("shell"@, JsonView::Str(p.shell@))] + (match p.distro {
            Some(d) => seq![("distro"@, JsonView::Str(d@))],
            None => Seq::empty(),
        }) + (match p.cwd {
            Some(c) => seq![("cwd"@, JsonView::Str(c@))],
            None => Seq::empty(),
        }) + (match p.title {
            Some(t) => seq![("title"@, JsonView::Str(t@))],
            None => Seq::empty(),
        }),
    )
}

impl OpenTabParams {
    /// Reads an argument document, rejecting what the record cannot hold;
    /// a missing shell falls back to the default shell name.
    pub fn from_json(args: &Json) -> (r: Result<OpenTabParams, String>)
        ensures
            match r {
                Ok(p) => {
                    &&& open_tab_parse_ok(args@)
                    &&& p.shell@ == def_str(args@, "shell"@, "wsl"@)
                    &&& opt_view(p.distro) == opt_str(args@, "distro"@)
                    &&& opt_view(p.cwd) == opt_str(args@, "cwd"@)
                    &&& opt_view(p.title) == opt_str(args@, "title"@)
                },
                Err(_) => !open_tab_parse_ok(args@),
            },
    {
        if !args.is_object() {
            return Err(String::from_str("expected an object"));
        }
        let ds = default_shell();
        let shell = get_def_str(args, "shell", ds.as_str())?;
        let distro = get_opt_str(args, "distro")?;
        let cwd = get_opt_str(args, "cwd")?;
        let title = get_opt_str(args, "title")?;
        Ok(OpenTabParams { shell, distro, cwd, title })
    }

    /// This record as the payload of its control-plane round trip.
    pub fn to_payload(&self) -> (r: Json)
        ensures
            r@ == open_tab_payload(*self),
    {
        let mut fields: Vec<(String, Json)> = Vec::new();
        fields.push((String::from_str("shell"), Json::Str(self.shell.clone())));
        proof {
            crate::json::lemma_fields_view(fields@);
            assert(fields_view(fields@) =~= seq![("shell"@, JsonView::Str(self.shell@))]);
        }
        let ghost fv0 = fields_view(fields@);
        match &self.distro {
            Some(d) => {
                fields.push((String::from_str("distro"), Json::Str(d.clone())));
            },
            None => {},
        }
        proof {
            crate::json::lemma_fields_view(fields@);
            assert(fields_view(fields@) =~= fv0 + (match self.distro {
                Some(d) => seq![("distro"@, JsonView::Str(d@))],
                None => Seq::<(Seq<char>, JsonView)>::empty(),
            }));
        }
        let ghost fv1 = fields_view(fields@);
        match &self.cwd {
            Some(c) => {
                fields.push((String::from_str("cwd"), Json::Str(c.clone())));
            },
            None => {},
        }
        proof {
            crate::json::lemma_fields_view(fields@);
            assert(fields_view(fields@) =~= fv1 + (match self.cwd {
                Some(c) => seq![("cwd"@, JsonView::Str(c@))],
                None => Seq::<(Seq<char>, JsonView)>::empty(),
            }));
        }
        let ghost fv2 = fields_view(fields@);
        match &self.title {
            Some(t) => {
                fields.push((String::from_str("title"), Json::Str(t.clone())));
            },
            None => {},
        }
        proof {
            crate::json::lemma_fields_view(fields@);
            assert(fields_view(fields@) =~= fv2 + (match self.title {
                Some(t) => seq![("title"@, JsonView::Str(t@))],
                None => Seq::<(Seq<char>, JsonView)>::empty(),
            }));
        }
        Json::Obj(fields)
    }
}

/// Arguments of `close_tab`: the tab to close.
pub struct CloseTabParams {
    pub tab_id: String,
}

/// Whether an argument document parses into `CloseTabParams`.
pub open spec fn close_tab_parse_ok(v: JsonView) -> bool {
    v is Obj && req_str_ok(v, "tab_id"@)
}

impl CloseTabParams {
    /// Reads an argument document, rejecting what lacks the tab id.
    pub fn from_json(args: &Json) -> (r: Result<CloseTabParams, String>)
        ensures
            match r {
                Ok(p) => close_tab_parse_ok(args@) && p.tab_id@ == req_str(args@, "tab_id"@),
                Err(_) => !close_tab_parse_ok(args@),
            },
    {
        if !args.is_object() {
            return Err(String::from_str("expected an object"));
        }
        let tab_id = get_req_str(args, "tab_id")?;
        Ok(CloseTabParams { tab_id })
    }

    /// This record as the payload of its control-plane round trip.
    pub fn to_payload(&self) -> (r: Json)
        ensures
            r@ == JsonView::Obj(seq![("tab_id"@, JsonView::Str(self.tab_id@))]),
    {
        crate::json::obj1("tab_id", Json::Str(self.tab_id.clone()))
    }
}

/// Arguments of `focus_tab`: the tab to bring forward.
pub struct FocusTabParams {
    pub tab_id: String,
}

/// Whether an argument document parses into `FocusTabParams`.
pub open spec fn focus_tab_parse_ok(v: JsonView) -> bool {
    v is Obj && req_str_ok(v, "tab_id"@)
}

impl FocusTabParams {
    /// Reads an argument document, rejecting what lacks the tab id.
    pub fn from_json(args: &Json) -> (r: Result<FocusTabParams, String>)
        ensures
            match r {
                Ok(p) => focus_tab_parse_ok(args@) && p.tab_id@ == req_str(args@, "tab_id"@),
                Err(_) => !focus_tab_parse_ok(args@),
            },
    {
        if !args.is_object() {
            return Err(String::from_str("expected an object"));
        }
        let tab_id = get_req_str(args, "tab_id")?;
        Ok(FocusTabParams { tab_id })
    }

    /// This record as the payload of its control-plane round trip.
    pub fn to_payload(&self) -> (r: Json)
        ensures
            r@ == JsonView::Obj(seq![("tab_id"@, JsonView::Str(self.tab_id@))]),
    {
        crate::json::obj1("tab_id", Json::Str(self.tab_id.clone()))
    }
}

/// Arguments of `run_command`: where to type, what to type, and whether and
/// how long to wait for output.
pub struct RunCommandParams {
    pub tab_id: String,
    pub command: String,
    pub wait_for_output: bool,
    pub timeout_ms: u64,
}

/// Whether an argument document parses into `RunCommandParams`.
pub open spec fn run_command_parse_ok(v: JsonView) -> bool {
    &&& v is Obj
    &&& req_str_ok(v, "tab_id"@)
    &&& req_str_ok(v, "command"@)
    &&& def_bool_ok(v, "wait_for_output"@)
    &&& def_uint_ok(v, "timeout_ms"@, u64::MAX as int)
}

/// The payload `run_command` forwards: every field, defaults filled in.
pub open spec fn run_command_payload(p: RunCommandParams) -> JsonView {
    JsonView::Obj(
        seq![
            ("tab_id"@, JsonView::Str(p.tab_id@)),
            ("command"@, JsonView::Str(p.command@)),
            ("wait_for_output"@, JsonView::Bool(p.wait_for_output)),
            ("timeout_ms"@, u64_json(p.timeout_ms)),
        ],
    )
}

impl RunCommandParams {
    /// Reads an argument document; the wait flag defaults to off and the
    /// timeout to five seconds.
    pub fn from_json(args: &Json) -> (r: Result<RunCommandParams, String>)
        ensures
            match r {
                Ok(p) => {
                    &&& run_command_parse_ok(args@)
                    &&& p.tab_id@ == req_str(args@, "tab_id"@)
                    &&& p.command@ == req_str(args@, "command"@)
                    &&& p.wait_for_output == def_bool(args@, "wait_for_output"@, false)
                    &&& p.timeout_ms == def_uint(args@, "timeout_ms"@, 5000)
                },
                Err(_) => !run_command_parse_ok(args@),
            },
    {
        if !args.is_object() {
            return Err(String::from_str("expected an object"));
        }
        let tab_id = get_req_str(args, "tab_id")?;
        let command = get_req_str(args, "command")?;
        let wait_for_output = get_def_bool(args, "wait_for_output", false)?;
        let timeout_ms = get_def_uint(args, "timeout_ms", default_timeout(), u64::MAX)?;
        Ok(RunCommandParams { tab_id, command, wait_for_output, timeout_ms })
    }

    /// This record as the payload of its control-plane round trip.
    pub fn to_payload(&self) -> (r: Json)
        ensures
            r@ == run_command_payload(*self),
    {
        crate::json::obj4(
            "tab_id",
            Json::Str(self.tab_id.clone()),
            "command",
            Json::Str(self.command.clone()),
            "wait_for_output",
            Json::Bool(self.wait_for_output),
            "timeout_ms",
            jint_u64(self.timeout_ms),
        )
    }
}

/// Arguments of `get_output`: which tab, and how many recent lines.
pub struct GetOutputParams {
    pub tab_id: String,
    pub lines: usize,
}

/// Whether an argument document parses into `GetOutputParams`.
pub open spec fn get_output_parse_ok(v: JsonView) -> bool {
    &&& v is Obj
    &&& req_str_ok(v, "tab_id"@)
    &&& def_uint_ok(v, "lines"@, usize::MAX as int)
}

/// The payload `get_output` forwards.
pub open spec fn get_output_payload(p: GetOutputParams) -> JsonView {
    JsonView::Obj(
        seq![
            ("tab_id"@, JsonView::Str(p.tab_id@)),
            ("lines"@, u64_json(p.lines as u64)),
        ],
    )
}

impl GetOutputParams {
    /// Reads an argument document; the line count defaults to one hundred.
    pub fn from_json(args: &Json) -> (r: Result<GetOutputParams, String>)
        ensures
            match r {
                Ok(p) => {
                    &&& get_output_parse_ok(args@)
                    &&& p.tab_id@ == req_str(args@, "tab_id"@)
                    &&& p.lines == def_uint(args@, "lines"@, 100)
                },
                Err(_) => !get_output_parse_ok(args@),
            },
    {
        if !args.is_object() {
            return Err(String::from_str("expected an object"));
        }
        let tab_id = get_req_str(args, "tab_id")?;
        let lines64 = get_def_uint(args, "lines", default_lines() as u64, usize::MAX as u64)?;
        let lines = lines64 as usize;
        Ok(GetOutputParams { tab_id, lines })
    }

    /// This record as the payload of its control-plane round trip.
    pub fn to_payload(&self) -> (r: Json)
        ensures
            r@ == get_output_payload(*self),
    {
        crate::json::obj2(
            "tab_id",
            Json::Str(self.tab_id.clone()),
            "lines",
            jint_u64(self.lines as u64),
        )
    }
}

/// Arguments of `set_theme`: the theme to switch to.
pub struct SetThemeParams {
    pub theme: String,
}

/// Whether an argument document parses into `SetThemeParams`.
pub open spec fn set_theme_parse_ok(v: JsonView) -> bool {
    v is Obj && req_str_ok(v, "theme"@)
}

impl SetThemeParams {
    /// Reads an argument document, rejecting what lacks the theme name.
    pub fn from_json(args: &Json) -> (r: Result<SetThemeParams, String>)
        ensures
            match r {
                Ok(p) => set_theme_parse_ok(args@) && p.theme@ == req_str(args@, "theme"@),
                Err(_) => !set_theme_parse_ok(args@),
            },
    {
        if !args.is_object() {
            return Err(String::from_str("expected an object"));
        }
        let theme = get_req_str(args, "theme")?;
        Ok(SetThemeParams { theme })
    }

    /// This record as the payload of its control-plane round trip.
    pub fn to_payload(&self) -> (r: Json)
        ensures
            r@ == JsonView::Obj(seq![("theme"@, JsonView::Str(self.theme@))]),
    {
        crate::json::obj1("theme", Json::Str(self.theme.clone()))
    }
}

/// One saved SSH target, as the UI keeps it.
pub struct SshConnection {
    pub id: String,
    pub name: String,
    pub host: String,
    pub port: u16,
    pub user: String,
}

/// Arguments of `add_ssh`: the target to save.
pub struct AddSshParams {
    pub name: String,
    pub host: String,
    pub port: u16,
    pub user: String,
}

/// Whether an argument document parses into `AddSshParams`.
pub open spec fn add_ssh_parse_ok(v: JsonView) -> bool {
    &&& v is Obj
    &&& req_str_ok(v, "name"@)
    &&& req_str_ok(v, "host"@)
    &&& req_str_ok(v, "user"@)
    &&& def_uint_ok(v, "port"@, u16::MAX as int)
}

/// The payload `add_ssh` forwards: every field, the default port filled in.
pub open spec fn add_ssh_payload(p: AddSshParams) -> JsonView {
    JsonView::Obj(
        seq![
            ("name"@, JsonView::Str(p.name@)),
            ("host"@, JsonView::Str(p.host@)),
            ("port"@, JsonView::Int(p.port as i64)),
            ("user"@, JsonView::Str(p.user@)),
        ],
    )
}

impl AddSshParams {
    /// Reads an argument document; the port defaults to twenty-two.
    pub fn from_json(args: &Json) -> (r: Result<AddSshParams, String>)
        ensures
            match r {
                Ok(p) => {
                    &&& add_ssh_parse_ok(args@)
                    &&& p.name@ == req_str(args@, "name"@)
                    &&& p.host@ == req_str(args@, "host"@)
                    &&& p.port == def_uint(args@, "port"@, 22)
                    &&& p.user@ == req_str(args@, "user"@)
                },
                Err(_) => !add_ssh_parse_ok(args@),
            },
    {
        if !args.is_object() {
            return Err(String::from_str("expected an object"));
        }
        let name = get_req_str(args, "name")?;
        let host = get_req_str(args, "host")?;
        let port64 = get_def_uint(args, "port", default_port() as u64, u16::MAX as u64)?;
        let port = port64 as u16;
        let user = get_req_str(args, "user")?;
        Ok(AddSshParams { name, host, port, user })
    }

    /// This record as the payload of its control-plane round trip.
    pub fn to_payload(&self) -> (r: Json)
        ensures
            r@ == add_ssh_payload(*self),
    {
        crate::json::obj4(
            "name",
            Json::Str(self.name.clone()),
            "host",
            Json::Str(self.host.clone()),
            "port",
            Json::Int(self.port as i64),
            "user",
            Json::Str(self.user.clone()),
        )
    }
}

/// Arguments of `remove_ssh`: which saved target to delete.
pub struct RemoveSshParams {
    pub id: String,
}

/// Whether an argument document parses into `RemoveSshParams`.
pub open spec fn remove_ssh_parse_ok(v: JsonView) -> bool {
    v is Obj && req_str_ok(v, "id"@)
}

impl RemoveSshParams {
    /// Reads an argument document, rejecting what lacks the id.
    pub fn from_json(args: &Json) -> (r: Result<RemoveSshParams, String>)
        ensures
            match r {
                Ok(p) => remove_ssh_parse_ok(args@) && p.id@ == req_str(args@, "id"@),
                Err(_) => !remove_ssh_parse_ok(args@),
            },
    {
        if !args.is_object() {
            return Err(String::from_str("expected an object"));
        }
        let id = get_req_str(args, "id")?;
        Ok(RemoveSshParams { id })
    }

    /// This record as the payload of its control-plane round trip.
    pub fn to_payload(&self) -> (r: Json)
        ensures
            r@ == JsonView::Obj(seq![("id"@, JsonView::Str(self.id@))]),
    {
        crate::json::obj1("id", Json::Str(self.id.clone()))
    }
}

/// Arguments of `connect_ssh`: which saved target to open a tab for.
pub struct ConnectSshParams {
    pub id: String,
}

/// Whether an argument document parses into `ConnectSshParams`.
pub open spec fn connect_ssh_parse_ok(v: JsonView) -> bool {
    v is Obj && req_str_ok(v, "id"@)
}

impl ConnectSshParams {
    /// Reads an argument document, rejecting what lacks the id.
    pub fn from_json(args: &Json) -> (r: Result<ConnectSshParams, String>)
        ensures
            match r {
                Ok(p) => connect_ssh_parse_ok(args@) && p.id@ == req_str(args@, "id"@),
                Err(_) => !connect_ssh_parse_ok(args@),
            },
    {
        if !args.is_object() {
            return Err(String::from_str("expected an object"));
        }
        let id = get_req_str(args, "id")?;
        Ok(ConnectSshParams { id })
    }

    /// This record as the payload of its control-plane round trip.
    pub fn to_payload(&self) -> (r: Json)
        ensures
            r@ == JsonView::Obj(seq![("id"@, JsonView::Str(self.id@))]),
    {
        crate::json::obj1("id", Json::Str(self.id.clone()))
    }
}

/// One open tab, as the UI reports it.
pub struct TabInfo {
    pub id: String,
    pub title: String,
    pub shell: String,
    pub distro: Option<String>,
    pub active: bool,
}

/// Whether a document parses into `CallToolParams`: an object naming the
/// tool; missing arguments default to `Null`, which the tools that take
/// arguments then reject themselves.
pub open spec fn call_tool_parse_ok(v: JsonView) -> bool {
    v is Obj && req_str_ok(v, "name"@)
}

impl CallToolParams {
    /// Reads the parameters of `tools/call` out of a request's params
    /// document.
    pub fn from_json(params: &Json) -> (r: Result<CallToolParams, String>)
        ensures
            match r {
                Ok(p) => {
                    &&& call_tool_parse_ok(params@)
                    &&& p.name@ == req_str(params@, "name"@)
                    &&& p.arguments@ == (match spec_get(params@, "arguments"@) {
                        Some(a) => a,
                        None => JsonView::Null,
                    })
                },
                Err(_) => !call_tool_parse_ok(params@),
            },
    {
        if !params.is_object() {
            return Err(String::from_str("expected an object"));
        }
        let name = get_req_str(params, "name")?;
        let arguments = match params.get("arguments") {
            Some(a) => a.duplicate(),
            None => Json::Null,
        };
        Ok(CallToolParams { name, arguments })
    }
}

/// The JSON document of the `initialize` answer.
pub open spec fn initialize_result_json(r: InitializeResult) -> JsonView {
    JsonView::Obj(
        seq![
            ("protocolVersion"@, JsonView::Str(r.protocol_version@)),
            ("capabilities"@, JsonView::Obj(seq![("tools"@, match r.capabilities.tools {
                Some(tc) => JsonView::Obj(
                    seq![("listChanged"@, JsonView::Bool(tc.list_changed))],
                ),
                None => JsonView::Null,
            })])),
            ("serverInfo"@, JsonView::Obj(seq![
                ("name"@, JsonView::Str(r.server_info.name@)),
                ("version"@, JsonView::Str(r.server_info.version@)),
            ])),
        ],
    )
}

impl InitializeResult {
    /// This answer as the JSON document placed into the response.
    pub fn to_json(&self) -> (r: Json)
        ensures
            r@ == initialize_result_json(*self),
    {
        let tools = match &self.capabilities.tools {
            Some(tc) => crate::json::obj1("listChanged", Json::Bool(tc.list_changed)),
            None => Json::Null,
        };
        let r = crate::json::obj3(
            "protocolVersion",
            Json::Str(self.protocol_version.clone()),
            "capabilities",
            crate::json::obj1("tools", tools),
            "serverInfo",
            crate::json::obj2(
                "name",
                Json::Str(self.server_info.name.clone()),
                "version",
                Json::Str(self.server_info.version.clone()),
            ),
        );
        proof {
            assert(tools@ == (match self.capabilities.tools {
                Some(tc) => JsonView::Obj(
                    seq![("listChanged"@, JsonView::Bool(tc.list_changed))],
                ),
                None => JsonView::Null,
            }));
            assert(r@ matches JsonView::Obj(fs) && fs =~= seq![
                ("protocolVersion"@, JsonView::Str(self.protocol_version@)),
                ("capabilities"@, JsonView::Obj(seq![("tools"@, match self.capabilities.tools {
                    Some(tc) => JsonView::Obj(
                        seq![("listChanged"@, JsonView::Bool(tc.list_changed))],
                    ),
                    None => JsonView::Null,
                })])),
                ("serverInfo"@, JsonView::Obj(seq![
                    ("name"@, JsonView::Str(self.server_info.name@)),
                    ("version"@, JsonView::Str(self.server_info.version@)),
                ])),
            ]);
            assert(r@ =~~= initialize_result_json(*self));
        }
        r
    }
}

/// The JSON document of one catalog entry.
pub open spec fn tool_info_json(t: ToolInfo) -> JsonView {
    JsonView::Obj(
        seq![
            ("name"@, JsonView::Str(t.name@)),
            ("description"@, JsonView::Str(t.description@)),
            ("inputSchema"@, t.input_schema@),
        ],
    )
}

/// The JSON documents of a list of catalog entries, in order.
pub open spec fn tool_infos_json(ts: Seq<ToolInfo>) -> Seq<JsonView>
    decreases ts.len(),
{
    if ts.len() == 0 {
        Seq::empty()
    } else {
        seq![tool_info_json(ts[0])] + tool_infos_json(ts.subrange(1, ts.len() as int))
    }
}

impl ToolInfo {
    /// This entry as the JSON document placed into the catalog answer.
    pub fn to_json(&self) -> (r: Json)
        ensures
            r@ == tool_info_json(*self),
    {
        crate::json::obj3(
            "name",
            Json::Str(self.name.clone()),
            "description",
            Json::Str(self.description.clone()),
            "inputSchema",
            self.input_schema.duplicate(),
        )
    }
}

/// Renders the catalog entries from position `i` on as JSON documents.
fn tool_infos_to_json(ts: &Vec<ToolInfo>, i: usize) -> (r: Vec<Json>)
    requires
        i <= ts@.len(),
    ensures
        items_view(r@) == tool_infos_json(ts@.skip(i as int)),
    decreases ts@.len() - i,
{
    if i < ts.len() {
        let entry = ts[i].to_json();
        let mut rest = tool_infos_to_json(ts, i + 1);
        let ghost before = rest@;
        rest.insert(0, entry);
        proof {
            assert(rest@ =~= seq![entry] + before);
            crate::json::lemma_items_view(rest@);
            crate::json::lemma_items_view(before);
            assert(ts@.skip(i as int)[0] == ts@[i as int]);
            assert(ts@.skip(i as int).subrange(1, ts@.skip(i as int).len() as int) =~= ts@.skip(
                i as int + 1,
            ));
            assert(items_view(rest@) =~= tool_infos_json(ts@.skip(i as int)));
        }
        rest
    } else {
        let r: Vec<Json> = Vec::new();
        proof {
            assert(items_view(r@) =~= Seq::<JsonView>::empty());
            assert(tool_infos_json(ts@.skip(i as int)) =~= Seq::<JsonView>::empty());
        }
        r
    }
}

/// The JSON document of the `tools/list` answer.
pub open spec fn list_tools_result_json(r: ListToolsResult) -> JsonView {
    JsonView::Obj(seq![("tools"@, JsonView::Arr(tool_infos_json(r.tools@)))])
}

impl ListToolsResult {
    /// This answer as the JSON document placed into the response.
    pub fn to_json(&self) -> (r: Json)
        ensures
            r@ == list_tools_result_json(*self),
    {
        let entries = tool_infos_to_json(&self.tools, 0);
        proof {
            assert(self.tools@.skip(0) =~= self.tools@);
        }
        crate::json::obj1("tools", Json::Arr(entries))
    }
}

} // verus!
