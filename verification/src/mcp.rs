//! The MCP session with Paper: JSON-RPC messages, replies, and the paging of the tool list.
//!
//! The HTTP exchange itself belongs to the caller; this module decides what is sent and
//! what a reply means.

use vstd::prelude::*;
use crate::json::{
    JsonSpec, array_field, collect_field_strs, field, field_strs, json_as_array, json_as_bool, json_as_i64, json_as_str,
    json_as_u64, json_clone, json_get, json_into_array, json_model, json_object, json_parse,
    json_read, json_set, json_str, json_text, json_to_text, json_u64, models, object1, opt_model,
    str_field,
};
use crate::results::{all_ok, lemma_all_ok_prefix_err, lemma_all_ok_step, lemma_take_all};
use crate::sse::{sse_blocks, sse_data_blocks};
use crate::text::{
    decimal, i64_text, join, join_strings, opt_text, signed_decimal, starts_with, str_eq, texts,
    u64_text,
};

verus! {

/// The MCP protocol version that the client asks for.
pub const CLIENT_PROTOCOL_VERSION: &'static str = "2025-06-18";

/// The header that carries the MCP session id.
pub const SESSION_HEADER: &'static str = "mcp-session-id";

/// The header that carries the negotiated protocol version.
pub const PROTOCOL_HEADER: &'static str = "mcp-protocol-version";

/// The name of the tool that returns Paper's instructions.
pub const GUIDE_TOOL: &'static str = "get_guide";

/// The topic of the instructions that Paper requires before any other tool.
pub const GUIDE_TOPIC: &'static str = "paper-mcp-instructions";

/// What can go wrong in an exchange with Paper; `S` is the type of its texts.
#[derive(Debug)]
pub enum McpErrorOf<S> {
    /// The HTTP status was not a success: the status as written, and the body.
    Http { status: S, body: S },
    /// Paper accepted a request (202) but sent no result.
    AcceptedWithoutResult,
    /// A JSON body could not be read.
    MalformedJson { detail: S },
    /// An event's data could not be read as JSON.
    MalformedSse { payload: S, detail: S },
    /// An event stream held no data.
    EmptyEventStream,
    /// No reply carried the id of the request.
    NoResponse { id: u64 },
    /// The reply was a JSON-RPC error.
    Rpc { code: Option<i64>, message: S, data: Option<S> },
    /// The reply had neither `result` nor `error`.
    NeitherResultNorError,
    /// The reply to `initialize` named no protocol version.
    NoProtocolVersion,
    /// A request needed a session that Paper never opened.
    NoSession,
    /// Paper sent a session id that is not UTF-8, with the reason.
    NonUtf8SessionId { detail: S },
    /// A page of `tools/list` had no `tools` array.
    NoToolsArray,
    /// Paper handed out a `tools/list` cursor for the second time.
    RepeatedCursor { cursor: S },
    /// A tool reported failure.
    ToolFailed { name: S, detail: S },
}

/// An error of an exchange with Paper.
pub type McpError = McpErrorOf<String>;

/// The description of an error, its texts by their characters.
pub type McpFault = McpErrorOf<Seq<char>>;

impl View for McpErrorOf<String> {
    type V = McpErrorOf<Seq<char>>;

    open spec fn view(&self) -> McpFault {
        match self {
            McpErrorOf::Http { status, body } => McpErrorOf::Http { status: status@, body: body@ },
            McpErrorOf::AcceptedWithoutResult => McpErrorOf::AcceptedWithoutResult,
            McpErrorOf::MalformedJson { detail } => McpErrorOf::MalformedJson { detail: detail@ },
            McpErrorOf::MalformedSse { payload, detail } => McpErrorOf::MalformedSse {
                payload: payload@,
                detail: detail@,
            },
            McpErrorOf::EmptyEventStream => McpErrorOf::EmptyEventStream,
            McpErrorOf::NoResponse { id } => McpErrorOf::NoResponse { id: *id },
            McpErrorOf::Rpc { code, message, data } => McpErrorOf::Rpc {
                code: *code,
                message: message@,
                data: match data {
                    Some(d) => Some(d@),
                    None => None,
                },
            },
            McpErrorOf::NeitherResultNorError => McpErrorOf::NeitherResultNorError,
            McpErrorOf::NoProtocolVersion => McpErrorOf::NoProtocolVersion,
            McpErrorOf::NoSession => McpErrorOf::NoSession,
            McpErrorOf::NonUtf8SessionId { detail } => McpErrorOf::NonUtf8SessionId {
                detail: detail@,
            },
            McpErrorOf::NoToolsArray => McpErrorOf::NoToolsArray,
            McpErrorOf::RepeatedCursor { cursor } => McpErrorOf::RepeatedCursor {
                cursor: cursor@,
            },
            McpErrorOf::ToolFailed { name, detail } => McpErrorOf::ToolFailed {
                name: name@,
                detail: detail@,
            },
        }
    }
}

/// The text of a JSON-RPC error: its code when there is one, its message, and its data.
pub open spec fn rpc_error_text(code: Option<i64>, message: Seq<char>, data: Option<Seq<char>>) -> Seq<
    char,
> {
    let head = match code {
        Some(c) => "JSON-RPC "@ + signed_decimal(c as int) + ": "@ + message,
        None => "JSON-RPC error: "@ + message,
    };
    match data {
        Some(d) => head + ": "@ + d,
        None => head,
    }
}

/// The message that describes an error.
pub open spec fn mcp_message(e: McpFault) -> Seq<char> {
    match e {
        McpErrorOf::Http { status, body } => "HTTP "@ + status + ": "@ + body,
        McpErrorOf::AcceptedWithoutResult => "Paper accepted a request but did not return its result"@,
        McpErrorOf::MalformedJson { detail } => "Paper returned malformed JSON: "@ + detail,
        McpErrorOf::MalformedSse { payload, detail } => "Paper returned malformed SSE data: "@ + payload
            + ": "@ + detail,
        McpErrorOf::EmptyEventStream => "Paper returned an empty event stream"@,
        McpErrorOf::NoResponse { id } => "Paper returned no JSON-RPC response for request "@
            + decimal(id as nat),
        McpErrorOf::Rpc { code, message, data } => rpc_error_text(code, message, data),
        McpErrorOf::NeitherResultNorError => "Paper's JSON-RPC response has neither result nor error"@,
        McpErrorOf::NoProtocolVersion => "Paper's initialize response has no protocolVersion"@,
        McpErrorOf::NoSession => "Paper did not establish an MCP session"@,
        McpErrorOf::NonUtf8SessionId { detail } => "Paper returned a non-UTF-8 MCP session ID: "@
            + detail,
        McpErrorOf::NoToolsArray => "Paper's tools/list response has no tools array"@,
        McpErrorOf::RepeatedCursor { cursor } => "Paper repeated tools/list cursor `"@ + cursor
            + "`"@,
        McpErrorOf::ToolFailed { name, detail } => "Paper tool `"@ + name + "` failed: "@ + detail,
    }
}

impl McpErrorOf<String> {
    /// The message that describes this error.
    pub fn message(&self) -> (r: String)
        ensures
            r@ == mcp_message(self@),
    {
        let mut r = String::new();
        match self {
            McpErrorOf::Http { status, body } => {
                r.append("HTTP ");
                r.append(status.as_str());
                r.append(": ");
                r.append(body.as_str());
            },
            McpErrorOf::AcceptedWithoutResult => {
                r.append("Paper accepted a request but did not return its result");
            },
            McpErrorOf::MalformedJson { detail } => {
                r.append("Paper returned malformed JSON: ");
                r.append(detail.as_str());
            },
            McpErrorOf::MalformedSse { payload, detail } => {
                r.append("Paper returned malformed SSE data: ");
                r.append(payload.as_str());
                r.append(": ");
                r.append(detail.as_str());
            },
            McpErrorOf::EmptyEventStream => {
                r.append("Paper returned an empty event stream");
            },
            McpErrorOf::NoResponse { id } => {
                r.append("Paper returned no JSON-RPC response for request ");
                let n = u64_text(*id);
                r.append(n.as_str());
            },
            McpErrorOf::Rpc { code, message, data } => {
                match code {
                    Some(c) => {
                        r.append("JSON-RPC ");
                        let n = i64_text(*c);
                        r.append(n.as_str());
                        r.append(": ");
                    },
                    None => {
                        r.append("JSON-RPC error: ");
                    },
                }
                r.append(message.as_str());
                match data {
                    Some(d) => {
                        r.append(": ");
                        r.append(d.as_str());
                    },
                    None => {},
                }
            },
            McpErrorOf::NeitherResultNorError => {
                r.append("Paper's JSON-RPC response has neither result nor error");
            },
            McpErrorOf::NoProtocolVersion => {
                r.append("Paper's initialize response has no protocolVersion");
            },
            McpErrorOf::NoSession => {
                r.append("Paper did not establish an MCP session");
            },
            McpErrorOf::NonUtf8SessionId { detail } => {
                r.append("Paper returned a non-UTF-8 MCP session ID: ");
                r.append(detail.as_str());
            },
            McpErrorOf::NoToolsArray => {
                r.append("Paper's tools/list response has no tools array");
            },
            McpErrorOf::RepeatedCursor { cursor } => {
                r.append("Paper repeated tools/list cursor `");
                r.append(cursor.as_str());
                r.append("`");
            },
            McpErrorOf::ToolFailed { name, detail } => {
                r.append("Paper tool `");
                r.append(name.as_str());
                r.append("` failed: ");
                r.append(detail.as_str());
            },
        }
        r
    }
}

// ---------------------------------------------------------------------------------------
// Requests
// ---------------------------------------------------------------------------------------

/// The object built from `m` with the member `key` added when `v` is given.
pub open spec fn with_optional(m: Map<Seq<char>, JsonSpec>, key: Seq<char>, v: Option<JsonSpec>) -> Map<
    Seq<char>,
    JsonSpec,
> {
    match v {
        Some(x) => m.insert(key, x),
        None => m,
    }
}

/// The JSON-RPC request with id `id`.
pub open spec fn request_spec(id: u64, method: Seq<char>, params: Option<JsonSpec>) -> JsonSpec {
    JsonSpec::Object(
        with_optional(
            Map::empty().insert("jsonrpc"@, JsonSpec::Str("2.0"@)).insert(
                "id"@,
                JsonSpec::Int(id as int),
            ).insert("method"@, JsonSpec::Str(method)),
            "params"@,
            params,
        ),
    )
}

/// The JSON-RPC notification.
pub open spec fn notification_spec(method: Seq<char>, params: Option<JsonSpec>) -> JsonSpec {
    JsonSpec::Object(
        with_optional(
            Map::empty().insert("jsonrpc"@, JsonSpec::Str("2.0"@)).insert(
                "method"@,
                JsonSpec::Str(method),
            ),
            "params"@,
            params,
        ),
    )
}

/// Adds the member `params` to an object when there are parameters.
fn add_params(obj: &mut serde_json::Value, params: Option<serde_json::Value>)
    requires
        json_model(*old(obj)) is Object,
    ensures
        json_model(*final(obj)) == JsonSpec::Object(
            with_optional(
                json_model(*old(obj))->Object_0,
                "params"@,
                match params {
                    Some(p) => Some(json_model(p)),
                    None => None,
                },
            ),
        ),
{
    match params {
        Some(p) => json_set(obj, "params", p),
        None => {},
    }
}

/// The JSON-RPC request for `method` with id `id`.
pub fn request_payload(id: u64, method: &str, params: Option<serde_json::Value>) -> (r:
    serde_json::Value)
    ensures
        json_model(r) == request_spec(
            id,
            method@,
            match params {
                Some(p) => Some(json_model(p)),
                None => None,
            },
        ),
{
    let mut obj = json_object();
    json_set(&mut obj, "jsonrpc", json_str("2.0"));
    json_set(&mut obj, "id", json_u64(id));
    json_set(&mut obj, "method", json_str(method));
    add_params(&mut obj, params);
    obj
}

/// The JSON-RPC notification for `method`.
pub fn notification_payload(method: &str, params: Option<serde_json::Value>) -> (r:
    serde_json::Value)
    ensures
        json_model(r) == notification_spec(
            method@,
            match params {
                Some(p) => Some(json_model(p)),
                None => None,
            },
        ),
{
    let mut obj = json_object();
    json_set(&mut obj, "jsonrpc", json_str("2.0"));
    json_set(&mut obj, "method", json_str(method));
    add_params(&mut obj, params);
    obj
}

/// The parameters of `initialize`: the protocol version, no capabilities, and the client.
pub open spec fn initialize_params_spec(client_version: Seq<char>) -> JsonSpec {
    JsonSpec::Object(
        Map::empty().insert("protocolVersion"@, JsonSpec::Str(CLIENT_PROTOCOL_VERSION@)).insert(
            "capabilities"@,
            JsonSpec::Object(Map::empty()),
        ).insert(
            "clientInfo"@,
            JsonSpec::Object(
                Map::empty().insert("name"@, JsonSpec::Str("paper-cli"@)).insert(
                    "version"@,
                    JsonSpec::Str(client_version),
                ),
            ),
        ),
    )
}

/// The parameters of the `initialize` request, for a client of version `client_version`.
pub fn initialize_params(client_version: &str) -> (r: serde_json::Value)
    ensures
        json_model(r) == initialize_params_spec(client_version@),
{
    let mut info = json_object();
    json_set(&mut info, "name", json_str("paper-cli"));
    json_set(&mut info, "version", json_str(client_version));
    let mut obj = json_object();
    json_set(&mut obj, "protocolVersion", json_str(CLIENT_PROTOCOL_VERSION));
    json_set(&mut obj, "capabilities", json_object());
    json_set(&mut obj, "clientInfo", info);
    obj
}

/// The protocol version that the reply to `initialize` names.
pub fn negotiated_protocol_version(result: &serde_json::Value) -> (r: Result<String, McpError>)
    ensures
        match str_field(json_model(*result), "protocolVersion"@) {
            Some(v) => r matches Ok(s) && s@ == v,
            None => r matches Err(e) && e@ == McpFault::NoProtocolVersion,
        },
{
    match json_get(result, "protocolVersion") {
        Some(v) => match json_as_str(v) {
            Some(s) => Ok(s.to_owned()),
            None => Err(McpErrorOf::NoProtocolVersion),
        },
        None => Err(McpErrorOf::NoProtocolVersion),
    }
}

/// Whether a call of tool `name` must first fetch Paper's instructions: for every tool but
/// the one that returns them.
pub fn needs_guide(name: &str) -> (r: bool)
    ensures
        r == (name@ != GUIDE_TOOL@),
{
    !str_eq(name, GUIDE_TOOL)
}

/// Whether a request sent as it is must first fetch Paper's instructions: a `tools/call`
/// request, unless its parameters name the tool that returns them.
pub open spec fn request_needs_guide_spec(method: Seq<char>, params: Option<JsonSpec>) -> bool {
    method == "tools/call"@ && match params {
        Some(p) => str_field(p, "name"@) != Some(GUIDE_TOOL@),
        None => true,
    }
}

/// Whether a request with `method` and `params`, sent as it is, must first fetch Paper's
/// instructions, so that no tool is invoked before them.
pub fn request_needs_guide(method: &str, params: Option<&serde_json::Value>) -> (r: bool)
    ensures
        r == request_needs_guide_spec(method@, opt_model(params)),
{
    if !str_eq(method, "tools/call") {
        return false;
    }
    match params {
        None => true,
        Some(p) => match json_get(p, "name") {
            Some(n) => match json_as_str(n) {
                Some(name) => needs_guide(name),
                None => true,
            },
            None => true,
        },
    }
}

/// The parameters of a `tools/call` request.
pub open spec fn tool_call_spec(name: Seq<char>, arguments: JsonSpec) -> JsonSpec {
    JsonSpec::Object(
        Map::empty().insert("name"@, JsonSpec::Str(name)).insert("arguments"@, arguments),
    )
}

/// The parameters of a `tools/call` request for tool `name`.
pub fn tool_call_params(name: &str, arguments: serde_json::Value) -> (r: serde_json::Value)
    ensures
        json_model(r) == tool_call_spec(name@, json_model(arguments)),
{
    let mut obj = json_object();
    json_set(&mut obj, "name", json_str(name));
    json_set(&mut obj, "arguments", arguments);
    obj
}

/// The parameters of the call that fetches Paper's instructions.
pub fn guide_call_params() -> (r: serde_json::Value)
    ensures
        json_model(r) == tool_call_spec(GUIDE_TOOL@, object1("topic"@, JsonSpec::Str(GUIDE_TOPIC@))),
{
    let mut args = json_object();
    json_set(&mut args, "topic", json_str(GUIDE_TOPIC));
    proof {
        assert(Map::<Seq<char>, JsonSpec>::empty().insert("topic"@, JsonSpec::Str(GUIDE_TOPIC@))
            =~= Map::empty().insert("topic"@, JsonSpec::Str(GUIDE_TOPIC@)));
    }
    tool_call_params(GUIDE_TOOL, args)
}

/// The parameters of the call that fetches Paper's instructions.
pub open spec fn guide_call_spec() -> JsonSpec {
    tool_call_spec(GUIDE_TOOL@, object1("topic"@, JsonSpec::Str(GUIDE_TOPIC@)))
}

/// Whether a tool result says that the tool failed: `isError` is `true`.
pub open spec fn tool_failed(result: JsonSpec) -> bool {
    field(result, "isError"@) == Some(JsonSpec::Bool(true))
}

/// What a tool call waits for: the reply to the call that fetches Paper's instructions, or
/// the reply to the tool's own call.
#[derive(Clone, Copy)]
pub enum ToolCallStage {
    Guide,
    Tool,
}

/// A call of a Paper tool, one reply at a time: Paper's instructions are fetched first, for
/// every tool but the one that returns them, and the tool is called only once that call
/// succeeded.
pub struct ToolCall {
    pub name: String,
    pub arguments: serde_json::Value,
    pub stage: ToolCallStage,
}

/// What a tool call does after a reply.
pub enum ToolCallStep {
    /// Send a `tools/call` request with these parameters and hand its reply back.
    Send(serde_json::Value),
    /// The tool's result, or why the call failed.
    Done(Result<serde_json::Value, McpError>),
}

impl ToolCall {
    /// Starts the call of tool `name` with `arguments`: the parameters of the first
    /// `tools/call` request, which fetches Paper's instructions unless `name` is the tool
    /// that returns them.
    pub fn start(name: &str, arguments: serde_json::Value) -> (r: (ToolCall, serde_json::Value))
        ensures
            r.0.name@ == name@,
            r.0.arguments == arguments,
            name@ != GUIDE_TOOL@ ==> r.0.stage is Guide && json_model(r.1) == guide_call_spec(),
            name@ == GUIDE_TOOL@ ==> r.0.stage is Tool && json_model(r.1) == tool_call_spec(
                name@,
                json_model(arguments),
            ),
    {
        if needs_guide(name) {
            let params = guide_call_params();
            (ToolCall { name: name.to_owned(), arguments, stage: ToolCallStage::Guide }, params)
        } else {
            let params = tool_call_params(name, json_clone(&arguments));
            (ToolCall { name: name.to_owned(), arguments, stage: ToolCallStage::Tool }, params)
        }
    }

    /// Takes the reply to the last `tools/call` request: after the instructions, the tool
    /// itself is called, unless fetching them failed; after the tool, its result is the
    /// outcome, unless it says that the tool failed.
    pub fn on_reply(self, reply: serde_json::Value) -> (r: (ToolCall, ToolCallStep))
        ensures
            r.0.name == self.name,
            r.0.arguments == self.arguments,
            self.stage is Guide ==> if tool_failed(json_model(reply)) {
                r.1 matches ToolCallStep::Done(Err(e)) && e@ == (McpFault::ToolFailed {
                    name: GUIDE_TOOL@,
                    detail: failure_detail(json_model(reply)),
                })
            } else {
                r.0.stage is Tool && (r.1 matches ToolCallStep::Send(p) && json_model(p)
                    == tool_call_spec(self.name@, json_model(self.arguments)))
            },
            self.stage is Tool ==> if tool_failed(json_model(reply)) {
                r.1 matches ToolCallStep::Done(Err(e)) && e@ == (McpFault::ToolFailed {
                    name: self.name@,
                    detail: failure_detail(json_model(reply)),
                })
            } else {
                r.1 matches ToolCallStep::Done(Ok(v)) && v == reply
            },
    {
        match self.stage {
            ToolCallStage::Guide => match ensure_tool_succeeded(GUIDE_TOOL, &reply) {
                Err(e) => (self, ToolCallStep::Done(Err(e))),
                Ok(()) => {
                    let params = tool_call_params(self.name.as_str(), json_clone(&self.arguments));
                    (
                        ToolCall { name: self.name, arguments: self.arguments, stage: ToolCallStage::Tool },
                        ToolCallStep::Send(params),
                    )
                },
            },
            ToolCallStage::Tool => match ensure_tool_succeeded(self.name.as_str(), &reply) {
                Err(e) => (self, ToolCallStep::Done(Err(e))),
                Ok(()) => (self, ToolCallStep::Done(Ok(reply))),
            },
        }
    }
}

// ---------------------------------------------------------------------------------------
// The session
// ---------------------------------------------------------------------------------------

/// The state of an MCP session over HTTP.
pub struct McpSession {
    /// The URL of Paper's MCP endpoint.
    pub endpoint: String,
    /// The session id that Paper handed out, once it has.
    pub session_id: Option<String>,
    /// The protocol version in use.
    pub protocol_version: String,
    /// The id of the next request.
    pub next_id: u64,
    /// Whether the session has been closed.
    pub closed: bool,
}

impl McpSession {
    /// A session that has not yet been opened: no session id, the client's protocol version,
    /// and the first request id 1.
    pub fn new(endpoint: &str) -> (r: McpSession)
        ensures
            r.endpoint@ == endpoint@,
            r.session_id is None,
            r.protocol_version@ == CLIENT_PROTOCOL_VERSION@,
            r.next_id == 1,
            !r.closed,
    {
        McpSession {
            endpoint: endpoint.to_owned(),
            session_id: None,
            protocol_version: CLIENT_PROTOCOL_VERSION.to_owned(),
            next_id: 1,
            closed: false,
        }
    }

    /// Takes the reply to `initialize`: the session goes on in the protocol version that it
    /// names, and without one the session cannot go on and is left as it was.
    pub fn accept_initialize(&mut self, result: &serde_json::Value) -> (r: Result<(), McpError>)
        ensures
            final(self).endpoint == old(self).endpoint,
            final(self).session_id == old(self).session_id,
            final(self).next_id == old(self).next_id,
            final(self).closed == old(self).closed,
            match str_field(json_model(*result), "protocolVersion"@) {
                Some(v) => r is Ok && final(self).protocol_version@ == v,
                None => r matches Err(e) && e@ == McpFault::NoProtocolVersion
                    && final(self).protocol_version == old(self).protocol_version,
            },
    {
        match negotiated_protocol_version(result) {
            Ok(v) => {
                self.protocol_version = v;
                Ok(())
            },
            Err(e) => Err(e),
        }
    }

    /// Takes the id for a new request: each id is one more than the one before.
    pub fn allocate_id(&mut self) -> (id: u64)
        requires
            old(self).next_id < u64::MAX,
        ensures
            id == old(self).next_id,
            final(self).next_id == id + 1,
            final(self).endpoint == old(self).endpoint,
            final(self).session_id == old(self).session_id,
            final(self).protocol_version == old(self).protocol_version,
            final(self).closed == old(self).closed,
    {
        let id = self.next_id;
        self.next_id = self.next_id + 1;
        id
    }

    /// Records the session id of a reply's headers, until one is known: `header` is `None`
    /// when the reply has no such header, and `Some(Err(..))` with the reason when its value
    /// is not UTF-8.
    pub fn observe_session_header(&mut self, header: Option<Result<String, String>>) -> (r: Result<
        (),
        McpError,
    >)
        ensures
            final(self).endpoint == old(self).endpoint,
            final(self).protocol_version == old(self).protocol_version,
            final(self).next_id == old(self).next_id,
            final(self).closed == old(self).closed,
            old(self).session_id is Some ==> r is Ok && final(self).session_id == old(
                self,
            ).session_id,
            old(self).session_id is None ==> match header {
                None => r is Ok && final(self).session_id is None,
                Some(Err(d)) => r matches Err(e) && e@ == (McpFault::NonUtf8SessionId {
                    detail: d@,
                }) && final(self).session_id is None,
                Some(Ok(id)) => r is Ok && final(self).session_id == Some(id),
            },
    {
        if self.session_id.is_some() {
            return Ok(());
        }
        match header {
            None => Ok(()),
            Some(Err(detail)) => Err(McpErrorOf::NonUtf8SessionId { detail }),
            Some(Ok(id)) => {
                self.session_id = Some(id);
                Ok(())
            },
        }
    }

    /// The session id and protocol version that a request carries in its headers: none
    /// before the session is initialized, and both afterwards, when Paper opened a session.
    pub fn session_headers(&self, initialized: bool) -> (r: Result<Option<(String, String)>, McpError>)
        ensures
            !initialized ==> r matches Ok(None),
            initialized ==> match self.session_id {
                Some(id) => r matches Ok(Some((a, b))) && a@ == id@ && b@
                    == self.protocol_version@,
                None => r matches Err(e) && e@ == McpFault::NoSession,
            },
    {
        if !initialized {
            return Ok(None);
        }
        match &self.session_id {
            Some(id) => Ok(Some((id.clone(), self.protocol_version.clone()))),
            None => Err(McpErrorOf::NoSession),
        }
    }

    /// Marks the session closed, once: the session id and protocol version with which to
    /// end it at Paper, when there is a session to end.
    pub fn begin_close(&mut self) -> (r: Option<(String, String)>)
        ensures
            final(self).closed,
            final(self).endpoint == old(self).endpoint,
            final(self).session_id == old(self).session_id,
            final(self).protocol_version == old(self).protocol_version,
            final(self).next_id == old(self).next_id,
            header_texts(r) == close_headers(
                old(self).closed,
                opt_text(old(self).session_id),
                old(self).protocol_version@,
            ),
    {
        if self.closed {
            return None;
        }
        self.closed = true;
        match &self.session_id {
            Some(id) => Some((id.clone(), self.protocol_version.clone())),
            None => None,
        }
    }
}

/// The texts of a pair of header values.
pub open spec fn header_texts(h: Option<(String, String)>) -> Option<(Seq<char>, Seq<char>)> {
    match h {
        Some((a, b)) => Some((a@, b@)),
        None => None,
    }
}

/// The session id and protocol version with which closing a session ends it at Paper: none
/// when the session is closed already or Paper never opened one.
pub open spec fn close_headers(
    closed: bool,
    session_id: Option<Seq<char>>,
    protocol: Seq<char>,
) -> Option<(Seq<char>, Seq<char>)> {
    if closed {
        None
    } else {
        match session_id {
            Some(id) => Some((id, protocol)),
            None => None,
        }
    }
}

/// What `k` closes in a row hand out, the first of them on a session that is `closed` or not:
/// each close leaves the session closed and its id and protocol version as they were.
pub open spec fn closes(
    closed: bool,
    session_id: Option<Seq<char>>,
    protocol: Seq<char>,
    k: nat,
) -> Seq<Option<(Seq<char>, Seq<char>)>>
    decreases k,
{
    if k == 0 {
        Seq::empty()
    } else {
        seq![close_headers(closed, session_id, protocol)] + closes(
            true,
            session_id,
            protocol,
            (k - 1) as nat,
        )
    }
}

proof fn lemma_closed_closes(session_id: Option<Seq<char>>, protocol: Seq<char>, k: nat)
    ensures
        closes(true, session_id, protocol, k).len() == k,
        forall|i: int| 0 <= i < k ==> #[trigger] closes(true, session_id, protocol, k)[i] is None,
    decreases k,
{
    if k > 0 {
        lemma_closed_closes(session_id, protocol, (k - 1) as nat);
        let rest = closes(true, session_id, protocol, (k - 1) as nat);
        assert forall|i: int| 0 <= i < k implies #[trigger] closes(
            true,
            session_id,
            protocol,
            k,
        )[i] is None by {
            if i > 0 {
                assert(closes(true, session_id, protocol, k)[i] == rest[i - 1]);
            }
        }
    }
}

/// A session is ended at Paper at most once: of `k` closes of a session that is not yet
/// closed, the first hands out its session id and protocol version, when Paper opened a
/// session, and every later one hands out nothing.
pub proof fn lemma_session_ends_once(session_id: Option<Seq<char>>, protocol: Seq<char>, k: nat)
    requires
        k >= 1,
    ensures
        closes(false, session_id, protocol, k).len() == k,
        closes(false, session_id, protocol, k)[0] == match session_id {
            Some(id) => Some((id, protocol)),
            None => None::<(Seq<char>, Seq<char>)>,
        },
        forall|i: int| 1 <= i < k ==> #[trigger] closes(false, session_id, protocol, k)[i] is None,
{
    lemma_closed_closes(session_id, protocol, (k - 1) as nat);
    let rest = closes(true, session_id, protocol, (k - 1) as nat);
    assert forall|i: int| 1 <= i < k implies #[trigger] closes(false, session_id, protocol, k)[i]
        is None by {
        assert(closes(false, session_id, protocol, k)[i] == rest[i - 1]);
    }
}

// ---------------------------------------------------------------------------------------
// Replies
// ---------------------------------------------------------------------------------------

/// Whether an HTTP status is a success (2xx).
pub open spec fn http_success(status: u16) -> bool {
    200 <= status <= 299
}

/// Whether a `Content-Type` announces an event stream.
pub open spec fn event_stream_spec(content_type: Option<Seq<char>>) -> bool {
    match content_type {
        Some(c) => "text/event-stream"@.len() <= c.len() && c.take("text/event-stream"@.len() as int)
            == "text/event-stream"@,
        None => false,
    }
}

/// Whether a reply with this `Content-Type` is an event stream.
pub fn is_event_stream(content_type: Option<&str>) -> (r: bool)
    ensures
        r == event_stream_spec(
            match content_type {
                Some(c) => Some(c@),
                None => None,
            },
        ),
{
    match content_type {
        Some(c) => starts_with(c, "text/event-stream"),
        None => false,
    }
}

/// An event's data read as JSON, or the data and the parser's message.
pub open spec fn read_block(t: Seq<char>) -> Result<JsonSpec, McpFault> {
    match json_read(t) {
        Ok(j) => Ok(j),
        Err(e) => Err(McpErrorOf::MalformedSse { payload: t, detail: e }),
    }
}

/// Reading an event's data as JSON, as a function.
pub open spec fn block_reader() -> spec_fn(Seq<char>) -> Result<JsonSpec, McpFault> {
    |t: Seq<char>| read_block(t)
}

/// The messages of an event stream: the data of each event read as JSON.
pub open spec fn sse_messages_spec(body: Seq<char>) -> Result<Seq<JsonSpec>, McpFault> {
    match all_ok(sse_blocks(body), block_reader()) {
        Err(e) => Err(e),
        Ok(ms) => if ms.len() == 0 {
            Err(McpErrorOf::EmptyEventStream)
        } else {
            Ok(ms)
        },
    }
}

/// The messages of a JSON body: the elements of an array, or the one value.
pub open spec fn json_messages_spec(body: Seq<char>) -> Result<Seq<JsonSpec>, McpFault> {
    match json_read(body) {
        Err(e) => Err(McpErrorOf::MalformedJson { detail: e }),
        Ok(JsonSpec::Array(items)) => Ok(items),
        Ok(j) => Ok(seq![j]),
    }
}

/// The JSON-RPC messages of an event stream.
#[verifier::loop_isolation(false)]
pub fn parse_sse_messages(body: &str) -> (r: Result<Vec<serde_json::Value>, McpError>)
    ensures
        match (r, sse_messages_spec(body@)) {
            (Ok(ms), Ok(js)) => models(ms@) == js,
            (Err(e), Err(f)) => e@ == f,
            _ => false,
        },
{
    let blocks = sse_data_blocks(body);
    let ghost bs = sse_blocks(body@);
    let ghost f = block_reader();
    let mut messages: Vec<serde_json::Value> = Vec::new();
    let mut i: usize = 0;
    assert(bs.take(0) =~= Seq::<Seq<char>>::empty());
    assert(models(messages@) =~= Seq::<JsonSpec>::empty());
    while i < blocks.len()
        invariant
            texts(blocks@) == bs,
            i <= blocks@.len(),
            all_ok(bs.take(i as int), f) == Ok::<Seq<JsonSpec>, McpFault>(models(messages@)),
        decreases blocks@.len() - i,
    {
        proof {
            lemma_all_ok_step(bs, f, i as int);
        }
        assert(bs[i as int] == blocks@[i as int]@);
        match json_parse(blocks[i].as_str()) {
            Ok(v) => {
                let ghost before = models(messages@);
                messages.push(v);
                assert(models(messages@) =~= before.push(json_model(v)));
            },
            Err(detail) => {
                assert(json_read(bs[i as int]) is Err);
                assert(f(bs[i as int]) == read_block(bs[i as int]));
                assert(all_ok(bs.take(i + 1), f) is Err);
                proof {
                    lemma_all_ok_prefix_err(bs, f, i + 1);
                }
                return Err(McpErrorOf::MalformedSse { payload: blocks[i].clone(), detail });
            },
        }
        i = i + 1;
    }
    proof {
        lemma_take_all(bs);
    }
    if messages.len() == 0 {
        return Err(McpErrorOf::EmptyEventStream);
    }
    Ok(messages)
}

/// The JSON-RPC messages of a JSON body.
pub fn parse_json_messages(body: &str) -> (r: Result<Vec<serde_json::Value>, McpError>)
    ensures
        match (r, json_messages_spec(body@)) {
            (Ok(ms), Ok(js)) => models(ms@) == js,
            (Err(e), Err(f)) => e@ == f,
            _ => false,
        },
{
    match json_parse(body) {
        Err(detail) => Err(McpErrorOf::MalformedJson { detail }),
        Ok(value) => match json_into_array(value) {
            Ok(items) => Ok(items),
            Err(single) => {
                let ghost j = json_model(single);
                let mut v: Vec<serde_json::Value> = Vec::new();
                v.push(single);
                assert(models(v@) =~= seq![j]);
                Ok(v)
            },
        },
    }
}

/// The first of `ms` whose `id` is the integer `id`.
pub open spec fn first_with_id(ms: Seq<JsonSpec>, id: u64) -> Option<JsonSpec>
    decreases ms.len(),
{
    if ms.len() == 0 {
        None
    } else if field(ms[0], "id"@) == Some(JsonSpec::Int(id as int)) {
        Some(ms[0])
    } else {
        first_with_id(ms.drop_first(), id)
    }
}

/// An integer JSON value that fits in an `i64`.
pub open spec fn i64_of(j: Option<JsonSpec>) -> Option<i64> {
    match j {
        Some(JsonSpec::Int(i)) => if i64::MIN <= i <= i64::MAX {
            Some(i as i64)
        } else {
            None
        },
        _ => None,
    }
}

/// What a JSON-RPC reply means: its error, or its result.
pub open spec fn rpc_reply_spec(m: JsonSpec) -> Result<JsonSpec, McpFault> {
    match field(m, "error"@) {
        Some(err) => Err(
            McpErrorOf::Rpc {
                code: i64_of(field(err, "code"@)),
                message: match str_field(err, "message"@) {
                    Some(t) => t,
                    None => "unknown JSON-RPC error"@,
                },
                data: match field(err, "data"@) {
                    Some(d) => Some(json_text(d)),
                    None => None,
                },
            },
        ),
        None => match field(m, "result"@) {
            Some(r) => Ok(r),
            None => Err(McpErrorOf::NeitherResultNorError),
        },
    }
}

/// What the HTTP reply to the request with id `id` means.
pub open spec fn request_outcome(
    status: u16,
    status_text: Seq<char>,
    event_stream: bool,
    body: Seq<char>,
    id: u64,
) -> Result<JsonSpec, McpFault> {
    if !http_success(status) {
        Err(McpErrorOf::Http { status: status_text, body })
    } else if status == 202 {
        Err(McpErrorOf::AcceptedWithoutResult)
    } else {
        let messages = if event_stream {
            sse_messages_spec(body)
        } else {
            json_messages_spec(body)
        };
        match messages {
            Err(e) => Err(e),
            Ok(ms) => match first_with_id(ms, id) {
                None => Err(McpErrorOf::NoResponse { id }),
                Some(m) => rpc_reply_spec(m),
            },
        }
    }
}

fn rpc_reply(m: &serde_json::Value) -> (r: Result<serde_json::Value, McpError>)
    ensures
        match (r, rpc_reply_spec(json_model(*m))) {
            (Ok(v), Ok(j)) => json_model(v) == j,
            (Err(e), Err(f)) => e@ == f,
            _ => false,
        },
{
    match json_get(m, "error") {
        Some(err) => {
            let code = match json_get(err, "code") {
                Some(c) => json_as_i64(c),
                None => None,
            };
            let message = match json_get(err, "message") {
                Some(t) => match json_as_str(t) {
                    Some(s) => s.to_owned(),
                    None => "unknown JSON-RPC error".to_owned(),
                },
                None => "unknown JSON-RPC error".to_owned(),
            };
            let data = match json_get(err, "data") {
                Some(d) => Some(json_to_text(d)),
                None => None,
            };
            Err(McpErrorOf::Rpc { code, message, data })
        },
        None => match json_get(m, "result") {
            Some(r) => Ok(json_clone(r)),
            None => Err(McpErrorOf::NeitherResultNorError),
        },
    }
}

/// What the HTTP reply to the request with id `expected_id` means: `status` and
/// `status_text` are its status as a number and as written, `content_type` its
/// `Content-Type` where that is text, and `body` its body.
#[verifier::loop_isolation(false)]
pub fn parse_request_response(
    status: u16,
    status_text: &str,
    content_type: Option<&str>,
    body: &str,
    expected_id: u64,
) -> (r: Result<serde_json::Value, McpError>)
    ensures
        match (
            r,
            request_outcome(
                status,
                status_text@,
                event_stream_spec(
                    match content_type {
                        Some(c) => Some(c@),
                        None => None,
                    },
                ),
                body@,
                expected_id,
            ),
        ) {
            (Ok(v), Ok(j)) => json_model(v) == j,
            (Err(e), Err(f)) => e@ == f,
            _ => false,
        },
{
    if !(200 <= status && status <= 299) {
        return Err(McpErrorOf::Http { status: status_text.to_owned(), body: body.to_owned() });
    }
    if status == 202 {
        return Err(McpErrorOf::AcceptedWithoutResult);
    }
    let es = is_event_stream(content_type);
    let ghost spec_msgs = if es {
        sse_messages_spec(body@)
    } else {
        json_messages_spec(body@)
    };
    let messages = if es {
        parse_sse_messages(body)
    } else {
        parse_json_messages(body)
    };
    let messages = match messages {
        Ok(ms) => ms,
        Err(e) => return Err(e),
    };
    let ghost ms = models(messages@);
    assert(spec_msgs == Ok::<Seq<JsonSpec>, McpFault>(ms));
    let mut i: usize = 0;
    assert(ms.skip(0) =~= ms);
    while i < messages.len()
        invariant
            ms == models(messages@),
            i <= messages@.len(),
            first_with_id(ms, expected_id) == first_with_id(ms.skip(i as int), expected_id),
        decreases messages@.len() - i,
    {
        let ghost rest = ms.skip(i as int);
        assert(rest[0] == json_model(messages@[i as int]));
        assert(rest.drop_first() =~= ms.skip(i + 1));
        let matches = match json_get(&messages[i], "id") {
            Some(id) => json_as_u64(id) == Some(expected_id),
            None => false,
        };
        if matches {
            assert(field(rest[0], "id"@) == Some(JsonSpec::Int(expected_id as int)));
            return rpc_reply(&messages[i]);
        }
        i = i + 1;
    }
    assert(ms.skip(i as int) =~= Seq::<JsonSpec>::empty());
    Err(McpErrorOf::NoResponse { id: expected_id })
}

/// Whether a notification was accepted: any success status.
pub fn notification_accepted(status: u16) -> (r: bool)
    ensures
        r == http_success(status),
{
    200 <= status && status <= 299
}

/// The error for a notification that Paper refused, with its status as written and its
/// body.
pub fn notification_error(status_text: &str, body: &str) -> (r: McpError)
    ensures
        r@ == (McpFault::Http { status: status_text@, body: body@ }),
{
    McpErrorOf::Http { status: status_text.to_owned(), body: body.to_owned() }
}

// ---------------------------------------------------------------------------------------
// Tool results
// ---------------------------------------------------------------------------------------

/// What a failed tool result says: the texts of its content on separate lines, or, when
/// there are none, the whole result as JSON.
pub open spec fn failure_detail(result: JsonSpec) -> Seq<char> {
    match array_field(result, "content"@) {
        Some(items) => {
            let d = join(field_strs(items, "text"@), seq!['\n']);
            if d.len() == 0 {
                json_text(result)
            } else {
                d
            }
        },
        None => json_text(result),
    }
}

/// The texts of the content items of a tool result, on separate lines.
fn content_text_lines(items: &Vec<serde_json::Value>) -> (r: String)
    ensures
        r@ == join(field_strs(models(items@), "text"@), seq!['\n']),
{
    let found = collect_field_strs(items, "text");
    proof {
        reveal_strlit("\n");
    }
    assert("\n"@ =~= seq!['\n']);
    join_strings(&found, "\n")
}

/// Checks a tool result: an error naming the tool when the result says `isError: true`.
pub fn ensure_tool_succeeded(name: &str, result: &serde_json::Value) -> (r: Result<(), McpError>)
    ensures
        field(json_model(*result), "isError"@) == Some(JsonSpec::Bool(true)) ==> (r matches Err(e)
            && e@ == (McpFault::ToolFailed { name: name@, detail: failure_detail(json_model(*result)) })),
        field(json_model(*result), "isError"@) != Some(JsonSpec::Bool(true)) ==> r is Ok,
{
    let failed = match json_get(result, "isError") {
        Some(flag) => json_as_bool(flag) == Some(true),
        None => false,
    };
    if !failed {
        return Ok(());
    }
    let detail = match json_get(result, "content") {
        Some(c) => match json_as_array(c) {
            Some(items) => {
                let d = content_text_lines(items);
                if d.as_str().is_empty() {
                    json_to_text(result)
                } else {
                    d
                }
            },
            None => json_to_text(result),
        },
        None => json_to_text(result),
    };
    Err(McpErrorOf::ToolFailed { name: name.to_owned(), detail })
}

// ---------------------------------------------------------------------------------------
// Paging through the tool list
// ---------------------------------------------------------------------------------------

/// Whether no text occurs twice in `s`.
pub open spec fn distinct(s: Seq<Seq<char>>) -> bool {
    forall|i: int, j: int| 0 <= i < j < s.len() ==> s[i] != s[j]
}

/// The pages of `tools/list` read so far.
pub struct ToolListing {
    tools: Vec<serde_json::Value>,
    seen: Vec<String>,
    cursor: Option<String>,
}

impl ToolListing {
    /// The tools of the pages read so far, in order.
    pub closed spec fn tools_spec(&self) -> Seq<JsonSpec> {
        models(self.tools@)
    }

    /// The cursors requested so far, in order.
    pub closed spec fn cursors_spec(&self) -> Seq<Seq<char>> {
        texts(self.seen@)
    }

    /// The cursor of the next page, if there is one to read.
    pub closed spec fn next_cursor_spec(&self) -> Option<Seq<char>> {
        opt_text(self.cursor)
    }

    /// The listing is consistent: no cursor occurs twice, and the next cursor is the last
    /// one handed out.
    pub closed spec fn wf(&self) -> bool {
        &&& distinct(texts(self.seen@))
        &&& match self.cursor {
            Some(c) => self.seen@.len() > 0 && c@ == self.seen@.last()@,
            None => self.seen@.len() == 0,
        }
    }

    /// A listing before the first page.
    pub fn new() -> (r: ToolListing)
        ensures
            r.wf(),
            r.tools_spec() == Seq::<JsonSpec>::empty(),
            r.cursors_spec() == Seq::<Seq<char>>::empty(),
            r.next_cursor_spec() is None,
    {
        let r = ToolListing { tools: Vec::new(), seen: Vec::new(), cursor: None };
        assert(models(r.tools@) =~= Seq::<JsonSpec>::empty());
        assert(texts(r.seen@) =~= Seq::<Seq<char>>::empty());
        r
    }

    /// The parameters of the request for the next page: none for the first page, and the
    /// cursor afterwards.
    pub fn request_params(&self) -> (r: Option<serde_json::Value>)
        ensures
            match self.next_cursor_spec() {
                Some(c) => r matches Some(p) && json_model(p) == object1("cursor"@, JsonSpec::Str(c)),
                None => r is None,
            },
    {
        match &self.cursor {
            Some(c) => {
                let mut p = json_object();
                json_set(&mut p, "cursor", json_str(c.as_str()));
                Some(p)
            },
            None => None,
        }
    }

    /// Reads one page: its tools are added to the listing; then the listing either ends
    /// (`Ok(false)`, no `nextCursor`) or goes on with a cursor that it has not requested
    /// before (`Ok(true)`). A page without a `tools` array, or one that repeats an earlier
    /// cursor, is an error.
    #[verifier::loop_isolation(false)]
    pub fn accept_page(&mut self, result: &serde_json::Value) -> (r: Result<bool, McpError>)
        requires
            old(self).wf(),
        ensures
            final(self).wf(),
            match array_field(json_model(*result), "tools"@) {
                None => r matches Err(e) && e@ == McpFault::NoToolsArray,
                Some(page) => {
                    &&& final(self).tools_spec() == old(self).tools_spec() + page
                    &&& match str_field(json_model(*result), "nextCursor"@) {
                        None => r matches Ok(false) && final(self).cursors_spec() == old(
                            self,
                        ).cursors_spec(),
                        Some(c) => if old(self).cursors_spec().contains(c) {
                            r matches Err(e) && e@ == (McpFault::RepeatedCursor { cursor: c })
                        } else {
                            &&& r matches Ok(true)
                            &&& final(self).cursors_spec() == old(self).cursors_spec().push(c)
                            &&& final(self).next_cursor_spec() == Some(c)
                        },
                    }
                },
            },
    {
        let page = match json_get(result, "tools") {
            Some(t) => match json_as_array(t) {
                Some(items) => items,
                None => return Err(McpErrorOf::NoToolsArray),
            },
            None => return Err(McpErrorOf::NoToolsArray),
        };
        let ghost start = models(self.tools@);
        let mut i: usize = 0;
        while i < page.len()
            invariant
                i <= page@.len(),
                models(self.tools@) == start + models(page@).take(i as int),
                self.seen == old(self).seen,
                self.cursor == old(self).cursor,
            decreases page@.len() - i,
        {
            let ghost before = models(self.tools@);
            self.tools.push(json_clone(&page[i]));
            assert(models(page@).take(i + 1) =~= models(page@).take(i as int).push(
                json_model(page@[i as int]),
            ));
            assert(models(self.tools@) =~= before.push(json_model(page@[i as int])));
            i = i + 1;
        }
        assert(models(page@).take(page@.len() as int) =~= models(page@));
        let next = match json_get(result, "nextCursor") {
            Some(c) => match json_as_str(c) {
                Some(s) => s,
                None => return Ok(false),
            },
            None => return Ok(false),
        };
        let mut k: usize = 0;
        while k < self.seen.len()
            invariant
                k <= self.seen@.len(),
                self.seen == old(self).seen,
                self.cursor == old(self).cursor,
                models(self.tools@) == start + models(page@),
                forall|j: int| 0 <= j < k ==> texts(self.seen@)[j] != next@,
            decreases self.seen@.len() - k,
        {
            if str_eq(self.seen[k].as_str(), next) {
                assert(texts(self.seen@)[k as int] == next@);
                return Err(McpErrorOf::RepeatedCursor { cursor: next.to_owned() });
            }
            k = k + 1;
        }
        let ghost before = texts(self.seen@);
        assert(!before.contains(next@));
        self.seen.push(next.to_owned());
        assert(texts(self.seen@) =~= before.push(next@));
        self.cursor = Some(next.to_owned());
        Ok(true)
    }

    /// The tools of all pages read, in order.
    pub fn into_tools(self) -> (r: Vec<serde_json::Value>)
        ensures
            models(r@) == self.tools_spec(),
    {
        self.tools
    }
}

/// A listing never asks for the same page twice: each cursor it goes on with is new, so the
/// cursors it has requested are pairwise different.
pub proof fn lemma_listing_cursors_distinct(l: ToolListing)
    requires
        l.wf(),
    ensures
        distinct(l.cursors_spec()),
{
}

} // verus!
