//! The current Paper file, page, artboards and selection, and the choice of the node that a
//! screenshot captures.

use vstd::prelude::*;
use crate::json::{
    JsonSpec, array_field, collect_field_strs, field, field_strs, json_array, json_as_array,
    json_as_str, json_clone, json_get, json_model, json_null, json_object, json_parse, json_read,
    json_set, json_str, json_u64, models, or_null, str_field,
};
use crate::mcp::with_optional;
use crate::record::{Event, Recorded};
use crate::results::{
    all_ok, lemma_all_ok_err, lemma_all_ok_prefix_err, lemma_all_ok_step, lemma_take_all,
};
use crate::text::{
    all_space, debug_quote, debug_str, is_blank, join, join_strings, opt_text, str_eq, texts,
};

verus! {

/// The tools of Paper that the context commands use: the live tool list and tool calls.
/// Errors are the messages of the failed exchange.
pub trait PaperTools {
    fn list_tools(&mut self) -> Result<Vec<serde_json::Value>, String>;

    fn call_tool(&mut self, name: &str, arguments: serde_json::Value) -> Result<
        serde_json::Value,
        String,
    >;
}

/// The node that a screenshot captures.
#[derive(Debug, Clone, PartialEq)]
pub enum ScreenshotTarget {
    /// The node with this id.
    NodeId(String),
    /// The one selected node.
    Selected,
    /// The artboard of the selected node, or the page's only artboard.
    ActiveArtboard,
    /// The artboard with exactly this name.
    Artboard(String),
}

/// What can go wrong while reading the context; `S` is the type of texts and `L` that of
/// lists of names.
#[derive(Debug)]
pub enum ContextErrorOf<S, L> {
    /// A call to Paper failed, with this message.
    Tool { message: S },
    /// The tool list could not be read, with this message.
    Catalog { message: S },
    /// Paper does not offer a tool that the command needs.
    MissingTool { name: S },
    /// A tool result had no content.
    NoContent { tool: S },
    /// No content of a tool result was JSON.
    NoStructuredJson { tool: S },
    /// The selection had no `selectedNodes`.
    MissingSelectedNodes,
    /// A selected node had no id.
    NodeWithoutId,
    /// The basic information lacked a member.
    MissingBasicField { member: S },
    /// An artboard had no id.
    ArtboardWithoutId,
    /// No node is selected.
    NoSelection,
    /// Several nodes are selected: their names.
    MultipleSelection { names: L },
    /// The page has no artboard.
    NoArtboards,
    /// The page has several artboards: their names.
    MultipleArtboards { names: L },
    /// No artboard has the name: the name, and those of the artboards there are.
    ArtboardNotFound { name: S, available: L },
    /// Several artboards have the name.
    DuplicateArtboardName { name: S },
}

/// An error while reading the context.
pub type ContextError = ContextErrorOf<String, Vec<String>>;

/// The description of a context error.
pub type ContextFault = ContextErrorOf<Seq<char>, Seq<Seq<char>>>;

impl View for ContextErrorOf<String, Vec<String>> {
    type V = ContextFault;

    open spec fn view(&self) -> ContextFault {
        match self {
            ContextErrorOf::Tool { message } => ContextErrorOf::Tool { message: message@ },
            ContextErrorOf::Catalog { message } => ContextErrorOf::Catalog { message: message@ },
            ContextErrorOf::MissingTool { name } => ContextErrorOf::MissingTool { name: name@ },
            ContextErrorOf::NoContent { tool } => ContextErrorOf::NoContent { tool: tool@ },
            ContextErrorOf::NoStructuredJson { tool } => ContextErrorOf::NoStructuredJson {
                tool: tool@,
            },
            ContextErrorOf::MissingSelectedNodes => ContextErrorOf::MissingSelectedNodes,
            ContextErrorOf::NodeWithoutId => ContextErrorOf::NodeWithoutId,
            ContextErrorOf::MissingBasicField { member } => ContextErrorOf::MissingBasicField {
                member: member@,
            },
            ContextErrorOf::ArtboardWithoutId => ContextErrorOf::ArtboardWithoutId,
            ContextErrorOf::NoSelection => ContextErrorOf::NoSelection,
            ContextErrorOf::MultipleSelection { names } => ContextErrorOf::MultipleSelection {
                names: texts(names@),
            },
            ContextErrorOf::NoArtboards => ContextErrorOf::NoArtboards,
            ContextErrorOf::MultipleArtboards { names } => ContextErrorOf::MultipleArtboards {
                names: texts(names@),
            },
            ContextErrorOf::ArtboardNotFound { name, available } =>
                ContextErrorOf::ArtboardNotFound { name: name@, available: texts(available@) },
            ContextErrorOf::DuplicateArtboardName { name } =>
                ContextErrorOf::DuplicateArtboardName { name: name@ },
        }
    }
}

/// Names in `Debug` quotes, separated by commas.
pub open spec fn quoted_names_spec(names: Seq<Seq<char>>) -> Seq<char> {
    join(names.map_values(|n: Seq<char>| debug_str(n)), ", "@)
}

/// The message that describes a context error.
pub open spec fn context_message(e: ContextFault) -> Seq<char> {
    match e {
        ContextErrorOf::Tool { message } => message,
        ContextErrorOf::Catalog { message } => "failed to read Paper's live tool catalog: "@
            + message,
        ContextErrorOf::MissingTool { name } => "Paper does not expose the required `"@ + name
            + "` tool; run `paper tools --names` and update Paper Desktop if needed"@,
        ContextErrorOf::NoContent { tool } => tool + " returned no MCP content"@,
        ContextErrorOf::NoStructuredJson { tool } => tool + " returned no structured JSON content"@,
        ContextErrorOf::MissingSelectedNodes => "get_selection response is missing selectedNodes"@,
        ContextErrorOf::NodeWithoutId => "get_selection returned a selected node without an ID"@,
        ContextErrorOf::MissingBasicField { member } => "get_basic_info response is missing "@
            + member,
        ContextErrorOf::ArtboardWithoutId => "get_basic_info returned an artboard without an ID"@,
        ContextErrorOf::NoSelection =>
            "no nodes are selected; select one node in Paper or use --active-artboard, --artboard <exact-name>, or a node ID"@,
        ContextErrorOf::MultipleSelection { names } => "multiple nodes are selected ("@
            + quoted_names_spec(names)
            + "); select one node or use another screenshot target mode"@,
        ContextErrorOf::NoArtboards => "the active page contains no artboards"@,
        ContextErrorOf::MultipleArtboards { names } =>
            "the active page contains multiple artboards ("@ + quoted_names_spec(names)
                + "); use --artboard \"<exact-name>\""@,
        ContextErrorOf::ArtboardNotFound { name, available } => if available.len() == 0 {
            "no artboard named "@ + debug_str(name)
                + " exists on the active page; no artboards are available"@
        } else {
            "no artboard named "@ + debug_str(name)
                + " exists on the active page; available artboards: "@ + quoted_names_spec(
                available,
            )
        },
        ContextErrorOf::DuplicateArtboardName { name } => "multiple artboards are named "@
            + debug_str(name) + "; rename the duplicates or use a raw node ID"@,
    }
}

/// Names in `Debug` quotes, separated by commas, as in `"Header", "Footer"`.
pub fn quoted_names(names: &Vec<String>) -> (r: String)
    ensures
        r@ == quoted_names_spec(texts(names@)),
        r@.len() == 0 <==> names@.len() == 0,
{
    let mut quoted: Vec<String> = Vec::new();
    let mut i: usize = 0;
    while i < names.len()
        invariant
            i <= names@.len(),
            texts(quoted@) == texts(names@).take(i as int).map_values(|n: Seq<char>| debug_str(n)),
            forall|j: int| 0 <= j < i ==> #[trigger] texts(quoted@)[j].len() >= 2,
        decreases names@.len() - i,
    {
        let ghost before = texts(quoted@);
        quoted.push(debug_quote(names[i].as_str()));
        assert(texts(quoted@) =~= before.push(debug_str(names@[i as int]@)));
        assert(texts(names@).take(i + 1).map_values(|n: Seq<char>| debug_str(n)) =~= texts(
            names@,
        ).take(i as int).map_values(|n: Seq<char>| debug_str(n)).push(debug_str(names@[i as int]@)));
        i = i + 1;
    }
    assert(texts(names@).take(names@.len() as int) =~= texts(names@));
    let r = join_strings(&quoted, ", ");
    proof {
        let items = texts(quoted@);
        if items.len() > 0 {
            assert(items.last().len() >= 2);
            assert(join(items, ", "@).len() >= items.last().len());
        }
    }
    r
}

impl ContextErrorOf<String, Vec<String>> {
    /// The message that describes this error.
    pub fn message(&self) -> (r: String)
        ensures
            r@ == context_message(self@),
    {
        let mut r = String::new();
        match self {
            ContextErrorOf::Tool { message } => {
                r.append(message.as_str());
            },
            ContextErrorOf::Catalog { message } => {
                r.append("failed to read Paper's live tool catalog: ");
                r.append(message.as_str());
            },
            ContextErrorOf::MissingTool { name } => {
                r.append("Paper does not expose the required `");
                r.append(name.as_str());
                r.append("` tool; run `paper tools --names` and update Paper Desktop if needed");
            },
            ContextErrorOf::NoContent { tool } => {
                r.append(tool.as_str());
                r.append(" returned no MCP content");
            },
            ContextErrorOf::NoStructuredJson { tool } => {
                r.append(tool.as_str());
                r.append(" returned no structured JSON content");
            },
            ContextErrorOf::MissingSelectedNodes => {
                r.append("get_selection response is missing selectedNodes");
            },
            ContextErrorOf::NodeWithoutId => {
                r.append("get_selection returned a selected node without an ID");
            },
            ContextErrorOf::MissingBasicField { member } => {
                r.append("get_basic_info response is missing ");
                r.append(member.as_str());
            },
            ContextErrorOf::ArtboardWithoutId => {
                r.append("get_basic_info returned an artboard without an ID");
            },
            ContextErrorOf::NoSelection => {
                r.append(
                    "no nodes are selected; select one node in Paper or use --active-artboard, --artboard <exact-name>, or a node ID",
                );
            },
            ContextErrorOf::MultipleSelection { names } => {
                r.append("multiple nodes are selected (");
                let q = quoted_names(names);
                r.append(q.as_str());
                r.append("); select one node or use another screenshot target mode");
            },
            ContextErrorOf::NoArtboards => {
                r.append("the active page contains no artboards");
            },
            ContextErrorOf::MultipleArtboards { names } => {
                r.append("the active page contains multiple artboards (");
                let q = quoted_names(names);
                r.append(q.as_str());
                r.append("); use --artboard \"<exact-name>\"");
            },
            ContextErrorOf::ArtboardNotFound { name, available } => {
                r.append("no artboard named ");
                let q = debug_quote(name.as_str());
                r.append(q.as_str());
                if available.len() == 0 {
                    r.append(" exists on the active page; no artboards are available");
                } else {
                    r.append(" exists on the active page; available artboards: ");
                    let a = quoted_names(available);
                    r.append(a.as_str());
                }
            },
            ContextErrorOf::DuplicateArtboardName { name } => {
                r.append("multiple artboards are named ");
                let q = debug_quote(name.as_str());
                r.append(q.as_str());
                r.append("; rename the duplicates or use a raw node ID");
            },
        }
        r
    }
}

// ---------------------------------------------------------------------------------------
// Tool arguments
// ---------------------------------------------------------------------------------------

/// The text of an optional string slice.
pub open spec fn opt_str(s: Option<&str>) -> Option<Seq<char>> {
    match s {
        Some(t) => Some(t@),
        None => None,
    }
}

/// The members that every context tool call carries: `fileId` when a file is named.
pub open spec fn context_arguments_spec(file_id: Option<Seq<char>>) -> Map<Seq<char>, JsonSpec> {
    with_optional(
        Map::empty(),
        "fileId"@,
        match file_id {
            Some(f) => Some(JsonSpec::Str(f)),
            None => None,
        },
    )
}

/// The arguments of a context tool call: `fileId` when a file is named, and nothing else.
pub fn context_arguments(file_id: Option<&str>) -> (r: serde_json::Value)
    ensures
        json_model(r) == JsonSpec::Object(context_arguments_spec(opt_str(file_id))),
{
    let mut obj = json_object();
    match file_id {
        Some(f) => json_set(&mut obj, "fileId", json_str(f)),
        None => {},
    }
    obj
}

/// The arguments of `get_screenshot`: those of every context call, the node, and the scale
/// when one is given.
pub open spec fn screenshot_arguments_spec(
    file_id: Option<Seq<char>>,
    node_id: Seq<char>,
    scale: Option<JsonSpec>,
) -> JsonSpec {
    JsonSpec::Object(
        with_optional(
            context_arguments_spec(file_id).insert("nodeId"@, JsonSpec::Str(node_id)),
            "scale"@,
            scale,
        ),
    )
}

/// The description of an optional value.
pub open spec fn opt_json(v: Option<serde_json::Value>) -> Option<JsonSpec> {
    match v {
        Some(x) => Some(json_model(x)),
        None => None,
    }
}

/// The arguments of the `get_screenshot` call for node `node_id`.
pub fn screenshot_arguments(file_id: Option<&str>, node_id: &str, scale: Option<
    serde_json::Value,
>) -> (r: serde_json::Value)
    ensures
        json_model(r) == screenshot_arguments_spec(opt_str(file_id), node_id@, opt_json(scale)),
{
    let mut args = context_arguments(file_id);
    json_set(&mut args, "nodeId", json_str(node_id));
    match scale {
        Some(s) => json_set(&mut args, "scale", s),
        None => {},
    }
    args
}

/// A named file is passed to every tool call of the context commands: the context calls
/// and the screenshot carry `fileId`, and nothing is passed when no file is named.
pub proof fn lemma_file_id_in_every_call(
    file_id: Option<Seq<char>>,
    node_id: Seq<char>,
    scale: Option<JsonSpec>,
)
    ensures
        field(JsonSpec::Object(context_arguments_spec(file_id)), "fileId"@) == match file_id {
            Some(f) => Some(JsonSpec::Str(f)),
            None => None::<JsonSpec>,
        },
        field(screenshot_arguments_spec(file_id, node_id, scale), "fileId"@) == match file_id {
            Some(f) => Some(JsonSpec::Str(f)),
            None => None::<JsonSpec>,
        },
        field(screenshot_arguments_spec(file_id, node_id, scale), "nodeId"@) == Some(
            JsonSpec::Str(node_id),
        ),
{
    reveal_strlit("fileId");
    reveal_strlit("nodeId");
    reveal_strlit("scale");
    assert("fileId"@ != "nodeId"@) by {
        assert("fileId"@[0] != "nodeId"@[0]);
    }
    assert("fileId"@ != "scale"@) by {
        assert("fileId"@[0] != "scale"@[0]);
    }
    assert("nodeId"@ != "scale"@) by {
        assert("nodeId"@[0] != "scale"@[0]);
    }
}

// ---------------------------------------------------------------------------------------
// The tool catalog
// ---------------------------------------------------------------------------------------

/// The names of the tools that Paper offers.
#[derive(Debug)]
pub struct ToolCatalog {
    pub names: Vec<String>,
}

impl ToolCatalog {
    /// The catalog of a tool list: the string `name` of each tool that has one.
    pub fn from_tools(tools: &Vec<serde_json::Value>) -> (r: ToolCatalog)
        ensures
            texts(r.names@) == field_strs(models(tools@), "name"@),
    {
        ToolCatalog { names: collect_field_strs(tools, "name") }
    }

    /// Succeeds when Paper offers the tool `name`, and otherwise names the missing tool.
    pub fn require(&self, name: &str) -> (r: Result<(), ContextError>)
        ensures
            r is Ok <==> texts(self.names@).contains(name@),
            r matches Err(e) ==> e@ == (ContextFault::MissingTool { name: name@ }),
    {
        let mut i: usize = 0;
        while i < self.names.len()
            invariant
                i <= self.names@.len(),
                forall|j: int| 0 <= j < i ==> texts(self.names@)[j] != name@,
            decreases self.names@.len() - i,
        {
            if str_eq(self.names[i].as_str(), name) {
                assert(texts(self.names@)[i as int] == name@);
                return Ok(());
            }
            i = i + 1;
        }
        Err(ContextErrorOf::MissingTool { name: name.to_owned() })
    }
}

// ---------------------------------------------------------------------------------------
// Reading tool results
// ---------------------------------------------------------------------------------------

/// The first of `items` whose string `text` reads as JSON: that value.
pub open spec fn first_json_text(items: Seq<JsonSpec>) -> Option<JsonSpec>
    decreases items.len(),
{
    if items.len() == 0 {
        None
    } else {
        match str_field(items[0], "text"@) {
            Some(t) => match json_read(t) {
                Ok(p) => Some(p),
                Err(_) => first_json_text(items.drop_first()),
            },
            None => first_json_text(items.drop_first()),
        }
    }
}

/// The structured payload of a tool result: its `structuredContent`, or else the first of
/// its content texts that reads as JSON.
pub open spec fn payload_spec(result: JsonSpec, tool: Seq<char>) -> Result<JsonSpec, ContextFault> {
    match field(result, "structuredContent"@) {
        Some(p) => Ok(p),
        None => match array_field(result, "content"@) {
            None => Err(ContextErrorOf::NoContent { tool }),
            Some(items) => match first_json_text(items) {
                Some(p) => Ok(p),
                None => Err(ContextErrorOf::NoStructuredJson { tool }),
            },
        },
    }
}

/// The structured payload of the result of tool `tool_name`.
#[verifier::loop_isolation(false)]
pub fn tool_payload(result: &serde_json::Value, tool_name: &str) -> (r: Result<
    serde_json::Value,
    ContextError,
>)
    ensures
        match (r, payload_spec(json_model(*result), tool_name@)) {
            (Ok(v), Ok(j)) => json_model(v) == j,
            (Err(e), Err(f)) => e@ == f,
            _ => false,
        },
{
    match json_get(result, "structuredContent") {
        Some(p) => return Ok(json_clone(p)),
        None => {},
    }
    let items = match json_get(result, "content") {
        Some(c) => match json_as_array(c) {
            Some(items) => items,
            None => return Err(ContextErrorOf::NoContent { tool: tool_name.to_owned() }),
        },
        None => return Err(ContextErrorOf::NoContent { tool: tool_name.to_owned() }),
    };
    let ghost all = models(items@);
    let mut i: usize = 0;
    assert(all.skip(0) =~= all);
    while i < items.len()
        invariant
            all == models(items@),
            i <= items@.len(),
            first_json_text(all) == first_json_text(all.skip(i as int)),
        decreases items@.len() - i,
    {
        let ghost rest = all.skip(i as int);
        assert(rest[0] == json_model(items@[i as int]));
        assert(rest.drop_first() =~= all.skip(i + 1));
        match json_get(&items[i], "text") {
            Some(t) => match json_as_str(t) {
                Some(text) => match json_parse(text) {
                    Ok(p) => return Ok(p),
                    Err(_) => {},
                },
                None => {},
            },
            None => {},
        }
        i = i + 1;
    }
    assert(all.skip(i as int) =~= Seq::<JsonSpec>::empty());
    Err(ContextErrorOf::NoStructuredJson { tool: tool_name.to_owned() })
}

/// A readable name for a node: its `name`, else its `component`, when that is a string
/// with more than white space, and otherwise `fallback`.
pub open spec fn human_name_spec(j: JsonSpec, fallback: Seq<char>) -> Seq<char> {
    match str_field(j, "name"@) {
        Some(n) if !all_space(n) => n,
        _ => match str_field(j, "component"@) {
            Some(c) if !all_space(c) => c,
            _ => fallback,
        },
    }
}

/// A readable name for a node or artboard.
pub fn human_name(value: &serde_json::Value, fallback: &str) -> (r: String)
    ensures
        r@ == human_name_spec(json_model(*value), fallback@),
{
    match json_get(value, "name") {
        Some(n) => match json_as_str(n) {
            Some(s) => if !is_blank(s) {
                return s.to_owned();
            },
            None => {},
        },
        None => {},
    }
    match json_get(value, "component") {
        Some(n) => match json_as_str(n) {
            Some(s) => if !is_blank(s) {
                return s.to_owned();
            },
            None => {},
        },
        None => {},
    }
    fallback.to_owned()
}

/// A selected node: its id, name and artboard.
#[derive(Debug)]
pub struct SelectedNode {
    pub id: String,
    pub name: String,
    pub artboard_id: Option<String>,
}

/// The description of a selected node.
pub struct NodeSpec {
    pub id: Seq<char>,
    pub name: Seq<char>,
    pub artboard_id: Option<Seq<char>>,
}

impl View for SelectedNode {
    type V = NodeSpec;

    open spec fn view(&self) -> NodeSpec {
        NodeSpec {
            id: self.id@,
            name: self.name@,
            artboard_id: match self.artboard_id {
                Some(a) => Some(a@),
                None => None,
            },
        }
    }
}

/// A selected node as Paper describes it: the id is required.
pub open spec fn node_spec(j: JsonSpec) -> Result<NodeSpec, ContextFault> {
    match str_field(j, "id"@) {
        None => Err(ContextErrorOf::NodeWithoutId),
        Some(id) => Ok(
            NodeSpec {
                id,
                name: human_name_spec(j, "Unnamed node"@),
                artboard_id: str_field(j, "artboardId"@),
            },
        ),
    }
}

/// Reading a node, as a function.
pub open spec fn node_reader() -> spec_fn(JsonSpec) -> Result<NodeSpec, ContextFault> {
    |j: JsonSpec| node_spec(j)
}

impl SelectedNode {
    /// Reads a selected node.
    pub fn parse(value: &serde_json::Value) -> (r: Result<SelectedNode, ContextError>)
        ensures
            match (r, node_spec(json_model(*value))) {
                (Ok(n), Ok(s)) => n@ == s,
                (Err(e), Err(f)) => e@ == f,
                _ => false,
            },
    {
        let id = match json_get(value, "id") {
            Some(v) => match json_as_str(v) {
                Some(s) => s.to_owned(),
                None => return Err(ContextErrorOf::NodeWithoutId),
            },
            None => return Err(ContextErrorOf::NodeWithoutId),
        };
        let name = human_name(value, "Unnamed node");
        let artboard_id = match json_get(value, "artboardId") {
            Some(v) => match json_as_str(v) {
                Some(s) => Some(s.to_owned()),
                None => None,
            },
            None => None,
        };
        Ok(SelectedNode { id, name, artboard_id })
    }
}

/// The selected nodes.
#[derive(Debug)]
pub struct Selection {
    pub nodes: Vec<SelectedNode>,
}

/// The descriptions of a sequence of nodes.
pub open spec fn node_views(nodes: Seq<SelectedNode>) -> Seq<NodeSpec> {
    nodes.map_values(|n: SelectedNode| n@)
}

/// The names of a sequence of nodes.
pub open spec fn node_names(nodes: Seq<NodeSpec>) -> Seq<Seq<char>> {
    nodes.map_values(|n: NodeSpec| n.name)
}

/// The selection of a `get_selection` result.
pub open spec fn selection_spec(result: JsonSpec) -> Result<Seq<NodeSpec>, ContextFault> {
    match payload_spec(result, "get_selection"@) {
        Err(e) => Err(e),
        Ok(payload) => match array_field(payload, "selectedNodes"@) {
            None => Err(ContextErrorOf::MissingSelectedNodes),
            Some(items) => all_ok(items, node_reader()),
        },
    }
}

impl Selection {
    /// Reads the result of `get_selection`.
    #[verifier::loop_isolation(false)]
    pub fn parse(result: &serde_json::Value) -> (r: Result<Selection, ContextError>)
        ensures
            match (r, selection_spec(json_model(*result))) {
                (Ok(s), Ok(ns)) => node_views(s.nodes@) == ns,
                (Err(e), Err(f)) => e@ == f,
                _ => false,
            },
    {
        let payload = match tool_payload(result, "get_selection") {
            Ok(p) => p,
            Err(e) => return Err(e),
        };
        let items = match json_get(&payload, "selectedNodes") {
            Some(v) => match json_as_array(v) {
                Some(items) => items,
                None => return Err(ContextErrorOf::MissingSelectedNodes),
            },
            None => return Err(ContextErrorOf::MissingSelectedNodes),
        };
        let ghost all = models(items@);
        let ghost f = node_reader();
        let mut nodes: Vec<SelectedNode> = Vec::new();
        let mut i: usize = 0;
        assert(all.take(0) =~= Seq::<JsonSpec>::empty());
        assert(node_views(nodes@) =~= Seq::<NodeSpec>::empty());
        while i < items.len()
            invariant
                i <= items@.len(),
                all_ok(all.take(i as int), f) == Ok::<Seq<NodeSpec>, ContextFault>(
                    node_views(nodes@),
                ),
            decreases items@.len() - i,
        {
            proof {
                lemma_all_ok_step(all, f, i as int);
            }
            assert(all[i as int] == json_model(items@[i as int]));
            match SelectedNode::parse(&items[i]) {
                Ok(n) => {
                    let ghost before = node_views(nodes@);
                    nodes.push(n);
                    assert(node_views(nodes@) =~= before.push(n@));
                },
                Err(e) => {
                    proof {
                        lemma_all_ok_prefix_err(all, f, i + 1);
                    }
                    return Err(e);
                },
            }
            i = i + 1;
        }
        proof {
            lemma_take_all(all);
        }
        Ok(Selection { nodes })
    }
}

/// An artboard: its id, name and dimensions.
#[derive(Debug)]
pub struct Artboard {
    pub id: String,
    pub name: String,
    pub width: serde_json::Value,
    pub height: serde_json::Value,
}

/// The description of an artboard.
pub struct ArtboardSpec {
    pub id: Seq<char>,
    pub name: Seq<char>,
    pub width: JsonSpec,
    pub height: JsonSpec,
}

impl View for Artboard {
    type V = ArtboardSpec;

    open spec fn view(&self) -> ArtboardSpec {
        ArtboardSpec {
            id: self.id@,
            name: self.name@,
            width: json_model(self.width),
            height: json_model(self.height),
        }
    }
}

/// An artboard as Paper describes it: the id is required, and missing dimensions are null.
pub open spec fn artboard_spec(j: JsonSpec) -> Result<ArtboardSpec, ContextFault> {
    match str_field(j, "id"@) {
        None => Err(ContextErrorOf::ArtboardWithoutId),
        Some(id) => Ok(
            ArtboardSpec {
                id,
                name: human_name_spec(j, "Unnamed artboard"@),
                width: or_null(field(j, "width"@)),
                height: or_null(field(j, "height"@)),
            },
        ),
    }
}

/// Reading an artboard, as a function.
pub open spec fn artboard_reader() -> spec_fn(JsonSpec) -> Result<ArtboardSpec, ContextFault> {
    |j: JsonSpec| artboard_spec(j)
}

/// A member of a value, or null.
fn member_or_null(value: &serde_json::Value, key: &str) -> (r: serde_json::Value)
    ensures
        json_model(r) == or_null(field(json_model(*value), key@)),
{
    match json_get(value, key) {
        Some(v) => json_clone(v),
        None => json_null(),
    }
}

impl Artboard {
    /// Reads an artboard.
    pub fn parse(value: &serde_json::Value) -> (r: Result<Artboard, ContextError>)
        ensures
            match (r, artboard_spec(json_model(*value))) {
                (Ok(a), Ok(s)) => a@ == s,
                (Err(e), Err(f)) => e@ == f,
                _ => false,
            },
    {
        let id = match json_get(value, "id") {
            Some(v) => match json_as_str(v) {
                Some(s) => s.to_owned(),
                None => return Err(ContextErrorOf::ArtboardWithoutId),
            },
            None => return Err(ContextErrorOf::ArtboardWithoutId),
        };
        Ok(
            Artboard {
                id,
                name: human_name(value, "Unnamed artboard"),
                width: member_or_null(value, "width"),
                height: member_or_null(value, "height"),
            },
        )
    }
}

/// The file, page and artboards that `get_basic_info` reports.
#[derive(Debug)]
pub struct BasicInfo {
    pub file_name: String,
    pub page_name: String,
    pub artboards: Vec<Artboard>,
}

/// The description of the basic information.
pub struct BasicInfoSpec {
    pub file_name: Seq<char>,
    pub page_name: Seq<char>,
    pub artboards: Seq<ArtboardSpec>,
}

/// The descriptions of a sequence of artboards.
pub open spec fn artboard_views(a: Seq<Artboard>) -> Seq<ArtboardSpec> {
    a.map_values(|x: Artboard| x@)
}

/// The names of a sequence of artboards.
pub open spec fn artboard_names(a: Seq<ArtboardSpec>) -> Seq<Seq<char>> {
    a.map_values(|x: ArtboardSpec| x.name)
}

impl View for BasicInfo {
    type V = BasicInfoSpec;

    open spec fn view(&self) -> BasicInfoSpec {
        BasicInfoSpec {
            file_name: self.file_name@,
            page_name: self.page_name@,
            artboards: artboard_views(self.artboards@),
        }
    }
}

/// The basic information of a `get_basic_info` result.
pub open spec fn basic_info_spec(result: JsonSpec) -> Result<BasicInfoSpec, ContextFault> {
    match payload_spec(result, "get_basic_info"@) {
        Err(e) => Err(e),
        Ok(payload) => match str_field(payload, "fileName"@) {
            None => Err(ContextErrorOf::MissingBasicField { member: "fileName"@ }),
            Some(file_name) => match str_field(payload, "pageName"@) {
                None => Err(ContextErrorOf::MissingBasicField { member: "pageName"@ }),
                Some(page_name) => match array_field(payload, "artboards"@) {
                    None => Err(ContextErrorOf::MissingBasicField { member: "artboards"@ }),
                    Some(items) => match all_ok(items, artboard_reader()) {
                        Err(e) => Err(e),
                        Ok(artboards) => Ok(BasicInfoSpec { file_name, page_name, artboards }),
                    },
                },
            },
        },
    }
}

/// A string member of a basic-information payload.
fn basic_str(payload: &serde_json::Value, key: &str) -> (r: Result<String, ContextError>)
    ensures
        match str_field(json_model(*payload), key@) {
            Some(s) => r matches Ok(t) && t@ == s,
            None => r matches Err(e) && e@ == (ContextFault::MissingBasicField { member: key@ }),
        },
{
    match json_get(payload, key) {
        Some(v) => match json_as_str(v) {
            Some(s) => Ok(s.to_owned()),
            None => Err(ContextErrorOf::MissingBasicField { member: key.to_owned() }),
        },
        None => Err(ContextErrorOf::MissingBasicField { member: key.to_owned() }),
    }
}

impl BasicInfo {
    /// Reads the result of `get_basic_info`.
    #[verifier::loop_isolation(false)]
    pub fn parse(result: &serde_json::Value) -> (r: Result<BasicInfo, ContextError>)
        ensures
            match (r, basic_info_spec(json_model(*result))) {
                (Ok(b), Ok(s)) => b@ == s,
                (Err(e), Err(f)) => e@ == f,
                _ => false,
            },
    {
        let payload = match tool_payload(result, "get_basic_info") {
            Ok(p) => p,
            Err(e) => return Err(e),
        };
        let file_name = match basic_str(&payload, "fileName") {
            Ok(s) => s,
            Err(e) => return Err(e),
        };
        let page_name = match basic_str(&payload, "pageName") {
            Ok(s) => s,
            Err(e) => return Err(e),
        };
        let items = match json_get(&payload, "artboards") {
            Some(v) => match json_as_array(v) {
                Some(items) => items,
                None => return Err(
                    ContextErrorOf::MissingBasicField { member: "artboards".to_owned() },
                ),
            },
            None => return Err(ContextErrorOf::MissingBasicField { member: "artboards".to_owned() }),
        };
        let ghost all = models(items@);
        let ghost f = artboard_reader();
        let mut artboards: Vec<Artboard> = Vec::new();
        let mut i: usize = 0;
        assert(all.take(0) =~= Seq::<JsonSpec>::empty());
        assert(artboard_views(artboards@) =~= Seq::<ArtboardSpec>::empty());
        while i < items.len()
            invariant
                i <= items@.len(),
                all_ok(all.take(i as int), f) == Ok::<Seq<ArtboardSpec>, ContextFault>(
                    artboard_views(artboards@),
                ),
            decreases items@.len() - i,
        {
            proof {
                lemma_all_ok_step(all, f, i as int);
            }
            assert(all[i as int] == json_model(items@[i as int]));
            match Artboard::parse(&items[i]) {
                Ok(a) => {
                    let ghost before = artboard_views(artboards@);
                    artboards.push(a);
                    assert(artboard_views(artboards@) =~= before.push(a@));
                },
                Err(e) => {
                    proof {
                        lemma_all_ok_prefix_err(all, f, i + 1);
                    }
                    return Err(e);
                },
            }
            i = i + 1;
        }
        proof {
            lemma_take_all(all);
        }
        Ok(BasicInfo { file_name, page_name, artboards })
    }
}

// ---------------------------------------------------------------------------------------
// Choosing the node to capture
// ---------------------------------------------------------------------------------------

/// The node that `--selected` captures: the one selected node.
pub open spec fn selected_target(nodes: Seq<NodeSpec>) -> Result<Seq<char>, ContextFault> {
    if nodes.len() == 0 {
        Err(ContextErrorOf::NoSelection)
    } else if nodes.len() == 1 {
        Ok(nodes[0].id)
    } else {
        Err(ContextErrorOf::MultipleSelection { names: node_names(nodes) })
    }
}

/// The names of a sequence of nodes.
fn names_of_nodes(nodes: &Vec<SelectedNode>) -> (r: Vec<String>)
    ensures
        texts(r@) == node_names(node_views(nodes@)),
{
    let mut r: Vec<String> = Vec::new();
    let mut i: usize = 0;
    while i < nodes.len()
        invariant
            i <= nodes@.len(),
            texts(r@) == node_names(node_views(nodes@)).take(i as int),
        decreases nodes@.len() - i,
    {
        let ghost before = texts(r@);
        r.push(nodes[i].name.clone());
        assert(texts(r@) =~= before.push(nodes@[i as int].name@));
        assert(node_names(node_views(nodes@)).take(i + 1) =~= node_names(node_views(nodes@)).take(
            i as int,
        ).push(nodes@[i as int].name@));
        i = i + 1;
    }
    assert(node_names(node_views(nodes@)).take(nodes@.len() as int) =~= node_names(
        node_views(nodes@),
    ));
    r
}

/// The names of a sequence of artboards.
fn names_of_artboards(artboards: &Vec<Artboard>) -> (r: Vec<String>)
    ensures
        texts(r@) == artboard_names(artboard_views(artboards@)),
{
    let mut r: Vec<String> = Vec::new();
    let mut i: usize = 0;
    while i < artboards.len()
        invariant
            i <= artboards@.len(),
            texts(r@) == artboard_names(artboard_views(artboards@)).take(i as int),
        decreases artboards@.len() - i,
    {
        let ghost before = texts(r@);
        r.push(artboards[i].name.clone());
        assert(texts(r@) =~= before.push(artboards@[i as int].name@));
        assert(artboard_names(artboard_views(artboards@)).take(i + 1) =~= artboard_names(
            artboard_views(artboards@),
        ).take(i as int).push(artboards@[i as int].name@));
        i = i + 1;
    }
    assert(artboard_names(artboard_views(artboards@)).take(artboards@.len() as int)
        =~= artboard_names(artboard_views(artboards@)));
    r
}

/// The node of a selection of exactly one node; otherwise an error that names the selected
/// nodes, but never their ids.
pub fn resolve_selected(selection: &Selection) -> (r: Result<String, ContextError>)
    ensures
        match (r, selected_target(node_views(selection.nodes@))) {
            (Ok(id), Ok(s)) => id@ == s,
            (Err(e), Err(f)) => e@ == f,
            _ => false,
        },
{
    let n = selection.nodes.len();
    if n == 0 {
        Err(ContextErrorOf::NoSelection)
    } else if n == 1 {
        Ok(selection.nodes[0].id.clone())
    } else {
        Err(ContextErrorOf::MultipleSelection { names: names_of_nodes(&selection.nodes) })
    }
}

/// The artboard of the selection, when exactly one node is selected and it lies on one.
pub open spec fn selection_artboard_spec(nodes: Seq<NodeSpec>) -> Option<Seq<char>> {
    if nodes.len() == 1 {
        nodes[0].artboard_id
    } else {
        None
    }
}

/// The artboard of the one selected node, if there is one.
pub fn selection_artboard(selection: &Selection) -> (r: Option<String>)
    ensures
        match r {
            Some(a) => selection_artboard_spec(node_views(selection.nodes@)) == Some(a@),
            None => selection_artboard_spec(node_views(selection.nodes@)) is None,
        },
{
    if selection.nodes.len() == 1 {
        match &selection.nodes[0].artboard_id {
            Some(a) => Some(a.clone()),
            None => None,
        }
    } else {
        None
    }
}

/// The page's only artboard.
pub open spec fn only_artboard(artboards: Seq<ArtboardSpec>) -> Result<Seq<char>, ContextFault> {
    if artboards.len() == 0 {
        Err(ContextErrorOf::NoArtboards)
    } else if artboards.len() == 1 {
        Ok(artboards[0].id)
    } else {
        Err(ContextErrorOf::MultipleArtboards { names: artboard_names(artboards) })
    }
}

/// The artboard of a page with exactly one; otherwise an error that names the artboards,
/// but never their ids.
pub fn resolve_only_artboard(basic: &BasicInfo) -> (r: Result<String, ContextError>)
    ensures
        match (r, only_artboard(basic@.artboards)) {
            (Ok(id), Ok(s)) => id@ == s,
            (Err(e), Err(f)) => e@ == f,
            _ => false,
        },
{
    let n = basic.artboards.len();
    if n == 0 {
        Err(ContextErrorOf::NoArtboards)
    } else if n == 1 {
        Ok(basic.artboards[0].id.clone())
    } else {
        Err(ContextErrorOf::MultipleArtboards { names: names_of_artboards(&basic.artboards) })
    }
}

/// The ids of the artboards whose name is exactly `name`, in order.
pub open spec fn ids_named(artboards: Seq<ArtboardSpec>, name: Seq<char>) -> Seq<Seq<char>>
    decreases artboards.len(),
{
    if artboards.len() == 0 {
        Seq::empty()
    } else {
        let t = ids_named(artboards.drop_last(), name);
        if artboards.last().name == name {
            t.push(artboards.last().id)
        } else {
            t
        }
    }
}

/// The artboard named exactly `name`, when exactly one is.
pub open spec fn named_artboard(artboards: Seq<ArtboardSpec>, name: Seq<char>) -> Result<
    Seq<char>,
    ContextFault,
> {
    let ids = ids_named(artboards, name);
    if ids.len() == 1 {
        Ok(ids[0])
    } else if ids.len() == 0 {
        Err(ContextErrorOf::ArtboardNotFound { name, available: artboard_names(artboards) })
    } else {
        Err(ContextErrorOf::DuplicateArtboardName { name })
    }
}

proof fn lemma_ids_named_facts(a: Seq<ArtboardSpec>, name: Seq<char>)
    ensures
        ids_named(a, name).len() == 0 ==> forall|k: int| 0 <= k < a.len() ==> #[trigger] a[k].name
            != name,
        ids_named(a, name).len() >= 1 ==> exists|k: int|
            0 <= k < a.len() && #[trigger] a[k].name == name && a[k].id == ids_named(a, name)[0],
        forall|j: int, k: int|
            0 <= j < k < a.len() && #[trigger] a[j].name == name && #[trigger] a[k].name == name
                ==> ids_named(a, name).len() >= 2,
        ids_named(a, name).len() >= 2 ==> exists|j: int, k: int|
            0 <= j < k < a.len() && #[trigger] a[j].name == name && #[trigger] a[k].name == name,
    decreases a.len(),
{
    if a.len() > 0 {
        let p = a.drop_last();
        let x = a.last();
        lemma_ids_named_facts(p, name);
        let ip = ids_named(p, name);
        assert forall|k: int| 0 <= k < p.len() implies #[trigger] p[k] == a[k] by {}
        if ids_named(a, name).len() == 0 {
            assert(x.name != name);
            assert forall|k: int| 0 <= k < a.len() implies #[trigger] a[k].name != name by {
                if k < p.len() {
                    assert(p[k].name != name);
                }
            }
        }
        if ids_named(a, name).len() >= 1 {
            if ip.len() >= 1 {
                let k = choose|k: int| 0 <= k < p.len() && #[trigger] p[k].name == name && p[k].id == ip[0];
                assert(a[k] == p[k]);
                assert(ids_named(a, name)[0] == ip[0]);
            } else {
                assert(a[a.len() - 1] == x);
                assert(ids_named(a, name)[0] == x.id);
            }
        }
        assert forall|j: int, k: int|
            0 <= j < k < a.len() && #[trigger] a[j].name == name && #[trigger] a[k].name == name
                implies ids_named(a, name).len() >= 2 by {
            if k < p.len() {
                assert(p[j].name == name && p[k].name == name);
            } else {
                assert(p[j].name == name);
                assert(ip.len() >= 1);
            }
        }
        if ids_named(a, name).len() >= 2 {
            if x.name == name {
                assert(ip.len() >= 1);
                let j = choose|j: int| 0 <= j < p.len() && #[trigger] p[j].name == name && p[j].id == ip[0];
                assert(a[j] == p[j]);
                assert(a[a.len() - 1] == x);
                assert(a[j].name == name && a[a.len() - 1].name == name);
            } else {
                let (j, k) = choose|j: int, k: int|
                    0 <= j < k < p.len() && #[trigger] p[j].name == name && #[trigger] p[k].name == name;
                assert(a[j] == p[j] && a[k] == p[k]);
                assert(a[j].name == name && a[k].name == name);
            }
        }
    }
}

/// Choosing an artboard by name goes by its exact, full name: a chosen artboard is one
/// whose name equals `name`, and no other artboard has that name; when exactly one
/// artboard's name equals `name`, that artboard is chosen, whatever the other names (such
/// as names that merely begin with `name`); when none equals it, none is found; and when
/// two do, the name is ambiguous.
pub proof fn lemma_named_artboard_is_exact(a: Seq<ArtboardSpec>, name: Seq<char>)
    ensures
        named_artboard(a, name) matches Ok(id) ==> exists|k: int|
            0 <= k < a.len() && #[trigger] a[k].name == name && a[k].id == id && forall|j: int|
                0 <= j < a.len() && #[trigger] a[j].name == name ==> j == k,
        forall|k: int|
            0 <= k < a.len() && #[trigger] a[k].name == name && (forall|j: int|
                0 <= j < a.len() && #[trigger] a[j].name == name ==> j == k) ==> named_artboard(
                a,
                name,
            ) == Ok::<Seq<char>, ContextFault>(a[k].id),
        (forall|k: int| 0 <= k < a.len() ==> #[trigger] a[k].name != name) ==> named_artboard(a, name)
            == Err::<Seq<char>, ContextFault>(
            ContextErrorOf::ArtboardNotFound { name, available: artboard_names(a) },
        ),
        (exists|j: int, k: int|
            0 <= j < k < a.len() && #[trigger] a[j].name == name && #[trigger] a[k].name == name)
            ==> named_artboard(a, name) == Err::<Seq<char>, ContextFault>(
            ContextErrorOf::DuplicateArtboardName { name },
        ),
{
    lemma_ids_named_facts(a, name);
    let ids = ids_named(a, name);
    if ids.len() == 1 {
        let k = choose|k: int| 0 <= k < a.len() && #[trigger] a[k].name == name && a[k].id == ids[0];
        assert forall|j: int| 0 <= j < a.len() && #[trigger] a[j].name == name implies j == k by {
            if j < k {
                assert(a[j].name == name && a[k].name == name);
            } else if k < j {
                assert(a[k].name == name && a[j].name == name);
            }
        }
    }
    assert forall|k: int|
        0 <= k < a.len() && #[trigger] a[k].name == name && (forall|j: int|
            0 <= j < a.len() && #[trigger] a[j].name == name ==> j == k) implies named_artboard(
        a,
        name,
    ) == Ok::<Seq<char>, ContextFault>(a[k].id) by {
        assert(ids.len() >= 1);
        if ids.len() >= 2 {
            let (j1, k1) = choose|j: int, k: int|
                0 <= j < k < a.len() && #[trigger] a[j].name == name && #[trigger] a[k].name == name;
            assert(j1 == k && k1 == k);
        }
        let k2 = choose|k2: int| 0 <= k2 < a.len() && #[trigger] a[k2].name == name && a[k2].id == ids[0];
        assert(k2 == k);
    }
    if exists|k: int| 0 <= k < a.len() && #[trigger] a[k].name == name {
        let k = choose|k: int| 0 <= k < a.len() && #[trigger] a[k].name == name;
        assert(ids.len() != 0);
    }
}

/// The artboard whose name is exactly `name`; when there is none, an error that lists the
/// names there are, and when there are several, an error that says so.
pub fn resolve_named_artboard(name: &str, basic: &BasicInfo) -> (r: Result<String, ContextError>)
    ensures
        match (r, named_artboard(basic@.artboards, name@)) {
            (Ok(id), Ok(s)) => id@ == s,
            (Err(e), Err(f)) => e@ == f,
            _ => false,
        },
{
    let ghost all = basic@.artboards;
    let mut ids: Vec<String> = Vec::new();
    let mut i: usize = 0;
    while i < basic.artboards.len()
        invariant
            all == artboard_views(basic.artboards@),
            i <= basic.artboards@.len(),
            texts(ids@) == ids_named(all.take(i as int), name@),
        decreases basic.artboards@.len() - i,
    {
        assert(all.take(i + 1).drop_last() =~= all.take(i as int));
        assert(all.take(i + 1).last() == basic.artboards@[i as int]@);
        if str_eq(basic.artboards[i].name.as_str(), name) {
            let ghost before = texts(ids@);
            ids.push(basic.artboards[i].id.clone());
            assert(texts(ids@) =~= before.push(basic.artboards@[i as int].id@));
        }
        i = i + 1;
    }
    assert(all.take(all.len() as int) =~= all);
    if ids.len() == 1 {
        Ok(ids[0].clone())
    } else if ids.len() == 0 {
        Err(
            ContextErrorOf::ArtboardNotFound {
                name: name.to_owned(),
                available: names_of_artboards(&basic.artboards),
            },
        )
    } else {
        Err(ContextErrorOf::DuplicateArtboardName { name: name.to_owned() })
    }
}

// ---------------------------------------------------------------------------------------
// Capturing a screenshot
// ---------------------------------------------------------------------------------------

/// A request to Paper.
pub enum PaperRequest {
    /// Read the live tool list.
    ListTools,
    /// Call the tool `name` with `arguments`.
    CallTool { name: String, arguments: serde_json::Value },
}

/// The description of a request to Paper.
pub enum PaperRequestSpec {
    ListTools,
    CallTool { name: Seq<char>, arguments: JsonSpec },
}

impl View for PaperRequest {
    type V = PaperRequestSpec;

    open spec fn view(&self) -> PaperRequestSpec {
        match self {
            PaperRequest::ListTools => PaperRequestSpec::ListTools,
            PaperRequest::CallTool { name, arguments } => PaperRequestSpec::CallTool {
                name: name@,
                arguments: json_model(*arguments),
            },
        }
    }
}

/// The call of context tool `tool`, with the arguments of every context call.
pub open spec fn context_request(tool: Seq<char>, file_id: Option<Seq<char>>) -> PaperRequestSpec {
    PaperRequestSpec::CallTool {
        name: tool,
        arguments: JsonSpec::Object(context_arguments_spec(file_id)),
    }
}

/// The `get_screenshot` call that captures node `node_id`.
pub open spec fn screenshot_request(
    file_id: Option<Seq<char>>,
    node_id: Seq<char>,
    scale: Option<JsonSpec>,
) -> PaperRequestSpec {
    PaperRequestSpec::CallTool {
        name: "get_screenshot"@,
        arguments: screenshot_arguments_spec(file_id, node_id, scale),
    }
}

/// What a screenshot capture waits for.
#[derive(Clone, Copy)]
pub enum CaptureStage {
    /// The live tool list.
    ToolList,
    /// The result of `get_selection`.
    Selection,
    /// The result of `get_basic_info`.
    BasicInfo,
    /// The result of `get_screenshot`.
    Screenshot,
}

/// How many answers a capture at `stage` waits for at most.
pub open spec fn stage_rank(stage: CaptureStage) -> nat {
    match stage {
        CaptureStage::ToolList => 3,
        CaptureStage::Selection => 2,
        CaptureStage::BasicInfo => 1,
        CaptureStage::Screenshot => 0,
    }
}

/// What a capture does after an answer: asks Paper for more, or finishes.
pub enum CaptureStep {
    /// Send this request and hand its answer back.
    Ask(PaperRequest),
    /// The screenshot, or why there is none.
    Finish(Result<serde_json::Value, ContextError>),
}

/// The description of a capture step.
pub enum CaptureStepSpec {
    Ask(PaperRequestSpec),
    Finish(Result<JsonSpec, ContextFault>),
}

impl View for CaptureStep {
    type V = CaptureStepSpec;

    open spec fn view(&self) -> CaptureStepSpec {
        match self {
            CaptureStep::Ask(q) => CaptureStepSpec::Ask(q@),
            CaptureStep::Finish(Ok(v)) => CaptureStepSpec::Finish(Ok(json_model(*v))),
            CaptureStep::Finish(Err(e)) => CaptureStepSpec::Finish(Err(e@)),
        }
    }
}

/// A capture that has failed with `e`, at `stage`.
pub open spec fn fail_at(stage: CaptureStage, e: ContextFault) -> (CaptureStage, CaptureStepSpec) {
    (stage, CaptureStepSpec::Finish(Err(e)))
}

/// The capture of the node `node_id`: the `get_screenshot` call is next.
pub open spec fn shoot(file_id: Option<Seq<char>>, node_id: Seq<char>, scale: Option<JsonSpec>) -> (
    CaptureStage,
    CaptureStepSpec,
) {
    (CaptureStage::Screenshot, CaptureStepSpec::Ask(screenshot_request(file_id, node_id, scale)))
}

/// A capture that needs context tool `tool` next, at `stage`, if Paper offers it.
pub open spec fn ask_context(
    offered: Seq<Seq<char>>,
    tool: Seq<char>,
    stage: CaptureStage,
    file_id: Option<Seq<char>>,
    failing: CaptureStage,
) -> (CaptureStage, CaptureStepSpec) {
    if offered.contains(tool) {
        (stage, CaptureStepSpec::Ask(context_request(tool, file_id)))
    } else {
        fail_at(failing, ContextErrorOf::MissingTool { name: tool })
    }
}

/// What follows the live tool list `offered`: Paper must offer `get_screenshot`, and the
/// tool that the target is read from.
pub open spec fn after_tool_list(
    target: ScreenshotTarget,
    file_id: Option<Seq<char>>,
    scale: Option<JsonSpec>,
    offered: Seq<Seq<char>>,
) -> (CaptureStage, CaptureStepSpec) {
    if !offered.contains("get_screenshot"@) {
        fail_at(CaptureStage::ToolList, ContextErrorOf::MissingTool { name: "get_screenshot"@ })
    } else {
        match target {
            ScreenshotTarget::NodeId(id) => shoot(file_id, id@, scale),
            ScreenshotTarget::Selected => ask_context(
                offered,
                "get_selection"@,
                CaptureStage::Selection,
                file_id,
                CaptureStage::ToolList,
            ),
            ScreenshotTarget::ActiveArtboard => ask_context(
                offered,
                "get_selection"@,
                CaptureStage::Selection,
                file_id,
                CaptureStage::ToolList,
            ),
            ScreenshotTarget::Artboard(_) => ask_context(
                offered,
                "get_basic_info"@,
                CaptureStage::BasicInfo,
                file_id,
                CaptureStage::ToolList,
            ),
        }
    }
}

/// What follows the selection `result`: the one selected node, or for the active artboard
/// the artboard of the one selected node, else the page's only artboard.
pub open spec fn after_selection(
    target: ScreenshotTarget,
    file_id: Option<Seq<char>>,
    scale: Option<JsonSpec>,
    offered: Seq<Seq<char>>,
    result: JsonSpec,
) -> (CaptureStage, CaptureStepSpec) {
    match selection_spec(result) {
        Err(e) => fail_at(CaptureStage::Selection, e),
        Ok(nodes) => if target is ActiveArtboard {
            match selection_artboard_spec(nodes) {
                Some(a) => shoot(file_id, a, scale),
                None => ask_context(
                    offered,
                    "get_basic_info"@,
                    CaptureStage::BasicInfo,
                    file_id,
                    CaptureStage::Selection,
                ),
            }
        } else {
            match selected_target(nodes) {
                Ok(id) => shoot(file_id, id, scale),
                Err(e) => fail_at(CaptureStage::Selection, e),
            }
        },
    }
}

/// What follows the basic information `result`: the artboard with the target's name, or
/// for the active artboard the page's only artboard.
pub open spec fn after_basic_info(
    target: ScreenshotTarget,
    file_id: Option<Seq<char>>,
    scale: Option<JsonSpec>,
    result: JsonSpec,
) -> (CaptureStage, CaptureStepSpec) {
    match basic_info_spec(result) {
        Err(e) => fail_at(CaptureStage::BasicInfo, e),
        Ok(basic) => {
            let chosen = match target {
                ScreenshotTarget::Artboard(name) => named_artboard(basic.artboards, name@),
                _ => only_artboard(basic.artboards),
            };
            match chosen {
                Ok(id) => shoot(file_id, id, scale),
                Err(e) => fail_at(CaptureStage::BasicInfo, e),
            }
        },
    }
}

/// What follows a tool result at `stage`.
pub open spec fn after_tool_result(
    stage: CaptureStage,
    target: ScreenshotTarget,
    file_id: Option<Seq<char>>,
    scale: Option<JsonSpec>,
    offered: Seq<Seq<char>>,
    result: JsonSpec,
) -> (CaptureStage, CaptureStepSpec) {
    match stage {
        CaptureStage::Selection => after_selection(target, file_id, scale, offered, result),
        CaptureStage::BasicInfo => after_basic_info(target, file_id, scale, result),
        _ => (CaptureStage::Screenshot, CaptureStepSpec::Finish(Ok(result))),
    }
}

/// The capture of a screenshot of the node that a target names, one answer of Paper at a
/// time: the target, the file, the scale, the tools that Paper offers once they are
/// listed, and what the capture waits for.
pub struct ScreenshotCapture {
    pub target: ScreenshotTarget,
    pub file_id: Option<String>,
    pub scale: Option<serde_json::Value>,
    pub catalog: ToolCatalog,
    pub stage: CaptureStage,
}

impl ScreenshotCapture {
    /// The selection is only awaited for the selected node or the active artboard, and the
    /// basic information only for an artboard.
    pub open spec fn wf(&self) -> bool {
        match self.stage {
            CaptureStage::Selection => self.target is Selected || self.target is ActiveArtboard,
            CaptureStage::BasicInfo => self.target is ActiveArtboard || self.target is Artboard,
            _ => true,
        }
    }

    /// Starts a capture: a node id is captured at once, and any other target first reads
    /// the live tool list.
    pub fn start(target: ScreenshotTarget, file_id: Option<&str>, scale: Option<
        serde_json::Value,
    >) -> (r: (ScreenshotCapture, PaperRequest))
        ensures
            r.0.wf(),
            r.0.target == target,
            opt_text(r.0.file_id) == opt_str(file_id),
            r.0.scale == scale,
            r.0.catalog.names@.len() == 0,
            match target {
                ScreenshotTarget::NodeId(id) => r.0.stage is Screenshot && r.1@ == screenshot_request(
                    opt_str(file_id),
                    id@,
                    opt_json(scale),
                ),
                _ => r.0.stage is ToolList && r.1@ is ListTools,
            },
    {
        let owned_file = match file_id {
            Some(f) => Some(f.to_owned()),
            None => None,
        };
        let (stage, request) = match &target {
            ScreenshotTarget::NodeId(id) => {
                let kept = match &scale {
                    Some(s) => Some(json_clone(s)),
                    None => None,
                };
                let arguments = screenshot_arguments(file_id, id.as_str(), kept);
                (
                    CaptureStage::Screenshot,
                    PaperRequest::CallTool { name: "get_screenshot".to_owned(), arguments },
                )
            },
            _ => (CaptureStage::ToolList, PaperRequest::ListTools),
        };
        proof {
            reveal_strlit("get_screenshot");
        }
        (
            ScreenshotCapture {
                target,
                file_id: owned_file,
                scale,
                catalog: ToolCatalog { names: Vec::new() },
                stage,
            },
            request,
        )
    }

    /// The `get_screenshot` call for node `node_id`, with the file and scale of this capture.
    fn screenshot_call(&self, node_id: &str) -> (r: PaperRequest)
        ensures
            r@ == screenshot_request(opt_text(self.file_id), node_id@, opt_json(self.scale)),
    {
        let kept = match &self.scale {
            Some(s) => Some(json_clone(s)),
            None => None,
        };
        let file = match &self.file_id {
            Some(f) => Some(f.as_str()),
            None => None,
        };
        let arguments = screenshot_arguments(file, node_id, kept);
        proof {
            reveal_strlit("get_screenshot");
        }
        PaperRequest::CallTool { name: "get_screenshot".to_owned(), arguments }
    }

    /// The call of context tool `tool`, with the file of this capture.
    fn context_call(&self, tool: &str) -> (r: PaperRequest)
        ensures
            r@ == context_request(tool@, opt_text(self.file_id)),
    {
        let file = match &self.file_id {
            Some(f) => Some(f.as_str()),
            None => None,
        };
        PaperRequest::CallTool { name: tool.to_owned(), arguments: context_arguments(file) }
    }

    /// Takes the live tool list, or the message of the failed `list_tools`: Paper must offer
    /// `get_screenshot`, and the tool that the target is read from, which is called next; a
    /// node id is captured at once.
    pub fn on_tool_list(self, answer: Result<Vec<serde_json::Value>, String>) -> (r: (
        ScreenshotCapture,
        CaptureStep,
    ))
        requires
            self.wf(),
            self.stage is ToolList,
        ensures
            r.0.wf(),
            r.0.target == self.target,
            r.0.file_id == self.file_id,
            r.0.scale == self.scale,
            r.1 matches CaptureStep::Ask(q) ==> q is CallTool && stage_rank(r.0.stage)
                < stage_rank(self.stage),
            match answer {
                Err(m) => r.1@ == CaptureStepSpec::Finish(
                    Err(ContextErrorOf::Catalog { message: m@ }),
                ),
                Ok(list) => texts(r.0.catalog.names@) == field_strs(models(list@), "name"@) && (
                r.0.stage, r.1@) == after_tool_list(
                    self.target,
                    opt_text(self.file_id),
                    opt_json(self.scale),
                    texts(r.0.catalog.names@),
                ),
            },
    {
        let list = match answer {
            Err(message) => {
                return (self, CaptureStep::Finish(Err(ContextErrorOf::Catalog { message })));
            },
            Ok(list) => list,
        };
        let mut next = ScreenshotCapture {
            target: self.target,
            file_id: self.file_id,
            scale: self.scale,
            catalog: ToolCatalog::from_tools(&list),
            stage: self.stage,
        };
        match next.catalog.require("get_screenshot") {
            Ok(()) => {},
            Err(e) => return (next, CaptureStep::Finish(Err(e))),
        }
        let (tool, stage) = match &next.target {
            ScreenshotTarget::NodeId(id) => {
                let request = next.screenshot_call(id.as_str());
                next.stage = CaptureStage::Screenshot;
                return (next, CaptureStep::Ask(request));
            },
            ScreenshotTarget::Artboard(_) => ("get_basic_info", CaptureStage::BasicInfo),
            _ => ("get_selection", CaptureStage::Selection),
        };
        proof {
            reveal_strlit("get_basic_info");
            reveal_strlit("get_selection");
        }
        match next.catalog.require(tool) {
            Ok(()) => {},
            Err(e) => return (next, CaptureStep::Finish(Err(e))),
        }
        let request = next.context_call(tool);
        next.stage = stage;
        (next, CaptureStep::Ask(request))
    }

    /// Takes the result of the tool that was called, or the message of the failed call: the
    /// screenshot is the result of `get_screenshot`, and the node to capture is read from
    /// the selection or the basic information.
    pub fn on_tool_result(self, answer: Result<serde_json::Value, String>) -> (r: (
        ScreenshotCapture,
        CaptureStep,
    ))
        requires
            self.wf(),
            !(self.stage is ToolList),
        ensures
            r.0.wf(),
            r.0.target == self.target,
            r.0.file_id == self.file_id,
            r.0.scale == self.scale,
            r.0.catalog == self.catalog,
            r.1 matches CaptureStep::Ask(q) ==> q is CallTool && stage_rank(r.0.stage)
                < stage_rank(self.stage),
            match answer {
                Err(m) => r.1@ == CaptureStepSpec::Finish(Err(ContextErrorOf::Tool { message: m@ })),
                Ok(v) => (r.0.stage, r.1@) == after_tool_result(
                    self.stage,
                    self.target,
                    opt_text(self.file_id),
                    opt_json(self.scale),
                    texts(self.catalog.names@),
                    json_model(v),
                ),
            },
    {
        let value = match answer {
            Err(message) => {
                return (self, CaptureStep::Finish(Err(ContextErrorOf::Tool { message })));
            },
            Ok(v) => v,
        };
        let mut next = self;
        match next.stage {
            CaptureStage::Selection => {
                let selection = match Selection::parse(&value) {
                    Ok(s) => s,
                    Err(e) => return (next, CaptureStep::Finish(Err(e))),
                };
                let active = match &next.target {
                    ScreenshotTarget::ActiveArtboard => true,
                    _ => false,
                };
                if !active {
                    return match resolve_selected(&selection) {
                        Ok(id) => {
                            let request = next.screenshot_call(id.as_str());
                            next.stage = CaptureStage::Screenshot;
                            (next, CaptureStep::Ask(request))
                        },
                        Err(e) => (next, CaptureStep::Finish(Err(e))),
                    };
                }
                match selection_artboard(&selection) {
                    Some(a) => {
                        let request = next.screenshot_call(a.as_str());
                        next.stage = CaptureStage::Screenshot;
                        return (next, CaptureStep::Ask(request));
                    },
                    None => {},
                }
                proof {
                    reveal_strlit("get_basic_info");
                }
                match next.catalog.require("get_basic_info") {
                    Ok(()) => {},
                    Err(e) => return (next, CaptureStep::Finish(Err(e))),
                }
                let request = next.context_call("get_basic_info");
                next.stage = CaptureStage::BasicInfo;
                (next, CaptureStep::Ask(request))
            },
            CaptureStage::BasicInfo => {
                let basic = match BasicInfo::parse(&value) {
                    Ok(b) => b,
                    Err(e) => return (next, CaptureStep::Finish(Err(e))),
                };
                let chosen = match &next.target {
                    ScreenshotTarget::Artboard(name) => resolve_named_artboard(
                        name.as_str(),
                        &basic,
                    ),
                    _ => resolve_only_artboard(&basic),
                };
                match chosen {
                    Ok(id) => {
                        let request = next.screenshot_call(id.as_str());
                        next.stage = CaptureStage::Screenshot;
                        (next, CaptureStep::Ask(request))
                    },
                    Err(e) => (next, CaptureStep::Finish(Err(e))),
                }
            },
            _ => (next, CaptureStep::Finish(Ok(value))),
        }
    }
}

/// The step `step` carries the file `file_id` if it calls a tool: `fileId` is then that
/// file, or absent when no file is named.
pub open spec fn carries_file(step: CaptureStepSpec, file_id: Option<Seq<char>>) -> bool {
    step matches CaptureStepSpec::Ask(PaperRequestSpec::CallTool { arguments, .. }) ==> field(
        arguments,
        "fileId"@,
    ) == match file_id {
        Some(f) => Some(JsonSpec::Str(f)),
        None => None::<JsonSpec>,
    }
}

/// A named file goes with every tool call of a screenshot capture: each call that follows
/// the tool list, or any tool result, carries `fileId` exactly when a file is named.
pub proof fn lemma_capture_calls_carry_file(
    target: ScreenshotTarget,
    file_id: Option<Seq<char>>,
    scale: Option<JsonSpec>,
    offered: Seq<Seq<char>>,
    stage: CaptureStage,
    result: JsonSpec,
)
    ensures
        carries_file(after_tool_list(target, file_id, scale, offered).1, file_id),
        carries_file(after_tool_result(stage, target, file_id, scale, offered, result).1, file_id),
{
    match target {
        ScreenshotTarget::NodeId(id) => lemma_file_id_in_every_call(file_id, id@, scale),
        _ => {},
    }
    lemma_file_id_in_every_call(file_id, Seq::empty(), scale);
    match selection_spec(result) {
        Ok(nodes) => {
            match selection_artboard_spec(nodes) {
                Some(a) => lemma_file_id_in_every_call(file_id, a, scale),
                None => {},
            }
            match selected_target(nodes) {
                Ok(id) => lemma_file_id_in_every_call(file_id, id, scale),
                Err(_) => {},
            }
        },
        Err(_) => {},
    }
    match basic_info_spec(result) {
        Ok(basic) => {
            match only_artboard(basic.artboards) {
                Ok(id) => lemma_file_id_in_every_call(file_id, id, scale),
                Err(_) => {},
            }
            match target {
                ScreenshotTarget::Artboard(name) => match named_artboard(basic.artboards, name@) {
                    Ok(id) => lemma_file_id_in_every_call(file_id, id, scale),
                    Err(_) => {},
                },
                _ => {},
            }
        },
        Err(_) => {},
    }
}

/// Whether `e` is a failure to read the result of tool `tool`: no content, or no JSON in it.
pub open spec fn payload_error(e: ContextFault, tool: Seq<char>) -> bool {
    e == (ContextFault::NoContent { tool }) || e == (ContextFault::NoStructuredJson { tool })
}

/// Whether `e` is a failure to read a `get_selection` result.
pub open spec fn selection_error(e: ContextFault) -> bool {
    payload_error(e, "get_selection"@) || e is MissingSelectedNodes || e is NodeWithoutId
}

/// Whether `e` is a failure to read a `get_basic_info` result.
pub open spec fn basic_info_error(e: ContextFault) -> bool {
    ||| payload_error(e, "get_basic_info"@)
    ||| e is ArtboardWithoutId
    ||| e matches ContextErrorOf::MissingBasicField { member } && (member == "fileName"@ || member
        == "pageName"@ || member == "artboards"@)
}

/// The failures that reading a `get_selection` result can give.
pub proof fn lemma_selection_errors(result: JsonSpec)
    ensures
        selection_spec(result) matches Err(e) ==> selection_error(e),
{
    match payload_spec(result, "get_selection"@) {
        Ok(p) => match array_field(p, "selectedNodes"@) {
            Some(items) => match all_ok(items, node_reader()) {
                Err(e) => {
                    lemma_all_ok_err(items, node_reader(), e);
                    let i = choose|i: int|
                        0 <= i < items.len() && #[trigger] node_reader()(items[i]) == Err::<
                            NodeSpec,
                            ContextFault,
                        >(e);
                    assert(node_spec(items[i]) == Err::<NodeSpec, ContextFault>(e));
                },
                Ok(_) => {},
            },
            None => {},
        },
        Err(_) => {},
    }
}

/// The failures that reading a `get_basic_info` result can give.
pub proof fn lemma_basic_info_errors(result: JsonSpec)
    ensures
        basic_info_spec(result) matches Err(e) ==> basic_info_error(e),
{
    match payload_spec(result, "get_basic_info"@) {
        Ok(p) => match array_field(p, "artboards"@) {
            Some(items) => match all_ok(items, artboard_reader()) {
                Err(e) => {
                    lemma_all_ok_err(items, artboard_reader(), e);
                    let i = choose|i: int|
                        0 <= i < items.len() && #[trigger] artboard_reader()(items[i]) == Err::<
                            ArtboardSpec,
                            ContextFault,
                        >(e);
                    assert(artboard_spec(items[i]) == Err::<ArtboardSpec, ContextFault>(e));
                },
                Ok(_) => {},
            },
            None => {},
        },
        Err(_) => {},
    }
}

/// The failures that reading the payload of a result of tool `tool` can give.
pub proof fn lemma_payload_errors(result: JsonSpec, tool: Seq<char>)
    ensures
        payload_spec(result, tool) matches Err(e) ==> payload_error(e, tool),
{
}

/// Whether two selections agree in everything but ids: in the nodes' names, and in which
/// nodes lie on an artboard.
pub open spec fn alike_selections(a: Seq<NodeSpec>, b: Seq<NodeSpec>) -> bool {
    &&& alike_but_ids_nodes(a, b)
    &&& forall|i: int|
        0 <= i < a.len() ==> (#[trigger] a[i].artboard_id is Some <==> b[i].artboard_id is Some)
}

/// Whether two `get_selection` results read alike but for ids: they fail the same way, or
/// give selections that agree in everything but ids.
pub open spec fn selection_results_alike(r1: JsonSpec, r2: JsonSpec) -> bool {
    match (selection_spec(r1), selection_spec(r2)) {
        (Ok(a), Ok(b)) => alike_selections(a, b),
        (Err(e1), Err(e2)) => e1 == e2,
        _ => false,
    }
}

/// Whether two `get_basic_info` results read alike but for ids: they fail the same way, or
/// give artboards that agree in everything but ids.
pub open spec fn basic_info_results_alike(r1: JsonSpec, r2: JsonSpec) -> bool {
    match (basic_info_spec(r1), basic_info_spec(r2)) {
        (Ok(a), Ok(b)) => alike_but_ids_artboards(a.artboards, b.artboards),
        (Err(e1), Err(e2)) => e1 == e2,
        _ => false,
    }
}

/// The tool that a step calls next, if it calls one.
pub open spec fn asked_tool(step: CaptureStepSpec) -> Option<Seq<char>> {
    match step {
        CaptureStepSpec::Ask(PaperRequestSpec::CallTool { name, .. }) => Some(name),
        _ => None,
    }
}

/// A capture step fails alike on tool results that differ only in ids: when one of two such
/// results ends the capture with a failure, the other ends it with the same failure, and
/// when one goes on to another call, so does the other. No failure reveals an id.
pub proof fn lemma_capture_failures_hold_no_ids(
    target: ScreenshotTarget,
    file_id: Option<Seq<char>>,
    scale: Option<JsonSpec>,
    offered: Seq<Seq<char>>,
    stage: CaptureStage,
    r1: JsonSpec,
    r2: JsonSpec,
)
    requires
        stage is Selection ==> selection_results_alike(r1, r2),
        stage is BasicInfo ==> basic_info_results_alike(r1, r2),
    ensures
        after_tool_result(stage, target, file_id, scale, offered, r1).1 matches
            CaptureStepSpec::Finish(Err(e)) ==> after_tool_result(
            stage,
            target,
            file_id,
            scale,
            offered,
            r2,
        ).1 == CaptureStepSpec::Finish(Err(e)),
        after_tool_result(stage, target, file_id, scale, offered, r1).1 is Ask
            <==> after_tool_result(stage, target, file_id, scale, offered, r2).1 is Ask,
        after_tool_result(stage, target, file_id, scale, offered, r1).1 is Ask ==> after_tool_result(
            stage,
            target,
            file_id,
            scale,
            offered,
            r1,
        ).0 == after_tool_result(stage, target, file_id, scale, offered, r2).0 && asked_tool(
            after_tool_result(stage, target, file_id, scale, offered, r1).1,
        ) == asked_tool(after_tool_result(stage, target, file_id, scale, offered, r2).1),
{
    let name = match target {
        ScreenshotTarget::Artboard(n) => n@,
        _ => Seq::empty(),
    };
    match stage {
        CaptureStage::Selection => match (selection_spec(r1), selection_spec(r2)) {
            (Ok(a), Ok(b)) => {
                lemma_target_errors_hold_no_ids(a, b, Seq::empty(), Seq::empty(), name);
                lemma_target_errors_hold_no_ids(b, a, Seq::empty(), Seq::empty(), name);
                if a.len() == 1 {
                    assert(a[0].artboard_id is Some <==> b[0].artboard_id is Some);
                }
            },
            _ => {},
        },
        CaptureStage::BasicInfo => match (basic_info_spec(r1), basic_info_spec(r2)) {
            (Ok(a), Ok(b)) => {
                lemma_target_errors_hold_no_ids(
                    Seq::empty(),
                    Seq::empty(),
                    a.artboards,
                    b.artboards,
                    name,
                );
                assert(alike_but_ids_artboards(b.artboards, a.artboards));
                lemma_target_errors_hold_no_ids(
                    Seq::empty(),
                    Seq::empty(),
                    b.artboards,
                    a.artboards,
                    name,
                );
            },
            _ => {},
        },
        _ => {},
    }
}

/// The failures that capturing `target` can give: a failed call for any target; for a
/// node id, nothing else. Otherwise a failed tool list, a missing tool among those the
/// target needs, a result of those tools that cannot be read, and the failures of
/// choosing the node: for the selected node, none or several selected; for the active
/// artboard, none or several on the page; for an artboard by name, none or several with
/// that name.
pub open spec fn capture_error(target: ScreenshotTarget, e: ContextFault) -> bool {
    let missing = |tool: Seq<char>| e == (ContextFault::MissingTool { name: tool });
    ||| e is Tool
    ||| match target {
        ScreenshotTarget::NodeId(_) => false,
        ScreenshotTarget::Selected => e is Catalog || missing("get_screenshot"@) || missing(
            "get_selection"@,
        ) || selection_error(e) || e is NoSelection || e is MultipleSelection,
        ScreenshotTarget::ActiveArtboard => e is Catalog || missing("get_screenshot"@) || missing(
            "get_selection"@,
        ) || missing("get_basic_info"@) || selection_error(e) || basic_info_error(e)
            || e is NoArtboards || e is MultipleArtboards,
        ScreenshotTarget::Artboard(name) => e is Catalog || missing("get_screenshot"@) || missing(
            "get_basic_info"@,
        ) || basic_info_error(e) || (e matches ContextErrorOf::ArtboardNotFound { name: n, .. }
            && n == name@) || e == (ContextFault::DuplicateArtboardName { name: name@ }),
    }
}

/// Every failure that a step of a capture reports is one that its target can give.
pub proof fn lemma_capture_failures(
    target: ScreenshotTarget,
    file_id: Option<Seq<char>>,
    scale: Option<JsonSpec>,
    offered: Seq<Seq<char>>,
    stage: CaptureStage,
    result: JsonSpec,
)
    requires
        stage is Selection ==> target is Selected || target is ActiveArtboard,
        stage is BasicInfo ==> target is ActiveArtboard || target is Artboard,
    ensures
        !(target is NodeId) ==> (after_tool_list(target, file_id, scale, offered).1 matches
            CaptureStepSpec::Finish(Err(e)) ==> capture_error(target, e)),
        after_tool_result(stage, target, file_id, scale, offered, result).1 matches
            CaptureStepSpec::Finish(Err(e)) ==> capture_error(target, e),
{
    lemma_selection_errors(result);
    lemma_basic_info_errors(result);
}

/// Where a capture stands after some exchanges with Paper: waiting for the answer to its
/// next request, over with its outcome, or broken by an exchange it did not ask for.
pub enum CaptureRun {
    Waiting { stage: CaptureStage, offered: Seq<Seq<char>>, next: PaperRequestSpec },
    Over(Result<JsonSpec, ContextFault>),
    Broken,
}

/// Where a capture of `target` stands before any exchange: a node id is captured at once,
/// and any other target first reads the tool list.
pub open spec fn capture_begin(
    target: ScreenshotTarget,
    file_id: Option<Seq<char>>,
    scale: Option<JsonSpec>,
) -> CaptureRun {
    match target {
        ScreenshotTarget::NodeId(id) => CaptureRun::Waiting {
            stage: CaptureStage::Screenshot,
            offered: Seq::empty(),
            next: screenshot_request(file_id, id@, scale),
        },
        _ => CaptureRun::Waiting {
            stage: CaptureStage::ToolList,
            offered: Seq::empty(),
            next: PaperRequestSpec::ListTools,
        },
    }
}

/// Where a capture stands after a step: waiting for the answer to what the step asks, or
/// over with what it finishes with.
pub open spec fn capture_continue(
    step: (CaptureStage, CaptureStepSpec),
    offered: Seq<Seq<char>>,
) -> CaptureRun {
    match step.1 {
        CaptureStepSpec::Ask(q) => CaptureRun::Waiting { stage: step.0, offered, next: q },
        CaptureStepSpec::Finish(o) => CaptureRun::Over(o),
    }
}

/// Where a capture stands after exchange `e`, from `state`: the exchange must be the request
/// the capture waits for; a failed exchange ends the capture, and an answer is taken by the
/// capture's steps.
pub open spec fn capture_next(
    target: ScreenshotTarget,
    file_id: Option<Seq<char>>,
    scale: Option<JsonSpec>,
    state: CaptureRun,
    e: Event,
) -> CaptureRun {
    match state {
        CaptureRun::Waiting { stage, offered, next } => match next {
            PaperRequestSpec::ListTools => match e {
                Event::ListTools(Err(m)) => CaptureRun::Over(
                    Err(ContextErrorOf::Catalog { message: m }),
                ),
                Event::ListTools(Ok(list)) => {
                    let names = field_strs(list, "name"@);
                    capture_continue(after_tool_list(target, file_id, scale, names), names)
                },
                _ => CaptureRun::Broken,
            },
            PaperRequestSpec::CallTool { name, arguments } => match e {
                Event::CallTool { name: n, arguments: a, answer } => if n == name && a
                    == arguments {
                    match answer {
                        Err(m) => CaptureRun::Over(Err(ContextErrorOf::Tool { message: m })),
                        Ok(v) => capture_continue(
                            after_tool_result(stage, target, file_id, scale, offered, v),
                            offered,
                        ),
                    }
                } else {
                    CaptureRun::Broken
                },
                _ => CaptureRun::Broken,
            },
        },
        _ => CaptureRun::Broken,
    }
}

/// Where a capture of `target` stands after the exchanges `run`, in order.
pub open spec fn capture_run(
    target: ScreenshotTarget,
    file_id: Option<Seq<char>>,
    scale: Option<JsonSpec>,
    run: Seq<Event>,
) -> CaptureRun
    decreases run.len(),
{
    if run.len() == 0 {
        capture_begin(target, file_id, scale)
    } else {
        capture_next(
            target,
            file_id,
            scale,
            capture_run(target, file_id, scale, run.drop_last()),
            run.last(),
        )
    }
}

/// The description of the outcome of a capture.
pub open spec fn capture_outcome(r: Result<serde_json::Value, ContextError>) -> Result<
    JsonSpec,
    ContextFault,
> {
    match r {
        Ok(v) => Ok(json_model(v)),
        Err(e) => Err(e@),
    }
}

/// Whether two exchanges are alike but for ids: the same kind; a tool list with the same
/// answer; a call of the same tool, both failed alike or both answered, where answers of
/// `get_selection` and of `get_basic_info` read alike but for ids.
pub open spec fn events_alike(e1: Event, e2: Event) -> bool {
    match (e1, e2) {
        (Event::ListTools(a1), Event::ListTools(a2)) => a1 == a2,
        (
            Event::CallTool { name: n1, answer: a1, .. },
            Event::CallTool { name: n2, answer: a2, .. },
        ) => n1 == n2 && match (a1, a2) {
            (Err(m1), Err(m2)) => m1 == m2,
            (Ok(v1), Ok(v2)) => (n1 == "get_selection"@ ==> selection_results_alike(v1, v2)) && (
            n1 == "get_basic_info"@ ==> basic_info_results_alike(v1, v2)),
            _ => false,
        },
        _ => false,
    }
}

/// Whether two runs of exchanges are alike but for ids, exchange by exchange.
pub open spec fn runs_alike(r1: Seq<Event>, r2: Seq<Event>) -> bool {
    &&& r1.len() == r2.len()
    &&& forall|i: int| 0 <= i < r1.len() ==> events_alike(#[trigger] r1[i], r2[i])
}

/// Whether a waiting capture at `stage` asks for what that stage waits for.
pub open spec fn asks_for_stage(stage: CaptureStage, next: PaperRequestSpec) -> bool {
    match stage {
        CaptureStage::ToolList => next is ListTools,
        CaptureStage::Selection => next matches PaperRequestSpec::CallTool { name, .. } && name
            == "get_selection"@,
        CaptureStage::BasicInfo => next matches PaperRequestSpec::CallTool { name, .. } && name
            == "get_basic_info"@,
        CaptureStage::Screenshot => next matches PaperRequestSpec::CallTool { name, .. } && name
            == "get_screenshot"@,
    }
}

/// Whether two captures stand alike: waiting at the same stage, with the same tools offered,
/// for the same kind of request of the same tool; over, with the same failure if either
/// failed; or one of them broken.
pub open spec fn runs_stand_alike(s1: CaptureRun, s2: CaptureRun) -> bool {
    match (s1, s2) {
        (
            CaptureRun::Waiting { stage: a, offered: o1, next: q1 },
            CaptureRun::Waiting { stage: b, offered: o2, next: q2 },
        ) => a == b && o1 == o2 && asks_for_stage(a, q1) && asks_for_stage(b, q2),
        (CaptureRun::Over(x), CaptureRun::Over(y)) => (x is Err ==> y == x) && (y is Err ==> x
            == y),
        (CaptureRun::Broken, _) => true,
        (_, CaptureRun::Broken) => true,
        _ => false,
    }
}

proof fn lemma_runs_stand_alike(
    target: ScreenshotTarget,
    file_id: Option<Seq<char>>,
    scale: Option<JsonSpec>,
    r1: Seq<Event>,
    r2: Seq<Event>,
)
    requires
        runs_alike(r1, r2),
    ensures
        runs_stand_alike(
            capture_run(target, file_id, scale, r1),
            capture_run(target, file_id, scale, r2),
        ),
    decreases r1.len(),
{
    reveal_strlit("get_selection");
    reveal_strlit("get_basic_info");
    reveal_strlit("get_screenshot");
    if r1.len() > 0 {
        let p1 = r1.drop_last();
        let p2 = r2.drop_last();
        assert(runs_alike(p1, p2)) by {
            assert forall|i: int| 0 <= i < p1.len() implies events_alike(#[trigger] p1[i], p2[i]) by {
                assert(events_alike(r1[i], r2[i]));
            }
        }
        lemma_runs_stand_alike(target, file_id, scale, p1, p2);
        let s1 = capture_run(target, file_id, scale, p1);
        let s2 = capture_run(target, file_id, scale, p2);
        let e1 = r1.last();
        let e2 = r2.last();
        assert(events_alike(e1, e2)) by {
            assert(events_alike(r1[r1.len() - 1], r2[r1.len() - 1]));
        }
        match (s1, s2) {
            (
                CaptureRun::Waiting { stage, offered, next: q1 },
                CaptureRun::Waiting { next: q2, .. },
            ) => {
                match (e1, e2) {
                    (
                        Event::CallTool { name: n1, answer: Ok(v1), .. },
                        Event::CallTool { answer: Ok(v2), .. },
                    ) => {
                        if !(stage is ToolList) {
                            lemma_alike_results_symmetric(v1, v2);
                            if (stage is Selection ==> selection_results_alike(v1, v2)) && (stage is BasicInfo
                                ==> basic_info_results_alike(v1, v2)) {
                                lemma_capture_failures_hold_no_ids(
                                    target,
                                    file_id,
                                    scale,
                                    offered,
                                    stage,
                                    v1,
                                    v2,
                                );
                                lemma_capture_failures_hold_no_ids(
                                    target,
                                    file_id,
                                    scale,
                                    offered,
                                    stage,
                                    v2,
                                    v1,
                                );
                            }
                        }
                    },
                    _ => {},
                }
            },
            _ => {},
        }
    }
}

/// Alike but for ids is symmetric.
proof fn lemma_alike_results_symmetric(v1: JsonSpec, v2: JsonSpec)
    ensures
        selection_results_alike(v1, v2) ==> selection_results_alike(v2, v1),
        basic_info_results_alike(v1, v2) ==> basic_info_results_alike(v2, v1),
{
}

/// A whole capture fails without revealing ids: when two captures of the same target, with
/// the same file and scale, exchange alike with Paper but for ids, and one of them ends with
/// a failure, the other, if it is a capture at all, ends with the same failure; and when one
/// ends with a screenshot, so does the other.
pub proof fn lemma_capture_hides_ids(
    target: ScreenshotTarget,
    file_id: Option<Seq<char>>,
    scale: Option<JsonSpec>,
    r1: Seq<Event>,
    r2: Seq<Event>,
)
    requires
        runs_alike(r1, r2),
        !(capture_run(target, file_id, scale, r2) is Broken),
    ensures
        capture_run(target, file_id, scale, r1) matches CaptureRun::Over(Err(e))
            ==> capture_run(target, file_id, scale, r2) == capture_run(target, file_id, scale, r1),
        capture_run(target, file_id, scale, r1) matches CaptureRun::Over(Ok(_))
            ==> capture_run(target, file_id, scale, r2) matches CaptureRun::Over(Ok(_)),
{
    lemma_runs_stand_alike(target, file_id, scale, r1, r2);
}

/// What a sequence of exchanges holds from position `n` on.
pub open spec fn since(log: Seq<Event>, n: int) -> Seq<Event> {
    log.skip(n)
}

/// Captures a screenshot of the node that `target` names with `get_screenshot`, passing the
/// file id and scale when given. The exchanges with `tools` are exactly those of the
/// capture's steps: each request is the one the last answer called for, with the exact
/// tool and arguments, and the capture ends, with its outcome, when a step finishes. A node
/// id is captured at once, without reading the tool list.
pub fn capture_screenshot<T: PaperTools>(
    tools: &mut Recorded<T>,
    target: ScreenshotTarget,
    file_id: Option<&str>,
    scale: Option<serde_json::Value>,
) -> (r: Result<serde_json::Value, ContextError>)
    ensures
        final(tools).log@.len() >= old(tools).log@.len(),
        final(tools).log@.take(old(tools).log@.len() as int) == old(tools).log@,
        capture_run(
            target,
            opt_str(file_id),
            opt_json(scale),
            since(final(tools).log@, old(tools).log@.len() as int),
        ) == CaptureRun::Over(capture_outcome(r)),
        target is NodeId ==> (r matches Err(e) ==> e is Tool),
        r matches Err(e) ==> capture_error(target, e@),
{
    let ghost by_id = target is NodeId;
    let ghost aim = target;
    let ghost file = opt_str(file_id);
    let ghost sc = opt_json(scale);
    let ghost log0 = tools.log@;
    let ghost n0 = log0.len() as int;
    let (mut capture, mut request) = ScreenshotCapture::start(target, file_id, scale);
    assert(texts(capture.catalog.names@) =~= Seq::<Seq<char>>::empty());
    assert(since(tools.log@, n0) =~= Seq::<Event>::empty());
    loop
        invariant
            capture.wf(),
            request is ListTools <==> capture.stage is ToolList,
            by_id == (aim is NodeId),
            aim == target,
            capture.target == aim,
            opt_text(capture.file_id) == file,
            opt_json(capture.scale) == sc,
            file == opt_str(file_id),
            sc == opt_json(scale),
            by_id ==> capture.stage is Screenshot,
            n0 == log0.len(),
            log0 == old(tools).log@,
            tools.log@.len() >= n0,
            tools.log@.take(n0) == log0,
            capture_run(aim, file, sc, since(tools.log@, n0)) == (CaptureRun::Waiting {
                stage: capture.stage,
                offered: texts(capture.catalog.names@),
                next: request@,
            }),
        decreases stage_rank(capture.stage),
    {
        let ghost before = capture;
        let ghost log_before = tools.log@;
        let ghost state = capture_run(aim, file, sc, since(log_before, n0));
        let (next, step) = match request {
            PaperRequest::ListTools => {
                let answer = tools.list_tools();
                let (n, st) = capture.on_tool_list(answer);
                proof {
                    lemma_capture_failures(
                        before.target,
                        opt_text(before.file_id),
                        opt_json(before.scale),
                        texts(n.catalog.names@),
                        before.stage,
                        JsonSpec::Null,
                    );
                }
                (n, st)
            },
            PaperRequest::CallTool { name, arguments } => {
                let answer = tools.call_tool(name.as_str(), arguments);
                let ghost got = answer;
                let (n, st) = capture.on_tool_result(answer);
                proof {
                    match got {
                        Ok(v) => lemma_capture_failures(
                            before.target,
                            opt_text(before.file_id),
                            opt_json(before.scale),
                            texts(before.catalog.names@),
                            before.stage,
                            json_model(v),
                        ),
                        Err(_) => {},
                    }
                }
                (n, st)
            },
        };
        proof {
            let e = tools.log@.last();
            assert(tools.log@ == log_before.push(e));
            assert(since(tools.log@, n0) =~= since(log_before, n0).push(e));
            assert(since(tools.log@, n0).drop_last() =~= since(log_before, n0));
            assert(tools.log@.take(n0) =~= log_before.take(n0));
        }
        capture = next;
        match step {
            CaptureStep::Finish(r) => {
                assert(by_id ==> (r matches Err(e) ==> e@ is Tool));
                assert(r matches Err(e) ==> capture_error(aim, e@));
                return r;
            },
            CaptureStep::Ask(q) => request = q,
        }
    }
}

// ---------------------------------------------------------------------------------------
// The context
// ---------------------------------------------------------------------------------------

/// The context of the active Paper file: the raw results of `get_basic_info` and
/// `get_selection`, and what was read from them.
#[derive(Debug)]
pub struct PaperContext {
    pub basic_raw: serde_json::Value,
    pub selection_raw: serde_json::Value,
    pub basic: BasicInfo,
    pub selection: Selection,
}

/// What reading the context waits for.
#[derive(Clone, Copy)]
pub enum ContextStage {
    /// The live tool list.
    ToolList,
    /// The result of `get_basic_info`.
    BasicInfo,
    /// The result of `get_selection`.
    Selection,
}

/// How many answers a context read at `stage` waits for at most.
pub open spec fn context_rank(stage: ContextStage) -> nat {
    match stage {
        ContextStage::ToolList => 2,
        ContextStage::BasicInfo => 1,
        ContextStage::Selection => 0,
    }
}

/// What a context read does after an answer: asks Paper for more, or finishes.
pub enum ContextStep {
    /// Send this request and hand its answer back.
    Ask(PaperRequest),
    /// The context, or why it could not be read.
    Finish(Result<PaperContext, ContextError>),
}

/// Whether `r` is the context of the raw results `basic_raw` and `selection_raw`: the
/// basic information is read first, then the selection, and the first failure is the
/// outcome.
pub open spec fn context_outcome(
    r: Result<PaperContext, ContextError>,
    basic_raw: serde_json::Value,
    selection_raw: serde_json::Value,
) -> bool {
    match (basic_info_spec(json_model(basic_raw)), selection_spec(json_model(selection_raw))) {
        (Err(e), _) => r matches Err(x) && x@ == e,
        (Ok(_), Err(e)) => r matches Err(x) && x@ == e,
        (Ok(b), Ok(ns)) => r matches Ok(c) && c.basic@ == b && node_views(c.selection.nodes@) == ns
            && c.basic_raw == basic_raw && c.selection_raw == selection_raw,
    }
}

/// The failures that reading the context can give: a failed call or tool list, a missing
/// `get_basic_info` or `get_selection`, and a result of those tools that cannot be read.
pub open spec fn context_error(e: ContextFault) -> bool {
    ||| e is Tool
    ||| e is Catalog
    ||| e == (ContextFault::MissingTool { name: "get_basic_info"@ })
    ||| e == (ContextFault::MissingTool { name: "get_selection"@ })
    ||| basic_info_error(e)
    ||| selection_error(e)
}

/// Reading the context of the active file, one answer of Paper at a time: the live tool
/// list, which must offer `get_basic_info` and `get_selection`, then the result of each.
pub struct ContextRead {
    pub file_id: Option<String>,
    pub basic_raw: Option<serde_json::Value>,
    pub stage: ContextStage,
}

impl ContextRead {
    /// The result of `get_basic_info` is kept exactly while the selection is awaited.
    pub open spec fn wf(&self) -> bool {
        self.stage is Selection ==> self.basic_raw is Some
    }

    /// Starts reading the context of the file `file_id`, or of the active one: the tool list
    /// is read first.
    pub fn start(file_id: Option<&str>) -> (r: (ContextRead, PaperRequest))
        ensures
            r.0.wf(),
            r.0.stage is ToolList,
            r.0.basic_raw is None,
            opt_text(r.0.file_id) == opt_str(file_id),
            r.1@ is ListTools,
    {
        let owned_file = match file_id {
            Some(f) => Some(f.to_owned()),
            None => None,
        };
        (
            ContextRead { file_id: owned_file, basic_raw: None, stage: ContextStage::ToolList },
            PaperRequest::ListTools,
        )
    }

    /// The call of context tool `tool`, with the file of this read.
    fn context_call(&self, tool: &str) -> (r: PaperRequest)
        ensures
            r@ == context_request(tool@, opt_text(self.file_id)),
    {
        let file = match &self.file_id {
            Some(f) => Some(f.as_str()),
            None => None,
        };
        PaperRequest::CallTool { name: tool.to_owned(), arguments: context_arguments(file) }
    }

    /// Takes the live tool list, or the message of the failed `list_tools`: Paper must offer
    /// `get_basic_info` and then `get_selection`, and `get_basic_info` is called next.
    pub fn on_tool_list(self, answer: Result<Vec<serde_json::Value>, String>) -> (r: (
        ContextRead,
        ContextStep,
    ))
        requires
            self.wf(),
            self.stage is ToolList,
        ensures
            r.0.wf(),
            r.0.file_id == self.file_id,
            r.1 is Ask ==> r.0.basic_raw is None,
            r.1 is Ask ==> context_rank(r.0.stage) < context_rank(self.stage),
            match answer {
                Err(m) => r.1 matches ContextStep::Finish(Err(e)) && e@
                    == (ContextFault::Catalog { message: m@ }),
                Ok(list) => {
                    let offered = field_strs(models(list@), "name"@);
                    if !offered.contains("get_basic_info"@) {
                        r.1 matches ContextStep::Finish(Err(e)) && e@
                            == (ContextFault::MissingTool { name: "get_basic_info"@ })
                    } else if !offered.contains("get_selection"@) {
                        r.1 matches ContextStep::Finish(Err(e)) && e@
                            == (ContextFault::MissingTool { name: "get_selection"@ })
                    } else {
                        r.0.stage is BasicInfo && (r.1 matches ContextStep::Ask(q) && q@
                            == context_request("get_basic_info"@, opt_text(self.file_id)))
                    }
                },
            },
    {
        let list = match answer {
            Err(message) => {
                return (self, ContextStep::Finish(Err(ContextErrorOf::Catalog { message })));
            },
            Ok(list) => list,
        };
        let catalog = ToolCatalog::from_tools(&list);
        match catalog.require("get_basic_info") {
            Ok(()) => {},
            Err(e) => return (self, ContextStep::Finish(Err(e))),
        }
        match catalog.require("get_selection") {
            Ok(()) => {},
            Err(e) => return (self, ContextStep::Finish(Err(e))),
        }
        let request = self.context_call("get_basic_info");
        (
            ContextRead { file_id: self.file_id, basic_raw: None, stage: ContextStage::BasicInfo },
            ContextStep::Ask(request),
        )
    }

    /// Takes the result of the tool that was called, or the message of the failed call:
    /// after `get_basic_info`, `get_selection` is called; after it, both results are read.
    pub fn on_tool_result(self, answer: Result<serde_json::Value, String>) -> (r: (
        ContextRead,
        ContextStep,
    ))
        requires
            self.wf(),
            !(self.stage is ToolList),
        ensures
            r.0.wf(),
            r.0.file_id == self.file_id,
            r.1 is Ask ==> context_rank(r.0.stage) < context_rank(self.stage),
            match answer {
                Err(m) => r.1 matches ContextStep::Finish(Err(e)) && e@
                    == (ContextFault::Tool { message: m@ }),
                Ok(v) => match self.stage {
                    ContextStage::Selection => r.1 matches ContextStep::Finish(c) && context_outcome(
                        c,
                        self.basic_raw->0,
                        v,
                    ),
                    _ => r.0.stage is Selection && r.0.basic_raw == Some(v) && (
                    r.1 matches ContextStep::Ask(q) && q@ == context_request(
                        "get_selection"@,
                        opt_text(self.file_id),
                    )),
                },
            },
    {
        let value = match answer {
            Err(message) => {
                return (self, ContextStep::Finish(Err(ContextErrorOf::Tool { message })));
            },
            Ok(v) => v,
        };
        match self.stage {
            ContextStage::Selection => {
                let ContextRead { file_id, basic_raw, stage } = self;
                let basic = basic_raw.unwrap();
                let kept = json_clone(&basic);
                let outcome = PaperContext::from_results(basic, value);
                (ContextRead { file_id, basic_raw: Some(kept), stage }, ContextStep::Finish(outcome))
            },
            _ => {
                let request = self.context_call("get_selection");
                (
                    ContextRead {
                        file_id: self.file_id,
                        basic_raw: Some(value),
                        stage: ContextStage::Selection,
                    },
                    ContextStep::Ask(request),
                )
            },
        }
    }
}

/// Where reading the context stands after some exchanges with Paper: waiting for the
/// answer to its next request, failed, done with the raw results of `get_basic_info` and
/// `get_selection`, or broken by an exchange it did not ask for.
pub enum ContextRun {
    Waiting { stage: ContextStage, basic: Option<JsonSpec>, next: PaperRequestSpec },
    Failed(ContextFault),
    Read(JsonSpec, JsonSpec),
    Broken,
}

/// Where reading the context stands after exchange `e`, from `state`: the tool list must
/// offer `get_basic_info` and `get_selection`, which are then called in that order with the
/// file; a failed exchange ends the read.
pub open spec fn context_next(file_id: Option<Seq<char>>, state: ContextRun, e: Event) -> ContextRun {
    match state {
        ContextRun::Waiting { stage, basic, next } => match next {
            PaperRequestSpec::ListTools => match e {
                Event::ListTools(Err(m)) => ContextRun::Failed(
                    ContextErrorOf::Catalog { message: m },
                ),
                Event::ListTools(Ok(list)) => {
                    let names = field_strs(list, "name"@);
                    if !names.contains("get_basic_info"@) {
                        ContextRun::Failed(ContextErrorOf::MissingTool { name: "get_basic_info"@ })
                    } else if !names.contains("get_selection"@) {
                        ContextRun::Failed(ContextErrorOf::MissingTool { name: "get_selection"@ })
                    } else {
                        ContextRun::Waiting {
                            stage: ContextStage::BasicInfo,
                            basic: None,
                            next: context_request("get_basic_info"@, file_id),
                        }
                    }
                },
                _ => ContextRun::Broken,
            },
            PaperRequestSpec::CallTool { name, arguments } => match e {
                Event::CallTool { name: n, arguments: a, answer } => if n == name && a
                    == arguments {
                    match answer {
                        Err(m) => ContextRun::Failed(ContextErrorOf::Tool { message: m }),
                        Ok(v) => match stage {
                            ContextStage::Selection => ContextRun::Read(basic->0, v),
                            _ => ContextRun::Waiting {
                                stage: ContextStage::Selection,
                                basic: Some(v),
                                next: context_request("get_selection"@, file_id),
                            },
                        },
                    }
                } else {
                    ContextRun::Broken
                },
                _ => ContextRun::Broken,
            },
        },
        _ => ContextRun::Broken,
    }
}

/// Where reading the context of the file `file_id` stands after the exchanges `run`.
pub open spec fn context_run(file_id: Option<Seq<char>>, run: Seq<Event>) -> ContextRun
    decreases run.len(),
{
    if run.len() == 0 {
        ContextRun::Waiting {
            stage: ContextStage::ToolList,
            basic: None,
            next: PaperRequestSpec::ListTools,
        }
    } else {
        context_next(file_id, context_run(file_id, run.drop_last()), run.last())
    }
}

/// Whether `r` is the context of the raw results `basic` and `selection`: the basic
/// information is read first, then the selection, and the first failure is the outcome.
pub open spec fn context_read_from(
    r: Result<PaperContext, ContextError>,
    basic: JsonSpec,
    selection: JsonSpec,
) -> bool {
    match (basic_info_spec(basic), selection_spec(selection)) {
        (Err(e), _) => r matches Err(x) && x@ == e,
        (Ok(_), Err(e)) => r matches Err(x) && x@ == e,
        (Ok(b), Ok(ns)) => r matches Ok(c) && c.basic@ == b && node_views(c.selection.nodes@) == ns
            && json_model(c.basic_raw) == basic && json_model(c.selection_raw) == selection,
    }
}

/// Whether `r` is what a read that ended at `state` gives.
pub open spec fn context_ended(r: Result<PaperContext, ContextError>, state: ContextRun) -> bool {
    match state {
        ContextRun::Failed(e) => r matches Err(x) && x@ == e,
        ContextRun::Read(basic, selection) => context_read_from(r, basic, selection),
        _ => false,
    }
}

/// The description of an optional raw result.
pub open spec fn opt_raw(v: Option<serde_json::Value>) -> Option<JsonSpec> {
    match v {
        Some(x) => Some(json_model(x)),
        None => None,
    }
}

/// Reads the context: checks that Paper offers `get_basic_info` and `get_selection`, calls
/// both in that order with the file, and reads their results. The exchanges with `tools`
/// are exactly those: one tool list, then the two calls, stopping at the first failure.
pub fn read_context<T: PaperTools>(tools: &mut Recorded<T>, file_id: Option<&str>) -> (r: Result<
    PaperContext,
    ContextError,
>)
    ensures
        final(tools).log@.len() >= old(tools).log@.len(),
        final(tools).log@.take(old(tools).log@.len() as int) == old(tools).log@,
        context_ended(
            r,
            context_run(opt_str(file_id), since(final(tools).log@, old(tools).log@.len() as int)),
        ),
        r matches Ok(c) ==> basic_info_spec(json_model(c.basic_raw)) == Ok::<
            BasicInfoSpec,
            ContextFault,
        >(c.basic@) && selection_spec(json_model(c.selection_raw)) == Ok::<
            Seq<NodeSpec>,
            ContextFault,
        >(node_views(c.selection.nodes@)),
        r matches Err(e) ==> context_error(e@),
{
    let ghost file = opt_str(file_id);
    let ghost log0 = tools.log@;
    let ghost n0 = log0.len() as int;
    let (mut read, mut request) = ContextRead::start(file_id);
    assert(since(tools.log@, n0) =~= Seq::<Event>::empty());
    loop
        invariant
            read.wf(),
            request is ListTools <==> read.stage is ToolList,
            opt_text(read.file_id) == file,
            file == opt_str(file_id),
            n0 == log0.len(),
            log0 == old(tools).log@,
            tools.log@.len() >= n0,
            tools.log@.take(n0) == log0,
            read.stage is ToolList ==> read.basic_raw is None,
            context_run(file, since(tools.log@, n0)) == (ContextRun::Waiting {
                stage: read.stage,
                basic: opt_raw(read.basic_raw),
                next: request@,
            }),
        decreases context_rank(read.stage),
    {
        let ghost before = read;
        let ghost log_before = tools.log@;
        let (next, step) = match request {
            PaperRequest::ListTools => read.on_tool_list(tools.list_tools()),
            PaperRequest::CallTool { name, arguments } => {
                let answer = tools.call_tool(name.as_str(), arguments);
                let ghost got = answer;
                let (n, st) = read.on_tool_result(answer);
                proof {
                    match got {
                        Ok(v) => if before.stage is Selection {
                            lemma_basic_info_errors(json_model(before.basic_raw->0));
                            lemma_selection_errors(json_model(v));
                        },
                        Err(_) => {},
                    }
                }
                (n, st)
            },
        };
        proof {
            reveal_strlit("get_basic_info");
            reveal_strlit("get_selection");
            let e = tools.log@.last();
            assert(tools.log@ == log_before.push(e));
            assert(since(tools.log@, n0) =~= since(log_before, n0).push(e));
            assert(since(tools.log@, n0).drop_last() =~= since(log_before, n0));
            assert(tools.log@.take(n0) =~= log_before.take(n0));
        }
        read = next;
        match step {
            ContextStep::Finish(r) => {
                assert(r matches Err(e) ==> context_error(e@));
                return r;
            },
            ContextStep::Ask(q) => request = q,
        }
    }
}

/// An artboard in the short context: its name and dimensions.
pub open spec fn short_artboard(a: ArtboardSpec) -> JsonSpec {
    JsonSpec::Object(
        Map::empty().insert("name"@, JsonSpec::Str(a.name)).insert("width"@, a.width).insert(
            "height"@,
            a.height,
        ),
    )
}

/// The short context: file and page names, artboard names and dimensions, and the names and
/// number of the selected nodes. It holds no ids.
pub open spec fn short_context(basic: BasicInfoSpec, nodes: Seq<NodeSpec>) -> JsonSpec {
    JsonSpec::Object(
        Map::empty().insert("fileName"@, JsonSpec::Str(basic.file_name)).insert(
            "pageName"@,
            JsonSpec::Str(basic.page_name),
        ).insert(
            "artboards"@,
            JsonSpec::Array(basic.artboards.map_values(|a: ArtboardSpec| short_artboard(a))),
        ).insert(
            "selectedNodes"@,
            JsonSpec::Array(nodes.map_values(|n: NodeSpec| JsonSpec::Str(n.name))),
        ).insert("selectedNodeCount"@, JsonSpec::Int(nodes.len() as int)),
    )
}

/// Whether two sequences of artboards agree in everything but their ids.
pub open spec fn alike_but_ids_artboards(a: Seq<ArtboardSpec>, b: Seq<ArtboardSpec>) -> bool {
    &&& a.len() == b.len()
    &&& forall|i: int|
        0 <= i < a.len() ==> #[trigger] a[i].name == b[i].name && a[i].width == b[i].width
            && a[i].height == b[i].height
}

/// Whether two sequences of selected nodes agree in their names.
pub open spec fn alike_but_ids_nodes(a: Seq<NodeSpec>, b: Seq<NodeSpec>) -> bool {
    &&& a.len() == b.len()
    &&& forall|i: int| 0 <= i < a.len() ==> #[trigger] a[i].name == b[i].name
}

/// The short context holds no ids: two contexts that differ only in the ids of their
/// artboards and nodes, and in the artboards the nodes lie on, have the same short context.
pub proof fn lemma_short_context_holds_no_ids(
    b1: BasicInfoSpec,
    b2: BasicInfoSpec,
    n1: Seq<NodeSpec>,
    n2: Seq<NodeSpec>,
)
    requires
        b1.file_name == b2.file_name,
        b1.page_name == b2.page_name,
        alike_but_ids_artboards(b1.artboards, b2.artboards),
        alike_but_ids_nodes(n1, n2),
    ensures
        short_context(b1, n1) == short_context(b2, n2),
{
    assert(b1.artboards.map_values(|a: ArtboardSpec| short_artboard(a)) =~= b2.artboards.map_values(
        |a: ArtboardSpec| short_artboard(a),
    ));
    assert(n1.map_values(|n: NodeSpec| JsonSpec::Str(n.name)) =~= n2.map_values(
        |n: NodeSpec| JsonSpec::Str(n.name),
    ));
}

/// How many of `artboards` have the name `name` depends on their names alone.
proof fn lemma_ids_named_len(a1: Seq<ArtboardSpec>, a2: Seq<ArtboardSpec>, name: Seq<char>)
    requires
        alike_but_ids_artboards(a1, a2),
    ensures
        ids_named(a1, name).len() == ids_named(a2, name).len(),
    decreases a1.len(),
{
    if a1.len() > 0 {
        assert(a1.last().name == a2.last().name) by {
            assert(a1[a1.len() - 1].name == a2[a1.len() - 1].name);
        }
        assert(alike_but_ids_artboards(a1.drop_last(), a2.drop_last())) by {
            assert forall|i: int| 0 <= i < a1.drop_last().len() implies #[trigger] a1.drop_last()[i].name
                == a2.drop_last()[i].name && a1.drop_last()[i].width == a2.drop_last()[i].width
                && a1.drop_last()[i].height == a2.drop_last()[i].height by {
                assert(a1[i].name == a2[i].name);
            }
        }
        lemma_ids_named_len(a1.drop_last(), a2.drop_last(), name);
    }
}

/// Choosing the node to capture fails without exposing ids: selections that differ only in
/// ids fail alike, and so do pages whose artboards differ only in ids, for the page's only
/// artboard and for an artboard by name.
pub proof fn lemma_target_errors_hold_no_ids(
    n1: Seq<NodeSpec>,
    n2: Seq<NodeSpec>,
    a1: Seq<ArtboardSpec>,
    a2: Seq<ArtboardSpec>,
    name: Seq<char>,
)
    requires
        alike_but_ids_nodes(n1, n2),
        alike_but_ids_artboards(a1, a2),
    ensures
        selected_target(n1) is Err ==> selected_target(n2) == selected_target(n1),
        only_artboard(a1) is Err ==> only_artboard(a2) == only_artboard(a1),
        named_artboard(a1, name) is Err ==> named_artboard(a2, name) == named_artboard(a1, name),
{
    assert(node_names(n1) =~= node_names(n2));
    assert(artboard_names(a1) =~= artboard_names(a2));
    lemma_ids_named_len(a1, a2, name);
}

/// The short context reports each artboard by its own name, width and height, and nothing
/// else of it, in the page's order; the selected nodes by their names, in order, and their
/// number; and the file's and page's names.
pub proof fn lemma_short_context_members(basic: BasicInfoSpec, nodes: Seq<NodeSpec>)
    ensures
        field(short_context(basic, nodes), "fileName"@) == Some(JsonSpec::Str(basic.file_name)),
        field(short_context(basic, nodes), "pageName"@) == Some(JsonSpec::Str(basic.page_name)),
        field(short_context(basic, nodes), "selectedNodeCount"@) == Some(
            JsonSpec::Int(nodes.len() as int),
        ),
        field(short_context(basic, nodes), "artboards"@) matches Some(JsonSpec::Array(items)) && items.len()
            == basic.artboards.len() && forall|i: int|
            0 <= i < items.len() ==> {
                &&& field(#[trigger] items[i], "name"@) == Some(
                    JsonSpec::Str(basic.artboards[i].name),
                )
                &&& field(items[i], "width"@) == Some(basic.artboards[i].width)
                &&& field(items[i], "height"@) == Some(basic.artboards[i].height)
                &&& items[i] matches JsonSpec::Object(m) && m.dom() == set![
                    "name"@,
                    "width"@,
                    "height"@,
                ]
            },
        field(short_context(basic, nodes), "selectedNodes"@) matches Some(JsonSpec::Array(items))
            && items.len() == nodes.len() && forall|i: int|
            0 <= i < items.len() ==> #[trigger] items[i] == JsonSpec::Str(nodes[i].name),
{
    reveal_strlit("fileName");
    reveal_strlit("pageName");
    reveal_strlit("artboards");
    reveal_strlit("selectedNodes");
    reveal_strlit("selectedNodeCount");
    reveal_strlit("name");
    reveal_strlit("width");
    reveal_strlit("height");
    assert("fileName"@ != "pageName"@) by { assert("fileName"@[0] != "pageName"@[0]); }
    assert("fileName"@ != "artboards"@) by { assert("fileName"@[0] != "artboards"@[0]); }
    assert("fileName"@ != "selectedNodes"@) by { assert("fileName"@[0] != "selectedNodes"@[0]); }
    assert("fileName"@ != "selectedNodeCount"@) by {
        assert("fileName"@[0] != "selectedNodeCount"@[0]);
    }
    assert("pageName"@ != "artboards"@) by { assert("pageName"@[0] != "artboards"@[0]); }
    assert("pageName"@ != "selectedNodes"@) by { assert("pageName"@[0] != "selectedNodes"@[0]); }
    assert("pageName"@ != "selectedNodeCount"@) by {
        assert("pageName"@[0] != "selectedNodeCount"@[0]);
    }
    assert("artboards"@ != "selectedNodes"@) by { assert("artboards"@[0] != "selectedNodes"@[0]); }
    assert("artboards"@ != "selectedNodeCount"@) by {
        assert("artboards"@[0] != "selectedNodeCount"@[0]);
    }
    assert("selectedNodes"@ != "selectedNodeCount"@) by {
        assert("selectedNodes"@.len() != "selectedNodeCount"@.len());
    }
    assert("name"@ != "width"@) by { assert("name"@[0] != "width"@[0]); }
    assert("name"@ != "height"@) by { assert("name"@[0] != "height"@[0]); }
    assert("width"@ != "height"@) by { assert("width"@[0] != "height"@[0]); }
    let items = basic.artboards.map_values(|a: ArtboardSpec| short_artboard(a));
    assert forall|i: int| 0 <= i < items.len() implies {
        &&& field(#[trigger] items[i], "name"@) == Some(JsonSpec::Str(basic.artboards[i].name))
        &&& field(items[i], "width"@) == Some(basic.artboards[i].width)
        &&& field(items[i], "height"@) == Some(basic.artboards[i].height)
        &&& items[i] matches JsonSpec::Object(m) && m.dom() == set!["name"@, "width"@, "height"@]
    } by {
        let a = basic.artboards[i];
        assert(items[i] == short_artboard(a));
        let m = Map::<Seq<char>, JsonSpec>::empty().insert("name"@, JsonSpec::Str(a.name)).insert(
            "width"@,
            a.width,
        ).insert("height"@, a.height);
        assert(m.dom() =~= set!["name"@, "width"@, "height"@]);
    }
}

/// An artboard is read with its own id, and its width and height as Paper gives them, null
/// when absent.
pub proof fn lemma_artboard_read(j: JsonSpec)
    ensures
        artboard_spec(j) matches Ok(a) ==> Some(a.id) == str_field(j, "id"@) && a.width == or_null(
            field(j, "width"@),
        ) && a.height == or_null(field(j, "height"@)),
        artboard_spec(j) is Err <==> str_field(j, "id"@) is None,
{
}

/// Whether an optional text is present and holds more than white space.
pub open spec fn readable(s: Option<Seq<char>>) -> bool {
    s matches Some(t) && !all_space(t)
}

/// A node's readable name is its own `name` whenever that is a string with more than white
/// space; only when it has none is its `component` used, on the same terms; and only when
/// it has neither is the fallback used.
pub proof fn lemma_human_name_prefers_own_name(j: JsonSpec, fallback: Seq<char>)
    ensures
        readable(str_field(j, "name"@)) ==> human_name_spec(j, fallback) == str_field(j, "name"@)->0,
        !readable(str_field(j, "name"@)) && readable(str_field(j, "component"@)) ==> human_name_spec(
            j,
            fallback,
        ) == str_field(j, "component"@)->0,
        !readable(str_field(j, "name"@)) && !readable(str_field(j, "component"@)) ==> human_name_spec(
            j,
            fallback,
        ) == fallback,
{
}

/// The full context: the raw results under `basicInfo` and `selection`.
pub open spec fn full_context(basic_raw: JsonSpec, selection_raw: JsonSpec) -> JsonSpec {
    JsonSpec::Object(
        Map::empty().insert("basicInfo"@, basic_raw).insert("selection"@, selection_raw),
    )
}

impl PaperContext {
    /// The context of the raw results of `get_basic_info` and `get_selection`: the basic
    /// information is read first, then the selection.
    pub fn from_results(basic_raw: serde_json::Value, selection_raw: serde_json::Value) -> (r:
        Result<PaperContext, ContextError>)
        ensures
            context_outcome(r, basic_raw, selection_raw),
    {
        let basic = match BasicInfo::parse(&basic_raw) {
            Ok(b) => b,
            Err(e) => return Err(e),
        };
        let selection = match Selection::parse(&selection_raw) {
            Ok(s) => s,
            Err(e) => return Err(e),
        };
        Ok(PaperContext { basic_raw, selection_raw, basic, selection })
    }

    /// The context as JSON: in full, or, with `short`, without raw results and ids.
    pub fn output(self, short: bool) -> (r: serde_json::Value)
        ensures
            !short ==> json_model(r) == full_context(
                json_model(self.basic_raw),
                json_model(self.selection_raw),
            ),
            short ==> json_model(r) == short_context(self.basic@, node_views(self.selection.nodes@)),
    {
        if !short {
            let mut obj = json_object();
            json_set(&mut obj, "basicInfo", self.basic_raw);
            json_set(&mut obj, "selection", self.selection_raw);
            return obj;
        }
        let ghost abs = self.basic@.artboards;
        let ghost ns = node_views(self.selection.nodes@);
        let mut artboards: Vec<serde_json::Value> = Vec::new();
        let mut i: usize = 0;
        while i < self.basic.artboards.len()
            invariant
                abs == artboard_views(self.basic.artboards@),
                i <= self.basic.artboards@.len(),
                models(artboards@) == abs.take(i as int).map_values(
                    |a: ArtboardSpec| short_artboard(a),
                ),
            decreases self.basic.artboards@.len() - i,
        {
            let a = &self.basic.artboards[i];
            let mut entry = json_object();
            json_set(&mut entry, "name", json_str(a.name.as_str()));
            json_set(&mut entry, "width", json_clone(&a.width));
            json_set(&mut entry, "height", json_clone(&a.height));
            let ghost before = models(artboards@);
            artboards.push(entry);
            assert(models(artboards@) =~= before.push(short_artboard(a@)));
            assert(abs.take(i + 1).map_values(|a: ArtboardSpec| short_artboard(a)) =~= abs.take(
                i as int,
            ).map_values(|a: ArtboardSpec| short_artboard(a)).push(short_artboard(abs[i as int])));
            i = i + 1;
        }
        assert(abs.take(abs.len() as int) =~= abs);
        let mut names: Vec<serde_json::Value> = Vec::new();
        let mut k: usize = 0;
        while k < self.selection.nodes.len()
            invariant
                ns == node_views(self.selection.nodes@),
                k <= self.selection.nodes@.len(),
                models(names@) == ns.take(k as int).map_values(|n: NodeSpec| JsonSpec::Str(n.name)),
            decreases self.selection.nodes@.len() - k,
        {
            let ghost before = models(names@);
            names.push(json_str(self.selection.nodes[k].name.as_str()));
            assert(models(names@) =~= before.push(JsonSpec::Str(ns[k as int].name)));
            assert(ns.take(k + 1).map_values(|n: NodeSpec| JsonSpec::Str(n.name)) =~= ns.take(
                k as int,
            ).map_values(|n: NodeSpec| JsonSpec::Str(n.name)).push(JsonSpec::Str(ns[k as int].name)));
            k = k + 1;
        }
        assert(ns.take(ns.len() as int) =~= ns);
        let count = self.selection.nodes.len() as u64;
        let mut obj = json_object();
        json_set(&mut obj, "fileName", json_str(self.basic.file_name.as_str()));
        json_set(&mut obj, "pageName", json_str(self.basic.page_name.as_str()));
        json_set(&mut obj, "artboards", json_array(artboards));
        json_set(&mut obj, "selectedNodes", json_array(names));
        json_set(&mut obj, "selectedNodeCount", json_u64(count));
        obj
    }
}

} // verus!
