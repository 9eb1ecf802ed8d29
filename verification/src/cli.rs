//! The decisions of the `paper` commands: reading JSON arguments, checking them, and
//! shaping what the commands print.

use vstd::prelude::*;
use crate::context::{opt_str, ScreenshotTarget};
use crate::json::{
    JsonSpec, field, json_array, json_as_str, json_bool, json_clone, json_extend, json_get,
    json_is_object, json_model, json_null, json_object, json_parse, json_pretty, json_read,
    json_set, json_str, json_text, json_to_pretty_text, json_to_text, json_u64, models, or_null,
    str_field,
};
use crate::mcp::with_optional;
use crate::record::{Event, Recorded, text_answer};
use crate::text::{all_space, chars_of, is_blank, str_eq, string_of};

verus! {

/// The address at which Paper Desktop serves MCP by default.
pub const DEFAULT_ENDPOINT: &'static str = "http://127.0.0.1:29979/mcp";

/// Where a command reads its JSON argument from: standard input and files.
pub trait JsonInput {
    /// Whether standard input is a terminal.
    fn stdin_is_terminal(&mut self) -> bool;

    /// All of standard input, or the message of the failure.
    fn read_stdin(&mut self) -> Result<String, String>;

    /// The contents of a file, or the message of the failure.
    fn read_file(&mut self, path: &str) -> Result<String, String>;
}

/// What can go wrong in a command's own checks; `S` is the type of its texts.
#[derive(Debug)]
pub enum CliErrorOf<S> {
    /// Standard input could not be read.
    Stdin { detail: S },
    /// `@` was given without a path.
    MissingPath,
    /// A file could not be read.
    ReadFile { path: S, detail: S },
    /// JSON from `source` could not be read.
    InvalidJson { source: S, detail: S },
    /// Tool arguments were not an object.
    ArgumentsNotObject,
    /// A tool of the list had no name.
    ToolWithoutName,
    /// No tool has the name.
    UnknownTool { name: S },
}

/// An error of a command's own checks.
pub type CliError = CliErrorOf<String>;

/// The description of such an error.
pub type CliFault = CliErrorOf<Seq<char>>;

impl View for CliErrorOf<String> {
    type V = CliFault;

    open spec fn view(&self) -> CliFault {
        match self {
            CliErrorOf::Stdin { detail } => CliErrorOf::Stdin { detail: detail@ },
            CliErrorOf::MissingPath => CliErrorOf::MissingPath,
            CliErrorOf::ReadFile { path, detail } => CliErrorOf::ReadFile {
                path: path@,
                detail: detail@,
            },
            CliErrorOf::InvalidJson { source, detail } => CliErrorOf::InvalidJson {
                source: source@,
                detail: detail@,
            },
            CliErrorOf::ArgumentsNotObject => CliErrorOf::ArgumentsNotObject,
            CliErrorOf::ToolWithoutName => CliErrorOf::ToolWithoutName,
            CliErrorOf::UnknownTool { name } => CliErrorOf::UnknownTool { name: name@ },
        }
    }
}

/// The message that describes such an error.
pub open spec fn cli_message(e: CliFault) -> Seq<char> {
    match e {
        CliErrorOf::Stdin { detail } => "failed to read JSON from stdin: "@ + detail,
        CliErrorOf::MissingPath => "expected a file path after @"@,
        CliErrorOf::ReadFile { path, detail } => "failed to read JSON from "@ + path + ": "@
            + detail,
        CliErrorOf::InvalidJson { source, detail } => "invalid JSON from "@ + source + ": "@
            + detail,
        CliErrorOf::ArgumentsNotObject => "tool arguments must be a JSON object"@,
        CliErrorOf::ToolWithoutName => "Paper returned a tool without a name"@,
        CliErrorOf::UnknownTool { name } => "Paper does not expose a tool named `"@ + name + "`"@,
    }
}

impl CliErrorOf<String> {
    /// The message that describes this error.
    pub fn message(&self) -> (r: String)
        ensures
            r@ == cli_message(self@),
    {
        let mut r = String::new();
        match self {
            CliErrorOf::Stdin { detail } => {
                r.append("failed to read JSON from stdin: ");
                r.append(detail.as_str());
            },
            CliErrorOf::MissingPath => {
                r.append("expected a file path after @");
            },
            CliErrorOf::ReadFile { path, detail } => {
                r.append("failed to read JSON from ");
                r.append(path.as_str());
                r.append(": ");
                r.append(detail.as_str());
            },
            CliErrorOf::InvalidJson { source, detail } => {
                r.append("invalid JSON from ");
                r.append(source.as_str());
                r.append(": ");
                r.append(detail.as_str());
            },
            CliErrorOf::ArgumentsNotObject => {
                r.append("tool arguments must be a JSON object");
            },
            CliErrorOf::ToolWithoutName => {
                r.append("Paper returned a tool without a name");
            },
            CliErrorOf::UnknownTool { name } => {
                r.append("Paper does not expose a tool named `");
                r.append(name.as_str());
                r.append("`");
            },
        }
        r
    }
}

// ---------------------------------------------------------------------------------------
// JSON arguments
// ---------------------------------------------------------------------------------------

/// The JSON value of a text from `source`, or the error that names the source.
pub open spec fn parse_json_spec(input: Seq<char>, source: Seq<char>) -> Result<JsonSpec, CliFault> {
    match json_read(input) {
        Ok(j) => Ok(j),
        Err(d) => Err(CliErrorOf::InvalidJson { source, detail: d }),
    }
}

/// Reads a JSON value from a text that came from `source`.
pub fn parse_json(input: &str, source: &str) -> (r: Result<serde_json::Value, CliError>)
    ensures
        match (r, parse_json_spec(input@, source@)) {
            (Ok(v), Ok(j)) => json_model(v) == j,
            (Err(e), Err(f)) => e@ == f,
            _ => false,
        },
{
    match json_parse(input) {
        Ok(v) => Ok(v),
        Err(detail) => Err(CliErrorOf::InvalidJson { source: source.to_owned(), detail }),
    }
}

/// Whether an argument names a file: it begins with `@`.
pub open spec fn names_file(s: Seq<char>) -> bool {
    s.len() > 0 && s[0] == '@'
}

/// Where the JSON argument of a command comes from.
pub enum JsonSource {
    /// Standard input when it is not a terminal and holds more than white space, and
    /// otherwise the default.
    StdinOrDefault,
    /// Standard input.
    Stdin,
    /// The file at this path.
    File(String),
    /// The argument itself.
    Inline(String),
}

/// Where the JSON argument `source` of a command comes from: with no argument, standard
/// input or the default; with `-`, standard input; with `@path`, the file at `path`, which
/// must not be empty; and otherwise the argument itself.
pub fn json_source(source: Option<&str>) -> (r: Result<JsonSource, CliError>)
    ensures
        match source {
            None => r matches Ok(JsonSource::StdinOrDefault),
            Some(s) => if s@ == "-"@ {
                r matches Ok(JsonSource::Stdin)
            } else if names_file(s@) {
                if s@.len() == 1 {
                    r matches Err(e) && e@ == CliFault::MissingPath
                } else {
                    r matches Ok(JsonSource::File(p)) && p@ == s@.drop_first()
                }
            } else {
                r matches Ok(JsonSource::Inline(t)) && t@ == s@
            },
        },
{
    let source = match source {
        None => return Ok(JsonSource::StdinOrDefault),
        Some(s) => s,
    };
    proof {
        reveal_strlit("-");
    }
    if str_eq(source, "-") {
        return Ok(JsonSource::Stdin);
    }
    let cs = chars_of(source);
    if cs.len() > 0 && cs[0] == '@' {
        if cs.len() == 1 {
            return Err(CliErrorOf::MissingPath);
        }
        let path = string_of(&cs, 1, cs.len());
        assert(path@ =~= source@.drop_first());
        return Ok(JsonSource::File(path));
    }
    Ok(JsonSource::Inline(source.to_owned()))
}

/// Whether `r` is the JSON of standard input when reading it gave `read`: a failed read is
/// reported as such, with `fallback` input of only white space gives `default`, and any
/// other text is read as JSON from `stdin`.
pub open spec fn stdin_outcome(
    r: Result<serde_json::Value, CliError>,
    read: Result<Seq<char>, Seq<char>>,
    default: serde_json::Value,
    fallback: bool,
) -> bool {
    match read {
        Err(d) => r matches Err(e) && e@ == (CliFault::Stdin { detail: d }),
        Ok(t) => if fallback && all_space(t) {
            r matches Ok(v) && v == default
        } else {
            match (r, parse_json_spec(t, "stdin"@)) {
                (Ok(v), Ok(j)) => json_model(v) == j,
                (Err(e), Err(f)) => e@ == f,
                _ => false,
            }
        },
    }
}

/// Standard input that holds more than white space is the argument, whether or not a
/// default is allowed: its text read as JSON from `stdin`, or the parser's error; the
/// default is given only for input of only white space, and only when it is allowed.
pub proof fn lemma_stdin_text_is_the_argument(
    r: Result<serde_json::Value, CliError>,
    t: Seq<char>,
    default: serde_json::Value,
    fallback: bool,
)
    requires
        stdin_outcome(r, Ok(t), default, fallback),
    ensures
        !all_space(t) ==> match json_read(t) {
            Ok(j) => r matches Ok(v) && json_model(v) == j,
            Err(m) => r matches Err(e) && e@ == (CliFault::InvalidJson {
                source: "stdin"@,
                detail: m,
            }),
        },
        all_space(t) && fallback ==> r == Ok::<serde_json::Value, CliError>(default),
        !fallback ==> match json_read(t) {
            Ok(j) => r matches Ok(v) && json_model(v) == j,
            Err(m) => r matches Err(e) && e@ == (CliFault::InvalidJson {
                source: "stdin"@,
                detail: m,
            }),
        },
{
}

/// Whether `r` is the JSON of the file at `path` when reading it gave `read`: a failed read
/// is reported with the path, and the text is read as JSON from `path`.
pub open spec fn file_outcome(
    r: Result<serde_json::Value, CliError>,
    path: Seq<char>,
    read: Result<Seq<char>, Seq<char>>,
) -> bool {
    match read {
        Err(d) => r matches Err(e) && e@ == (CliFault::ReadFile { path, detail: d }),
        Ok(t) => match (r, parse_json_spec(t, path)) {
            (Ok(v), Ok(j)) => json_model(v) == j,
            (Err(e), Err(f)) => e@ == f,
            _ => false,
        },
    }
}

/// The JSON of standard input, read as `read` says: with `fallback`, input of only white
/// space gives `default`.
pub fn stdin_json(read: Result<String, String>, default: serde_json::Value, fallback: bool) -> (r:
    Result<serde_json::Value, CliError>)
    ensures
        stdin_outcome(r, text_answer(read), default, fallback),
{
    let text = match read {
        Ok(t) => t,
        Err(detail) => return Err(CliErrorOf::Stdin { detail }),
    };
    if fallback && is_blank(text.as_str()) {
        return Ok(default);
    }
    parse_json(text.as_str(), "stdin")
}

/// The JSON of the file at `path`, read as `read` says.
pub fn file_json(path: &str, read: Result<String, String>) -> (r: Result<
    serde_json::Value,
    CliError,
>)
    ensures
        file_outcome(r, path@, text_answer(read)),
{
    match read {
        Ok(t) => parse_json(t.as_str(), path),
        Err(detail) => Err(CliErrorOf::ReadFile { path: path.to_owned(), detail }),
    }
}

/// Whether `r` is the JSON argument from `source` when the exchanges with standard input
/// and files were `run`: with no source, whether standard input is a terminal is asked, and
/// only when it is not is it read, with the default for input of only white space; with `-`,
/// standard input is read; with `@path`, the file at `path` is read, and a bare `@` is an
/// error; and otherwise the argument itself is read as JSON, with nothing read.
pub open spec fn json_argument_record(
    source: Option<Seq<char>>,
    default: serde_json::Value,
    run: Seq<Event>,
    r: Result<serde_json::Value, CliError>,
) -> bool {
    match source {
        None => run.len() >= 1 && match run[0] {
            Event::StdinIsTerminal(true) => run.len() == 1 && (r matches Ok(v) && v == default),
            Event::StdinIsTerminal(false) => run.len() == 2 && (run[1] matches Event::ReadStdin(a)
                && stdin_outcome(r, a, default, true)),
            _ => false,
        },
        Some(s) => if s == "-"@ {
            run.len() == 1 && (run[0] matches Event::ReadStdin(a) && stdin_outcome(
                r,
                a,
                default,
                false,
            ))
        } else if names_file(s) {
            if s.len() == 1 {
                run.len() == 0 && (r matches Err(e) && e@ == CliFault::MissingPath)
            } else {
                run.len() == 1 && (run[0] matches Event::ReadFile { path, read } && path
                    == s.drop_first() && file_outcome(r, path, read))
            }
        } else {
            run.len() == 0 && match (r, parse_json_spec(s, "command line"@)) {
                (Ok(v), Ok(j)) => json_model(v) == j,
                (Err(e), Err(f)) => e@ == f,
                _ => false,
            }
        },
    }
}

/// Reads the JSON argument of a command from where `source` says, reading standard input
/// and files through `input`: the exchanges with `input` are exactly those the source calls
/// for, and the outcome is what `stdin_json` or `file_json` makes of what they gave.
pub fn read_json<R: JsonInput>(
    source: Option<&str>,
    default: serde_json::Value,
    input: &mut Recorded<R>,
) -> (r: Result<serde_json::Value, CliError>)
    ensures
        final(input).log@.len() >= old(input).log@.len(),
        final(input).log@.take(old(input).log@.len() as int) == old(input).log@,
        json_argument_record(
            match source {
                Some(s) => Some(s@),
                None => None,
            },
            default,
            final(input).log@.skip(old(input).log@.len() as int),
            r,
        ),
{
    let ghost log0 = input.log@;
    let ghost n0 = log0.len() as int;
    proof {
        reveal_strlit("@");
        reveal_strlit("-");
        match source {
            Some(s) => if s@ == "@"@ {
                assert(s@ != "-"@) by {
                    assert(s@[0] != "-"@[0]);
                }
            } else if names_file(s@) && s@.len() > 1 {
                assert(s@ != "-"@) by {
                    assert(s@[0] != "-"@[0]);
                }
            },
            None => {},
        }
    }
    let r = match json_source(source) {
        Err(e) => Err(e),
        Ok(JsonSource::StdinOrDefault) => {
            if input.stdin_is_terminal() {
                Ok(default)
            } else {
                let read = input.read_stdin();
                stdin_json(read, default, true)
            }
        },
        Ok(JsonSource::Stdin) => {
            let read = input.read_stdin();
            stdin_json(read, default, false)
        },
        Ok(JsonSource::File(path)) => {
            let read = input.read_file(path.as_str());
            file_json(path.as_str(), read)
        },
        Ok(JsonSource::Inline(text)) => parse_json(text.as_str(), "command line"),
    };
    proof {
        let run = input.log@.skip(n0);
        assert(input.log@.take(n0) =~= log0);
        if run.len() > 0 {
            assert(run[0] == input.log@[n0]);
        }
        if run.len() > 1 {
            assert(run[1] == input.log@[n0 + 1]);
        }
    }
    r
}

/// Checks that the arguments of a tool call are a JSON object.
pub fn check_tool_arguments(arguments: &serde_json::Value) -> (r: Result<(), CliError>)
    ensures
        r is Ok <==> json_model(*arguments) is Object,
        r matches Err(e) ==> e@ == CliFault::ArgumentsNotObject,
{
    if json_is_object(arguments) {
        Ok(())
    } else {
        Err(CliErrorOf::ArgumentsNotObject)
    }
}

// ---------------------------------------------------------------------------------------
// What the commands print
// ---------------------------------------------------------------------------------------

/// The text that a command prints for a JSON value: on one line with `compact`, and
/// otherwise indented; or the message of a failed rendering.
pub fn render_json(value: &serde_json::Value, compact: bool) -> (r: Result<String, String>)
    ensures
        compact ==> (r matches Ok(t) && t@ == json_text(json_model(*value))),
        !compact ==> match (r, json_pretty(json_model(*value))) {
            (Ok(t), Ok(s)) => t@ == s,
            (Err(e), Err(m)) => e@ == m,
            _ => false,
        },
{
    if compact {
        Ok(json_to_text(value))
    } else {
        json_to_pretty_text(value)
    }
}

/// The description of an optional value.
pub open spec fn opt_ref_model(v: Option<&serde_json::Value>) -> Option<JsonSpec> {
    match v {
        Some(x) => Some(json_model(*x)),
        None => None,
    }
}

/// The member `key` of an optional value.
pub open spec fn opt_field(j: Option<JsonSpec>, key: Seq<char>) -> Option<JsonSpec> {
    match j {
        Some(x) => field(x, key),
        None => None,
    }
}

/// The short status: whether Paper answered, the endpoint, the server's name and version,
/// and the protocol version.
pub open spec fn short_status_spec(endpoint: Seq<char>, init: Option<JsonSpec>) -> JsonSpec {
    let server = opt_field(init, "serverInfo"@);
    JsonSpec::Object(
        Map::empty().insert("connected"@, JsonSpec::Bool(init is Some)).insert(
            "endpoint"@,
            JsonSpec::Str(endpoint),
        ).insert(
            "server"@,
            JsonSpec::Object(
                Map::empty().insert("name"@, or_null(opt_field(server, "name"@))).insert(
                    "version"@,
                    or_null(opt_field(server, "version"@)),
                ),
            ),
        ).insert("protocolVersion"@, or_null(opt_field(init, "protocolVersion"@))),
    )
}

/// The full status: the endpoint, `connected`, and every member of the reply to
/// `initialize` (which take precedence), or that reply under `initializeResult` when it is
/// not an object.
pub open spec fn full_status_spec(endpoint: Seq<char>, init: Option<JsonSpec>) -> JsonSpec {
    let base = Map::empty().insert("endpoint"@, JsonSpec::Str(endpoint)).insert(
        "connected"@,
        JsonSpec::Bool(true),
    );
    match init {
        Some(JsonSpec::Object(m)) => JsonSpec::Object(base.union_prefer_right(m)),
        Some(j) => JsonSpec::Object(base.insert("initializeResult"@, j)),
        None => JsonSpec::Object(base),
    }
}

/// A member of an optional value, copied, or null.
fn member_or_null(v: Option<&serde_json::Value>, key: &str) -> (r: serde_json::Value)
    ensures
        json_model(r) == or_null(opt_field(opt_ref_model(v), key@)),
{
    match v {
        Some(x) => match json_get(x, key) {
            Some(m) => json_clone(m),
            None => json_null(),
        },
        None => json_null(),
    }
}

/// What `status` prints for the endpoint and, when Paper answered, its reply to
/// `initialize`.
pub fn status_output(endpoint: &str, initialize_result: Option<&serde_json::Value>, short: bool) -> (r:
    serde_json::Value)
    ensures
        short ==> json_model(r) == short_status_spec(endpoint@, opt_ref_model(initialize_result)),
        !short ==> json_model(r) == full_status_spec(endpoint@, opt_ref_model(initialize_result)),
{
    if short {
        let server_info = match initialize_result {
            Some(init) => json_get(init, "serverInfo"),
            None => None,
        };
        let mut server = json_object();
        json_set(&mut server, "name", member_or_null(server_info, "name"));
        json_set(&mut server, "version", member_or_null(server_info, "version"));
        let mut obj = json_object();
        json_set(&mut obj, "connected", json_bool(initialize_result.is_some()));
        json_set(&mut obj, "endpoint", json_str(endpoint));
        json_set(&mut obj, "server", server);
        json_set(&mut obj, "protocolVersion", member_or_null(initialize_result, "protocolVersion"));
        return obj;
    }
    let mut status = json_object();
    json_set(&mut status, "endpoint", json_str(endpoint));
    json_set(&mut status, "connected", json_bool(true));
    match initialize_result {
        Some(init) => if json_is_object(init) {
            json_extend(&mut status, init);
        } else {
            json_set(&mut status, "initializeResult", json_clone(init));
        },
        None => {},
    }
    status
}

/// The names of all tools, each of which must have one.
pub open spec fn tool_names_spec(tools: Seq<JsonSpec>) -> Result<Seq<Seq<char>>, CliFault>
    decreases tools.len(),
{
    if tools.len() == 0 {
        Ok(Seq::empty())
    } else {
        match tool_names_spec(tools.drop_last()) {
            Err(e) => Err(e),
            Ok(ns) => match str_field(tools.last(), "name"@) {
                None => Err(CliErrorOf::ToolWithoutName),
                Some(n) => Ok(ns.push(n)),
            },
        }
    }
}

proof fn lemma_tool_names_err(tools: Seq<JsonSpec>, i: int)
    requires
        0 <= i <= tools.len(),
        tool_names_spec(tools.take(i)) is Err,
    ensures
        tool_names_spec(tools) == tool_names_spec(tools.take(i)),
    decreases tools.len() - i,
{
    if i == tools.len() {
        assert(tools.take(i) =~= tools);
    } else {
        assert(tools.drop_last().take(i) =~= tools.take(i));
        lemma_tool_names_err(tools.drop_last(), i);
    }
}

/// The names that `tools --names` prints, one for each tool.
pub fn tool_names(tools: &Vec<serde_json::Value>) -> (r: Result<Vec<String>, CliError>)
    ensures
        match (r, tool_names_spec(models(tools@))) {
            (Ok(ns), Ok(s)) => crate::text::texts(ns@) == s,
            (Err(e), Err(f)) => e@ == f,
            _ => false,
        },
{
    let ghost all = models(tools@);
    let mut names: Vec<String> = Vec::new();
    let mut i: usize = 0;
    assert(all.take(0) =~= Seq::<JsonSpec>::empty());
    assert(crate::text::texts(names@) =~= Seq::<Seq<char>>::empty());
    while i < tools.len()
        invariant
            all == models(tools@),
            i <= tools@.len(),
            tool_names_spec(all.take(i as int)) == Ok::<Seq<Seq<char>>, CliFault>(
                crate::text::texts(names@),
            ),
        decreases tools@.len() - i,
    {
        assert(all.take(i + 1).drop_last() =~= all.take(i as int));
        assert(all.take(i + 1).last() == json_model(tools@[i as int]));
        let name = match json_get(&tools[i], "name") {
            Some(n) => match json_as_str(n) {
                Some(s) => s,
                None => {
                    proof {
                        lemma_tool_names_err(all, i + 1);
                    }
                    return Err(CliErrorOf::ToolWithoutName);
                },
            },
            None => {
                proof {
                    lemma_tool_names_err(all, i + 1);
                }
                return Err(CliErrorOf::ToolWithoutName);
            },
        };
        let ghost before = crate::text::texts(names@);
        names.push(name.to_owned());
        assert(crate::text::texts(names@) =~= before.push(name@));
        i = i + 1;
    }
    assert(all.take(all.len() as int) =~= all);
    Ok(names)
}

/// The names of the tools before the first one without a name.
pub open spec fn leading_names(tools: Seq<JsonSpec>) -> Seq<Seq<char>>
    decreases tools.len(),
{
    if tools.len() == 0 {
        Seq::empty()
    } else {
        match str_field(tools[0], "name"@) {
            Some(n) => seq![n] + leading_names(tools.drop_first()),
            None => Seq::empty(),
        }
    }
}

/// Whether every one of the tools has a name.
pub open spec fn all_named(tools: Seq<JsonSpec>) -> bool {
    forall|i: int| 0 <= i < tools.len() ==> #[trigger] str_field(tools[i], "name"@) is Some
}

/// What `tools --names` prints, one name per line, in order, up to the first tool without a
/// name, which is then reported.
pub fn printable_tool_names(tools: &Vec<serde_json::Value>) -> (r: (Vec<String>, Option<CliError>))
    ensures
        crate::text::texts(r.0@) == leading_names(models(tools@)),
        r.1 is None <==> all_named(models(tools@)),
        r.1 matches Some(e) ==> e@ == CliFault::ToolWithoutName,
{
    let ghost all = models(tools@);
    let mut names: Vec<String> = Vec::new();
    let mut i: usize = 0;
    assert(all.skip(0) =~= all);
    while i < tools.len()
        invariant
            all == models(tools@),
            i <= tools@.len(),
            leading_names(all) == crate::text::texts(names@) + leading_names(all.skip(i as int)),
            forall|j: int| 0 <= j < i ==> #[trigger] str_field(all[j], "name"@) is Some,
        decreases tools@.len() - i,
    {
        let ghost rest = all.skip(i as int);
        assert(rest[0] == json_model(tools@[i as int]));
        assert(rest.drop_first() =~= all.skip(i + 1));
        let name = match json_get(&tools[i], "name") {
            Some(n) => json_as_str(n),
            None => None,
        };
        match name {
            Some(n) => {
                let ghost before = crate::text::texts(names@);
                names.push(n.to_owned());
                assert(crate::text::texts(names@) =~= before.push(n@));
                assert(leading_names(rest) == seq![n@] + leading_names(rest.drop_first()));
                assert(before + leading_names(rest) =~= crate::text::texts(names@) + leading_names(
                    all.skip(i + 1),
                ));
            },
            None => {
                assert(leading_names(rest) =~= Seq::<Seq<char>>::empty());
                assert(crate::text::texts(names@) + leading_names(rest) =~= crate::text::texts(
                    names@,
                ));
                assert(str_field(all[i as int], "name"@) is None);
                return (names, Some(CliErrorOf::ToolWithoutName));
            },
        }
        i = i + 1;
    }
    assert(all.skip(i as int) =~= Seq::<JsonSpec>::empty());
    assert(crate::text::texts(names@) + Seq::<Seq<char>>::empty() =~= crate::text::texts(names@));
    (names, None)
}

/// What `status --short` prints when Paper could not be reached: the status without a
/// reply. Other commands print nothing.
pub fn unreachable_status(endpoint: &str, short_status: bool) -> (r: Option<serde_json::Value>)
    ensures
        short_status ==> (r matches Some(v) && json_model(v) == short_status_spec(endpoint@, None)),
        !short_status ==> r is None,
{
    if short_status {
        Some(status_output(endpoint, None, true))
    } else {
        None
    }
}

/// The first of `tools` whose `name` is `name`.
pub open spec fn tool_named(tools: Seq<JsonSpec>, name: Seq<char>) -> Option<JsonSpec>
    decreases tools.len(),
{
    if tools.len() == 0 {
        None
    } else if str_field(tools[0], "name"@) == Some(name) {
        Some(tools[0])
    } else {
        tool_named(tools.drop_first(), name)
    }
}

/// The schema that `schema` prints: the first tool named `name`.
pub fn find_tool(tools: &Vec<serde_json::Value>, name: &str) -> (r: Result<serde_json::Value, CliError>)
    ensures
        match tool_named(models(tools@), name@) {
            Some(t) => r matches Ok(v) && json_model(v) == t,
            None => r matches Err(e) && e@ == (CliFault::UnknownTool { name: name@ }),
        },
{
    let ghost all = models(tools@);
    let mut i: usize = 0;
    assert(all.skip(0) =~= all);
    while i < tools.len()
        invariant
            all == models(tools@),
            i <= tools@.len(),
            tool_named(all, name@) == tool_named(all.skip(i as int), name@),
        decreases tools@.len() - i,
    {
        let ghost rest = all.skip(i as int);
        assert(rest[0] == json_model(tools@[i as int]));
        assert(rest.drop_first() =~= all.skip(i + 1));
        let matches = match json_get(&tools[i], "name") {
            Some(n) => match json_as_str(n) {
                Some(s) => str_eq(s, name),
                None => false,
            },
            None => false,
        };
        if matches {
            return Ok(json_clone(&tools[i]));
        }
        i = i + 1;
    }
    assert(all.skip(i as int) =~= Seq::<JsonSpec>::empty());
    Err(CliErrorOf::UnknownTool { name: name.to_owned() })
}

/// What `tools` prints: the list under `tools`.
pub fn tools_output(tools: Vec<serde_json::Value>) -> (r: serde_json::Value)
    ensures
        json_model(r) == JsonSpec::Object(
            Map::empty().insert("tools"@, JsonSpec::Array(models(tools@))),
        ),
{
    let mut obj = json_object();
    json_set(&mut obj, "tools", json_array(tools));
    obj
}

/// The arguments of `list_files` for `files`.
pub fn files_arguments(limit: u16) -> (r: serde_json::Value)
    ensures
        json_model(r) == JsonSpec::Object(
            Map::empty().insert("limit"@, JsonSpec::Int(limit as int)),
        ),
{
    let mut obj = json_object();
    json_set(&mut obj, "limit", json_u64(limit as u64));
    obj
}

/// The arguments of `open_file` for `open`: the file, and the page when one is named.
pub fn open_arguments(file_id_or_url: &str, page_id: Option<&str>) -> (r: serde_json::Value)
    ensures
        json_model(r) == JsonSpec::Object(
            with_optional(
                Map::empty().insert("fileId"@, JsonSpec::Str(file_id_or_url@)),
                "pageId"@,
                match page_id {
                    Some(p) => Some(JsonSpec::Str(p@)),
                    None => None,
                },
            ),
        ),
{
    let mut obj = json_object();
    json_set(&mut obj, "fileId", json_str(file_id_or_url));
    match page_id {
        Some(p) => json_set(&mut obj, "pageId", json_str(p)),
        None => {},
    }
    obj
}

/// What `notify` prints once Paper accepted the notification.
pub fn notify_output() -> (r: serde_json::Value)
    ensures
        json_model(r) == JsonSpec::Object(Map::empty().insert("accepted"@, JsonSpec::Bool(true))),
{
    let mut obj = json_object();
    json_set(&mut obj, "accepted", json_bool(true));
    obj
}

/// The screenshot target that the flags of `screenshot` name, when exactly one is given.
pub fn screenshot_target(
    node_id: Option<String>,
    selected: bool,
    active_artboard: bool,
    artboard: Option<String>,
) -> (r: Option<ScreenshotTarget>)
    ensures
        r is Some <==> (node_id is Some) as int + selected as int + active_artboard as int + (
        artboard is Some) as int == 1,
        r matches Some(ScreenshotTarget::NodeId(n)) ==> node_id == Some(n),
        r matches Some(ScreenshotTarget::Artboard(a)) ==> artboard == Some(a),
        r matches Some(ScreenshotTarget::Selected) ==> selected,
        r matches Some(ScreenshotTarget::ActiveArtboard) ==> active_artboard,
{
    match (node_id, selected, active_artboard, artboard) {
        (Some(n), false, false, None) => Some(ScreenshotTarget::NodeId(n)),
        (None, true, false, None) => Some(ScreenshotTarget::Selected),
        (None, false, true, None) => Some(ScreenshotTarget::ActiveArtboard),
        (None, false, false, Some(a)) => Some(ScreenshotTarget::Artboard(a)),
        _ => None,
    }
}

/// The full status keeps every member of the reply to `initialize` as Paper sent it.
pub proof fn lemma_full_status_keeps_reply(endpoint: Seq<char>, init: Map<Seq<char>, JsonSpec>, key: Seq<char>)
    requires
        init.contains_key(key),
    ensures
        field(full_status_spec(endpoint, Some(JsonSpec::Object(init))), key) == Some(init[key]),
{
}

} // verus!
