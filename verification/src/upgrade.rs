//! The `upgrade` command: the global skill first, then the CLI, and a report on both.

use vstd::prelude::*;
use crate::json::{JsonSpec, field, json_bool, json_model, json_object, json_set, json_str};
use crate::record::{Event, Recorded};
use crate::text::{decimal, push_char, u64_text};

verus! {

/// The repository of the CLI.
pub const REPOSITORY_URL: &'static str = "https://github.com/lassejlv/paper-cli";

/// The installer for POSIX systems.
pub const INSTALL_SCRIPT_URL: &'static str =
    "https://raw.githubusercontent.com/lassejlv/paper-cli/main/install.sh";

/// The installer for Windows.
pub const WINDOWS_INSTALL_SCRIPT_URL: &'static str =
    "https://raw.githubusercontent.com/lassejlv/paper-cli/main/install.ps1";

/// The skill that teaches agents to use the CLI.
pub const SKILL_NAME: &'static str = "use-paper-cli";

/// How the CLI update went: at once, or scheduled to run after this process exits.
#[derive(Debug, Clone, Copy)]
pub struct CliUpdate {
    pub scheduled: bool,
}

/// The steps of an upgrade: progress notes, the skill update, and the CLI update. Errors
/// are the messages of the failed step.
pub trait UpgradeSteps {
    fn announce(&mut self, message: &str);

    fn update_skill(&mut self) -> Result<(), String>;

    fn update_cli(&mut self) -> Result<CliUpdate, String>;
}

/// A failed upgrade step; `S` is the type of its texts.
#[derive(Debug)]
pub enum UpgradeErrorOf<S> {
    /// The skill update failed.
    Skill { detail: S },
    /// The CLI update failed.
    Cli { detail: S },
}

/// A failed upgrade step.
pub type UpgradeError = UpgradeErrorOf<String>;

impl View for UpgradeErrorOf<String> {
    type V = UpgradeErrorOf<Seq<char>>;

    open spec fn view(&self) -> UpgradeErrorOf<Seq<char>> {
        match self {
            UpgradeErrorOf::Skill { detail } => UpgradeErrorOf::Skill { detail: detail@ },
            UpgradeErrorOf::Cli { detail } => UpgradeErrorOf::Cli { detail: detail@ },
        }
    }
}

/// The message that describes a failed step.
pub open spec fn upgrade_message(e: UpgradeErrorOf<Seq<char>>) -> Seq<char> {
    match e {
        UpgradeErrorOf::Skill { detail } => "failed to update global use-paper-cli skill: "@
            + detail,
        UpgradeErrorOf::Cli { detail } => "failed to update paper CLI: "@ + detail,
    }
}

impl UpgradeErrorOf<String> {
    /// The message that describes this failure.
    pub fn message(&self) -> (r: String)
        ensures
            r@ == upgrade_message(self@),
    {
        let mut r = String::new();
        match self {
            UpgradeErrorOf::Skill { detail } => {
                r.append("failed to update global use-paper-cli skill: ");
                r.append(detail.as_str());
            },
            UpgradeErrorOf::Cli { detail } => {
                r.append("failed to update paper CLI: ");
                r.append(detail.as_str());
            },
        }
        r
    }
}

/// The report on an upgrade: the CLI update, scheduled or done, from `source`, and the
/// skill update. A scheduled update is not reported as done.
pub open spec fn upgrade_report_spec(scheduled: bool, source: Seq<char>) -> JsonSpec {
    let cli = if scheduled {
        JsonSpec::Object(
            Map::empty().insert("scheduled"@, JsonSpec::Bool(true)).insert(
                "source"@,
                JsonSpec::Str(source),
            ).insert("updated"@, JsonSpec::Bool(false)),
        )
    } else {
        JsonSpec::Object(
            Map::empty().insert("source"@, JsonSpec::Str(source)).insert(
                "updated"@,
                JsonSpec::Bool(true),
            ),
        )
    };
    JsonSpec::Object(
        Map::empty().insert("cli"@, cli).insert(
            "skill"@,
            JsonSpec::Object(
                Map::empty().insert("name"@, JsonSpec::Str(SKILL_NAME@)).insert(
                    "scope"@,
                    JsonSpec::Str("global"@),
                ).insert("updated"@, JsonSpec::Bool(true)),
            ),
        ),
    )
}

/// The report on an upgrade whose CLI update went as `cli` says, from installer `source`.
pub fn upgrade_report(cli: CliUpdate, source: &str) -> (r: serde_json::Value)
    ensures
        json_model(r) == upgrade_report_spec(cli.scheduled, source@),
{
    let mut c = json_object();
    if cli.scheduled {
        json_set(&mut c, "scheduled", json_bool(true));
        json_set(&mut c, "source", json_str(source));
        json_set(&mut c, "updated", json_bool(false));
    } else {
        json_set(&mut c, "source", json_str(source));
        json_set(&mut c, "updated", json_bool(true));
    }
    let mut skill = json_object();
    json_set(&mut skill, "name", json_str(SKILL_NAME));
    json_set(&mut skill, "scope", json_str("global"));
    json_set(&mut skill, "updated", json_bool(true));
    let mut obj = json_object();
    json_set(&mut obj, "cli", c);
    json_set(&mut obj, "skill", skill);
    obj
}

/// The end of an upgrade whose skill was updated, after the CLI update went as `cli` says:
/// the report, or the failure of the CLI update.
pub fn finish_upgrade(cli: Result<CliUpdate, String>, source: &str) -> (r: Result<
    serde_json::Value,
    UpgradeError,
>)
    ensures
        match cli {
            Ok(c) => r matches Ok(v) && json_model(v) == upgrade_report_spec(c.scheduled, source@),
            Err(detail) => r matches Err(e) && e@ == UpgradeErrorOf::Cli { detail: detail@ },
        },
{
    match cli {
        Ok(c) => Ok(upgrade_report(c, source)),
        Err(detail) => Err(UpgradeErrorOf::Cli { detail }),
    }
}

/// What an upgrade does after the skill update.
pub enum UpgradeStep {
    /// Announce `note`, then update the CLI.
    UpdateCli { note: String },
    /// The upgrade is over: the skill update failed.
    Failed(UpgradeError),
}

/// What follows the skill update, as `skill` says it went: the CLI is updated only after
/// the skill was.
pub fn after_skill_update(skill: Result<(), String>) -> (r: UpgradeStep)
    ensures
        match skill {
            Ok(()) => r matches UpgradeStep::UpdateCli { note } && note@ == "Updating paper CLI..."@,
            Err(detail) => r matches UpgradeStep::Failed(e) && e@ == UpgradeErrorOf::Skill {
                detail: detail@,
            },
        },
{
    match skill {
        Ok(()) => UpgradeStep::UpdateCli { note: "Updating paper CLI...".to_owned() },
        Err(detail) => UpgradeStep::Failed(UpgradeErrorOf::Skill { detail }),
    }
}

/// Whether `r` is the outcome of an upgrade whose exchanges with its steps were `run`: the
/// skill update is announced and run first; only when it succeeded is the CLI update
/// announced and run; the failure of the step that failed, or the report of the CLI update
/// as it answered, is the outcome, and nothing else is done.
pub open spec fn upgrade_record(
    run: Seq<Event>,
    r: Result<serde_json::Value, UpgradeError>,
    source: Seq<char>,
) -> bool {
    &&& run.len() >= 2
    &&& run[0] == Event::Announce("Updating global use-paper-cli skill..."@)
    &&& match run[1] {
        Event::UpdateSkill(Err(d)) => run.len() == 2 && (r matches Err(e) && e@
            == UpgradeErrorOf::Skill { detail: d }),
        Event::UpdateSkill(Ok(())) => {
            &&& run.len() == 4
            &&& run[2] == Event::Announce("Updating paper CLI..."@)
            &&& match run[3] {
                Event::UpdateCli(Err(d)) => r matches Err(e) && e@ == UpgradeErrorOf::Cli {
                    detail: d,
                },
                Event::UpdateCli(Ok(scheduled)) => r matches Ok(v) && json_model(v)
                    == upgrade_report_spec(scheduled, source),
                _ => false,
            }
        },
        _ => false,
    }
}

/// What a sequence of exchanges holds from position `n` on.
pub open spec fn events_since(log: Seq<Event>, n: int) -> Seq<Event> {
    log.skip(n)
}

/// Runs an upgrade: the skill update, and only when it succeeded, the CLI update; then the
/// report, with the CLI installer `source`. The exchanges with `steps` are exactly those,
/// each step announced before it runs, and the outcome is built from their answers.
pub fn execute_upgrade<U: UpgradeSteps>(steps: &mut Recorded<U>, source: &str) -> (r: Result<
    serde_json::Value,
    UpgradeError,
>)
    ensures
        final(steps).log@.len() >= old(steps).log@.len(),
        final(steps).log@.take(old(steps).log@.len() as int) == old(steps).log@,
        upgrade_record(
            events_since(final(steps).log@, old(steps).log@.len() as int),
            r,
            source@,
        ),
        r matches Ok(v) ==> exists|scheduled: bool|
            json_model(v) == #[trigger] upgrade_report_spec(scheduled, source@),
{
    let ghost log0 = steps.log@;
    let ghost n0 = log0.len() as int;
    steps.announce("Updating global use-paper-cli skill...");
    let skill = steps.update_skill();
    let r = match after_skill_update(skill) {
        UpgradeStep::Failed(e) => Err(e),
        UpgradeStep::UpdateCli { note } => {
            steps.announce(note.as_str());
            finish_upgrade(steps.update_cli(), source)
        },
    };
    proof {
        let run = events_since(steps.log@, n0);
        assert(steps.log@.take(n0) =~= log0);
        assert(run[0] == steps.log@[n0]);
        assert(run[1] == steps.log@[n0 + 1]);
        if run.len() > 2 {
            assert(run[2] == steps.log@[n0 + 2]);
            assert(run[3] == steps.log@[n0 + 3]);
        }
    }
    r
}

/// A scheduled CLI update is reported as not yet done, and an immediate one as done.
pub proof fn lemma_scheduled_update_not_claimed(scheduled: bool, source: Seq<char>)
    ensures
        field(field(upgrade_report_spec(scheduled, source), "cli"@)->0, "updated"@) == Some(
            JsonSpec::Bool(!scheduled),
        ),
{
    reveal_strlit("cli");
    reveal_strlit("skill");
    reveal_strlit("updated");
    reveal_strlit("source");
    reveal_strlit("scheduled");
    assert("updated"@ != "source"@) by {
        assert("updated"@[0] != "source"@[0]);
    }
    assert("updated"@ != "scheduled"@) by {
        assert("updated"@[0] != "scheduled"@[0]);
    }
    assert("cli"@ != "skill"@) by {
        assert("cli"@[0] != "skill"@[0]);
    }
}

// ---------------------------------------------------------------------------------------
// PowerShell literals
// ---------------------------------------------------------------------------------------

/// A text with every single quote doubled.
pub open spec fn double_quotes(s: Seq<char>) -> Seq<char>
    decreases s.len(),
{
    if s.len() == 0 {
        Seq::empty()
    } else {
        let rest = double_quotes(s.drop_last());
        if s.last() == '\'' {
            rest + seq!['\'', '\'']
        } else {
            rest.push(s.last())
        }
    }
}

/// A path as a single-quoted PowerShell string literal.
pub open spec fn powershell_literal(path: Seq<char>) -> Seq<char> {
    seq!['\''] + double_quotes(path) + seq!['\'']
}

/// Writes a path as a single-quoted PowerShell string literal, doubling its single quotes.
pub fn powershell_path_literal(path: &str) -> (r: String)
    ensures
        r@ == powershell_literal(path@),
{
    let cs = crate::text::chars_of(path);
    let mut body = String::new();
    let mut i: usize = 0;
    while i < cs.len()
        invariant
            cs@ == path@,
            i <= cs@.len(),
            body@ == double_quotes(cs@.take(i as int)),
        decreases cs@.len() - i,
    {
        assert(cs@.take(i + 1).drop_last() =~= cs@.take(i as int));
        let ghost before = body@;
        if cs[i] == '\'' {
            push_char(&mut body, '\'');
            push_char(&mut body, '\'');
            assert(body@ =~= before + seq!['\'', '\'']);
        } else {
            push_char(&mut body, cs[i]);
        }
        i = i + 1;
    }
    assert(cs@.take(cs@.len() as int) =~= cs@);
    let mut r = String::new();
    push_char(&mut r, '\'');
    r.append(body.as_str());
    push_char(&mut r, '\'');
    assert(r@ =~= powershell_literal(path@));
    r
}

/// How PowerShell reads the inside of a single-quoted literal: a doubled quote stands for
/// one quote.
pub open spec fn undouble_quotes(s: Seq<char>) -> Seq<char>
    decreases s.len(),
{
    if s.len() >= 2 && s[0] == '\'' && s[1] == '\'' {
        seq!['\''] + undouble_quotes(s.skip(2))
    } else if s.len() >= 1 {
        seq![s[0]] + undouble_quotes(s.skip(1))
    } else {
        Seq::empty()
    }
}

proof fn lemma_undouble_double(a: Seq<char>, b: Seq<char>)
    ensures
        undouble_quotes(double_quotes(a) + b) == a + undouble_quotes(b),
        undouble_quotes(double_quotes(a)) == a,
    decreases a.len(),
{
    if a.len() == 0 {
        assert(double_quotes(a) + b =~= b);
        assert(Seq::<char>::empty() + undouble_quotes(b) =~= undouble_quotes(b));
    } else {
        let init = a.drop_last();
        let c = a.last();
        let tail = if c == '\'' {
            seq!['\'', '\'']
        } else {
            seq![c]
        };
        assert(double_quotes(a) =~= double_quotes(init) + tail);
        assert(double_quotes(a) + b =~= double_quotes(init) + (tail + b));
        lemma_undouble_double(init, tail + b);
        let tb = tail + b;
        if c == '\'' {
            assert(tb[0] == '\'' && tb[1] == '\'');
            assert(tb.skip(2) =~= b);
        } else {
            assert(tb[0] == c);
            assert(tb.skip(1) =~= b);
        }
        assert(undouble_quotes(tb) =~= seq![c] + undouble_quotes(b));
        assert(init + (seq![c] + undouble_quotes(b)) =~= a + undouble_quotes(b));
        lemma_undouble_double(init, tail);
        assert(undouble_quotes(Seq::<char>::empty()) =~= Seq::<char>::empty());
        if c == '\'' {
            assert(tail.skip(2) =~= Seq::<char>::empty());
            assert(undouble_quotes(tail) =~= seq!['\''] + undouble_quotes(tail.skip(2)));
        } else {
            assert(tail.skip(1) =~= Seq::<char>::empty());
            assert(undouble_quotes(tail) =~= seq![c] + undouble_quotes(tail.skip(1)));
        }
        assert(undouble_quotes(tail) =~= seq![c]);
        assert(double_quotes(a) =~= double_quotes(init) + tail);
        assert(init + seq![c] =~= a);
    }
}

/// The literal that `powershell_path_literal` writes is quoted, and PowerShell reads the
/// path back from it exactly.
pub proof fn lemma_powershell_literal_roundtrip(path: Seq<char>)
    ensures
        powershell_literal(path)[0] == '\'',
        powershell_literal(path).last() == '\'',
        undouble_quotes(
            powershell_literal(path).subrange(1, powershell_literal(path).len() - 1),
        ) == path,
{
    let lit = powershell_literal(path);
    assert(lit.subrange(1, lit.len() - 1) =~= double_quotes(path));
    lemma_undouble_double(path, Seq::empty());
}

/// The PowerShell command that runs the installer at `script_path` once the process `pid`
/// has exited, and then removes the installer.
pub open spec fn installer_command_spec(pid: nat, script_path: Seq<char>) -> Seq<char> {
    let literal = powershell_literal(script_path);
    "$ErrorActionPreference = 'Stop'; Wait-Process -Id "@ + decimal(pid)
        + " -ErrorAction SilentlyContinue; try { & "@ + literal + " } finally { Remove-Item -LiteralPath "@
        + literal + " -Force -ErrorAction SilentlyContinue }"@
}

/// Writes the PowerShell command that waits for the process `pid` to exit, runs the
/// installer at `script_path`, and removes it whether or not it succeeded.
pub fn installer_command(pid: u32, script_path: &str) -> (r: String)
    ensures
        r@ == installer_command_spec(pid as nat, script_path@),
{
    let literal = powershell_path_literal(script_path);
    let id = u64_text(pid as u64);
    let mut r = String::new();
    r.append("$ErrorActionPreference = 'Stop'; Wait-Process -Id ");
    r.append(id.as_str());
    r.append(" -ErrorAction SilentlyContinue; try { & ");
    r.append(literal.as_str());
    r.append(" } finally { Remove-Item -LiteralPath ");
    r.append(literal.as_str());
    r.append(" -Force -ErrorAction SilentlyContinue }");
    r
}

} // verus!
