//! The outside world as the commands meet it: Paper's tools, the steps of an upgrade, and
//! standard input and files, each used through a record of every exchange made with it.

use vstd::prelude::*;
use crate::cli::JsonInput;
use crate::context::PaperTools;
use crate::json::{JsonSpec, json_model, models};
use crate::upgrade::{CliUpdate, UpgradeSteps};

verus! {

/// One exchange with the outside world: what was asked, and what came back.
pub enum Event {
    /// Paper's live tool list was read: the tools, or the failure.
    ListTools(Result<Seq<JsonSpec>, Seq<char>>),
    /// The tool `name` was called with `arguments`: its result, or the failure.
    CallTool { name: Seq<char>, arguments: JsonSpec, answer: Result<JsonSpec, Seq<char>> },
    /// A progress note was announced.
    Announce(Seq<char>),
    /// The skill update ran: it succeeded, or failed with this message.
    UpdateSkill(Result<(), Seq<char>>),
    /// The CLI update ran: whether it was scheduled, or the failure.
    UpdateCli(Result<bool, Seq<char>>),
    /// It was asked whether standard input is a terminal.
    StdinIsTerminal(bool),
    /// Standard input was read: its text, or the failure.
    ReadStdin(Result<Seq<char>, Seq<char>>),
    /// The file at `path` was read: its text, or the failure.
    ReadFile { path: Seq<char>, read: Result<Seq<char>, Seq<char>> },
}

/// What reading the tool list gave.
pub open spec fn list_answer(r: Result<Vec<serde_json::Value>, String>) -> Result<
    Seq<JsonSpec>,
    Seq<char>,
> {
    match r {
        Ok(l) => Ok(models(l@)),
        Err(m) => Err(m@),
    }
}

/// What a tool call gave.
pub open spec fn call_answer(r: Result<serde_json::Value, String>) -> Result<JsonSpec, Seq<char>> {
    match r {
        Ok(v) => Ok(json_model(v)),
        Err(m) => Err(m@),
    }
}

/// What a read of text gave.
pub open spec fn text_answer(r: Result<String, String>) -> Result<Seq<char>, Seq<char>> {
    match r {
        Ok(t) => Ok(t@),
        Err(m) => Err(m@),
    }
}

/// What the skill update gave.
pub open spec fn skill_answer(r: Result<(), String>) -> Result<(), Seq<char>> {
    match r {
        Ok(()) => Ok(()),
        Err(m) => Err(m@),
    }
}

/// What the CLI update gave: whether it was scheduled, or the failure.
pub open spec fn cli_answer(r: Result<CliUpdate, String>) -> Result<bool, Seq<char>> {
    match r {
        Ok(c) => Ok(c.scheduled),
        Err(m) => Err(m@),
    }
}

/// Something of the outside world, with the record of every exchange made through this
/// value, in order.
pub struct Recorded<T> {
    pub inner: T,
    pub log: Ghost<Seq<Event>>,
}

impl<T> Recorded<T> {
    /// `inner`, with nothing recorded yet.
    pub fn new(inner: T) -> (r: Recorded<T>)
        ensures
            r.inner == inner,
            r.log@ == Seq::<Event>::empty(),
    {
        Recorded { inner, log: Ghost(Seq::empty()) }
    }
}

impl<T: PaperTools> Recorded<T> {
    /// Reads Paper's live tool list, and records it.
    pub fn list_tools(&mut self) -> (r: Result<Vec<serde_json::Value>, String>)
        ensures
            final(self).log@ == old(self).log@.push(Event::ListTools(list_answer(r))),
    {
        let r = self.inner.list_tools();
        self.log = Ghost(self.log@.push(Event::ListTools(list_answer(r))));
        r
    }

    /// Calls the tool `name` with `arguments`, and records the call and what it gave.
    pub fn call_tool(&mut self, name: &str, arguments: serde_json::Value) -> (r: Result<
        serde_json::Value,
        String,
    >)
        ensures
            final(self).log@ == old(self).log@.push(
                Event::CallTool { name: name@, arguments: json_model(arguments), answer: call_answer(r) },
            ),
    {
        let ghost sent = json_model(arguments);
        let r = self.inner.call_tool(name, arguments);
        self.log = Ghost(
            self.log@.push(Event::CallTool { name: name@, arguments: sent, answer: call_answer(r) }),
        );
        r
    }
}

impl<T: UpgradeSteps> Recorded<T> {
    /// Announces a progress note, and records it.
    pub fn announce(&mut self, message: &str)
        ensures
            final(self).log@ == old(self).log@.push(Event::Announce(message@)),
    {
        self.inner.announce(message);
        self.log = Ghost(self.log@.push(Event::Announce(message@)));
    }

    /// Runs the skill update, and records how it went.
    pub fn update_skill(&mut self) -> (r: Result<(), String>)
        ensures
            final(self).log@ == old(self).log@.push(Event::UpdateSkill(skill_answer(r))),
    {
        let r = self.inner.update_skill();
        self.log = Ghost(self.log@.push(Event::UpdateSkill(skill_answer(r))));
        r
    }

    /// Runs the CLI update, and records how it went.
    pub fn update_cli(&mut self) -> (r: Result<CliUpdate, String>)
        ensures
            final(self).log@ == old(self).log@.push(Event::UpdateCli(cli_answer(r))),
    {
        let r = self.inner.update_cli();
        self.log = Ghost(self.log@.push(Event::UpdateCli(cli_answer(r))));
        r
    }
}

impl<T: JsonInput> Recorded<T> {
    /// Asks whether standard input is a terminal, and records the answer.
    pub fn stdin_is_terminal(&mut self) -> (r: bool)
        ensures
            final(self).log@ == old(self).log@.push(Event::StdinIsTerminal(r)),
    {
        let r = self.inner.stdin_is_terminal();
        self.log = Ghost(self.log@.push(Event::StdinIsTerminal(r)));
        r
    }

    /// Reads standard input, and records what it gave.
    pub fn read_stdin(&mut self) -> (r: Result<String, String>)
        ensures
            final(self).log@ == old(self).log@.push(Event::ReadStdin(text_answer(r))),
    {
        let r = self.inner.read_stdin();
        self.log = Ghost(self.log@.push(Event::ReadStdin(text_answer(r))));
        r
    }

    /// Reads the file at `path`, and records what it gave.
    pub fn read_file(&mut self, path: &str) -> (r: Result<String, String>)
        ensures
            final(self).log@ == old(self).log@.push(
                Event::ReadFile { path: path@, read: text_answer(r) },
            ),
    {
        let r = self.inner.read_file(path);
        self.log = Ghost(self.log@.push(Event::ReadFile { path: path@, read: text_answer(r) }));
        r
    }
}

} // verus!
