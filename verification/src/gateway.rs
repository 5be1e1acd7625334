//! The front ends: from words typed by a person to a request, and from the
//! outcome of a call to the text that is shown.
//!
//! All front ends share the envelope and the caller. They differ in how the
//! operation and its arguments are collected: from a list of words, or from a
//! menu of the registry's operations.

use crate::caller::request;
use crate::command::frame;
use crate::error::{CodecFault, Error};
use crate::registry::{texts, CommandID, Registry};
use vstd::prelude::*;
use vstd::string::StringExecFns;

verus! {

/// What `serde_json::to_string_pretty` returns for a string: its JSON text,
/// or the message of the error.
pub uninterp spec fn json_text(s: Seq<char>) -> core::result::Result<Seq<char>, Seq<char>>;

/// What `format!` writes for a string under `{:?}`: the string between
/// quotes, with escapes.
pub uninterp spec fn debug_text(s: Seq<char>) -> Seq<char>;

/// `serde_json::to_string_pretty` on a `str`: the JSON text of the string,
/// or the message of the error it failed with.
#[verifier::external_body]
fn json_string(s: &str) -> (r: core::result::Result<String, String>)
    ensures
        match r {
            Ok(text) => json_text(s@) == Ok::<Seq<char>, Seq<char>>(text@),
            Err(message) => json_text(s@) == Err::<Seq<char>, Seq<char>>(message@),
        },
{
    match serde_json::to_string_pretty(s) {
        Ok(text) => Ok(text),
        Err(e) => Err(e.to_string()),
    }
}

/// `format!` with `{:?}` on a `str`.
#[verifier::external_body]
fn debug_string(s: &str) -> (r: String)
    ensures
        r@ == debug_text(s@),
{
    format!("{:?}", s)
}

/// How a terminal service runs.
#[derive(Clone, Copy, Debug, PartialEq, Eq)]
pub enum Mode {
    /// Collect commands from the menu and write them down.
    Input,
    /// Run the one command given on the command line.
    Run,
    /// Collect commands from the menu and run each.
    Terminal,
}

/// The number of leading words of a command line that belong to the program
/// itself.
pub const OWN_WORDS: usize = 3;

/// The words of `command` after the program's own, joined without a
/// separator.
pub open spec fn operand_text(command: Seq<Seq<char>>) -> Seq<char> {
    command.skip(OWN_WORDS as int).flatten()
}

/// The mode that a command line asks for, and the command it carries.
/// With fewer than four words there is no command: the mode is the menu. The
/// flag `-s` asks for the menu with a record of what was run, `-p` for the
/// menu that only writes commands down. Every other command line is one
/// command to run.
pub open spec fn selected_mode(command: Seq<Seq<char>>) -> (Mode, Option<Seq<char>>) {
    if command.len() <= OWN_WORDS {
        (Mode::Terminal, None)
    } else if command.contains("-s"@) {
        (Mode::Terminal, Some(operand_text(command)))
    } else if command.contains("-p"@) {
        (Mode::Input, None)
    } else {
        (Mode::Run, Some(operand_text(command)))
    }
}

/// Whether `word` occurs among `words`.
fn has_word(words: &Vec<String>, word: &str) -> (r: bool)
    ensures
        r == texts(words@).contains(word@),
{
    let wanted = word.to_owned();
    let mut i: usize = 0;
    while i < words.len()
        invariant
            0 <= i <= words.len(),
            wanted@ == word@,
            forall|k: int| 0 <= k < i ==> texts(words@)[k] != word@,
        decreases words.len() - i,
    {
        if words[i] == wanted {
            assert(texts(words@)[i as int] == word@);
            return true;
        }
        i += 1;
    }
    false
}

/// The words of `words` from position `from` on, joined without a separator.
fn joined(words: &Vec<String>, from: usize) -> (r: String)
    requires
        from <= words.len(),
    ensures
        r@ == texts(words@).skip(from as int).flatten(),
{
    let mut out = String::new();
    let mut i: usize = from;
    assert(texts(words@).subrange(from as int, i as int) =~= Seq::<Seq<char>>::empty());
    while i < words.len()
        invariant
            from <= i <= words.len(),
            out@ == texts(words@).subrange(from as int, i as int).flatten(),
        decreases words.len() - i,
    {
        proof {
            let before = texts(words@).subrange(from as int, i as int);
            assert(texts(words@).subrange(from as int, i + 1) =~= before.push(words@[i as int]@));
            before.lemma_flatten_push(words@[i as int]@);
        }
        out.append(words[i].as_str());
        i += 1;
    }
    assert(texts(words@).subrange(from as int, words.len() as int) =~= texts(words@).skip(
        from as int,
    ));
    out
}

impl Mode {
    /// Reads the mode and the command from a command line.
    pub fn select(command: &Vec<String>) -> (r: (Mode, Option<String>))
        ensures
            r.0 == selected_mode(texts(command@)).0,
            match selected_mode(texts(command@)).1 {
                Some(text) => r.1 matches Some(s) && s@ == text,
                None => r.1 is None,
            },
    {
        if command.len() < 4 {
            (Mode::Terminal, None)
        } else if has_word(command, "-s") {
            (Mode::Terminal, Some(joined(command, OWN_WORDS)))
        } else if has_word(command, "-p") {
            (Mode::Input, None)
        } else {
            (Mode::Run, Some(joined(command, OWN_WORDS)))
        }
    }
}

/// A command as a person gave it: the operation, and each argument as JSON
/// text, in order.
#[derive(Clone, Debug, PartialEq, Eq)]
pub struct Invocation {
    pub id: CommandID,
    pub args: Vec<String>,
}

/// Reads a command from a list of words: the first is the name of the
/// operation, the others are its arguments. Fails with [`Error::NoCmd`]
/// where the list is empty or its first word names no operation.
pub fn invocation(registry: &Registry, words: &Vec<String>) -> (r: Result<Invocation, Error>)
    ensures
        match r {
            Ok(inv) => {
                &&& words@.len() >= 1
                &&& registry.declares(inv.id)
                &&& registry@[inv.id.index as int] == words@[0]@
                &&& texts(inv.args@) == texts(words@).skip(1)
            },
            Err(e) => {
                &&& e == Error::NoCmd
                &&& words@.len() == 0 || !registry.names(words@[0]@)
            },
        },
{
    if words.len() == 0 {
        return Err(Error::NoCmd);
    }
    let id = match registry.try_from_name(words[0].as_str()) {
        Ok(id) => id,
        Err(e) => {
            return Err(e);
        },
    };
    let mut args: Vec<String> = Vec::new();
    let mut i: usize = 1;
    while i < words.len()
        invariant
            1 <= i <= words.len(),
            args@.len() == i - 1,
            forall|k: int| 0 <= k < args@.len() ==> args@[k]@ == words@[k + 1]@,
        decreases words.len() - i,
    {
        args.push(words[i].clone());
        i += 1;
    }
    assert(texts(args@) =~= texts(words@).skip(1));
    Ok(Invocation { id, args })
}

/// The operation at position `position` of the menu. Fails with
/// [`Error::NoCmd`] for a position past the end of the menu.
pub fn selection(registry: &Registry, position: usize) -> (r: Result<CommandID, Error>)
    ensures
        match r {
            Ok(id) => position < registry@.len() && id.index == position,
            Err(e) => position >= registry@.len() && e == Error::NoCmd,
        },
{
    if position < registry.len() {
        Ok(CommandID { index: position })
    } else {
        Err(Error::NoCmd)
    }
}

/// The items of the menu: the names of the operations, in the order of their
/// identifiers.
pub fn menu(registry: &Registry) -> (r: Vec<String>)
    ensures
        texts(r@) == registry@,
{
    let mut items: Vec<String> = Vec::new();
    let mut i: usize = 0;
    while i < registry.len()
        invariant
            0 <= i <= registry@.len(),
            items@.len() == i,
            forall|k: int| 0 <= k < items@.len() ==> items@[k]@ == registry@[k],
        decreases registry@.len() - i,
    {
        match registry.name(CommandID { index: i }) {
            Some(name) => {
                items.push(name.to_owned());
            },
            None => {},
        }
        i += 1;
    }
    assert(texts(items@) =~= registry@);
    items
}

/// The text of an error as a person reads it. A fault of the service itself
/// is described in the service's own words, every other error in its own.
pub open spec fn error_text(e: Error, service_words: Seq<char>) -> Seq<char> {
    if e is ServiceError {
        service_words
    } else {
        e.text()
    }
}

/// Describes an error for display. `service_words` is what the service has to
/// say of its own faults.
pub fn handle_error(e: &Error, service_words: &str) -> (r: String)
    ensures
        r@ == error_text(*e, service_words@),
{
    match e {
        Error::ServiceError(_) => service_words.to_owned(),
        _ => e.to_string(),
    }
}

/// What is shown for a piece of text, given what came of writing it as JSON:
/// the JSON, or else the message of the failure.
pub fn shown(json: core::result::Result<String, String>) -> (r: String)
    ensures
        r@ == match json {
            Ok(text) => text@,
            Err(message) => message@,
        },
{
    match json {
        Ok(text) => text,
        Err(message) => message,
    }
}

/// The text shown for the outcome of a call.
pub open spec fn rendered(
    outcome: core::result::Result<String, Error>,
    service_words: Seq<char>,
) -> Seq<char> {
    match outcome {
        Ok(text) => text@,
        Err(e) => match json_text(error_text(e, service_words)) {
            Ok(text) => text,
            Err(message) => message,
        },
    }
}

/// Renders the outcome of a call as text. A result is shown as it is given:
/// the JSON that the host made of the reply. A failure, remote or local, is
/// shown as the JSON text of its description, and never raised: the outcome
/// of a call is always something to print.
pub fn render(outcome: core::result::Result<String, Error>, service_words: &str) -> (r: String)
    ensures
        r@ == rendered(outcome, service_words@),
{
    match outcome {
        Ok(text) => text,
        Err(e) => {
            let words = handle_error(&e, service_words);
            shown(json_string(words.as_str()))
        },
    }
}


/// What a front end does with a command it has collected.
#[derive(Debug, PartialEq, Eq)]
pub enum Outgoing {
    /// Send this request.
    Send(Vec<u8>),
    /// Send nothing, and show this text.
    Show(String),
}

/// The text shown for a call that failed with `e`.
pub open spec fn failure_text(e: Error, service_words: Seq<char>) -> Seq<char> {
    rendered(Err(e), service_words)
}

/// Decides what goes out for the operation `id`, given what came of
/// converting its arguments to their wire types and encoding them. A
/// conversion that failed, arguments that the codec could not encode and an
/// operation that the registry does not hold end the call before anything is
/// sent: the failure is shown instead.
pub fn prepare(
    registry: &Registry,
    id: CommandID,
    converted: core::result::Result<core::result::Result<Vec<u8>, CodecFault>, Error>,
    service_words: &str,
) -> (r: Outgoing)
    ensures
        match converted {
            Err(e) => r matches Outgoing::Show(text) && text@ == failure_text(e, service_words@),
            Ok(_) if !registry.declares(id) => r matches Outgoing::Show(text) && text@
                == failure_text(Error::NoCmd, service_words@),
            Ok(Err(fault)) => r matches Outgoing::Show(text) && text@ == failure_text(
                Error::Bincode(fault.code()),
                service_words@,
            ),
            Ok(Ok(data)) => r matches Outgoing::Send(bytes) && bytes@ == frame(
                registry.code(id),
                data@,
            ),
        },
{
    let failure = match converted {
        Ok(encoded) => match request(registry, id, encoded) {
            Ok(bytes) => {
                return Outgoing::Send(bytes);
            },
            Err(e) => e,
        },
        Err(e) => e,
    };
    Outgoing::Show(render(Err(failure), service_words))
}

/// The file that a session appends to.
#[derive(Clone, Copy, Debug, PartialEq, Eq)]
pub enum Journal {
    /// The commands that were collected.
    Commands,
    /// What was shown for the commands that were run.
    Output,
}

impl Journal {
    /// The name of the file.
    pub open spec fn file(self) -> Seq<char> {
        match self {
            Journal::Commands => "command.txt"@,
            Journal::Output => "output.txt"@,
        }
    }

    /// The name of the file.
    pub fn file_name(self) -> (r: &'static str)
        ensures
            r@ == self.file(),
    {
        match self {
            Journal::Commands => "command.txt",
            Journal::Output => "output.txt",
        }
    }
}

/// What the host does next in a session.
#[derive(Clone, Debug, PartialEq, Eq)]
pub enum Step {
    /// Ask the person for a command and come back with it.
    Prompt,
    /// Forward this command to the service and come back with what is shown
    /// for it.
    Forward(String),
    /// Stop.
    Done,
}

/// What one turn of a session asks of the host: a line to print, a line to
/// append to a journal, and the step after that.
#[derive(Clone, Debug, PartialEq, Eq)]
pub struct Turn {
    pub print: Option<String>,
    pub record: Option<(Journal, String)>,
    pub next: Step,
}

/// A line of a journal: the name of the program, then the text.
pub open spec fn journal_line(app_name: Seq<char>, text: Seq<char>) -> Seq<char> {
    app_name + ": "@ + text
}

/// The notice printed for a command that was written down.
pub open spec fn written_notice(line: Seq<char>) -> Seq<char> {
    "Write to file: "@ + line
}

/// A terminal session: the mode it runs in, the command it was started with,
/// and the name it signs its journals with.
pub struct Session {
    pub mode: Mode,
    pub command: Option<String>,
    pub app_name: String,
}

impl Session {
    /// The session that the command line `command` asks for.
    pub fn new(app_name: String, command: &Vec<String>) -> (r: Session)
        ensures
            r.app_name@ == app_name@,
            r.mode == selected_mode(texts(command@)).0,
            match selected_mode(texts(command@)).1 {
                Some(text) => r.command matches Some(s) && s@ == text,
                None => r.command is None,
            },
    {
        let (mode, command) = Mode::select(command);
        Session { mode, command, app_name }
    }

    fn line(&self, text: &str) -> (r: String)
        ensures
            r@ == journal_line(self.app_name@, text@),
    {
        let mut line = self.app_name.clone();
        line.append(": ");
        line.append(text);
        line
    }

    /// The first step. A session that runs one command forwards it; the
    /// others ask for a command. A session that is to run a command and has
    /// none is done.
    pub fn start(&self) -> (r: Step)
        ensures
            match r {
                Step::Prompt => self.mode != Mode::Run,
                Step::Forward(text) => {
                    &&& self.mode == Mode::Run
                    &&& self.command matches Some(c)
                    &&& text@ == c@
                },
                Step::Done => self.mode == Mode::Run && self.command is None,
            },
    {
        match self.mode {
            Mode::Run => match &self.command {
                Some(c) => Step::Forward(c.clone()),
                None => Step::Done,
            },
            _ => Step::Prompt,
        }
    }

    /// The turn after the person was asked for a command. A failure to
    /// collect one is printed, and the person is asked again. A command is
    /// written to the journal of commands where the session only collects,
    /// and forwarded where it runs them.
    pub fn entered(&self, input: core::result::Result<String, Error>) -> (r: Turn)
        ensures
            match (self.mode, input) {
                (Mode::Run, _) => r.print is None && r.record is None && r.next == Step::Done,
                (_, Err(e)) => {
                    &&& r.print matches Some(p)
                    &&& p@ == e.text()
                    &&& r.record is None
                    &&& r.next == Step::Prompt
                },
                (Mode::Input, Ok(text)) => {
                    &&& r.print matches Some(p)
                    &&& p@ == written_notice(journal_line(self.app_name@, text@))
                    &&& r.record matches Some(entry)
                    &&& entry.0 == Journal::Commands
                    &&& entry.1@ == journal_line(self.app_name@, text@)
                    &&& r.next == Step::Prompt
                },
                (Mode::Terminal, Ok(text)) => {
                    &&& r.print is None
                    &&& r.record is None
                    &&& r.next matches Step::Forward(f)
                    &&& f@ == text@
                },
            },
    {
        match self.mode {
            Mode::Run => Turn { print: None, record: None, next: Step::Done },
            Mode::Input => match input {
                Ok(text) => {
                    let line = self.line(text.as_str());
                    let mut notice = "Write to file: ".to_owned();
                    notice.append(line.as_str());
                    Turn {
                        print: Some(notice),
                        record: Some((Journal::Commands, line)),
                        next: Step::Prompt,
                    }
                },
                Err(e) => Turn { print: Some(e.to_string()), record: None, next: Step::Prompt },
            },
            Mode::Terminal => match input {
                Ok(text) => Turn { print: None, record: None, next: Step::Forward(text) },
                Err(e) => Turn { print: Some(e.to_string()), record: None, next: Step::Prompt },
            },
        }
    }

    /// The turn after a command was forwarded, given what is shown for it.
    /// A session that runs one command prints and records the journal line
    /// and is done. A session at the menu prints what is shown, records it
    /// where it was started with a command, and asks for the next.
    pub fn answered(&self, shown: String) -> (r: Turn)
        ensures
            match self.mode {
                Mode::Input => r.print is None && r.record is None && r.next == Step::Prompt,
                Mode::Run => {
                    &&& r.print matches Some(p)
                    &&& p@ == journal_line(self.app_name@, debug_text(shown@))
                    &&& r.record matches Some(entry)
                    &&& entry.0 == Journal::Output
                    &&& entry.1@ == journal_line(self.app_name@, debug_text(shown@))
                    &&& r.next == Step::Done
                },
                Mode::Terminal => {
                    &&& r.print matches Some(p)
                    &&& p@ == shown@
                    &&& r.next == Step::Prompt
                    &&& match self.command {
                        Some(_) => {
                            &&& r.record matches Some(entry)
                            &&& entry.0 == Journal::Output
                            &&& entry.1@ == journal_line(self.app_name@, debug_text(shown@))
                        },
                        None => r.record is None,
                    }
                },
            },
    {
        match self.mode {
            Mode::Input => Turn { print: None, record: None, next: Step::Prompt },
            Mode::Run => {
                let line = self.line(debug_string(shown.as_str()).as_str());
                Turn {
                    print: Some(line.clone()),
                    record: Some((Journal::Output, line)),
                    next: Step::Done,
                }
            },
            Mode::Terminal => {
                let record = match &self.command {
                    Some(_) => Some(
                        (Journal::Output, self.line(debug_string(shown.as_str()).as_str())),
                    ),
                    None => None,
                };
                Turn { print: Some(shown), record, next: Step::Prompt }
            },
        }
    }
}

} // verus!
