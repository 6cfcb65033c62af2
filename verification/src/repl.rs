//! The engine: read, evaluate and print, each phase a type of its own.
//!
//! An engine in one phase offers the one transition of that phase, which
//! consumes it and hands back the engine in the next phase. Reading lines,
//! running the compiler and writing text are done by the caller between the
//! transitions: each transition takes what the caller obtained and says what
//! the caller is to do next.

use vstd::prelude::*;
use vstd::string::*;
use crate::command::{
    help_response, lookup, not_found_text, CommandAction, Commands,
};
use crate::data::{texts, Colour, ReplData, SessionView};
use crate::input::{
    classify_event, pending_after_event, Classified, EditMode, InputEvent, InputReader,
    InputResult,
};

verus! {

/// The phase in which input is read.
#[derive(Debug)]
pub struct Read;

/// The phase in which classified input is evaluated.
#[derive(Debug)]
pub struct Evaluate {
    /// The classification of what was read.
    pub result: InputResult,
}

/// The phase in which a result is written.
#[derive(Debug)]
pub struct Print {
    /// The text to write.
    pub to_write: String,
    /// Whether the text is a result, and not an error.
    pub as_out: bool,
}

/// An action that the embedding application performs itself.
#[derive(Debug)]
pub struct ExternalCall {
    /// The tag of the action.
    pub tag: u32,
    /// The argument text of the command.
    pub args: String,
}

/// The phase after a command that sees to its own output.
#[derive(Debug)]
pub struct ManualPrint {
    /// The action that the application is to perform, if the command has one.
    pub external: Option<ExternalCall>,
}

/// The engine, in the phase `S`. Its fields are its own: an engine in a
/// phase comes only from the transition that leads there.
#[derive(Debug)]
pub struct Repl<S> {
    state: S,
    data: ReplData,
    input: InputReader,
}

/// What an engine holds.
pub ghost struct ReplView<S> {
    /// The phase, with what it carries.
    pub state: S,
    /// The session state.
    pub data: ReplData,
    /// The lines read of a unit that is not yet complete.
    pub pending: Seq<char>,
}

impl<S> View for Repl<S> {
    type V = ReplView<S>;

    closed spec fn view(&self) -> ReplView<S> {
        ReplView { state: self.state, data: self.data, pending: self.input.buffer@ }
    }
}

impl<S> Repl<S> {
    /// The phase, with what it carries.
    pub fn state(&self) -> (state: &S)
        ensures
            *state == self@.state,
    {
        &self.state
    }

    /// The session state.
    pub fn data(&self) -> (data: &ReplData)
        ensures
            *data == self@.data,
    {
        &self.data
    }
}

/// What a source unit waits for: the answer of the compiler. It comes
/// only from the evaluation of a source unit.
#[derive(Debug)]
pub struct Compilation {
    unit: String,
    data: ReplData,
    input: InputReader,
}

/// What a pending compilation holds.
pub ghost struct CompilationView {
    /// The unit to compile on top of the library buffer.
    pub unit: Seq<char>,
    /// The session state, with the buffers, the linking configuration and
    /// the compilation directory that the compiler is to use.
    pub data: ReplData,
    /// The lines read of a unit that is not yet complete.
    pub pending: Seq<char>,
}

impl View for Compilation {
    type V = CompilationView;

    closed spec fn view(&self) -> CompilationView {
        CompilationView { unit: self.unit@, data: self.data, pending: self.input.buffer@ }
    }
}

/// What reading one event led to.
#[derive(Debug)]
pub enum ReadStep {
    /// The unit is incomplete: read another line, with the continuation prompt.
    Again(Repl<Read>),
    /// The input is classified: evaluate it.
    Done(Repl<Evaluate>),
}

/// What evaluating led to.
#[derive(Debug)]
pub enum Evaluation {
    /// A text is ready to be written.
    Print(Repl<Print>),
    /// Nothing is to be written by the engine.
    ManualPrint(Repl<ManualPrint>),
    /// A source unit is to be compiled and run.
    Compile(Compilation),
}

/// Why the loop ends.
#[derive(Debug)]
pub enum EvalSignal {
    /// The input has ended.
    Exit,
    /// The input could not be read, with the reason.
    InputError(String),
}

/// How a text is to be shown.
#[derive(Clone, Copy, PartialEq, Eq, Debug, Structural)]
pub enum Style {
    /// The result of an evaluation.
    Result,
    /// An error.
    Error,
}

/// What the print phase hands to the output sink.
#[derive(Debug)]
pub struct Output {
    /// The text, as it is to appear.
    pub text: String,
    /// What the text is.
    pub style: Style,
    /// The colour that the session asks for; none for an error.
    pub colour: Option<Colour>,
}

/// The prompt: the session's name, a mark of the mutable-block mode, and
/// `=> ` before a new unit or `.> ` before the continuation of one.
pub open spec fn prompt_text(mode: EditMode, pending: bool) -> Seq<char> {
    "papyrus"@ + (if mode == EditMode::MutableBlock {
        "-mut"@
    } else {
        Seq::empty()
    }) + (if pending {
        ".> "@
    } else {
        "=> "@
    })
}

/// The name that a help command is asked about: its argument text, if there is any.
pub open spec fn help_subject(rest: Seq<char>) -> Option<Seq<char>> {
    if rest.len() == 0 {
        None
    } else {
        Some(rest)
    }
}

/// The session after a unit was compiled and run: the unit is the last of
/// the library buffer, and a mutable block, if one was open, is over.
pub open spec fn committed(session: SessionView, unit: Seq<char>) -> SessionView {
    SessionView { library: session.library.push(unit), mode: EditMode::Normal, ..session }
}

/// The session after each of `units` was compiled and run, in order.
pub open spec fn committed_all(session: SessionView, units: Seq<Seq<char>>) -> SessionView
    decreases units.len(),
{
    if units.len() == 0 {
        session
    } else {
        committed(committed_all(session, units.drop_last()), units.last())
    }
}

/// The session after the compiler has answered for `unit`.
pub open spec fn after_compile(
    session: SessionView,
    unit: Seq<char>,
    succeeded: bool,
) -> SessionView {
    if succeeded {
        committed(session, unit)
    } else {
        session
    }
}

impl Repl<Read> {
    /// An engine about to read its first line.
    pub fn new(data: ReplData) -> (repl: Self)
        ensures
            repl@.data == data,
            repl@.pending.len() == 0,
    {
        Repl { state: Read, data: data, input: InputReader::new() }
    }

    /// The prompt for the next line.
    pub fn prompt(&self) -> (text: String)
        ensures
            text@ == prompt_text(self@.data.mode, self@.pending.len() > 0),
    {
        let mut text = String::from_str("papyrus");
        match self.data.mode {
            EditMode::MutableBlock => text.append("-mut"),
            EditMode::Normal => {},
        }
        if self.input.is_pending() {
            text.append(".> ");
        } else {
            text.append("=> ");
        }
        text
    }

    /// Takes what the line source delivered. An incomplete unit keeps the
    /// engine reading; everything else is carried into the evaluate phase.
    /// The session state is not touched.
    pub fn read(self, event: InputEvent) -> (step: ReadStep)
        ensures
            match classify_event(self@.pending, event, self@.data.mode) {
                Classified::More => step matches ReadStep::Again(r) && r@.data == self@.data
                    && r@.pending == pending_after_event(self@.pending, event, self@.data.mode)
                    && r@.pending.len() > 0,
                other => step matches ReadStep::Done(e) && e@.data == self@.data
                    && e@.state.result@ == other && e@.pending.len() == 0,
            },
    {
        let Repl { state: _, data, input } = self;
        let mut input = input;
        let result = input.handle_event(event, data.mode);
        match result {
            InputResult::More => ReadStep::Again(Repl { state: Read, data: data, input: input }),
            other => ReadStep::Done(
                Repl { state: Evaluate { result: other }, data: data, input: input },
            ),
        }
    }
}

impl Repl<Evaluate> {
    /// Evaluates what was read.
    ///
    /// A command is looked up in the registry. An unknown name gives the
    /// not-found text to print, as an error. The built-in command switches
    /// the session to the mutable-block mode and prints nothing; the help
    /// command gives the help text to print; a command of the application
    /// is handed over to it, and the engine prints nothing.
    /// A source unit is handed over for compilation, with the session
    /// untouched. The end of the input and an input error end the loop.
    /// An incomplete unit, which the read phase never passes on, leaves
    /// nothing to do.
    pub fn eval(self) -> (step: Result<Evaluation, EvalSignal>)
        ensures
            match self@.state.result@ {
                Classified::Command(name, rest) => match lookup(self@.data@.commands, name) {
                    None => step matches Ok(Evaluation::Print(p)) && p@.data == self@.data
                        && p@.pending == self@.pending && p@.state.to_write@ == not_found_text(name)
                        && !p@.state.as_out,
                    Some(c) => match c.action {
                        CommandAction::BeginMutBlock => step matches Ok(
                            Evaluation::ManualPrint(m),
                        ) && m@.pending == self@.pending && m@.state.external.is_none() && m@.data@ == (
                        SessionView { mode: EditMode::MutableBlock, ..self@.data@ }),
                        CommandAction::Help => step matches Ok(Evaluation::Print(p)) && p@.data
                            == self@.data && p@.pending == self@.pending && p@.state.to_write@
                            == help_response(self@.data@.commands, help_subject(rest))
                            && p@.state.as_out,
                        CommandAction::External(tag) => step matches Ok(
                            Evaluation::ManualPrint(m),
                        ) && m@.data == self@.data && m@.pending == self@.pending && (
                        m@.state.external matches Some(call) && call.tag == tag && call.args@
                            == rest),
                    },
                },
                Classified::Program(text) => step matches Ok(Evaluation::Compile(job)) && job@.data
                    == self@.data && job@.pending == self@.pending && job@.unit == text,
                Classified::More => step matches Ok(Evaluation::ManualPrint(m)) && m@.data
                    == self@.data && m@.pending == self@.pending && m@.state.external.is_none(),
                Classified::Eof => step matches Err(EvalSignal::Exit),
                Classified::InputError(message) => step matches Err(EvalSignal::InputError(m))
                    && m@ == message,
            },
            self@.data.wf() ==> match step {
                Ok(Evaluation::Print(p)) => p@.data.wf(),
                Ok(Evaluation::ManualPrint(m)) => m@.data.wf(),
                Ok(Evaluation::Compile(job)) => job@.data.wf(),
                Err(_) => true,
            },
    {
        let Repl { state, data, input } = self;
        match state.result {
            InputResult::Command(name, rest) => {
                match data.cmdtree.find_command(name.as_str()) {
                    Err(text) => Ok(
                        Evaluation::Print(
                            Repl {
                                state: Print { to_write: text, as_out: false },
                                data: data,
                                input: input,
                            },
                        ),
                    ),
                    Ok(cmd) => match cmd.action {
                        CommandAction::BeginMutBlock => {
                            let mut data = data;
                            data.mode = EditMode::MutableBlock;
                            Ok(
                                Evaluation::ManualPrint(
                                    Repl {
                                        state: ManualPrint { external: None },
                                        data: data,
                                        input: input,
                                    },
                                ),
                            )
                        },
                        CommandAction::Help => {
                            let text = if rest.as_str().unicode_len() == 0 {
                                data.cmdtree.build_help_response(None)
                            } else {
                                data.cmdtree.build_help_response(Some(rest.as_str()))
                            };
                            Ok(
                                Evaluation::Print(
                                    Repl {
                                        state: Print { to_write: text, as_out: true },
                                        data: data,
                                        input: input,
                                    },
                                ),
                            )
                        },
                        CommandAction::External(tag) => Ok(
                            Evaluation::ManualPrint(
                                Repl {
                                    state: ManualPrint {
                                        external: Some(ExternalCall { tag: tag, args: rest }),
                                    },
                                    data: data,
                                    input: input,
                                },
                            ),
                        ),
                    },
                }
            },
            InputResult::Program(text) => Ok(
                Evaluation::Compile(Compilation { unit: text, data: data, input: input }),
            ),
            InputResult::More => Ok(
                Evaluation::ManualPrint(
                    Repl { state: ManualPrint { external: None }, data: data, input: input },
                ),
            ),
            InputResult::Eof => Err(EvalSignal::Exit),
            InputResult::InputError(message) => Err(EvalSignal::InputError(message)),
        }
    }
}

impl Compilation {
    /// The unit to compile.
    pub fn unit(&self) -> (unit: &String)
        ensures
            unit@ == self@.unit,
    {
        &self.unit
    }

    /// The session state that the compiler is to use.
    pub fn data(&self) -> (data: &ReplData)
        ensures
            *data == self@.data,
    {
        &self.data
    }

    /// Takes the compiler's answer. On success the unit is appended to the
    /// library buffer, a mutable block is over, and what the run produced is
    /// to be printed as a result. On failure the session is exactly what it
    /// was before the attempt, and the diagnostics are to be printed as an error.
    pub fn complete(self, outcome: Result<String, String>) -> (repl: Repl<Print>)
        ensures
            repl@.pending == self@.pending,
            repl@.data@ == after_compile(self@.data@, self@.unit, outcome.is_ok()),
            match outcome {
                Ok(produced) => repl@.state.to_write@ == produced@ && repl@.state.as_out,
                Err(diagnostics) => repl@.data == self@.data && repl@.state.to_write@ == diagnostics@
                    && !repl@.state.as_out,
            },
            self@.data.wf() ==> repl@.data.wf(),
    {
        let Compilation { unit, data, input } = self;
        match outcome {
            Ok(produced) => {
                let mut data = data;
                let ghost before = data.lib.items@;
                data.lib.items.push(unit);
                data.mode = EditMode::Normal;
                proof {
                    assert(texts(data.lib.items@) =~= texts(before).push(unit@));
                }
                Repl { state: Print { to_write: produced, as_out: true }, data: data, input: input }
            },
            Err(diagnostics) => Repl {
                state: Print { to_write: diagnostics, as_out: false },
                data: data,
                input: input,
            },
        }
    }
}

impl Repl<Print> {
    /// Hands the carried text to the caller to write, tagged as a result in
    /// the session's output colour or as an error, and goes back to reading
    /// with the same session.
    pub fn print(self) -> (next: (Repl<Read>, Output))
        ensures
            next.0@.data == self@.data,
            next.0@.pending == self@.pending,
            next.1.text == self@.state.to_write,
            next.1.style == (if self@.state.as_out {
                Style::Result
            } else {
                Style::Error
            }),
            next.1.colour == (if self@.state.as_out {
                Some(self@.data.out_colour)
            } else {
                None
            }),
    {
        let Repl { state, data, input } = self;
        let output = if state.as_out {
            Output { text: state.to_write, style: Style::Result, colour: Some(data.out_colour) }
        } else {
            Output { text: state.to_write, style: Style::Error, colour: None }
        };
        (Repl { state: Read, data: data, input: input }, output)
    }
}

impl Repl<ManualPrint> {
    /// Goes back to reading with the same session. Nothing is written: the
    /// command has seen to its output.
    pub fn print(self) -> (next: Repl<Read>)
        ensures
            next@.data == self@.data,
            next@.pending == self@.pending,
    {
        let Repl { state: _, data, input } = self;
        Repl { state: Read, data: data, input: input }
    }
}

/// The library buffer only grows, and in order: after any units were
/// compiled and run one after the other, it holds what it held before,
/// followed by those units as they came. Nothing else of the session changes
/// but the edit mode, which is normal once a unit has run.
pub proof fn lemma_commits_append_in_order(session: SessionView, units: Seq<Seq<char>>)
    ensures
        committed_all(session, units).library == session.library + units,
        committed_all(session, units) == (SessionView {
            library: session.library + units,
            mode: if units.len() == 0 {
                session.mode
            } else {
                EditMode::Normal
            },
            ..session
        }),
    decreases units.len(),
{
    if units.len() == 0 {
        assert(session.library + units =~= session.library);
    } else {
        lemma_commits_append_in_order(session, units.drop_last());
        assert((session.library + units.drop_last()).push(units.last()) =~= session.library
            + units);
    }
}

/// A failed compilation is a no-op on the session: whatever the unit was,
/// the session after the failure is the session before the attempt.
pub proof fn lemma_failure_rolls_back(session: SessionView, unit: Seq<char>)
    ensures
        after_compile(session, unit, false) == session,
        after_compile(session, unit, false).library == session.library,
{
}

} // verus!
