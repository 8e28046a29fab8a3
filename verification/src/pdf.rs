//! A build of the document, step by step, and the session that repeats it
//! whenever the source changes.
//!
//! The session does no work on files itself. It says which action comes
//! next, the caller performs it and reports what came of it as an event, and
//! the session answers with the action after that.

use crate::filename::{file_stem, stem};
use crate::resume::Resume;
use vstd::prelude::*;
use vstd::string::StringExecFns;

verus! {

/// Returns the name of the file that stands beside `file` with the ending
/// `to`: the stem of `file`, followed by `to`. `file` must end in `from`.
pub fn swap_stem(file: &str, from: &str, to: &str) -> (out: String)
    requires
        from@.is_suffix_of(file@),
    ensures
        out@ == file_stem(file@) + to@,
{
    let mut out = String::from_str(stem(file));
    out.append(to);
    out
}

/// How a session goes on when a build has ended.
#[derive(Clone, Copy, Debug, PartialEq, Eq, Structural)]
pub enum Mode {
    /// One build, then the session is over.
    Once,
    /// A build for every change of the source, until the notifications end.
    Watch,
}

/// Where a session stands.
#[derive(Clone, Copy, Debug, PartialEq, Eq, Structural)]
pub enum Phase {
    /// Nothing is under way.
    Idle,
    /// The source is being read.
    Reading,
    /// The text of the source is being parsed.
    Parsing,
    /// The markup is being written.
    WritingMarkup,
    /// The markup is being compiled.
    Compiling,
    /// The compiled document is being written.
    WritingOutput,
    /// The next change of the source is awaited.
    Waiting,
}

/// Why a build failed.
#[derive(Clone, Copy, Debug, PartialEq, Eq, Structural)]
pub enum BuildError {
    /// The source could not be read.
    FileRead,
    /// The source does not hold a résumé: a field is missing or of the wrong
    /// type.
    Schema,
    /// The compiler did not accept the markup.
    Compilation,
    /// A file could not be written.
    FileWrite,
}

/// What a notification says has happened to the source.
#[derive(Clone, Copy, Debug, PartialEq, Eq, Structural)]
pub enum Change {
    /// It was closed after having been written to.
    WriteClosed,
    /// Anything else.
    Other,
}

/// What came of the action that the session asked for.
#[derive(Debug, PartialEq, Eq)]
pub enum Event {
    /// The source was read: its text.
    Read(String),
    /// The text was parsed: the résumé.
    Parsed(Resume),
    /// The file was written.
    Written,
    /// The markup was compiled: the bytes of the document.
    Compiled(Vec<u8>),
    /// The action failed.
    Failed,
    /// A notification came while waiting.
    Changed(Change),
    /// No more notifications will come.
    Closed,
}

/// What the caller is to do next.
#[derive(Debug, PartialEq, Eq)]
pub enum Action {
    /// Read the file at `path` and answer with its text.
    Read { path: String },
    /// Parse `text` and answer with the résumé.
    Parse { text: String },
    /// Write `text` to the file `name` beside the source.
    WriteMarkup { name: String, text: String },
    /// Compile `markup` and answer with the bytes of the document.
    Compile { markup: String },
    /// Write `bytes` to the file `name` beside the source.
    WriteOutput { name: String, bytes: Vec<u8> },
    /// Have changes of the file at `path` notified, and wait for the first.
    Watch { path: String },
    /// Wait for the next notification.
    Wait,
    /// Report `error`, then wait for the next notification.
    Report { error: BuildError },
    /// Report `error` and end with a failure.
    Abort { error: BuildError },
    /// End with success.
    Finish,
    /// Nothing: the event was none that the session awaited.
    Nothing,
}

/// An event as the session sees it: of a résumé, only its markup.
pub enum EventView {
    Read(Seq<char>),
    Parsed(Seq<char>),
    Written,
    Compiled(Seq<u8>),
    Failed,
    Changed(Change),
    Closed,
}

/// An action with the content of its strings and bytes.
pub enum ActionView {
    Read { path: Seq<char> },
    Parse { text: Seq<char> },
    WriteMarkup { name: Seq<char>, text: Seq<char> },
    Compile { markup: Seq<char> },
    WriteOutput { name: Seq<char>, bytes: Seq<u8> },
    Watch { path: Seq<char> },
    Wait,
    Report { error: BuildError },
    Abort { error: BuildError },
    Finish,
    Nothing,
}

/// The state of a session.
pub struct SessionView {
    /// The path of the source.
    pub src: Seq<char>,
    /// The name of the file for the markup.
    pub markup_name: Seq<char>,
    /// The name of the file for the compiled document.
    pub output_name: Seq<char>,
    /// Whether a build compiles the markup.
    pub compile: bool,
    pub mode: Mode,
    pub phase: Phase,
    /// The markup of the build under way, from the moment it is handed out
    /// for writing until it is handed out for compiling; empty otherwise.
    pub markup: Seq<char>,
}

impl View for Event {
    type V = EventView;

    open spec fn view(&self) -> EventView {
        match self {
            Event::Read(text) => EventView::Read(text@),
            Event::Parsed(resume) => EventView::Parsed(resume.tex()),
            Event::Written => EventView::Written,
            Event::Compiled(bytes) => EventView::Compiled(bytes@),
            Event::Failed => EventView::Failed,
            Event::Changed(change) => EventView::Changed(*change),
            Event::Closed => EventView::Closed,
        }
    }
}

impl View for Action {
    type V = ActionView;

    open spec fn view(&self) -> ActionView {
        match self {
            Action::Read { path } => ActionView::Read { path: path@ },
            Action::Parse { text } => ActionView::Parse { text: text@ },
            Action::WriteMarkup { name, text } => ActionView::WriteMarkup {
                name: name@,
                text: text@,
            },
            Action::Compile { markup } => ActionView::Compile { markup: markup@ },
            Action::WriteOutput { name, bytes } => ActionView::WriteOutput {
                name: name@,
                bytes: bytes@,
            },
            Action::Watch { path } => ActionView::Watch { path: path@ },
            Action::Wait => ActionView::Wait,
            Action::Report { error } => ActionView::Report { error: *error },
            Action::Abort { error } => ActionView::Abort { error: *error },
            Action::Finish => ActionView::Finish,
            Action::Nothing => ActionView::Nothing,
        }
    }
}

/// A session that has just been opened on the source `src`: idle, its
/// builds compiling, and their files named by the stem of `src`, with
/// `.tex` for the markup and `.pdf` for the document.
pub open spec fn opened(src: Seq<char>) -> SessionView {
    SessionView {
        src,
        markup_name: file_stem(src) + ".tex"@,
        output_name: file_stem(src) + ".pdf"@,
        compile: true,
        mode: Mode::Once,
        phase: Phase::Idle,
        markup: Seq::empty(),
    }
}

/// The session `s` with a single build begun: the source is being read.
pub open spec fn building(s: SessionView) -> SessionView {
    SessionView { mode: Mode::Once, phase: Phase::Reading, markup: Seq::empty(), ..s }
}

/// The session `s` set to watch: the first change is awaited.
pub open spec fn watching(s: SessionView) -> SessionView {
    SessionView { mode: Mode::Watch, phase: Phase::Waiting, markup: Seq::empty(), ..s }
}

/// The session in the phase `phase`, holding the markup `markup`.
pub open spec fn moved(s: SessionView, phase: Phase, markup: Seq<char>) -> SessionView {
    SessionView { phase, markup, ..s }
}

/// How a build that went well ends: a single build ends the session, and in
/// watch mode the session waits for the next change.
pub open spec fn settled(s: SessionView) -> (SessionView, ActionView) {
    match s.mode {
        Mode::Once => (moved(s, Phase::Idle, Seq::empty()), ActionView::Finish),
        Mode::Watch => (moved(s, Phase::Waiting, Seq::empty()), ActionView::Wait),
    }
}

/// How a build that failed ends: a single build is aborted with the error,
/// and in watch mode the error is reported and the session waits for the
/// next change.
pub open spec fn failed(s: SessionView, error: BuildError) -> (SessionView, ActionView) {
    match s.mode {
        Mode::Once => (moved(s, Phase::Idle, Seq::empty()), ActionView::Abort { error }),
        Mode::Watch => (moved(s, Phase::Waiting, Seq::empty()), ActionView::Report { error }),
    }
}

/// The error that a failure in the phase `phase` stands for; `None` in a
/// phase with nothing under way that could fail.
pub open spec fn error_of(phase: Phase) -> Option<BuildError> {
    match phase {
        Phase::Reading => Some(BuildError::FileRead),
        Phase::Parsing => Some(BuildError::Schema),
        Phase::WritingMarkup => Some(BuildError::FileWrite),
        Phase::Compiling => Some(BuildError::Compilation),
        Phase::WritingOutput => Some(BuildError::FileWrite),
        Phase::Idle => None,
        Phase::Waiting => None,
    }
}

/// The session after the event `e`, and the action that it asks for.
///
/// A build reads the source, parses it, writes the markup, and, where the
/// session compiles, compiles the markup and writes the document. Each step
/// is taken when the step before it has succeeded; a failure ends the build.
/// While waiting, only a write that was closed starts a build. An event that
/// the phase does not await changes nothing.
pub open spec fn step(s: SessionView, e: EventView) -> (SessionView, ActionView) {
    match (s.phase, e) {
        (Phase::Waiting, EventView::Changed(Change::WriteClosed)) => (
            moved(s, Phase::Reading, Seq::empty()),
            ActionView::Read { path: s.src },
        ),
        (Phase::Waiting, EventView::Changed(Change::Other)) => (s, ActionView::Wait),
        (Phase::Waiting, EventView::Closed) => (
            moved(s, Phase::Idle, Seq::empty()),
            ActionView::Finish,
        ),
        (Phase::Reading, EventView::Read(text)) => (
            moved(s, Phase::Parsing, Seq::empty()),
            ActionView::Parse { text },
        ),
        (Phase::Parsing, EventView::Parsed(markup)) => (
            moved(s, Phase::WritingMarkup, markup),
            ActionView::WriteMarkup { name: s.markup_name, text: markup },
        ),
        (Phase::WritingMarkup, EventView::Written) => if s.compile {
            (moved(s, Phase::Compiling, Seq::empty()), ActionView::Compile { markup: s.markup })
        } else {
            settled(s)
        },
        (Phase::Compiling, EventView::Compiled(bytes)) => (
            moved(s, Phase::WritingOutput, Seq::empty()),
            ActionView::WriteOutput { name: s.output_name, bytes },
        ),
        (Phase::WritingOutput, EventView::Written) => settled(s),
        (_, EventView::Failed) => match error_of(s.phase) {
            Some(error) => failed(s, error),
            None => (s, ActionView::Nothing),
        },
        _ => (s, ActionView::Nothing),
    }
}

/// Whether `a` has a file written.
pub open spec fn writes(a: ActionView) -> bool {
    a is WriteMarkup || a is WriteOutput
}

/// A file is written only in answer to a success: the markup when the source
/// has been parsed, under the name of the markup and with the markup of that
/// résumé; the document when the markup has been compiled, under the name
/// of the document and with the bytes that the compiler gave.
pub proof fn lemma_writes_follow_success(s: SessionView, e: EventView)
    ensures
        step(s, e).1 is WriteMarkup ==> s.phase == Phase::Parsing && e is Parsed && step(s, e).1
            == (ActionView::WriteMarkup { name: s.markup_name, text: e->Parsed_0 }),
        step(s, e).1 is WriteOutput ==> s.phase == Phase::Compiling && e is Compiled && step(
            s,
            e,
        ).1 == (ActionView::WriteOutput { name: s.output_name, bytes: e->Compiled_0 }),
{
}

/// A build whose source is read but does not parse ends there with the
/// schema error, and none of its actions writes a file.
pub proof fn lemma_schema_failure_writes_nothing(s: SessionView, text: Seq<char>)
    requires
        s.phase == Phase::Reading,
    ensures
        ({
            let (parsing, parse) = step(s, EventView::Read(text));
            let (after, last) = step(parsing, EventView::Failed);
            &&& parse == (ActionView::Parse { text })
            &&& last == match s.mode {
                Mode::Once => ActionView::Abort { error: BuildError::Schema },
                Mode::Watch => ActionView::Report { error: BuildError::Schema },
            }
            &&& !writes(parse) && !writes(last)
            &&& after.phase == match s.mode {
                Mode::Once => Phase::Idle,
                Mode::Watch => Phase::Waiting,
            }
        }),
{
}

/// A failure never ends a session that watches: whatever fails, the session
/// waits for the next change. A single build is aborted by it.
pub proof fn lemma_failure_by_mode(s: SessionView, error: BuildError)
    requires
        error_of(s.phase) == Some(error),
    ensures
        s.mode == Mode::Watch ==> step(s, EventView::Failed) == (
            moved(s, Phase::Waiting, Seq::empty()),
            ActionView::Report { error },
        ),
        s.mode == Mode::Once ==> step(s, EventView::Failed) == (
            moved(s, Phase::Idle, Seq::empty()),
            ActionView::Abort { error },
        ),
{
}

/// Builds do not overlap: while one is under way, a notification starts
/// nothing and changes nothing.
pub proof fn lemma_builds_do_not_overlap(s: SessionView, change: Change)
    requires
        s.phase != Phase::Waiting,
    ensures
        step(s, EventView::Changed(change)) == (s, ActionView::Nothing),
{
}

/// A session on one source file.
#[derive(Debug, PartialEq, Eq)]
pub struct Session {
    src: String,
    markup_name: String,
    output_name: String,
    compile: bool,
    mode: Mode,
    phase: Phase,
    markup: String,
}

impl View for Session {
    type V = SessionView;

    closed spec fn view(&self) -> SessionView {
        SessionView {
            src: self.src@,
            markup_name: self.markup_name@,
            output_name: self.output_name@,
            compile: self.compile,
            mode: self.mode,
            phase: self.phase,
            markup: self.markup@,
        }
    }
}

impl Session {
    /// Opens a session on the source at `src`, whose name must end in
    /// `.yaml`. The session is idle. Its builds compile the markup, and
    /// their files are named by the stem of `src`, with `.tex` for the markup
    /// and `.pdf` for the document.
    pub fn new(src: &str) -> (s: Session)
        requires
            ".yaml"@.is_suffix_of(src@),
        ensures
            s@ == opened(src@),
    {
        Session {
            src: String::from_str(src),
            markup_name: swap_stem(src, ".yaml", ".tex"),
            output_name: swap_stem(src, ".yaml", ".pdf"),
            compile: true,
            mode: Mode::Once,
            phase: Phase::Idle,
            markup: String::new(),
        }
    }

    /// The same session, but its builds stop when the markup is written.
    pub fn markup_only(self) -> (s: Session)
        ensures
            s@ == (SessionView { compile: false, ..self@ }),
    {
        Session { compile: false, ..self }
    }

    /// The phase that the session is in.
    pub fn phase(&self) -> (phase: Phase)
        ensures
            phase == self@.phase,
    {
        self.phase
    }

    /// How the session goes on after a build.
    pub fn mode(&self) -> (mode: Mode)
        ensures
            mode == self@.mode,
    {
        self.mode
    }

    /// Begins a single build, whatever the session was doing: the source is
    /// to be read.
    pub fn build(&mut self) -> (action: Action)
        ensures
            final(self)@ == building(old(self)@),
            action@ == (ActionView::Read { path: old(self)@.src }),
    {
        self.mode = Mode::Once;
        self.phase = Phase::Reading;
        self.markup = String::new();
        Action::Read { path: self.src.clone() }
    }

    /// Begins to watch the source, whatever the session was doing: its
    /// changes are to be notified, and each write that is closed starts a
    /// build.
    pub fn watch(&mut self) -> (action: Action)
        ensures
            final(self)@ == watching(old(self)@),
            action@ == (ActionView::Watch { path: old(self)@.src }),
    {
        self.mode = Mode::Watch;
        self.phase = Phase::Waiting;
        self.markup = String::new();
        Action::Watch { path: self.src.clone() }
    }

    /// Ends the build under way as one that went well.
    fn settle(&mut self) -> (action: Action)
        ensures
            final(self)@ == settled(old(self)@).0,
            action@ == settled(old(self)@).1,
    {
        self.markup = String::new();
        match self.mode {
            Mode::Once => {
                self.phase = Phase::Idle;
                Action::Finish
            },
            Mode::Watch => {
                self.phase = Phase::Waiting;
                Action::Wait
            },
        }
    }

    /// Ends the build under way with `error`.
    fn fail(&mut self, error: BuildError) -> (action: Action)
        ensures
            final(self)@ == failed(old(self)@, error).0,
            action@ == failed(old(self)@, error).1,
    {
        self.markup = String::new();
        match self.mode {
            Mode::Once => {
                self.phase = Phase::Idle;
                Action::Abort { error }
            },
            Mode::Watch => {
                self.phase = Phase::Waiting;
                Action::Report { error }
            },
        }
    }

    /// Takes in what came of the last action and says what to do next.
    pub fn step(&mut self, event: Event) -> (action: Action)
        ensures
            final(self)@ == step(old(self)@, event@).0,
            action@ == step(old(self)@, event@).1,
    {
        match self.phase {
            Phase::Idle => Action::Nothing,
            Phase::Waiting => match event {
                Event::Changed(Change::WriteClosed) => {
                    self.phase = Phase::Reading;
                    self.markup = String::new();
                    Action::Read { path: self.src.clone() }
                },
                Event::Changed(Change::Other) => Action::Wait,
                Event::Closed => {
                    self.phase = Phase::Idle;
                    self.markup = String::new();
                    Action::Finish
                },
                _ => Action::Nothing,
            },
            Phase::Reading => match event {
                Event::Read(text) => {
                    self.phase = Phase::Parsing;
                    self.markup = String::new();
                    Action::Parse { text }
                },
                Event::Failed => self.fail(BuildError::FileRead),
                _ => Action::Nothing,
            },
            Phase::Parsing => match event {
                Event::Parsed(resume) => {
                    let text = resume.to_tex();
                    self.phase = Phase::WritingMarkup;
                    self.markup = text.clone();
                    Action::WriteMarkup { name: self.markup_name.clone(), text }
                },
                Event::Failed => self.fail(BuildError::Schema),
                _ => Action::Nothing,
            },
            Phase::WritingMarkup => match event {
                Event::Written => {
                    if self.compile {
                        let markup = self.markup.clone();
                        self.phase = Phase::Compiling;
                        self.markup = String::new();
                        Action::Compile { markup }
                    } else {
                        self.settle()
                    }
                },
                Event::Failed => self.fail(BuildError::FileWrite),
                _ => Action::Nothing,
            },
            Phase::Compiling => match event {
                Event::Compiled(bytes) => {
                    self.phase = Phase::WritingOutput;
                    self.markup = String::new();
                    Action::WriteOutput { name: self.output_name.clone(), bytes }
                },
                Event::Failed => self.fail(BuildError::Compilation),
                _ => Action::Nothing,
            },
            Phase::WritingOutput => match event {
                Event::Written => self.settle(),
                Event::Failed => self.fail(BuildError::FileWrite),
                _ => Action::Nothing,
            },
        }
    }
}

} // verus!
