//! One run, as a sequence of steps.
//!
//! The library decides and the caller acts: [`Session::begin`] and
//! [`Session::step`] hand out an [`Action`], the caller performs it and comes
//! back with the [`Event`] that tells how it went.

use vstd::prelude::*;
use vstd::string::*;
use vstd::utf8::*;
use crate::config::{Config, ConfigView};
use crate::failure::{Failure, FailureKind, FailureView, RunError, RunErrorView};
use crate::formatter::{
    check_status,
    check_status_spec,
    formatter_args,
    formatter_args_spec,
    formatter_path,
    formatter_path_spec,
    lookup_command,
    lookup_command_spec,
    CommandLine,
    CommandLineView,
};
use crate::target::{joined_path, resolve_write_path, write_path, TargetKind, DEFAULT_FILE_NAME};
use crate::text::trimmed;

verus! {

/// The line that reports a run that went well.
pub const SUCCESS_MESSAGE: &'static str = "Code successfully uploaded and formatted";

/// How far a run has come, which is also what it waits for.
#[derive(Debug, Clone, PartialEq, Eq)]
pub enum Stage {
    /// Waiting to learn what is at the target path.
    Probing,
    /// Waiting for the text to be written to `path`.
    Writing { path: String },
    /// Waiting for the lookup of the formatter; `path` has been written.
    Locating { path: String },
    /// Waiting for the formatter to end.
    Formatting,
    /// Over, well or not: nothing is waited for.
    Done,
}

/// A [`Stage`] as plain mathematical values.
pub enum StageView {
    Probing,
    Writing { path: Seq<char> },
    Locating { path: Seq<char> },
    Formatting,
    Done,
}

impl View for Stage {
    type V = StageView;

    open spec fn view(&self) -> StageView {
        match *self {
            Stage::Probing => StageView::Probing,
            Stage::Writing { path } => StageView::Writing { path: path@ },
            Stage::Locating { path } => StageView::Locating { path: path@ },
            Stage::Formatting => StageView::Formatting,
            Stage::Done => StageView::Done,
        }
    }
}

/// What the caller reports back. `E` is the caller's own error type.
#[derive(Debug, PartialEq, Eq)]
pub enum Event<E> {
    /// What was found at the target path.
    TargetProbed(TargetKind),
    /// The file was created and the whole text written.
    Written,
    /// Creating or writing the file failed.
    WriteFailed(E),
    /// The lookup ran; `output` is what it printed to standard output.
    LookupFinished { output: Vec<u8> },
    /// The lookup could not be run.
    LookupFailed,
    /// The formatter ran. `success` says whether it ended with status zero,
    /// `status` shows how it ended.
    FormatterExited { success: bool, status: String },
    /// The formatter could not be started or waited for.
    FormatterNotStarted(E),
}

/// An [`Event`] as plain mathematical values.
pub enum EventView<E> {
    TargetProbed(TargetKind),
    Written,
    WriteFailed(E),
    LookupFinished { output: Seq<u8> },
    LookupFailed,
    FormatterExited { success: bool, status: Seq<char> },
    FormatterNotStarted(E),
}

impl<E> View for Event<E> {
    type V = EventView<E>;

    open spec fn view(&self) -> EventView<E> {
        match *self {
            Event::TargetProbed(kind) => EventView::TargetProbed(kind),
            Event::Written => EventView::Written,
            Event::WriteFailed(e) => EventView::WriteFailed(e),
            Event::LookupFinished { output } => EventView::LookupFinished { output: output@ },
            Event::LookupFailed => EventView::LookupFailed,
            Event::FormatterExited { success, status } => EventView::FormatterExited {
                success,
                status: status@,
            },
            Event::FormatterNotStarted(e) => EventView::FormatterNotStarted(e),
        }
    }
}

/// What the caller is to do next.
#[derive(Debug, PartialEq, Eq)]
pub enum Action<E> {
    /// Find out what is at `path` and report [`Event::TargetProbed`].
    ProbeTarget { path: String },
    /// Create or truncate the file at `path`, write all of `content` to it,
    /// and report [`Event::Written`] or [`Event::WriteFailed`].
    WriteFile { path: String, content: Vec<u8> },
    /// Run the command with its standard error discarded, and report what
    /// it printed as [`Event::LookupFinished`], or [`Event::LookupFailed`].
    RunLookup(CommandLine),
    /// Run the command with the standard streams of this process, and
    /// report [`Event::FormatterExited`] or [`Event::FormatterNotStarted`].
    RunFormatter(CommandLine),
    /// Print `message` and end well.
    Finish { message: String },
    /// End with the error.
    Fail(RunError<E>),
}

/// An [`Action`] as plain mathematical values.
pub enum ActionView<E> {
    ProbeTarget { path: Seq<char> },
    WriteFile { path: Seq<char>, content: Seq<u8> },
    RunLookup(CommandLineView),
    RunFormatter(CommandLineView),
    Finish { message: Seq<char> },
    Fail(RunErrorView<E>),
}

impl<E> View for Action<E> {
    type V = ActionView<E>;

    open spec fn view(&self) -> ActionView<E> {
        match *self {
            Action::ProbeTarget { path } => ActionView::ProbeTarget { path: path@ },
            Action::WriteFile { path, content } => ActionView::WriteFile {
                path: path@,
                content: content@,
            },
            Action::RunLookup(command) => ActionView::RunLookup(command@),
            Action::RunFormatter(command) => ActionView::RunFormatter(command@),
            Action::Finish { message } => ActionView::Finish { message: message@ },
            Action::Fail(error) => ActionView::Fail(error@),
        }
    }
}

/// A run: its configuration and how far it has come.
#[derive(Debug, Clone, PartialEq, Eq)]
pub struct Session {
    pub config: Config,
    pub stage: Stage,
}

/// A [`Session`] as plain mathematical values.
pub struct SessionView {
    pub config: ConfigView,
    pub stage: StageView,
}

impl View for Session {
    type V = SessionView;

    open spec fn view(&self) -> SessionView {
        SessionView { config: self.config@, stage: self.stage@ }
    }
}

impl SessionView {
    /// The run of a configuration before anything has happened.
    pub open spec fn begin(config: ConfigView) -> SessionView {
        SessionView { config, stage: StageView::Probing }
    }

    /// The first thing to do in a run: to look at the target.
    pub open spec fn first_action<E>(self) -> ActionView<E> {
        ActionView::ProbeTarget { path: self.config.target }
    }

    /// This run at another stage.
    pub open spec fn at(self, stage: StageView) -> SessionView {
        SessionView { config: self.config, stage }
    }

    /// The run after an event and what is to be done then, or `None` where
    /// the event answers nothing that the run waits for.
    pub open spec fn step<E>(self, event: EventView<E>) -> Option<(SessionView, ActionView<E>)> {
        match (self.stage, event) {
            (StageView::Probing, EventView::TargetProbed(kind)) => match write_path(
                self.config.target,
                kind,
            ) {
                Ok(path) => Some(
                    (
                        self.at(StageView::Writing { path }),
                        ActionView::WriteFile { path, content: encode_utf8(self.config.code) },
                    ),
                ),
                Err(failure) => Some(self.failed(RunErrorView::Failure(failure))),
            },
            (StageView::Writing { path }, EventView::Written) => Some(
                (self.at(StageView::Locating { path }), ActionView::RunLookup(lookup_command_spec())),
            ),
            (StageView::Writing { .. }, EventView::WriteFailed(e)) => Some(
                self.failed(RunErrorView::Io(e)),
            ),
            (StageView::Locating { path }, EventView::LookupFinished { output }) => {
                match formatter_path_spec(output) {
                    Ok(program) => Some(
                        (
                            self.at(StageView::Formatting),
                            ActionView::RunFormatter(
                                CommandLineView {
                                    program,
                                    args: formatter_args_spec(self.config, path),
                                },
                            ),
                        ),
                    ),
                    Err(failure) => Some(self.failed(RunErrorView::Failure(failure))),
                }
            },
            (StageView::Locating { .. }, EventView::LookupFailed) => Some(
                self.failed(RunErrorView::Failure(FailureView::FormatterNotFound)),
            ),
            (StageView::Formatting, EventView::FormatterExited { success, status }) => {
                match check_status_spec(success, status) {
                    Ok(()) => Some(
                        (
                            self.at(StageView::Done),
                            ActionView::Finish { message: SUCCESS_MESSAGE@ },
                        ),
                    ),
                    Err(failure) => Some(self.failed(RunErrorView::Failure(failure))),
                }
            },
            (StageView::Formatting, EventView::FormatterNotStarted(e)) => Some(
                self.failed(RunErrorView::Io(e)),
            ),
            _ => None,
        }
    }

    /// The run ended by an error.
    pub open spec fn failed<E>(self, error: RunErrorView<E>) -> (SessionView, ActionView<E>) {
        (self.at(StageView::Done), ActionView::Fail(error))
    }
}

impl Session {
    /// Starts the run of a configuration: the first thing to do is to look
    /// at the target.
    pub fn begin<E>(config: Config) -> (start: (Session, Action<E>))
        ensures
            start.0@ == SessionView::begin(config@),
            start.1@ == start.0@.first_action::<E>(),
    {
        let path = config.target.clone();
        (Session { config, stage: Stage::Probing }, Action::ProbeTarget { path })
    }

    /// Takes the run one step on: the run after `event`, and what is to be
    /// done next. An event that answers nothing that the run waits for
    /// leaves the run as it is and asks for nothing.
    pub fn step<E>(self, event: Event<E>) -> (next: (Session, Option<Action<E>>))
        ensures
            match self@.step(event@) {
                Some((session, action)) => {
                    &&& next.0@ == session
                    &&& next.1 matches Some(found) && found@ == action
                },
                None => next.0 == self && next.1 is None,
            },
    {
        let Session { config, stage } = self;
        match (stage, event) {
            (Stage::Probing, Event::TargetProbed(kind)) => {
                match resolve_write_path(config.target.as_str(), kind) {
                    Ok(path) => {
                        let action = Action::WriteFile {
                            path: path.clone(),
                            content: config.code.as_str().as_bytes_vec(),
                        };
                        (Session { config, stage: Stage::Writing { path } }, Some(action))
                    },
                    Err(failure) => (
                        Session { config, stage: Stage::Done },
                        Some(Action::Fail(RunError::Failure(failure))),
                    ),
                }
            },
            (Stage::Writing { path }, Event::Written) => (
                Session { config, stage: Stage::Locating { path } },
                Some(Action::RunLookup(lookup_command())),
            ),
            (Stage::Writing { .. }, Event::WriteFailed(e)) => (
                Session { config, stage: Stage::Done },
                Some(Action::Fail(RunError::Io(e))),
            ),
            (Stage::Locating { path }, Event::LookupFinished { output }) => {
                match formatter_path(output) {
                    Ok(program) => {
                        let args = formatter_args(&config, path.as_str());
                        (
                            Session { config, stage: Stage::Formatting },
                            Some(Action::RunFormatter(CommandLine { program, args })),
                        )
                    },
                    Err(failure) => (
                        Session { config, stage: Stage::Done },
                        Some(Action::Fail(RunError::Failure(failure))),
                    ),
                }
            },
            (Stage::Locating { .. }, Event::LookupFailed) => (
                Session { config, stage: Stage::Done },
                Some(Action::Fail(RunError::Failure(Failure::FormatterNotFound))),
            ),
            (Stage::Formatting, Event::FormatterExited { success, status }) => {
                match check_status(success, status) {
                    Ok(()) => (
                        Session { config, stage: Stage::Done },
                        Some(Action::Finish { message: String::from_str(SUCCESS_MESSAGE) }),
                    ),
                    Err(failure) => (
                        Session { config, stage: Stage::Done },
                        Some(Action::Fail(RunError::Failure(failure))),
                    ),
                }
            },
            (Stage::Formatting, Event::FormatterNotStarted(e)) => (
                Session { config, stage: Stage::Done },
                Some(Action::Fail(RunError::Io(e))),
            ),
            (stage, _) => (Session { config, stage }, None),
        }
    }
}

/// What a run asks for, one after the other, while the events come in.
/// Events that answer nothing are passed over.
pub open spec fn reactions<E>(session: SessionView, events: Seq<EventView<E>>) -> Seq<
    ActionView<E>,
>
    decreases events.len(),
{
    if events.len() == 0 {
        Seq::empty()
    } else {
        match session.step(events[0]) {
            Some((next, action)) => seq![action] + reactions(next, events.drop_first()),
            None => reactions(session, events.drop_first()),
        }
    }
}

/// A target that is a file is written itself, and with exactly the bytes
/// of the configuration's text in UTF-8.
pub proof fn lemma_file_target_receives_the_code<E>(config: ConfigView)
    ensures
        SessionView::begin(config).step(EventView::<E>::TargetProbed(TargetKind::File))
            matches Some((_, action)) && action == (ActionView::<E>::WriteFile {
            path: config.target,
            content: encode_utf8(config.code),
        }),
{
}

/// In a target that is a directory, the file with the default name is
/// written: the target joined with that name.
pub proof fn lemma_directory_target_receives_the_default_file<E>(config: ConfigView)
    ensures
        SessionView::begin(config).step(EventView::<E>::TargetProbed(TargetKind::Directory))
            matches Some((_, action)) && action == (ActionView::<E>::WriteFile {
            path: joined_path(config.target, DEFAULT_FILE_NAME@),
            content: encode_utf8(config.code),
        }),
{
}

/// Once a run is past the look at the target, it asks for no write, whatever
/// events come in.
pub proof fn lemma_no_write_after_the_first_step<E>(
    session: SessionView,
    events: Seq<EventView<E>>,
)
    requires
        !(session.stage is Probing),
    ensures
        ({
            let asked = reactions(session, events);
            forall|i: int| 0 <= i < asked.len() ==> !((#[trigger] asked[i]) is WriteFile)
        }),
    decreases events.len(),
{
    if events.len() > 0 {
        let rest = events.drop_first();
        let asked = reactions(session, events);
        match session.step(events[0]) {
            Some((next, action)) => {
                lemma_no_write_after_the_first_step(next, rest);
                let tail = reactions(next, rest);
                assert forall|i: int| 0 <= i < asked.len() implies !((#[trigger] asked[i])
                    is WriteFile) by {
                    if i > 0 {
                        assert(asked[i] == tail[i - 1]);
                    }
                }
            },
            None => {
                lemma_no_write_after_the_first_step(session, rest);
            },
        }
    }
}

/// A run writes at most once: only the first thing it asks for after the
/// look at the target can be a write; what is written are the bytes of the
/// configuration's text, and where, is the target or the default file in it.
/// No later event, such as a formatter that fails, brings a second write.
pub proof fn lemma_single_write<E>(config: ConfigView, events: Seq<EventView<E>>)
    ensures
        ({
            let asked = reactions(SessionView::begin(config), events);
            forall|i: int|
                0 <= i < asked.len() ==> ((#[trigger] asked[i]) matches ActionView::WriteFile {
                    path,
                    content,
                } ==> {
                    &&& i == 0
                    &&& content == encode_utf8(config.code)
                    &&& path == config.target || path == joined_path(
                        config.target,
                        DEFAULT_FILE_NAME@,
                    )
                })
        }),
    decreases events.len(),
{
    let start = SessionView::begin(config);
    if events.len() > 0 {
        let rest = events.drop_first();
        let asked = reactions(start, events);
        match start.step(events[0]) {
            Some((next, action)) => {
                lemma_no_write_after_the_first_step(next, rest);
                let tail = reactions(next, rest);
                assert forall|i: int|
                    0 <= i < asked.len() && (#[trigger] asked[i]) is WriteFile implies i == 0 by {
                    if i > 0 {
                        assert(asked[i] == tail[i - 1]);
                    }
                }
            },
            None => {
                lemma_single_write(config, rest);
            },
        }
    }
}

/// Where nothing is at the target, the run ends at once with a failure of
/// the class "not found" that names the target: it asks for nothing else,
/// and so for no write, whatever events follow.
pub proof fn lemma_missing_target_ends_the_run<E>(config: ConfigView, later: Seq<EventView<E>>)
    ensures
        reactions(
            SessionView::begin(config),
            seq![EventView::<E>::TargetProbed(TargetKind::Missing)] + later,
        ) == seq![
            ActionView::<E>::Fail(
                RunErrorView::Failure(FailureView::TargetNotFound { path: config.target }),
            ),
        ],
        (FailureView::TargetNotFound { path: config.target }).kind() == FailureKind::NotFound,
{
    let start = SessionView::begin(config);
    let events = seq![EventView::<E>::TargetProbed(TargetKind::Missing)] + later;
    assert(events.drop_first() =~= later);
    lemma_done_is_final(start.at(StageView::Done), later);
    assert(reactions(start, events) =~= seq![
        ActionView::<E>::Fail(
            RunErrorView::Failure(FailureView::TargetNotFound { path: config.target }),
        ),
    ]);
}

/// Where the formatter ends badly, the run ends at once with a failure that
/// reports the status: it asks for nothing else, and so for no second write,
/// whatever events follow.
pub proof fn lemma_failed_formatter_ends_the_run<E>(
    session: SessionView,
    status: Seq<char>,
    later: Seq<EventView<E>>,
)
    requires
        session.stage is Formatting,
    ensures
        reactions(
            session,
            seq![(EventView::<E>::FormatterExited { success: false, status })] + later,
        ) == seq![
            ActionView::<E>::Fail(RunErrorView::Failure(FailureView::FormatterFailed { status })),
        ],
{
    let events = seq![EventView::<E>::FormatterExited { success: false, status }] + later;
    assert(events.drop_first() =~= later);
    lemma_done_is_final(session.at(StageView::Done), later);
    assert(reactions(session, events) =~= seq![
        ActionView::<E>::Fail(RunErrorView::Failure(FailureView::FormatterFailed { status })),
    ]);
}

/// A run in which every step goes well asks, in this order, for the write of
/// the text to the resolved path, for the lookup, for the formatter at the
/// path that the lookup printed, with the arguments for the file that was
/// written, and last for the line that reports the run.
pub proof fn lemma_run_that_goes_well<E>(
    config: ConfigView,
    kind: TargetKind,
    output: Seq<u8>,
    status: Seq<char>,
)
    requires
        kind != TargetKind::Missing,
        valid_utf8(output),
    ensures
        ({
            let path = write_path(config.target, kind)->Ok_0;
            reactions(
                SessionView::begin(config),
                seq![
                    EventView::<E>::TargetProbed(kind),
                    EventView::<E>::Written,
                    EventView::<E>::LookupFinished { output },
                    EventView::<E>::FormatterExited { success: true, status },
                ],
            ) == seq![
                ActionView::<E>::WriteFile { path, content: encode_utf8(config.code) },
                ActionView::<E>::RunLookup(lookup_command_spec()),
                ActionView::<E>::RunFormatter(
                    CommandLineView {
                        program: trimmed(decode_utf8(output)),
                        args: formatter_args_spec(config, path),
                    },
                ),
                ActionView::<E>::Finish { message: SUCCESS_MESSAGE@ },
            ]
        }),
{
    let path = write_path(config.target, kind)->Ok_0;
    let start = SessionView::begin(config);
    let e0 = EventView::<E>::TargetProbed(kind);
    let e1 = EventView::<E>::Written;
    let e2 = EventView::<E>::LookupFinished { output };
    let e3 = EventView::<E>::FormatterExited { success: true, status };
    let all = seq![e0, e1, e2, e3];
    assert(all.drop_first() =~= seq![e1, e2, e3]);
    assert(seq![e1, e2, e3].drop_first() =~= seq![e2, e3]);
    assert(seq![e2, e3].drop_first() =~= seq![e3]);
    assert(seq![e3].drop_first() =~= Seq::<EventView<E>>::empty());
    let writing = start.at(StageView::Writing { path });
    let locating = start.at(StageView::Locating { path });
    let formatting = start.at(StageView::Formatting);
    let done = start.at(StageView::Done);
    assert(reactions(done, Seq::<EventView<E>>::empty()) =~= Seq::empty());
    assert(reactions(formatting, seq![e3]) =~= seq![
        ActionView::<E>::Finish { message: SUCCESS_MESSAGE@ },
    ]);
    assert(reactions(locating, seq![e2, e3]) =~= seq![
        ActionView::<E>::RunFormatter(
            CommandLineView {
                program: trimmed(decode_utf8(output)),
                args: formatter_args_spec(config, path),
            },
        ),
        ActionView::<E>::Finish { message: SUCCESS_MESSAGE@ },
    ]);
    assert(reactions(writing, seq![e1, e2, e3]) =~= seq![
        ActionView::<E>::RunLookup(lookup_command_spec()),
        ActionView::<E>::RunFormatter(
            CommandLineView {
                program: trimmed(decode_utf8(output)),
                args: formatter_args_spec(config, path),
            },
        ),
        ActionView::<E>::Finish { message: SUCCESS_MESSAGE@ },
    ]);
    assert(reactions(start, all) =~= seq![
        ActionView::<E>::WriteFile { path, content: encode_utf8(config.code) },
        ActionView::<E>::RunLookup(lookup_command_spec()),
        ActionView::<E>::RunFormatter(
            CommandLineView {
                program: trimmed(decode_utf8(output)),
                args: formatter_args_spec(config, path),
            },
        ),
        ActionView::<E>::Finish { message: SUCCESS_MESSAGE@ },
    ]);
}

/// A run that is over asks for nothing more.
pub proof fn lemma_done_is_final<E>(session: SessionView, events: Seq<EventView<E>>)
    requires
        session.stage is Done,
    ensures
        reactions(session, events) == Seq::<ActionView<E>>::empty(),
    decreases events.len(),
{
    if events.len() > 0 {
        lemma_done_is_final(session, events.drop_first());
    }
}

} // verus!
