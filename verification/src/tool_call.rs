//! One tool call from its first step to its outcome.
//!
//! A call that drives the pattern-matching executable needs things done that
//! are not done here: paths looked at, temporary files written and removed,
//! the executable found and run. The call says which of these it needs next
//! (an action), is told how it went (an event), and so goes from stage to
//! stage until it finishes with its outcome.
//!
//! Whatever happens on the way, every temporary file that the call has asked
//! to be written it asks to be removed again before it finishes.

use crate::error::{ToolError, ToolErrorKind};
use crate::path_resolver::{choice_among, resolve_among};
use crate::text::views;
use vstd::prelude::*;

verus! {

/// The beginning of the message for an executable that reported failure.
pub const PROCESS_FAILED_HEAD: &'static str = "ast-grep failed: ";

/// The message for an executable that did not finish in time.
pub const TIMED_OUT: &'static str = "ast-grep did not finish in time";

/// The message for an event that was not waited for.
pub const UNEXPECTED_EVENT: &'static str = "unexpected event for this stage of the call";

/// The message for a call that is asked to finish before its outcome is known.
pub const NO_OUTCOME: &'static str = "the call finished without an outcome";

/// Where a tool call stands.
#[derive(Debug, Clone, Copy, PartialEq, Eq, Structural)]
pub enum Stage {
    /// Waiting to hear which candidates of the target exist.
    Resolving,
    /// Waiting for a temporary file to be written.
    Writing,
    /// Waiting for the path of the executable.
    AwaitingBinary,
    /// Waiting for the executable to finish.
    Running,
    /// Waiting for a temporary file to be removed.
    Cleaning,
    /// The call is over.
    Done,
}

/// A temporary file of a call.
#[derive(Debug)]
pub struct TempFile {
    pub path: String,
    pub content: String,
}

/// What a call asks of its surroundings next.
#[derive(Debug)]
pub enum ToolAction {
    /// Find out, for each of these paths, whether it exists.
    ProbePaths { paths: Vec<String> },
    /// Write `content` to the file at `path`.
    WriteFile { path: String, content: String },
    /// Find the pattern-matching executable, fetching it if need be.
    EnsureBinary,
    /// Run `program` with `args` and wait for it, no longer than the
    /// surroundings allow.
    Run { program: String, args: Vec<String> },
    /// Remove the file at `path`. Whether that works is not reported.
    RemoveFile { path: String },
    /// The call is over, and this is its outcome.
    Finish(Result<String, ToolError>),
}

/// What the surroundings answer to a [`ToolAction`].
#[derive(Debug)]
pub enum ToolEvent {
    /// For each probed path, in order, whether it exists.
    Probed { exists: Vec<bool> },
    /// Whether the file was written; the message where it was not.
    Written(Result<(), String>),
    /// The path of the executable, or the message of why there is none.
    Binary(Result<String, String>),
    /// The executable ran to its end.
    Exited { success: bool, stdout: String, stderr: String },
    /// The executable could not be started; the message.
    SpawnFailed(String),
    /// The executable did not finish in time and was stopped.
    TimedOut,
    /// The removal of a file was attempted.
    Removed,
}

/// An outcome by its views.
pub type Outcome = Result<Seq<char>, (ToolErrorKind, Seq<char>)>;

/// The mathematical value of a [`ToolAction`].
pub ghost enum ActionView {
    ProbePaths(Seq<Seq<char>>),
    WriteFile(Seq<char>, Seq<char>),
    EnsureBinary,
    Run(Seq<char>, Seq<Seq<char>>),
    RemoveFile(Seq<char>),
    Finish(Outcome),
}

/// The mathematical value of a [`ToolEvent`].
pub ghost enum EventView {
    Probed(Seq<bool>),
    Written(Result<(), Seq<char>>),
    Binary(Result<Seq<char>, Seq<char>>),
    Exited(bool, Seq<char>, Seq<char>),
    SpawnFailed(Seq<char>),
    TimedOut,
    Removed,
}

/// An outcome of a call by its views.
pub open spec fn outcome_view(outcome: Result<String, ToolError>) -> Outcome {
    match outcome {
        Ok(text) => Ok(text@),
        Err(e) => Err((e.kind, e.message@)),
    }
}

impl View for ToolAction {
    type V = ActionView;

    open spec fn view(&self) -> ActionView {
        match self {
            ToolAction::ProbePaths { paths } => ActionView::ProbePaths(views(paths@)),
            ToolAction::WriteFile { path, content } => ActionView::WriteFile(path@, content@),
            ToolAction::EnsureBinary => ActionView::EnsureBinary,
            ToolAction::Run { program, args } => ActionView::Run(program@, views(args@)),
            ToolAction::RemoveFile { path } => ActionView::RemoveFile(path@),
            ToolAction::Finish(outcome) => ActionView::Finish(outcome_view(*outcome)),
        }
    }
}

impl View for ToolEvent {
    type V = EventView;

    open spec fn view(&self) -> EventView {
        match self {
            ToolEvent::Probed { exists } => EventView::Probed(exists@),
            ToolEvent::Written(Ok(_)) => EventView::Written(Ok(())),
            ToolEvent::Written(Err(message)) => EventView::Written(Err(message@)),
            ToolEvent::Binary(Ok(path)) => EventView::Binary(Ok(path@)),
            ToolEvent::Binary(Err(message)) => EventView::Binary(Err(message@)),
            ToolEvent::Exited { success, stdout, stderr } => EventView::Exited(
                *success,
                stdout@,
                stderr@,
            ),
            ToolEvent::SpawnFailed(message) => EventView::SpawnFailed(message@),
            ToolEvent::TimedOut => EventView::TimedOut,
            ToolEvent::Removed => EventView::Removed,
        }
    }
}

/// A tool call under way.
#[derive(Debug)]
pub struct ToolCall {
    /// Where the call stands.
    pub stage: Stage,
    /// The target as the client gave it.
    pub target: String,
    /// The paths that the target has under the workspace roots.
    pub candidates: Vec<String>,
    /// What the workspace roots are called.
    pub labels: Vec<String>,
    /// A fault that is reported once the target is resolved.
    pub deferred: Option<ToolError>,
    /// The temporary files of the call, in the order they are written.
    pub files: Vec<TempFile>,
    /// How many of the files the call has asked to be written.
    pub written: usize,
    /// How many of the files the call has asked to be removed.
    pub removed: usize,
    /// What the executable is to scan.
    pub scan_target: String,
    /// Whether the executable rewrites what it scans.
    pub apply: bool,
    /// The outcome, once it is known.
    pub outcome: Option<Result<String, ToolError>>,
}

/// The mathematical value of a [`ToolCall`].
pub ghost struct CallView {
    pub stage: Stage,
    pub target: Seq<char>,
    pub candidates: Seq<Seq<char>>,
    pub labels: Seq<Seq<char>>,
    pub deferred: Option<(ToolErrorKind, Seq<char>)>,
    pub files: Seq<(Seq<char>, Seq<char>)>,
    pub written: nat,
    pub removed: nat,
    pub scan_target: Seq<char>,
    pub apply: bool,
    pub outcome: Option<Outcome>,
}

/// The temporary files by path and content.
pub open spec fn file_views(files: Seq<TempFile>) -> Seq<(Seq<char>, Seq<char>)> {
    Seq::new(files.len(), |i: int| (files[i].path@, files[i].content@))
}

impl View for ToolCall {
    type V = CallView;

    open spec fn view(&self) -> CallView {
        CallView {
            stage: self.stage,
            target: self.target@,
            candidates: views(self.candidates@),
            labels: views(self.labels@),
            deferred: match self.deferred {
                Some(e) => Some((e.kind, e.message@)),
                None => None,
            },
            files: file_views(self.files@),
            written: self.written as nat,
            removed: self.removed as nat,
            scan_target: self.scan_target@,
            apply: self.apply,
            outcome: match self.outcome {
                Some(outcome) => Some(outcome_view(outcome)),
                None => None,
            },
        }
    }
}

impl CallView {
    /// The call has asked for no more removals than writes, and for no more
    /// writes than it has files.
    pub open spec fn wf(self) -> bool {
        self.removed <= self.written <= self.files.len()
    }

    /// The paths of the temporary files that the call has asked to be
    /// written and not yet asked to be removed.
    pub open spec fn pending(self) -> Seq<Seq<char>> {
        Seq::new((self.written - self.removed) as nat, |i: int| self.files[self.removed + i].0)
    }

    /// The arguments the executable is run with: a scan by the rule in the
    /// first temporary file over the scan target, which either reports what
    /// it finds as JSON or rewrites the target in place.
    pub open spec fn command(self) -> Seq<Seq<char>> {
        seq![
            "scan"@,
            "--rule"@,
            if self.files.len() > 0 {
                self.files[0].0
            } else {
                Seq::empty()
            },
            self.scan_target,
            if self.apply {
                "-U"@
            } else {
                "--json"@
            },
        ]
    }

    /// Asks for the next temporary file to be written, or for the
    /// executable once all are.
    pub open spec fn write_next(self) -> (CallView, ActionView) {
        if self.written < self.files.len() {
            (
                CallView { stage: Stage::Writing, written: self.written + 1, ..self },
                ActionView::WriteFile(self.files[self.written as int].0, self.files[self.written as int].1),
            )
        } else {
            (CallView { stage: Stage::AwaitingBinary, ..self }, ActionView::EnsureBinary)
        }
    }

    /// Asks for the next written file to be removed, or finishes with the
    /// outcome once none is left.
    pub open spec fn clean_next(self) -> (CallView, ActionView) {
        if self.removed < self.written {
            (
                CallView { stage: Stage::Cleaning, removed: self.removed + 1, ..self },
                ActionView::RemoveFile(self.files[self.removed as int].0),
            )
        } else {
            (
                CallView { stage: Stage::Done, ..self },
                ActionView::Finish(
                    match self.outcome {
                        Some(outcome) => outcome,
                        None => Err((ToolErrorKind::UnexpectedEvent, NO_OUTCOME@)),
                    },
                ),
            )
        }
    }

    /// Settles the outcome and begins to clean up.
    pub open spec fn conclude(self, outcome: Outcome) -> (CallView, ActionView) {
        (CallView { outcome: Some(outcome), ..self }).clean_next()
    }

    /// Goes on once the target is resolved to `path`: reports the deferred
    /// fault if there is one, and else begins to write the temporary files.
    pub open spec fn resolved(self, path: Seq<char>) -> (CallView, ActionView) {
        match self.deferred {
            Some(fault) => self.conclude(Err(fault)),
            None => (CallView { scan_target: path, ..self }).write_next(),
        }
    }

    /// The stage and action that follow when `event` arrives.
    pub open spec fn next(self, event: EventView) -> (CallView, ActionView) {
        match (self.stage, event) {
            (Stage::Resolving, EventView::Probed(exists)) => match choice_among(
                self.candidates,
                self.labels,
                self.target,
                exists,
            ) {
                Ok(path) => self.resolved(path),
                Err(fault) => self.conclude(Err(fault)),
            },
            (Stage::Writing, EventView::Written(Ok(_))) => self.write_next(),
            (Stage::Writing, EventView::Written(Err(message))) => self.conclude(
                Err((ToolErrorKind::TempFile, message)),
            ),
            (Stage::AwaitingBinary, EventView::Binary(Ok(program))) => (
                CallView { stage: Stage::Running, ..self },
                ActionView::Run(program, self.command()),
            ),
            (Stage::AwaitingBinary, EventView::Binary(Err(message))) => self.conclude(
                Err((ToolErrorKind::Binary, message)),
            ),
            (Stage::Running, EventView::Exited(success, stdout, stderr)) => if success {
                self.conclude(Ok(stdout))
            } else {
                self.conclude(Err((ToolErrorKind::ProcessFailed, PROCESS_FAILED_HEAD@ + stderr)))
            },
            (Stage::Running, EventView::SpawnFailed(message)) => self.conclude(
                Err((ToolErrorKind::Spawn, message)),
            ),
            (Stage::Running, EventView::TimedOut) => self.conclude(
                Err((ToolErrorKind::TimedOut, TIMED_OUT@)),
            ),
            (Stage::Cleaning, EventView::Removed) => self.clean_next(),
            _ => self.conclude(Err((ToolErrorKind::UnexpectedEvent, UNEXPECTED_EVENT@))),
        }
    }
}

/// A call that is over, with nothing written and nothing to run.
pub open spec fn idle_call() -> CallView {
    CallView {
        stage: Stage::Done,
        target: Seq::empty(),
        candidates: Seq::empty(),
        labels: Seq::empty(),
        deferred: None,
        files: Seq::empty(),
        written: 0,
        removed: 0,
        scan_target: Seq::empty(),
        apply: false,
        outcome: None,
    }
}

impl ToolCall {
    /// A call that is over before it began, with this outcome.
    pub fn finished(outcome: Result<String, ToolError>) -> (step: (ToolCall, ToolAction))
        ensures
            step.0@ == idle_call(),
            step.0@.wf(),
            step.0@.pending().len() == 0,
            step.1@ == ActionView::Finish(outcome_view(outcome)),
    {
        let call = ToolCall {
            stage: Stage::Done,
            target: String::new(),
            candidates: Vec::new(),
            labels: Vec::new(),
            deferred: None,
            files: Vec::new(),
            written: 0,
            removed: 0,
            scan_target: String::new(),
            apply: false,
            outcome: None,
        };
        proof {
            assert(call@.candidates =~= Seq::<Seq<char>>::empty());
            assert(call@.labels =~= Seq::<Seq<char>>::empty());
            assert(call@.files =~= Seq::<(Seq<char>, Seq<char>)>::empty());
        }
        (call, ToolAction::Finish(outcome))
    }

    /// The arguments the executable is run with.
    fn command_args(&self) -> (args: Vec<String>)
        ensures
            views(args@) == self@.command(),
    {
        let mut args: Vec<String> = Vec::new();
        args.push("scan".to_owned());
        args.push("--rule".to_owned());
        if self.files.len() > 0 {
            args.push(self.files[0].path.clone());
        } else {
            args.push(String::new());
        }
        args.push(self.scan_target.clone());
        if self.apply {
            args.push("-U".to_owned());
        } else {
            args.push("--json".to_owned());
        }
        assert(views(args@) =~= self@.command());
        args
    }

    /// Asks for the next temporary file to be written, or for the
    /// executable once all are.
    pub fn write_next(self) -> (step: (ToolCall, ToolAction))
        requires
            self@.wf(),
        ensures
            (step.0@, step.1@) == self@.write_next(),
            step.0@.wf(),
    {
        let mut call = self;
        if call.written < call.files.len() {
            let path = call.files[call.written].path.clone();
            let content = call.files[call.written].content.clone();
            call.stage = Stage::Writing;
            call.written = call.written + 1;
            (call, ToolAction::WriteFile { path, content })
        } else {
            call.stage = Stage::AwaitingBinary;
            (call, ToolAction::EnsureBinary)
        }
    }

    /// Asks for the next written file to be removed, or finishes with the
    /// outcome once none is left.
    pub fn clean_next(self) -> (step: (ToolCall, ToolAction))
        requires
            self@.wf(),
        ensures
            (step.0@, step.1@) == self@.clean_next(),
            step.0@.wf(),
    {
        let mut call = self;
        if call.removed < call.written {
            let path = call.files[call.removed].path.clone();
            call.stage = Stage::Cleaning;
            call.removed = call.removed + 1;
            (call, ToolAction::RemoveFile { path })
        } else {
            call.stage = Stage::Done;
            let outcome = match &call.outcome {
                Some(outcome) => copy_outcome(outcome),
                None => Err(ToolError::new(ToolErrorKind::UnexpectedEvent, NO_OUTCOME.to_owned())),
            };
            (call, ToolAction::Finish(outcome))
        }
    }

    /// Settles the outcome and begins to clean up.
    pub fn conclude(self, outcome: Result<String, ToolError>) -> (step: (ToolCall, ToolAction))
        requires
            self@.wf(),
        ensures
            (step.0@, step.1@) == self@.conclude(outcome_view(outcome)),
            step.0@.wf(),
    {
        let mut call = self;
        call.outcome = Some(outcome);
        call.clean_next()
    }

    /// Goes on once the target is resolved to `path`.
    pub fn resolved(self, path: String) -> (step: (ToolCall, ToolAction))
        requires
            self@.wf(),
        ensures
            (step.0@, step.1@) == self@.resolved(path@),
            step.0@.wf(),
    {
        let mut call = self;
        let fault = match &call.deferred {
            Some(fault) => Some(ToolError::new(fault.kind, fault.message.clone())),
            None => None,
        };
        match fault {
            Some(fault) => call.conclude(Err(fault)),
            None => {
                call.scan_target = path;
                call.write_next()
            },
        }
    }

    /// Carries the call on with the answer to its last action.
    pub fn step(self, event: ToolEvent) -> (step: (ToolCall, ToolAction))
        requires
            self@.wf(),
        ensures
            (step.0@, step.1@) == self@.next(event@),
            step.0@.wf(),
    {
        let stage = self.stage;
        match (stage, event) {
            (Stage::Resolving, ToolEvent::Probed { exists }) => {
                match resolve_among(&self.candidates, &self.labels, self.target.as_str(), &exists) {
                    Ok(path) => self.resolved(path),
                    Err(fault) => self.conclude(Err(fault)),
                }
            },
            (Stage::Writing, ToolEvent::Written(Ok(_))) => self.write_next(),
            (Stage::Writing, ToolEvent::Written(Err(message))) => self.conclude(
                Err(ToolError::new(ToolErrorKind::TempFile, message)),
            ),
            (Stage::AwaitingBinary, ToolEvent::Binary(Ok(program))) => {
                let args = self.command_args();
                let mut call = self;
                call.stage = Stage::Running;
                (call, ToolAction::Run { program, args })
            },
            (Stage::AwaitingBinary, ToolEvent::Binary(Err(message))) => self.conclude(
                Err(ToolError::new(ToolErrorKind::Binary, message)),
            ),
            (Stage::Running, ToolEvent::Exited { success, stdout, stderr }) => {
                if success {
                    self.conclude(Ok(stdout))
                } else {
                    let mut message = PROCESS_FAILED_HEAD.to_owned();
                    message.append(stderr.as_str());
                    self.conclude(Err(ToolError::new(ToolErrorKind::ProcessFailed, message)))
                }
            },
            (Stage::Running, ToolEvent::SpawnFailed(message)) => self.conclude(
                Err(ToolError::new(ToolErrorKind::Spawn, message)),
            ),
            (Stage::Running, ToolEvent::TimedOut) => self.conclude(
                Err(ToolError::new(ToolErrorKind::TimedOut, TIMED_OUT.to_owned())),
            ),
            (Stage::Cleaning, ToolEvent::Removed) => self.clean_next(),
            _ => self.conclude(
                Err(ToolError::new(ToolErrorKind::UnexpectedEvent, UNEXPECTED_EVENT.to_owned())),
            ),
        }
    }
}

/// A copy of an outcome.
pub fn copy_outcome(outcome: &Result<String, ToolError>) -> (copy: Result<String, ToolError>)
    ensures
        outcome_view(copy) == outcome_view(*outcome),
{
    match outcome {
        Ok(text) => Ok(text.clone()),
        Err(e) => Err(ToolError::new(e.kind, e.message.clone())),
    }
}

/// The temporary files of a call are all removed before it finishes: each
/// step keeps exact account of the files written and not yet removed, a file
/// is added to them only by asking for it to be written and taken from them
/// only by asking for it to be removed, and a call finishes only when none
/// is left. This holds for every stage and every event, whether the call
/// succeeds or fails.
pub proof fn lemma_temp_files_are_cleaned_up(call: CallView, event: EventView)
    requires
        call.wf(),
    ensures
        ({
            let (after, action) = call.next(event);
            &&& after.wf()
            &&& after.files == call.files
            &&& match action {
                ActionView::WriteFile(path, _) => after.pending() == call.pending().push(path),
                ActionView::RemoveFile(path) => call.pending().len() > 0 && path
                    == call.pending()[0] && after.pending() == call.pending().skip(1),
                ActionView::Finish(_) => after.pending().len() == 0 && call.pending().len() == 0
                    && after.stage == Stage::Done,
                _ => after.pending() == call.pending(),
            }
        }),
{
    let (after, action) = call.next(event);
    match action {
        ActionView::WriteFile(path, _) => {
            assert(after.pending() =~= call.pending().push(path));
        },
        ActionView::RemoveFile(path) => {
            assert(after.pending() =~= call.pending().skip(1));
        },
        ActionView::Finish(_) => {},
        _ => {
            assert(after.pending() =~= call.pending());
        },
    }
}

/// The executable is run only on the word that it was found, and only by a
/// call that has no fault to report: a call with a deferred fault never
/// writes a file and never runs anything.
pub proof fn lemma_faulty_call_runs_nothing(call: CallView, event: EventView)
    requires
        call.wf(),
        call.deferred is Some,
        call.stage == Stage::Resolving,
        call.written == 0,
    ensures
        ({
            let (after, action) = call.next(event);
            &&& action is Finish
            &&& action->Finish_0 is Err
        }),
{
}

/// The executable is asked for, and run, only after every temporary file of
/// the call was written.
pub proof fn lemma_run_follows_writing(call: CallView, event: EventView)
    requires
        call.wf(),
    ensures
        ({
            let (after, action) = call.next(event);
            &&& action is Run ==> call.stage == Stage::AwaitingBinary && event is Binary
            &&& action is EnsureBinary ==> after.written == after.files.len()
        }),
{
}

/// What a call does as events arrive one after the other: where it stands
/// after the last of them, and the actions it asked for.
pub open spec fn run(call: CallView, events: Seq<EventView>) -> (CallView, Seq<ActionView>)
    decreases events.len(),
{
    if events.len() == 0 {
        (call, Seq::empty())
    } else {
        let (before, actions) = run(call, events.drop_last());
        let (after, action) = before.next(events.last());
        (after, actions.push(action))
    }
}

/// The path that an action asks to be written, if it asks for that.
pub open spec fn written_by(action: ActionView) -> Seq<Seq<char>> {
    match action {
        ActionView::WriteFile(path, _) => seq![path],
        _ => Seq::empty(),
    }
}

/// The path that an action asks to be removed, if it asks for that.
pub open spec fn removed_by(action: ActionView) -> Seq<Seq<char>> {
    match action {
        ActionView::RemoveFile(path) => seq![path],
        _ => Seq::empty(),
    }
}

/// The paths that the actions ask to be written, in order.
pub open spec fn written(actions: Seq<ActionView>) -> Seq<Seq<char>>
    decreases actions.len(),
{
    if actions.len() == 0 {
        Seq::empty()
    } else {
        written(actions.drop_last()) + written_by(actions.last())
    }
}

/// The paths that the actions ask to be removed, in order.
pub open spec fn removed(actions: Seq<ActionView>) -> Seq<Seq<char>>
    decreases actions.len(),
{
    if actions.len() == 0 {
        Seq::empty()
    } else {
        removed(actions.drop_last()) + removed_by(actions.last())
    }
}

/// Whatever events arrive, and in whatever order, a call removes its files
/// in the order in which it wrote them: the files pending at first and the
/// files written since are the files removed since and the files pending
/// now.
pub proof fn lemma_files_are_removed_in_order(call: CallView, events: Seq<EventView>)
    requires
        call.wf(),
    ensures
        ({
            let (after, actions) = run(call, events);
            &&& after.wf()
            &&& actions.len() == events.len()
            &&& call.pending() + written(actions) == removed(actions) + after.pending()
        }),
    decreases events.len(),
{
    let (after, actions) = run(call, events);
    if events.len() == 0 {
        assert(call.pending() + written(actions) =~= removed(actions) + after.pending());
    } else {
        lemma_files_are_removed_in_order(call, events.drop_last());
        let (before, earlier) = run(call, events.drop_last());
        lemma_temp_files_are_cleaned_up(before, events.last());
        let action = actions.last();
        assert(actions.drop_last() =~= earlier);
        let w = written(earlier);
        let r = removed(earlier);
        assert(call.pending() + w == r + before.pending());
        match action {
            ActionView::WriteFile(path, _) => {
                assert(call.pending() + (w + seq![path]) =~= (call.pending() + w).push(path));
                assert((r + Seq::<Seq<char>>::empty()) + before.pending().push(path) =~= (r
                    + before.pending()).push(path));
            },
            ActionView::RemoveFile(path) => {
                assert((r + seq![path]) + before.pending().skip(1) =~= r + before.pending());
                assert(call.pending() + (w + Seq::<Seq<char>>::empty()) =~= call.pending() + w);
            },
            _ => {
                assert(call.pending() + (w + Seq::<Seq<char>>::empty()) =~= call.pending() + w);
                assert((r + Seq::<Seq<char>>::empty()) + after.pending() =~= r + after.pending());
            },
        }
    }
}

/// A call that begins without pending files and has finished has asked for
/// the removal of every file it asked to be written, whether it succeeded or
/// failed and whatever happened in between.
pub proof fn lemma_finished_call_leaves_no_file(call: CallView, events: Seq<EventView>)
    requires
        call.wf(),
        call.pending().len() == 0,
        events.len() > 0,
        run(call, events).1.last() is Finish,
    ensures
        written(run(call, events).1) == removed(run(call, events).1),
        run(call, events).0.pending().len() == 0,
{
    lemma_files_are_removed_in_order(call, events);
    let (after, actions) = run(call, events);
    let (before, earlier) = run(call, events.drop_last());
    lemma_files_are_removed_in_order(call, events.drop_last());
    lemma_temp_files_are_cleaned_up(before, events.last());
    assert(call.pending() + written(actions) =~= written(actions));
    assert(removed(actions) + after.pending() =~= removed(actions));
}

} // verus!
