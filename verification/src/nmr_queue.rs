//! Simulation jobs and the dispatcher that runs them one at a time.
//!
//! The dispatcher is a state machine. It never sleeps, reads a file or starts
//! a process itself: [`NmrQueueData::step`] takes an [`Event`], moves to the
//! next state and answers with the [`Action`] that its caller is to perform.
//! The caller performs it and comes back with the event that the action
//! produced.
//!
//! ```text
//! AwaitingJob --Wake--> Resolving --> Executing --> Publishing --Published--> AwaitingJob
//! ```
//!
//! A job that cannot be resolved or run is not dropped and does not stop the
//! dispatcher: its failure is published like an output. Only `Event::Fault`,
//! or an event that answers nothing the dispatcher asked for, ends in
//! `Phase::Fatal`.

use crate::read_conf::{parse_conf, read_conf, ConfigError, SimulationPaths};
use crate::trusted::text_from_utf8;
use crate::worker_queue::{LeaseState, TaskQueue, Work};
use vstd::prelude::*;
use vstd::utf8::{decode_utf8, valid_utf8};

verus! {

/// Where the dispatcher stands.
#[derive(Clone, Copy, Debug, PartialEq, Eq, Structural)]
pub enum Phase {
    /// No job is leased.
    AwaitingJob,
    /// A job is leased and its executable is being looked up.
    Resolving,
    /// The executable of the leased job runs.
    Executing,
    /// The result of the leased job is on its way to the submitter.
    Publishing,
    /// The dispatcher has given up.
    Fatal,
}

impl Phase {
    /// A job is leased and on its way to a result.
    pub open spec fn busy(self) -> bool {
        self is Resolving || self is Executing || self is Publishing
    }
}

/// Why a job has no output.
#[derive(Clone, Copy, Debug, PartialEq, Eq, Structural)]
pub enum JobFailure {
    /// The mapping in force has no executable for the job's simulation.
    UnresolvableSimulation,
    /// The executable could not be started, ended with a failure status, or
    /// wrote something that is not text.
    ExecutionFailure,
}

/// Why a job was not accepted.
#[derive(Clone, Copy, Debug, PartialEq, Eq, Structural)]
pub enum SubmitError {
    /// No path to a configuration source has been set.
    NoConfiguration,
}

/// What a job is to its callers.
#[verifier::ext_equal]
pub struct TaskView {
    pub simulation: Seq<char>,
    pub args: Seq<Seq<char>>,
    pub result_channel: u64,
}

/// A request to run one simulation.
pub struct Task {
    simulation: String,
    args: Vec<String>,
    result_channel: u64,
}

impl View for Task {
    type V = TaskView;

    closed spec fn view(&self) -> TaskView {
        TaskView {
            simulation: self.simulation@,
            args: self.args.deep_view(),
            result_channel: self.result_channel,
        }
    }
}

impl Task {
    /// A job that runs `simulation` with `args` and whose result goes to the
    /// channel numbered `result_channel`.
    pub fn new(simulation: String, args: Vec<String>, result_channel: u64) -> (task: Task)
        ensures
            task@ == (TaskView {
                simulation: simulation@,
                args: args.deep_view(),
                result_channel,
            }),
    {
        Task { simulation, args, result_channel }
    }
}

impl Clone for Task {
    fn clone(&self) -> (copy: Task)
        ensures
            copy@ == self@,
    {
        Task {
            simulation: self.simulation.clone(),
            args: self.args.clone(),
            result_channel: self.result_channel,
        }
    }
}

/// What happened outside the dispatcher.
#[derive(Debug, PartialEq, Eq)]
pub enum Event {
    /// Time has passed or a job was submitted: look at the job queue.
    Wake,
    /// The freshness marker of the configuration source, such as its time of
    /// last change; `None` if it could not be had.
    SourceStamp(Option<u64>),
    /// The text of the configuration source; `None` if it could not be read.
    SourceText(Option<String>),
    /// The executable ran to its end. `success` says whether its exit status
    /// was zero, `stdout` is all that it wrote to its standard output.
    Exited { success: bool, stdout: Vec<u8> },
    /// The executable could not be started.
    LaunchFailed,
    /// The result is in the job's result channel.
    Published,
    /// The worker cannot go on.
    Fault,
}

/// What the dispatcher asks its caller to do next.
#[derive(Debug, PartialEq, Eq)]
pub enum Action {
    /// Let some time pass, then send `Event::Wake`.
    Wait,
    /// Get the freshness marker of the source at `path` and send it as
    /// `Event::SourceStamp`.
    CheckSource { path: String },
    /// Read the source at `path` and send its text as `Event::SourceText`.
    ReadSource { path: String },
    /// Run `command` with `args`, wait for it, and send `Event::Exited` or
    /// `Event::LaunchFailed`.
    Launch { command: String, args: Vec<String> },
    /// Put `result` into the result channel numbered `channel`, then send
    /// `Event::Published`.
    Publish { channel: u64, result: Result<String, JobFailure> },
    /// Stop: the dispatcher will do nothing more.
    Stop,
}

/// `Event` over mathematical values.
pub enum EventView {
    Wake,
    SourceStamp(Option<u64>),
    SourceText(Option<Seq<char>>),
    Exited { success: bool, stdout: Seq<u8> },
    LaunchFailed,
    Published,
    Fault,
}

/// `Action` over mathematical values.
#[verifier::ext_equal]
pub enum ActionView {
    Wait,
    CheckSource { path: Seq<char> },
    ReadSource { path: Seq<char> },
    Launch { command: Seq<char>, args: Seq<Seq<char>> },
    Publish { channel: u64, result: Result<Seq<char>, JobFailure> },
    Stop,
}

/// The characters of a text that may be missing.
pub open spec fn text_view(text: Option<String>) -> Option<Seq<char>> {
    match text {
        Some(t) => Some(t@),
        None => None,
    }
}

/// The characters of a borrowed text that may be missing.
pub open spec fn text_of(text: Option<&str>) -> Option<Seq<char>> {
    match text {
        Some(t) => Some(t@),
        None => None,
    }
}

/// How the load of a source ends: well for a well-formed text, and with the
/// error that says whether the source could not be read or its text is
/// malformed.
pub open spec fn load_outcome(text: Option<Seq<char>>) -> Result<(), ConfigError> {
    match text {
        Some(t) => if parse_conf(t) is Some {
            Ok(())
        } else {
            Err(ConfigError::Malformed)
        },
        None => Err(ConfigError::Unreadable),
    }
}

/// A job's result over mathematical values.
pub open spec fn result_view(result: Result<String, JobFailure>) -> Result<Seq<char>, JobFailure> {
    match result {
        Ok(text) => Ok(text@),
        Err(failure) => Err(failure),
    }
}

impl View for Event {
    type V = EventView;

    open spec fn view(&self) -> EventView {
        match *self {
            Event::Wake => EventView::Wake,
            Event::SourceStamp(stamp) => EventView::SourceStamp(stamp),
            Event::SourceText(text) => EventView::SourceText(text_view(text)),
            Event::Exited { success, stdout } => EventView::Exited { success, stdout: stdout@ },
            Event::LaunchFailed => EventView::LaunchFailed,
            Event::Published => EventView::Published,
            Event::Fault => EventView::Fault,
        }
    }
}

impl View for Action {
    type V = ActionView;

    open spec fn view(&self) -> ActionView {
        match *self {
            Action::Wait => ActionView::Wait,
            Action::CheckSource { path } => ActionView::CheckSource { path: path@ },
            Action::ReadSource { path } => ActionView::ReadSource { path: path@ },
            Action::Launch { command, args } => ActionView::Launch {
                command: command@,
                args: args.deep_view(),
            },
            Action::Publish { channel, result } => ActionView::Publish {
                channel,
                result: result_view(result),
            },
            Action::Stop => ActionView::Stop,
        }
    }
}

/// What the run of an executable means for its job: its output as text if it
/// ended with success and wrote valid UTF-8, a failure otherwise.
pub open spec fn outcome(success: bool, stdout: Seq<u8>) -> Result<Seq<char>, JobFailure> {
    if success && valid_utf8(stdout) {
        Ok(decode_utf8(stdout))
    } else {
        Err(JobFailure::ExecutionFailure)
    }
}

/// The waiting jobs of a queue over mathematical values.
pub open spec fn job_views(queue: LeaseState<Task>) -> LeaseState<TaskView> {
    LeaseState { items: queue.items.map_values(|task: Task| task@), leased: queue.leased }
}

/// The dispatcher and its job queue over mathematical values.
#[verifier::ext_equal]
pub struct DispatchState {
    /// Where the configuration source is, once that has been set.
    pub conf_path: Option<Seq<char>>,
    /// The mapping in force; `None` until a source has been loaded.
    pub paths: Option<Map<Seq<char>, Seq<char>>>,
    /// The freshness marker that the source had when `paths` was loaded.
    pub marker: Option<u64>,
    /// The job queue. While the dispatcher is busy, its head is the job
    /// being worked on.
    pub jobs: LeaseState<TaskView>,
    pub phase: Phase,
    /// The marker of the source whose text has been asked for.
    pub pending: Option<u64>,
}

impl DispatchState {
    /// The state of a dispatcher that has seen nothing yet.
    pub open spec fn initial(conf_path: Option<Seq<char>>) -> Self {
        DispatchState {
            conf_path,
            paths: None,
            marker: None,
            jobs: LeaseState::empty(),
            phase: Phase::AwaitingJob,
            pending: None,
        }
    }

    /// The job queue and the phase agree on whether a job is leased.
    pub open spec fn valid(self) -> bool {
        &&& self.jobs.valid()
        &&& self.phase.busy() ==> self.jobs.leased
        &&& self.phase is AwaitingJob ==> !self.jobs.leased
    }

    /// The mapping in force is stale for a source whose marker is `stamp`:
    /// nothing has been loaded yet, or what was loaded bore another marker.
    pub open spec fn needs_reload(self, stamp: u64) -> bool {
        self.paths is None || self.marker != Some(stamp)
    }

    /// The state after the text of a source whose marker is `stamp` came in.
    /// A well-formed text replaces the mapping in force; a missing or
    /// malformed one leaves it in force.
    pub open spec fn loaded(self, stamp: u64, text: Option<Seq<char>>) -> Self {
        match text {
            Some(t) => match parse_conf(t) {
                Some(paths) => DispatchState { paths: Some(paths), marker: Some(stamp), ..self },
                None => self,
            },
            None => self,
        }
    }

    /// The state after a job was accepted.
    pub open spec fn submitted(self, job: TaskView) -> Self {
        DispatchState { jobs: self.jobs.put(job), ..self }
    }

    /// The executable that the mapping in force gives for the leased job.
    pub open spec fn resolved(self) -> Result<Seq<char>, JobFailure> {
        match self.paths {
            Some(paths) => if paths.contains_key(self.jobs.head().simulation) {
                Ok(paths[self.jobs.head().simulation])
            } else {
                Err(JobFailure::UnresolvableSimulation)
            },
            None => Err(JobFailure::UnresolvableSimulation),
        }
    }

    /// Giving up.
    pub open spec fn fail(self) -> (Self, ActionView) {
        (DispatchState { phase: Phase::Fatal, ..self }, ActionView::Stop)
    }

    /// Handing the result of the leased job to its submitter.
    pub open spec fn publish(self, result: Result<Seq<char>, JobFailure>) -> (Self, ActionView) {
        (
            DispatchState { phase: Phase::Publishing, pending: None, ..self },
            ActionView::Publish { channel: self.jobs.head().result_channel, result },
        )
    }

    /// Looking the leased job up in the mapping in force: its executable is
    /// launched, or its failure published.
    pub open spec fn resolve(self) -> (Self, ActionView) {
        match self.resolved() {
            Ok(command) => (
                DispatchState { phase: Phase::Executing, pending: None, ..self },
                ActionView::Launch { command, args: self.jobs.head().args },
            ),
            Err(failure) => self.publish(Err(failure)),
        }
    }

    /// Looking at the job queue: the head is leased if that can be done, and
    /// the dispatcher waits if not.
    pub open spec fn await_job(self) -> (Self, ActionView) {
        if self.jobs.can_lease() {
            let leased = DispatchState {
                jobs: self.jobs.lease(),
                phase: Phase::Resolving,
                pending: None,
                ..self
            };
            match self.conf_path {
                Some(path) => (leased, ActionView::CheckSource { path }),
                None => leased.resolve(),
            }
        } else {
            (
                DispatchState { phase: Phase::AwaitingJob, pending: None, ..self },
                ActionView::Wait,
            )
        }
    }

    /// Taking in the marker of the source: its text is asked for if the
    /// mapping in force is stale, and the job is resolved at once if not, or
    /// if there is no marker to go by.
    pub open spec fn on_stamp(self, stamp: Option<u64>) -> (Self, ActionView) {
        if self.pending is Some {
            self.fail()
        } else {
            match (stamp, self.conf_path) {
                (Some(t), Some(path)) => if self.needs_reload(t) {
                    (
                        DispatchState { pending: Some(t), ..self },
                        ActionView::ReadSource { path },
                    )
                } else {
                    self.resolve()
                },
                _ => self.resolve(),
            }
        }
    }

    /// Taking in the text of the source, then resolving the job.
    pub open spec fn on_text(self, text: Option<Seq<char>>) -> (Self, ActionView) {
        match self.pending {
            Some(stamp) => self.loaded(stamp, text).resolve(),
            None => self.fail(),
        }
    }

    /// Acknowledging the job whose result was published, then looking at the
    /// job queue again.
    pub open spec fn finish(self) -> (Self, ActionView) {
        DispatchState { jobs: self.jobs.ack(), phase: Phase::AwaitingJob, ..self }.await_job()
    }

    /// The event answers what the dispatcher asked for last.
    pub open spec fn expects(self, event: EventView) -> bool {
        match (self.phase, event) {
            (Phase::AwaitingJob, EventView::Wake) => true,
            (Phase::Resolving, EventView::SourceStamp(_)) => self.pending is None,
            (Phase::Resolving, EventView::SourceText(_)) => self.pending is Some,
            (Phase::Executing, EventView::Exited { .. }) => true,
            (Phase::Executing, EventView::LaunchFailed) => true,
            (Phase::Publishing, EventView::Published) => true,
            _ => false,
        }
    }

    /// The next state, and what the caller is to do, for every state and
    /// every event.
    pub open spec fn step(self, event: EventView) -> (Self, ActionView) {
        match (self.phase, event) {
            (Phase::Fatal, _) => self.fail(),
            (_, EventView::Fault) => self.fail(),
            (Phase::AwaitingJob, EventView::Wake) => self.await_job(),
            (Phase::Resolving, EventView::SourceStamp(stamp)) => self.on_stamp(stamp),
            (Phase::Resolving, EventView::SourceText(text)) => self.on_text(text),
            (Phase::Executing, EventView::Exited { success, stdout }) => self.publish(
                outcome(success, stdout),
            ),
            (Phase::Executing, EventView::LaunchFailed) => self.publish(
                Err(JobFailure::ExecutionFailure),
            ),
            (Phase::Publishing, EventView::Published) => self.finish(),
            _ => self.fail(),
        }
    }

    /// How many answers the leased job is from the publication of its result,
    /// at most.
    pub open spec fn distance(self) -> nat {
        match self.phase {
            Phase::Resolving => if self.pending is None {
                3
            } else {
                2
            },
            Phase::Executing => 1,
            _ => 0,
        }
    }
}

/// One thing that reaches the dispatcher or its queue.
pub enum Input {
    /// A submitter offers a job.
    Submit(TaskView),
    /// The worker reports an event.
    Report(EventView),
}

impl DispatchState {
    /// The state after one input. A job that is offered while no
    /// configuration source is named is refused and changes nothing.
    pub open spec fn take_in(self, input: Input) -> Self {
        match input {
            Input::Submit(job) => if self.conf_path is Some {
                self.submitted(job)
            } else {
                self
            },
            Input::Report(event) => self.step(event).0,
        }
    }

    /// The state after a history of inputs, taken in order.
    pub open spec fn after(self, inputs: Seq<Input>) -> Self
        decreases inputs.len(),
    {
        if inputs.len() == 0 {
            self
        } else {
            self.after(inputs.drop_last()).take_in(inputs.last())
        }
    }

    /// The jobs that a history of inputs got accepted, in order.
    pub open spec fn accepted(self, inputs: Seq<Input>) -> Seq<TaskView>
        decreases inputs.len(),
    {
        if inputs.len() == 0 {
            Seq::empty()
        } else {
            let earlier = self.accepted(inputs.drop_last());
            match inputs.last() {
                Input::Submit(job) => if self.after(inputs.drop_last()).conf_path is Some {
                    earlier.push(job)
                } else {
                    earlier
                },
                Input::Report(_) => earlier,
            }
        }
    }

    /// The channels to which a history of inputs had results sent, in order.
    pub open spec fn published(self, inputs: Seq<Input>) -> Seq<u64>
        decreases inputs.len(),
    {
        if inputs.len() == 0 {
            Seq::empty()
        } else {
            let earlier = self.published(inputs.drop_last());
            match inputs.last() {
                Input::Report(event) => match self.after(inputs.drop_last()).step(event).1 {
                    ActionView::Publish { channel, .. } => earlier.push(channel),
                    _ => earlier,
                },
                Input::Submit(_) => earlier,
            }
        }
    }

    /// How many jobs a history of inputs got acknowledged.
    pub open spec fn served(self, inputs: Seq<Input>) -> nat
        decreases inputs.len(),
    {
        if inputs.len() == 0 {
            0
        } else {
            let earlier = self.served(inputs.drop_last());
            match inputs.last() {
                Input::Report(event) => if self.after(inputs.drop_last()).phase is Publishing
                    && event is Published {
                    earlier + 1
                } else {
                    earlier
                },
                Input::Submit(_) => earlier,
            }
        }
    }
}

/// Results come in the order of submission, one for each job. After any
/// history of submissions and events on a new dispatcher, the results sent so
/// far went to the channels of the jobs accepted first, in the order in which
/// they were accepted; a job is acknowledged only after its result was sent;
/// and the jobs still queued are the accepted ones less the acknowledged
/// ones.
pub proof fn lemma_results_in_submission_order(conf_path: Option<Seq<char>>, inputs: Seq<Input>)
    ensures
        ({
            let start = DispatchState::initial(conf_path);
            let now = start.after(inputs);
            let accepted = start.accepted(inputs);
            let published = start.published(inputs);
            let served = start.served(inputs);
            &&& now.valid()
            &&& served <= published.len() <= served + 1
            &&& published.len() <= accepted.len()
            &&& forall|k: int|
                0 <= k < published.len() ==> published[k] == (#[trigger] accepted[k]).result_channel
            &&& now.jobs.items == accepted.skip(served as int)
            &&& now.phase is Publishing ==> published.len() == served + 1
            &&& now.phase is AwaitingJob || now.phase is Resolving || now.phase is Executing
                ==> published.len() == served
        }),
    decreases inputs.len(),
{
    if inputs.len() > 0 {
        let earlier = inputs.drop_last();
        lemma_results_in_submission_order(conf_path, earlier);
        if let Input::Report(event) = inputs.last() {
            let before = DispatchState::initial(conf_path).after(earlier);
            lemma_step_valid(before, event);
            lemma_result_is_the_jobs_own(before, event);
        }
    }
}

/// The dispatcher keeps the job queue and the phase in agreement.
pub proof fn lemma_step_valid(s: DispatchState, event: EventView)
    requires
        s.valid(),
    ensures
        s.step(event).0.valid(),
{
}

/// No job stops the dispatcher and none is left without a result. While a
/// job is leased, every answer to what the dispatcher asked for is taken in,
/// whatever it says, without giving up; it brings the job closer to the
/// publication of its result, which comes after three answers at most; and
/// the job stays the leased head of the queue until that result has been
/// published.
pub proof fn lemma_job_reaches_result(s: DispatchState, event: EventView)
    requires
        s.valid(),
        s.phase.busy(),
        s.expects(event),
    ensures
        !(s.step(event).0.phase is Fatal),
        !(s.step(event).1 is Stop),
        !(s.phase is Publishing) ==> {
            &&& s.step(event).0.phase.busy()
            &&& s.step(event).0.distance() < s.distance()
            &&& s.step(event).0.jobs == s.jobs
        },
        s.phase is Publishing ==> s.jobs.ack().items == s.step(event).0.jobs.items,
{
}

/// A result goes to the channel of the job it belongs to, and says what that
/// job's own run gave. Whenever the dispatcher asks for a launch or for a
/// publication, the job concerned is the leased head of the queue; the launch
/// is of the executable that the mapping in force gives for that job's
/// simulation, with that job's arguments; and the result published is the
/// output of the run that just ended if it succeeded, an execution failure if
/// it did not, and otherwise the failure to resolve the job.
pub proof fn lemma_result_is_the_jobs_own(s: DispatchState, event: EventView)
    requires
        s.valid(),
    ensures
        s.step(event).1 matches ActionView::Publish { channel, result } ==> {
            let next = s.step(event).0;
            &&& next.phase is Publishing
            &&& next.jobs.leased
            &&& s.phase.busy() && !(s.phase is Publishing) ==> next.jobs == s.jobs
            &&& channel == next.jobs.head().result_channel
            &&& result == match event {
                EventView::Exited { success, stdout } => outcome(success, stdout),
                EventView::LaunchFailed => Err(JobFailure::ExecutionFailure),
                _ => Err(JobFailure::UnresolvableSimulation),
            }
        },
        s.step(event).1 matches ActionView::Launch { command, args } ==> {
            let next = s.step(event).0;
            &&& next.phase is Executing
            &&& next.jobs.leased
            &&& s.phase.busy() && !(s.phase is Publishing) ==> next.jobs == s.jobs
            &&& args == next.jobs.head().args
            &&& next.paths matches Some(paths)
            &&& paths.contains_key(next.jobs.head().simulation)
            &&& command == paths[next.jobs.head().simulation]
        },
{
}

/// Whether a reload is needed depends on the marker of the source and on what
/// was loaded last, and on nothing else: asked twice about a source that has
/// not changed, the dispatcher answers the same.
pub proof fn lemma_needs_reload_repeats(s: DispatchState, first: u64, second: u64)
    requires
        first == second,
    ensures
        s.needs_reload(first) == s.needs_reload(second),
{
}

/// A reload is needed until a source has been loaded; after a well-formed
/// text was loaded, none is needed while the source keeps its marker, and one
/// is needed as soon as the marker changes.
pub proof fn lemma_reload_on_change(s: DispatchState, stamp: u64, text: Seq<char>, later: u64)
    requires
        parse_conf(text) is Some,
    ensures
        DispatchState::initial(s.conf_path).needs_reload(stamp),
        !s.loaded(stamp, Some(text)).needs_reload(stamp),
        later != stamp ==> s.loaded(stamp, Some(text)).needs_reload(later),
        s.loaded(stamp, Some(text)).paths == parse_conf(text),
{
}

/// What the run of an executable means for its job.
pub fn output_of(success: bool, stdout: Vec<u8>) -> (result: Result<String, JobFailure>)
    ensures
        result_view(result) == outcome(success, stdout@),
{
    if !success {
        return Err(JobFailure::ExecutionFailure);
    }
    match text_from_utf8(stdout) {
        Some(text) => Ok(text),
        None => Err(JobFailure::ExecutionFailure),
    }
}

/// The dispatcher with its job queue and the mapping that it has loaded.
pub struct NmrQueueData {
    conf_path: Option<String>,
    simulation_paths: Option<SimulationPaths>,
    task_queue: TaskQueue<Task>,
    conf_last_update: Option<u64>,
    phase: Phase,
    /// The lease on the job being worked on.
    current: Option<Work<Task>>,
    /// The marker of the source whose text has been asked for.
    pending: Option<u64>,
}

impl View for NmrQueueData {
    type V = DispatchState;

    closed spec fn view(&self) -> DispatchState {
        DispatchState {
            conf_path: text_view(self.conf_path),
            paths: match self.simulation_paths {
                Some(paths) => Some(paths@),
                None => None,
            },
            marker: self.conf_last_update,
            jobs: job_views(self.task_queue@),
            phase: self.phase,
            pending: self.pending,
        }
    }
}

impl NmrQueueData {
    /// The job queue is well formed, and while the dispatcher is busy it
    /// holds the lease on the head of the queue.
    pub closed spec fn wf(&self) -> bool {
        &&& self.task_queue.wf()
        &&& self.phase.busy() ==> {
            &&& self.task_queue@.leased
            &&& self.current matches Some(work)
            &&& work@@ == self.task_queue@.head()@
        }
        &&& self.phase is AwaitingJob ==> !self.task_queue@.leased
    }

    /// A well-formed dispatcher is in a valid state.
    pub proof fn lemma_wf_valid(&self)
        requires
            self.wf(),
        ensures
            self@.valid(),
    {
        self.task_queue.lemma_wf_valid();
    }

    /// A dispatcher that awaits its first job, with nothing loaded.
    pub fn new(conf_path: Option<String>) -> (data: NmrQueueData)
        ensures
            data.wf(),
            data@ == DispatchState::initial(text_view(conf_path)),
    {
        NmrQueueData {
            conf_path,
            simulation_paths: None,
            task_queue: TaskQueue::new(),
            conf_last_update: None,
            phase: Phase::AwaitingJob,
            current: None,
            pending: None,
        }
    }

    /// Whether the mapping in force is stale for a source whose freshness
    /// marker is `stamp`.
    pub fn was_updated(&self, stamp: u64) -> (stale: bool)
        ensures
            stale == self@.needs_reload(stamp),
    {
        match (&self.simulation_paths, self.conf_last_update) {
            (Some(_), Some(marker)) => marker != stamp,
            _ => true,
        }
    }

    /// Takes in what reading a source whose freshness marker is `stamp`
    /// gave: its text, or `None` if it could not be read. A well-formed text
    /// becomes the mapping in force, and `stamp` the marker it was loaded
    /// under. A source that could not be read and a malformed text are
    /// reported, each with its own error, and change nothing.
    pub fn update_conf(&mut self, stamp: u64, contents: Option<&str>) -> (loaded: Result<
        (),
        ConfigError,
    >)
        requires
            old(self).wf(),
        ensures
            final(self).wf(),
            final(self)@ == old(self)@.loaded(stamp, text_of(contents)),
            loaded == load_outcome(text_of(contents)),
    {
        match contents {
            Some(text) => match read_conf(text) {
                Ok(paths) => {
                    self.simulation_paths = Some(paths);
                    self.conf_last_update = Some(stamp);
                    Ok(())
                },
                Err(e) => Err(e),
            },
            None => Err(ConfigError::Unreadable),
        }
    }

    /// A copy of the job being worked on.
    fn current_job(&self) -> (job: Task)
        requires
            self.wf(),
            self@.phase.busy(),
        ensures
            job@ == self@.jobs.head(),
    {
        proof {
            self.task_queue.lemma_wf_valid();
        }
        match &self.current {
            Some(work) => work.get_task(),
            None => unreached(),
        }
    }

    fn fail(&mut self) -> (action: Action)
        requires
            old(self).wf(),
        ensures
            final(self).wf(),
            final(self)@ == old(self)@.fail().0,
            action@ == old(self)@.fail().1,
    {
        self.phase = Phase::Fatal;
        Action::Stop
    }

    fn publish(&mut self, result: Result<String, JobFailure>) -> (action: Action)
        requires
            old(self).wf(),
            old(self)@.phase.busy(),
        ensures
            final(self).wf(),
            final(self)@ == old(self)@.publish(result_view(result)).0,
            action@ == old(self)@.publish(result_view(result)).1,
    {
        let job = self.current_job();
        self.phase = Phase::Publishing;
        self.pending = None;
        Action::Publish { channel: job.result_channel, result }
    }

    fn resolve(&mut self) -> (action: Action)
        requires
            old(self).wf(),
            old(self)@.phase.busy(),
        ensures
            final(self).wf(),
            final(self)@ == old(self)@.resolve().0,
            action@ == old(self)@.resolve().1,
    {
        let job = self.current_job();
        let found: Option<String> = match &self.simulation_paths {
            Some(paths) => match paths.get(&job.simulation) {
                Some(path) => Some(path.clone()),
                None => None,
            },
            None => None,
        };
        match found {
            Some(command) => {
                self.phase = Phase::Executing;
                self.pending = None;
                Action::Launch { command, args: job.args }
            },
            None => self.publish(Err(JobFailure::UnresolvableSimulation)),
        }
    }

    fn await_job(&mut self) -> (action: Action)
        requires
            old(self).wf(),
            old(self)@.phase is AwaitingJob,
        ensures
            final(self).wf(),
            final(self)@ == old(self)@.await_job().0,
            action@ == old(self)@.await_job().1,
    {
        self.pending = None;
        match self.task_queue.try_get() {
            Some(work) => {
                self.current = Some(work);
                self.phase = Phase::Resolving;
                let path: Option<String> = match &self.conf_path {
                    Some(path) => Some(path.clone()),
                    None => None,
                };
                match path {
                    Some(path) => Action::CheckSource { path },
                    None => self.resolve(),
                }
            },
            None => Action::Wait,
        }
    }

    fn on_stamp(&mut self, stamp: Option<u64>) -> (action: Action)
        requires
            old(self).wf(),
            old(self)@.phase is Resolving,
        ensures
            final(self).wf(),
            final(self)@ == old(self)@.on_stamp(stamp).0,
            action@ == old(self)@.on_stamp(stamp).1,
    {
        if self.pending.is_some() {
            return self.fail();
        }
        let path: Option<String> = match &self.conf_path {
            Some(path) => Some(path.clone()),
            None => None,
        };
        match (stamp, path) {
            (Some(t), Some(path)) => {
                if self.was_updated(t) {
                    self.pending = Some(t);
                    Action::ReadSource { path }
                } else {
                    self.resolve()
                }
            },
            _ => self.resolve(),
        }
    }

    fn on_text(&mut self, text: Option<String>) -> (action: Action)
        requires
            old(self).wf(),
            old(self)@.phase is Resolving,
        ensures
            final(self).wf(),
            final(self)@ == old(self)@.on_text(text_view(text)).0,
            action@ == old(self)@.on_text(text_view(text)).1,
    {
        match self.pending {
            Some(stamp) => {
                let contents: Option<&str> = match &text {
                    Some(contents) => Some(contents.as_str()),
                    None => None,
                };
                let _ = self.update_conf(stamp, contents);
                self.resolve()
            },
            None => self.fail(),
        }
    }

    fn finish(&mut self) -> (action: Action)
        requires
            old(self).wf(),
            old(self)@.phase is Publishing,
        ensures
            final(self).wf(),
            final(self)@ == old(self)@.finish().0,
            action@ == old(self)@.finish().1,
    {
        proof {
            self.task_queue.lemma_wf_valid();
        }
        match self.current.take() {
            Some(work) => {
                self.task_queue.task_done(work);
            },
            None => {},
        }
        self.phase = Phase::AwaitingJob;
        self.await_job()
    }

    /// Where the dispatcher stands.
    pub fn phase(&self) -> (phase: Phase)
        ensures
            phase == self@.phase,
    {
        self.phase
    }

    /// How many jobs are queued, the one being worked on included.
    pub fn queued(&self) -> (n: usize)
        ensures
            n == self@.jobs.items.len(),
    {
        self.task_queue.size()
    }

    /// Takes in one event and says what is to be done next.
    pub fn step(&mut self, event: Event) -> (action: Action)
        requires
            old(self).wf(),
        ensures
            final(self).wf(),
            final(self)@ == old(self)@.step(event@).0,
            action@ == old(self)@.step(event@).1,
    {
        match (self.phase, event) {
            (Phase::Fatal, _) => self.fail(),
            (_, Event::Fault) => self.fail(),
            (Phase::AwaitingJob, Event::Wake) => self.await_job(),
            (Phase::Resolving, Event::SourceStamp(stamp)) => self.on_stamp(stamp),
            (Phase::Resolving, Event::SourceText(text)) => self.on_text(text),
            (Phase::Executing, Event::Exited { success, stdout }) => {
                let result = output_of(success, stdout);
                self.publish(result)
            },
            (Phase::Executing, Event::LaunchFailed) => self.publish(
                Err(JobFailure::ExecutionFailure),
            ),
            (Phase::Publishing, Event::Published) => self.finish(),
            _ => self.fail(),
        }
    }
}

/// The job queue of the dispatcher as its submitters see it.
pub struct NmrQueue {
    inner: NmrQueueData,
}

impl View for NmrQueue {
    type V = DispatchState;

    closed spec fn view(&self) -> DispatchState {
        self.inner@
    }
}

impl NmrQueue {
    pub closed spec fn wf(&self) -> bool {
        self.inner.wf()
    }

    /// A well-formed queue is in a valid state.
    pub proof fn lemma_wf_valid(&self)
        requires
            self.wf(),
        ensures
            self@.valid(),
    {
        self.inner.lemma_wf_valid();
    }

    /// An empty job queue whose dispatcher awaits its first job.
    pub fn new(conf_path: Option<String>) -> (queue: NmrQueue)
        ensures
            queue.wf(),
            queue@ == DispatchState::initial(text_view(conf_path)),
    {
        NmrQueue { inner: NmrQueueData::new(conf_path) }
    }

    /// Says where the configuration source is.
    pub fn set_conf_path(&mut self, conf_path: String)
        requires
            old(self).wf(),
        ensures
            final(self).wf(),
            final(self)@ == (DispatchState { conf_path: Some(conf_path@), ..old(self)@ }),
    {
        self.inner.conf_path = Some(conf_path);
    }

    /// Accepts a job at the tail of the queue. A job is refused, and nothing
    /// changes, exactly while no configuration source has been named.
    pub fn put(&mut self, task: Task) -> (accepted: Result<(), SubmitError>)
        requires
            old(self).wf(),
        ensures
            final(self).wf(),
            match accepted {
                Ok(_) => old(self)@.conf_path is Some && final(self)@ == old(self)@.submitted(
                    task@,
                ),
                Err(e) => old(self)@.conf_path is None && e == SubmitError::NoConfiguration
                    && final(self)@ == old(self)@,
            },
    {
        if self.inner.conf_path.is_none() {
            return Err(SubmitError::NoConfiguration);
        }
        proof {
            self.inner.task_queue.lemma_wf_valid();
        }
        self.inner.task_queue.put(task);
        Ok(())
    }

    /// Where the dispatcher stands.
    pub fn phase(&self) -> (phase: Phase)
        ensures
            phase == self@.phase,
    {
        self.inner.phase()
    }

    /// How many jobs are queued, the one being worked on included.
    pub fn queued(&self) -> (n: usize)
        ensures
            n == self@.jobs.items.len(),
    {
        self.inner.queued()
    }

    /// Takes in one event for the dispatcher and says what is to be done
    /// next.
    pub fn step(&mut self, event: Event) -> (action: Action)
        requires
            old(self).wf(),
        ensures
            final(self).wf(),
            final(self)@ == old(self)@.step(event@).0,
            action@ == old(self)@.step(event@).1,
    {
        self.inner.step(event)
    }
}

} // verus!
