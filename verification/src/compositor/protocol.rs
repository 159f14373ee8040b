//! One script exchange with the compositor, as a state machine.
//!
//! The scripting engine cannot return a value: a script's output leaves it as
//! a broadcast signal. An [`Exchange`] therefore decides, step by step, which
//! bus call or file access comes next and what the answer to it means; the
//! program around the library performs each [`Action`] and reports back with
//! an [`Event`]. Whatever happens on the way, every resource that an exchange
//! has created is released before it finishes.

use vstd::prelude::*;
use crate::compositor::CompositorError;
use crate::compositor::Stage;
use crate::compositor::script::{match_rule, match_rule_text, object_path_text, script_object_path};
use crate::text::same_text;

verus! {

/// How long a list request waits for the script's output, in milliseconds.
pub const RESPONSE_DEADLINE_MS: u64 = 500;

/// The name under which scripts are loaded into the compositor.
pub const PLUGIN_NAME: &'static str = "zlaunch-temp";

/// The member name of the signal that carries a script's output.
pub const PRINT_MEMBER: &'static str = "print";

/// Where an exchange stands: the name of the action whose answer is awaited.
#[derive(Clone, Copy, Debug, PartialEq, Eq, Structural)]
pub enum Phase {
    Writing,
    Loading,
    Subscribing,
    Starting,
    Waiting,
    Stopping,
    Unsubscribing,
    Deleting,
    Finished,
}

/// What the caller is asked to do next.
#[derive(Clone, Copy, Debug, PartialEq, Eq, Structural)]
pub enum Action {
    /// Write the script text to the script file.
    WriteFile,
    /// Load the script file into the scripting service.
    LoadScript,
    /// Register the match rule of the loaded script.
    AddMatch,
    /// Run the loaded script.
    Run,
    /// Hand over the next bus message, or report that the deadline has passed.
    Poll,
    /// Stop the loaded script; a failure is of no consequence.
    Stop,
    /// Remove the match rule; a failure is of no consequence.
    RemoveMatch,
    /// Delete the script file; a failure is of no consequence.
    DeleteFile,
    /// Nothing is left to do: read the outcome.
    Finish,
}

/// A message seen on the bus, reduced to what the exchange looks at.
#[derive(Clone, Debug)]
pub struct BusMessage {
    /// Whether the message is a signal.
    pub is_signal: bool,
    /// The object path the message came from.
    pub path: Option<String>,
    /// The member name of the message.
    pub member: Option<String>,
    /// The body, where it is a single string.
    pub text: Option<String>,
}

/// What happened to the last action.
#[derive(Clone, Debug)]
pub enum Event {
    /// The action succeeded and has nothing to report.
    Done,
    /// The action failed.
    Failed,
    /// The scripting service answered a load request with this handle.
    Handle(i32),
    /// A message arrived on the bus.
    Message(BusMessage),
    /// The deadline passed before a matching message arrived.
    Deadline,
}

/// The mathematical value of an [`Exchange`].
pub struct ExchangeModel {
    pub phase: Phase,
    /// Whether the script's output is awaited (a list request) or not (a focus request).
    pub awaits_output: bool,
    pub script_path: Seq<char>,
    /// The handle of the loaded script; meaningful once loading has succeeded.
    pub handle: int,
    /// The script file was written and its deletion has not been asked for.
    pub file_held: bool,
    /// A script is loaded and its stop has not been asked for.
    pub script_held: bool,
    /// A match rule is registered and its removal has not been asked for.
    pub filter_held: bool,
    pub output: Option<Seq<char>>,
    pub error: Option<CompositorError>,
}

/// The action that is outstanding in each phase.
pub open spec fn action_of(phase: Phase) -> Action {
    match phase {
        Phase::Writing => Action::WriteFile,
        Phase::Loading => Action::LoadScript,
        Phase::Subscribing => Action::AddMatch,
        Phase::Starting => Action::Run,
        Phase::Waiting => Action::Poll,
        Phase::Stopping => Action::Stop,
        Phase::Unsubscribing => Action::RemoveMatch,
        Phase::Deleting => Action::DeleteFile,
        Phase::Finished => Action::Finish,
    }
}

/// The number of steps that an exchange in this phase can still take, apart
/// from messages that are passed over while waiting.
pub open spec fn steps_left(phase: Phase) -> nat {
    match phase {
        Phase::Writing => 8,
        Phase::Loading => 7,
        Phase::Subscribing => 6,
        Phase::Starting => 5,
        Phase::Waiting => 4,
        Phase::Stopping => 3,
        Phase::Unsubscribing => 2,
        Phase::Deleting => 1,
        Phase::Finished => 0,
    }
}

/// Whether `msg` is the print signal of the script at `path`.
pub open spec fn carries_output(msg: &BusMessage, path: Seq<char>) -> bool {
    &&& msg.is_signal
    &&& msg.path is Some
    &&& msg.path->0@ == path
    &&& msg.member is Some
    &&& msg.member->0@ == PRINT_MEMBER@
    &&& msg.text is Some
}

/// The state of a fresh exchange.
pub open spec fn initial(script_path: Seq<char>, awaits_output: bool) -> ExchangeModel {
    ExchangeModel {
        phase: Phase::Writing,
        awaits_output,
        script_path,
        handle: 0,
        file_held: true,
        script_held: false,
        filter_held: false,
        output: None,
        error: None,
    }
}

/// The state in which the release of what `m` still holds begins, after the
/// failure `error` (or after the regular end, where `error` is `None`).
pub open spec fn release(m: ExchangeModel, error: Option<CompositorError>) -> ExchangeModel {
    if m.script_held {
        ExchangeModel { phase: Phase::Stopping, script_held: false, error, ..m }
    } else if m.filter_held {
        ExchangeModel { phase: Phase::Unsubscribing, filter_held: false, error, ..m }
    } else if m.file_held {
        ExchangeModel { phase: Phase::Deleting, file_held: false, error, ..m }
    } else {
        ExchangeModel { phase: Phase::Finished, error, ..m }
    }
}

/// The state that follows `m` when `event` is reported.
pub open spec fn next(m: ExchangeModel, event: Event) -> ExchangeModel {
    match m.phase {
        Phase::Writing => match event {
            Event::Done => ExchangeModel { phase: Phase::Loading, ..m },
            _ => release(m, Some(CompositorError::TempFile)),
        },
        Phase::Loading => match event {
            Event::Handle(h) => if h >= 0 {
                ExchangeModel { phase: Phase::Subscribing, handle: h as int, script_held: true, ..m }
            } else {
                release(m, Some(CompositorError::ScriptRejected(h)))
            },
            _ => release(m, Some(CompositorError::BusCall(Stage::LoadScript))),
        },
        Phase::Subscribing => match event {
            Event::Done => ExchangeModel { phase: Phase::Starting, filter_held: true, ..m },
            _ => release(m, Some(CompositorError::BusCall(Stage::AddMatch))),
        },
        Phase::Starting => match event {
            Event::Done => if m.awaits_output {
                ExchangeModel { phase: Phase::Waiting, ..m }
            } else {
                release(m, None)
            },
            _ => release(m, Some(CompositorError::BusCall(Stage::Run))),
        },
        Phase::Waiting => match event {
            Event::Message(msg) => if m.handle >= 0 && carries_output(
                &msg,
                object_path_text(m.handle as nat),
            ) {
                release(ExchangeModel { output: Some(msg.text->0@), ..m }, None)
            } else {
                m
            },
            _ => release(m, None),
        },
        Phase::Stopping | Phase::Unsubscribing | Phase::Deleting => release(m, m.error),
        Phase::Finished => m,
    }
}

/// What holds of every state that an exchange can reach.
pub open spec fn well_formed(m: ExchangeModel) -> bool {
    match m.phase {
        Phase::Writing | Phase::Loading => {
            &&& m.file_held && !m.script_held && !m.filter_held
            &&& m.output is None && m.error is None
        },
        Phase::Subscribing => {
            &&& m.file_held && m.script_held && !m.filter_held
            &&& 0 <= m.handle <= i32::MAX
            &&& m.output is None && m.error is None
        },
        Phase::Starting | Phase::Waiting => {
            &&& m.file_held && m.script_held && m.filter_held
            &&& 0 <= m.handle <= i32::MAX
            &&& m.output is None && m.error is None
            &&& m.phase == Phase::Waiting ==> m.awaits_output
        },
        Phase::Stopping => {
            &&& m.file_held && !m.script_held
            &&& 0 <= m.handle <= i32::MAX
            &&& !(m.output is Some && m.error is Some)
        },
        Phase::Unsubscribing => {
            &&& m.file_held && !m.script_held && !m.filter_held
            &&& 0 <= m.handle <= i32::MAX
            &&& !(m.output is Some && m.error is Some)
        },
        Phase::Deleting | Phase::Finished => {
            &&& !m.file_held && !m.script_held && !m.filter_held
            &&& !(m.output is Some && m.error is Some)
        },
    }
}

/// Whether the exchange has a loaded script to address: in the phases
/// between the loading of the script and the removal of its match rule.
pub open spec fn addresses_script(m: ExchangeModel) -> bool {
    &&& m.handle >= 0
    &&& (m.phase == Phase::Subscribing || m.phase == Phase::Starting || m.phase == Phase::Waiting
        || m.phase == Phase::Stopping || m.phase == Phase::Unsubscribing)
}

/// Whenever a bus call on the script or its match rule is outstanding, the
/// script's address is known.
pub proof fn lemma_bus_calls_have_an_address(m: ExchangeModel)
    requires
        well_formed(m),
    ensures
        action_of(m.phase) == Action::AddMatch || action_of(m.phase) == Action::Run || action_of(
            m.phase,
        ) == Action::Poll || action_of(m.phase) == Action::Stop || action_of(m.phase)
            == Action::RemoveMatch ==> addresses_script(m),
{
}

/// What a finished exchange reports: the failure, or else the output, which
/// is `None` where none was awaited or none came in time.
pub open spec fn outcome_of(m: ExchangeModel) -> Result<Option<Seq<char>>, CompositorError> {
    match m.error {
        Some(e) => Err(e),
        None => Ok(m.output),
    }
}

/// A fresh exchange is well formed, and no step leads out of the well-formed states.
pub proof fn lemma_well_formed_is_invariant(m: ExchangeModel, event: Event)
    requires
        well_formed(m),
    ensures
        well_formed(initial(m.script_path, m.awaits_output)),
        well_formed(next(m, event)),
{
}

/// The state that an exchange reaches from `m` when the events of `events`
/// are reported to it one after the other.
pub open spec fn run(m: ExchangeModel, events: Seq<Event>) -> ExchangeModel
    decreases events.len(),
{
    if events.len() == 0 {
        m
    } else {
        next(run(m, events.drop_last()), events.last())
    }
}

/// Whatever is reported to a fresh exchange, and in whatever order, it stays
/// well formed; and once it has finished it holds neither the script file
/// nor a loaded script nor a registered match rule.
pub proof fn lemma_every_run_releases(script_path: Seq<char>, awaits_output: bool, events: Seq<Event>)
    ensures
        well_formed(run(initial(script_path, awaits_output), events)),
        run(initial(script_path, awaits_output), events).phase == Phase::Finished ==> {
            let end = run(initial(script_path, awaits_output), events);
            !end.file_held && !end.script_held && !end.filter_held
        },
    decreases events.len(),
{
    if events.len() > 0 {
        lemma_every_run_releases(script_path, awaits_output, events.drop_last());
    }
}

/// An exchange that has finished holds nothing: the script file's deletion,
/// the script's stop and the rule's removal have all been asked for, whether
/// the exchange succeeded, timed out or failed on the way.
pub proof fn lemma_finished_holds_nothing(m: ExchangeModel)
    requires
        well_formed(m),
        m.phase == Phase::Finished,
    ensures
        !m.file_held && !m.script_held && !m.filter_held,
{
}

/// A resource is held from the step that creates it, and it stops being held
/// only in the step that asks for its release.
pub proof fn lemma_release_is_asked_for(m: ExchangeModel, event: Event)
    requires
        well_formed(m),
    ensures
        m.script_held && !next(m, event).script_held ==> action_of(next(m, event).phase)
            == Action::Stop,
        m.filter_held && !next(m, event).filter_held ==> action_of(next(m, event).phase)
            == Action::RemoveMatch,
        m.file_held && !next(m, event).file_held ==> action_of(next(m, event).phase)
            == Action::DeleteFile,
        !m.script_held && next(m, event).script_held ==> m.phase == Phase::Loading,
        !m.filter_held && next(m, event).filter_held ==> m.phase == Phase::Subscribing,
        !m.file_held ==> !next(m, event).file_held,
{
}

/// Every step brings the exchange nearer to its end, except that a message
/// which is not the awaited signal leaves a waiting exchange as it is.
pub proof fn lemma_steps_decrease(m: ExchangeModel, event: Event)
    requires
        well_formed(m),
        m.phase != Phase::Finished,
    ensures
        steps_left(next(m, event).phase) < steps_left(m.phase) || (m.phase == Phase::Waiting
            && next(m, event) == m && event is Message),
{
}

/// When the deadline passes, a waiting exchange turns to its release with
/// neither output nor failure, so that it reports "no output"; and from then
/// on no event changes what it will report.
pub proof fn lemma_deadline_yields_no_output(m: ExchangeModel, event: Event)
    requires
        well_formed(m),
    ensures
        m.phase == Phase::Waiting && event is Deadline ==> outcome_of(next(m, event)) == Ok::<
            Option<Seq<char>>,
            CompositorError,
        >(None),
        steps_left(m.phase) <= 3 ==> outcome_of(next(m, event)) == outcome_of(m),
{
}

/// The output of an exchange is the body of the first print signal of its
/// own script that arrives while it waits, and of no other message.
pub proof fn lemma_output_is_the_awaited_signal(m: ExchangeModel, event: Event)
    requires
        well_formed(m),
    ensures
        next(m, event).output is Some && m.output is None ==> m.phase == Phase::Waiting && (
        event matches Event::Message(msg) && carries_output(&msg, object_path_text(m.handle as nat))
            && next(m, event).output == Some(msg.text->0@)),
        m.output is Some ==> next(m, event).output == m.output,
{
}

/// One script exchange in progress.
pub struct Exchange {
    phase: Phase,
    awaits_output: bool,
    script_path: String,
    handle: i32,
    file_held: bool,
    script_held: bool,
    filter_held: bool,
    output: Option<String>,
    error: Option<CompositorError>,
}

impl View for Exchange {
    type V = ExchangeModel;

    closed spec fn view(&self) -> ExchangeModel {
        ExchangeModel {
            phase: self.phase,
            awaits_output: self.awaits_output,
            script_path: self.script_path@,
            handle: self.handle as int,
            file_held: self.file_held,
            script_held: self.script_held,
            filter_held: self.filter_held,
            output: match self.output {
                Some(s) => Some(s@),
                None => None,
            },
            error: self.error,
        }
    }
}

/// Whether `msg` is the print signal of the script at `object_path`.
pub fn is_print_signal(msg: &BusMessage, object_path: &str) -> (r: bool)
    ensures
        r == carries_output(msg, object_path@),
{
    if !msg.is_signal || msg.text.is_none() {
        return false;
    }
    let path_ok = match &msg.path {
        Some(p) => same_text(p.as_str(), object_path),
        None => false,
    };
    let member_ok = match &msg.member {
        Some(m) => same_text(m.as_str(), PRINT_MEMBER),
        None => false,
    };
    path_ok && member_ok
}

impl Exchange {
    /// Begins an exchange whose script is to be stored at `script_path`; the
    /// first action is to write that file.
    pub fn start(script_path: String, awaits_output: bool) -> (r: (Exchange, Action))
        ensures
            r.0@ == initial(script_path@, awaits_output),
            well_formed(r.0@),
            r.1 == Action::WriteFile,
    {
        (
            Exchange {
                phase: Phase::Writing,
                awaits_output,
                script_path,
                handle: 0,
                file_held: true,
                script_held: false,
                filter_held: false,
                output: None,
                error: None,
            },
            Action::WriteFile,
        )
    }

    fn begin_release(&mut self, error: Option<CompositorError>)
        ensures
            final(self)@ == release(old(self)@, error),
    {
        self.error = error;
        if self.script_held {
            self.script_held = false;
            self.phase = Phase::Stopping;
        } else if self.filter_held {
            self.filter_held = false;
            self.phase = Phase::Unsubscribing;
        } else if self.file_held {
            self.file_held = false;
            self.phase = Phase::Deleting;
        } else {
            self.phase = Phase::Finished;
        }
    }

    fn pending(&self) -> (r: Action)
        ensures
            r == action_of(self@.phase),
    {
        match self.phase {
            Phase::Writing => Action::WriteFile,
            Phase::Loading => Action::LoadScript,
            Phase::Subscribing => Action::AddMatch,
            Phase::Starting => Action::Run,
            Phase::Waiting => Action::Poll,
            Phase::Stopping => Action::Stop,
            Phase::Unsubscribing => Action::RemoveMatch,
            Phase::Deleting => Action::DeleteFile,
            Phase::Finished => Action::Finish,
        }
    }

    /// Takes the answer to the outstanding action and says what to do next.
    pub fn step(&mut self, event: Event) -> (action: Action)
        ensures
            final(self)@ == next(old(self)@, event),
            well_formed(old(self)@) ==> well_formed(final(self)@),
            action == action_of(final(self)@.phase),
    {
        match self.phase {
            Phase::Writing => match event {
                Event::Done => {
                    self.phase = Phase::Loading;
                },
                _ => {
                    self.begin_release(Some(CompositorError::TempFile));
                },
            },
            Phase::Loading => match event {
                Event::Handle(h) => {
                    if h >= 0 {
                        self.handle = h;
                        self.script_held = true;
                        self.phase = Phase::Subscribing;
                    } else {
                        self.begin_release(Some(CompositorError::ScriptRejected(h)));
                    }
                },
                _ => {
                    self.begin_release(Some(CompositorError::BusCall(Stage::LoadScript)));
                },
            },
            Phase::Subscribing => match event {
                Event::Done => {
                    self.filter_held = true;
                    self.phase = Phase::Starting;
                },
                _ => {
                    self.begin_release(Some(CompositorError::BusCall(Stage::AddMatch)));
                },
            },
            Phase::Starting => match event {
                Event::Done => {
                    if self.awaits_output {
                        self.phase = Phase::Waiting;
                    } else {
                        self.begin_release(None);
                    }
                },
                _ => {
                    self.begin_release(Some(CompositorError::BusCall(Stage::Run)));
                },
            },
            Phase::Waiting => match event {
                Event::Message(msg) => {
                    if self.handle >= 0 {
                        let path = script_object_path(self.handle);
                        if is_print_signal(&msg, path.as_str()) {
                            self.output = msg.text;
                            self.begin_release(None);
                        }
                    }
                },
                _ => {
                    self.begin_release(None);
                },
            },
            Phase::Stopping | Phase::Unsubscribing | Phase::Deleting => {
                let error = self.error;
                self.begin_release(error);
            },
            Phase::Finished => {},
        }
        self.pending()
    }

    /// Where the exchange stands.
    pub fn phase(&self) -> (r: Phase)
        ensures
            r == self@.phase,
    {
        self.phase
    }

    /// Whether nothing is left to do.
    pub fn is_finished(&self) -> (r: bool)
        ensures
            r == (self@.phase == Phase::Finished),
    {
        match self.phase {
            Phase::Finished => true,
            _ => false,
        }
    }

    /// The path of the script file.
    pub fn script_path(&self) -> (r: &str)
        ensures
            r@ == self@.script_path,
    {
        self.script_path.as_str()
    }

    fn has_script(&self) -> (r: bool)
        ensures
            r == addresses_script(self@),
    {
        let loaded = match self.phase {
            Phase::Subscribing
            | Phase::Starting
            | Phase::Waiting
            | Phase::Stopping
            | Phase::Unsubscribing => true,
            _ => false,
        };
        loaded && self.handle >= 0
    }

    /// The bus object path of the loaded script, from the step that loads it
    /// to the step that removes its match rule.
    pub fn object_path(&self) -> (r: Option<String>)
        ensures
            addresses_script(self@) ==> r is Some && r->0@ == object_path_text(self@.handle as nat),
            !addresses_script(self@) ==> r is None,
    {
        if self.has_script() {
            Some(script_object_path(self.handle))
        } else {
            None
        }
    }

    /// The match rule of the loaded script, from the step that loads it to
    /// the step that removes the rule.
    pub fn rule(&self) -> (r: Option<String>)
        ensures
            addresses_script(self@) ==> r is Some && r->0@ == match_rule_text(
                object_path_text(self@.handle as nat),
            ),
            !addresses_script(self@) ==> r is None,
    {
        if self.has_script() {
            let path = script_object_path(self.handle);
            Some(match_rule(path.as_str()))
        } else {
            None
        }
    }

    /// What the exchange reports: the failure, or else the output.
    pub fn outcome(&self) -> (r: Result<Option<String>, CompositorError>)
        ensures
            match outcome_of(self@) {
                Ok(Some(text)) => r is Ok && r->Ok_0 is Some && r->Ok_0->0@ == text,
                Ok(None) => r is Ok && r->Ok_0 is None,
                Err(e) => r == Err::<Option<String>, CompositorError>(e),
            },
    {
        match self.error {
            Some(e) => Err(e),
            None => match &self.output {
                Some(text) => Ok(Some(text.clone())),
                None => Ok(None),
            },
        }
    }
}

/// Whether a wait that began at `started_ms` has reached its deadline at `now_ms`.
pub fn deadline_reached(started_ms: u64, now_ms: u64) -> (r: bool)
    ensures
        r == (now_ms >= started_ms + RESPONSE_DEADLINE_MS),
{
    now_ms >= started_ms && now_ms - started_ms >= RESPONSE_DEADLINE_MS
}

} // verus!
