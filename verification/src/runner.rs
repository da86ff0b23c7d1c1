//! One run, step by step.
//!
//! The host program drives a run: it hands in what happened as an [`Event`],
//! carries out the [`Effect`]s that come back, in their order, and hands in
//! the next event. A run has two steps: [`Event::Start`] asks for the status
//! line and the command to be started; the end of the command, or the failure
//! to start it, asks for the status line to be cleared, for the report, and
//! for the way the run ends.
use crate::config::{FinalBehavior, Kritik, KritikView, TICK_MILLIS};
use crate::error::{KritikError, SPAWN_FAILURE_CODE};
use crate::report::{failure_report, report, success_report, ExecutionResult};
use crate::style::colors_enabled;
use vstd::prelude::*;

verus! {

/// What the host program reports to the run.
#[derive(Debug, PartialEq, Eq)]
pub enum Event {
    /// The run begins.
    Start,
    /// The command has ended.
    Finished(ExecutionResult),
    /// The shell could not be started.
    SpawnFailed,
}

/// What the host program is asked to do.
#[derive(Debug, PartialEq, Eq)]
pub enum Effect {
    /// Show the status line, laid out by `template`, with `message`, and redraw
    /// it every `tick_millis` milliseconds until it is stopped.
    StartSpinner { template: String, message: String, tick_millis: u64 },
    /// Start `shell` with the two arguments `flag` and `command`, with an
    /// empty standard input, keep what it writes to its standard output and
    /// standard error, and wait for it to end.
    Spawn { shell: String, flag: String, command: String },
    /// Stop the status line and clear it.
    StopSpinner,
    /// Write these bytes to standard output.
    Report(Vec<u8>),
    /// Tell the user of this error.
    Diagnose(KritikError),
    /// End the host process with this exit code.
    Exit(i32),
    /// Hand this exit code back to the caller.
    Return(i32),
}

/// The mathematical value of an [`Effect`].
pub enum EffectView {
    StartSpinner { template: Seq<char>, message: Seq<char>, tick_millis: u64 },
    Spawn { shell: Seq<char>, flag: Seq<char>, command: Seq<char> },
    StopSpinner,
    Report(Seq<u8>),
    Diagnose(KritikError),
    Exit(i32),
    Return(i32),
}

impl View for Effect {
    type V = EffectView;

    open spec fn view(&self) -> EffectView {
        match *self {
            Effect::StartSpinner { template, message, tick_millis } => EffectView::StartSpinner {
                template: template@,
                message: message@,
                tick_millis,
            },
            Effect::Spawn { shell, flag, command } => EffectView::Spawn {
                shell: shell@,
                flag: flag@,
                command: command@,
            },
            Effect::StopSpinner => EffectView::StopSpinner,
            Effect::Report(bytes) => EffectView::Report(bytes@),
            Effect::Diagnose(error) => EffectView::Diagnose(error),
            Effect::Exit(code) => EffectView::Exit(code),
            Effect::Return(code) => EffectView::Return(code),
        }
    }
}

impl DeepView for Effect {
    type V = EffectView;

    open spec fn deep_view(&self) -> EffectView {
        self@
    }
}

/// The shell that runs the command.
pub open spec fn shell() -> Seq<char> {
    "bash"@
}

/// The option that makes the shell take its next argument as the command.
pub open spec fn shell_flag() -> Seq<char> {
    "-c"@
}

/// How a run with the exit code `code` ends.
pub open spec fn completion(behavior: FinalBehavior, code: i32) -> EffectView {
    match behavior {
        FinalBehavior::Exit => EffectView::Exit(code),
        FinalBehavior::ReturnCode => EffectView::Return(code),
    }
}

/// What `event` asks of the host program, in order.
pub open spec fn effects_of(config: KritikView, event: Event, ansi: bool) -> Seq<EffectView> {
    match event {
        Event::Start => if config.runnable() {
            seq![
                EffectView::StartSpinner {
                    template: config.status_template(ansi),
                    message: config.display_message(),
                    tick_millis: TICK_MILLIS,
                },
                EffectView::Spawn { shell: shell(), flag: shell_flag(), command: config.command },
            ]
        } else {
            seq![
                EffectView::Diagnose(KritikError::MissingCommand),
                completion(config.behavior, KritikError::MissingCommand.code()),
            ]
        },
        Event::Finished(result) => seq![
            EffectView::StopSpinner,
            EffectView::Report(report(config, result, ansi)),
            completion(config.behavior, result.reported_code()),
        ],
        Event::SpawnFailed => seq![
            EffectView::StopSpinner,
            EffectView::Diagnose(KritikError::SpawnFailed),
            completion(config.behavior, KritikError::SpawnFailed.code()),
        ],
    }
}

/// The configuration after `event`: the start of a command that can be run
/// settles the message and builds the template; nothing else changes it.
pub open spec fn config_after(config: KritikView, event: Event, ansi: bool) -> KritikView {
    if event is Start && config.runnable() {
        config.prepared(ansi)
    } else {
        config
    }
}

impl<'a> Kritik<'a> {
    /// How a run with the exit code `code` ends.
    pub fn complete(&self, code: i32) -> (last: Effect)
        ensures
            last@ == completion(self@.behavior, code),
    {
        match self.behavior() {
            FinalBehavior::Exit => Effect::Exit(code),
            FinalBehavior::ReturnCode => Effect::Return(code),
        }
    }

    /// Takes one step of a run, with styled status words if `ansi` is set.
    pub fn step(&mut self, event: Event, ansi: bool) -> (effects: Vec<Effect>)
        ensures
            effects.deep_view() == effects_of(old(self)@, event, ansi),
            final(self)@ == config_after(old(self)@, event, ansi),
    {
        let mut effects: Vec<Effect> = Vec::new();
        match event {
            Event::Start => {
                if self.command().is_empty() {
                    let error = KritikError::MissingCommand;
                    effects.push(Effect::Diagnose(error));
                    effects.push(self.complete(error.exit_code()));
                } else {
                    self.build_template(ansi);
                    effects.push(
                        Effect::StartSpinner {
                            template: String::from_str(self.template()),
                            message: String::from_str(self.message()),
                            tick_millis: TICK_MILLIS,
                        },
                    );
                    effects.push(
                        Effect::Spawn {
                            shell: String::from_str("bash"),
                            flag: String::from_str("-c"),
                            command: String::from_str(self.command()),
                        },
                    );
                }
            },
            Event::Finished(result) => {
                let report = if result.success() {
                    self.handle_success(ansi)
                } else {
                    self.handle_failure(&result, ansi)
                };
                effects.push(Effect::StopSpinner);
                effects.push(Effect::Report(report));
                effects.push(self.complete(result.exit_code()));
            },
            Event::SpawnFailed => {
                let error = KritikError::SpawnFailed;
                effects.push(Effect::StopSpinner);
                effects.push(Effect::Diagnose(error));
                effects.push(self.complete(error.exit_code()));
            },
        }
        assert(effects.deep_view() =~= effects_of(old(self)@, event, ansi));
        effects
    }

    /// Takes one step of a run. The status words are styled where the terminal
    /// and the environment ask for it: the step is the one that [`Kritik::step`]
    /// takes, with or without styling.
    pub fn run(&mut self, event: Event) -> (effects: Vec<Effect>)
        ensures
            exists|ansi: bool|
                {
                    &&& effects.deep_view() == #[trigger] effects_of(old(self)@, event, ansi)
                    &&& final(self)@ == config_after(old(self)@, event, ansi)
                },
    {
        let ansi = colors_enabled();
        let ghost before = self@;
        let effects = self.step(event, ansi);
        assert(effects.deep_view() == effects_of(before, event, ansi));
        effects
    }
}

/// What a run asks of the host program from its start to its end, where the
/// command, once started, ends as `outcome` tells: the effects of the start
/// and, if a command was started, those of its end.
pub open spec fn run_trace(config: KritikView, outcome: Event, ansi: bool) -> Seq<EffectView>
    recommends
        !(outcome is Start),
{
    if config.runnable() {
        effects_of(config, Event::Start, ansi) + effects_of(
            config_after(config, Event::Start, ansi),
            outcome,
            ansi,
        )
    } else {
        effects_of(config, Event::Start, ansi)
    }
}

/// Whether the status line is shown once the first `done` effects of `trace`
/// have been carried out: it is shown from the effect that starts it to the
/// effect that stops it.
pub open spec fn status_line_shown(trace: Seq<EffectView>, done: int) -> bool
    decreases done,
{
    if done <= 0 {
        false
    } else if trace[done - 1] is StartSpinner {
        true
    } else if trace[done - 1] is StopSpinner {
        false
    } else {
        status_line_shown(trace, done - 1)
    }
}

/// A command that exits with 0 has this run: the status line is shown with
/// the message, or with the command where no message was set; the command is
/// handed to the shell; the status line is cleared; exactly the success line
/// is written; and the run ends with the exit code 0.
pub proof fn lemma_run_of_success(config: KritikView, result: ExecutionResult, ansi: bool)
    requires
        config.runnable(),
        result.code == Some(0i32),
    ensures
        run_trace(config, Event::Finished(result), ansi) == seq![
            EffectView::StartSpinner {
                template: config.status_template(ansi),
                message: config.display_message(),
                tick_millis: TICK_MILLIS,
            },
            EffectView::Spawn { shell: shell(), flag: shell_flag(), command: config.command },
            EffectView::StopSpinner,
            EffectView::Report(success_report(config, ansi)),
            completion(config.behavior, 0),
        ],
{
    assert(run_trace(config, Event::Finished(result), ansi) =~= seq![
        EffectView::StartSpinner {
            template: config.status_template(ansi),
            message: config.display_message(),
            tick_millis: TICK_MILLIS,
        },
        EffectView::Spawn { shell: shell(), flag: shell_flag(), command: config.command },
        EffectView::StopSpinner,
        EffectView::Report(success_report(config, ansi)),
        completion(config.behavior, 0),
    ]);
}

/// A command that exits with another code than 0, or with none, has this run:
/// the status line is shown; the command is handed to the shell; the status
/// line is cleared; the report of the failure is written, with the exit code
/// and what the command wrote; and the run ends with that exit code, which is
/// not 0.
pub proof fn lemma_run_of_failure(config: KritikView, result: ExecutionResult, ansi: bool)
    requires
        config.runnable(),
        result.code != Some(0i32),
    ensures
        run_trace(config, Event::Finished(result), ansi) == seq![
            EffectView::StartSpinner {
                template: config.status_template(ansi),
                message: config.display_message(),
                tick_millis: TICK_MILLIS,
            },
            EffectView::Spawn { shell: shell(), flag: shell_flag(), command: config.command },
            EffectView::StopSpinner,
            EffectView::Report(
                failure_report(
                    config,
                    result.reported_code() as int,
                    result.stdout@,
                    result.stderr@,
                    ansi,
                ),
            ),
            completion(config.behavior, result.reported_code()),
        ],
        result.reported_code() != 0,
{
    assert(run_trace(config, Event::Finished(result), ansi) =~= seq![
        EffectView::StartSpinner {
            template: config.status_template(ansi),
            message: config.display_message(),
            tick_millis: TICK_MILLIS,
        },
        EffectView::Spawn { shell: shell(), flag: shell_flag(), command: config.command },
        EffectView::StopSpinner,
        EffectView::Report(
            failure_report(
                config,
                result.reported_code() as int,
                result.stdout@,
                result.stderr@,
                ansi,
            ),
        ),
        completion(config.behavior, result.reported_code()),
    ]);
}

/// A run whose shell cannot be started writes no report: the status line is
/// cleared, the user is told of the failure, and the run ends with the exit
/// code that stands for it.
pub proof fn lemma_run_of_spawn_failure(config: KritikView, ansi: bool)
    requires
        config.runnable(),
    ensures
        run_trace(config, Event::SpawnFailed, ansi) == seq![
            EffectView::StartSpinner {
                template: config.status_template(ansi),
                message: config.display_message(),
                tick_millis: TICK_MILLIS,
            },
            EffectView::Spawn { shell: shell(), flag: shell_flag(), command: config.command },
            EffectView::StopSpinner,
            EffectView::Diagnose(KritikError::SpawnFailed),
            completion(config.behavior, SPAWN_FAILURE_CODE),
        ],
{
    assert(run_trace(config, Event::SpawnFailed, ansi) =~= seq![
        EffectView::StartSpinner {
            template: config.status_template(ansi),
            message: config.display_message(),
            tick_millis: TICK_MILLIS,
        },
        EffectView::Spawn { shell: shell(), flag: shell_flag(), command: config.command },
        EffectView::StopSpinner,
        EffectView::Diagnose(KritikError::SpawnFailed),
        completion(config.behavior, SPAWN_FAILURE_CODE),
    ]);
}

/// A run without a command starts nothing: the user is told that the command
/// is missing and the run ends with the exit code 1, whatever the host
/// program holds for the end of a command.
pub proof fn lemma_run_without_command(config: KritikView, outcome: Event, ansi: bool)
    requires
        !config.runnable(),
    ensures
        run_trace(config, outcome, ansi) == seq![
            EffectView::Diagnose(KritikError::MissingCommand),
            completion(config.behavior, 1),
        ],
{
}

/// A run that hands the exit code back never asks for the host process to be
/// ended, whatever happens. A run that ends the host process never hands a
/// code back; it asks for the end of the process as the last thing of every
/// step but the start of a command, and with the exit code of the command
/// where the command has ended.
pub proof fn lemma_completion_follows_behavior(config: KritikView, event: Event, ansi: bool)
    ensures
        config.behavior == FinalBehavior::ReturnCode ==> forall|i: int|
            0 <= i < effects_of(config, event, ansi).len() ==> !(#[trigger] effects_of(
                config,
                event,
                ansi,
            )[i] is Exit),
        config.behavior == FinalBehavior::Exit ==> forall|i: int|
            0 <= i < effects_of(config, event, ansi).len() ==> !(#[trigger] effects_of(
                config,
                event,
                ansi,
            )[i] is Return),
        event is Start && config.runnable() ==> forall|i: int|
            0 <= i < effects_of(config, event, ansi).len() ==> {
                let effect = #[trigger] effects_of(config, event, ansi)[i];
                !(effect is Exit) && !(effect is Return)
            },
        !(event is Start && config.runnable()) ==> {
            let last = effects_of(config, event, ansi).last();
            if config.behavior == FinalBehavior::Exit {
                last is Exit
            } else {
                last is Return
            }
        },
        event matches Event::Finished(result) ==> effects_of(config, event, ansi).last()
            == completion(config.behavior, result.reported_code()),
{
}

/// Nothing is written over the status line, and the command runs under it:
/// in every run the status line is shown when the shell is started, and it is
/// not shown when a report or a diagnostic is written or when the run ends.
pub proof fn lemma_status_line_cleared_before_writing(
    config: KritikView,
    outcome: Event,
    ansi: bool,
)
    requires
        !(outcome is Start),
    ensures
        forall|i: int|
            0 <= i < run_trace(config, outcome, ansi).len() ==> {
                let effect = #[trigger] run_trace(config, outcome, ansi)[i];
                let shown = status_line_shown(run_trace(config, outcome, ansi), i);
                &&& effect is Spawn ==> shown
                &&& effect is Report || effect is Diagnose || effect is Exit || effect is Return
                    ==> !shown
            },
        !status_line_shown(
            run_trace(config, outcome, ansi),
            run_trace(config, outcome, ansi).len() as int,
        ),
{
    reveal_with_fuel(status_line_shown, 6);
}

} // verus!
