//! The configuration of one run: the command, the texts shown for it and what
//! happens once it has finished.
use crate::style::{paint, painted, Tint};
use vstd::prelude::*;

verus! {

/// The time between two redraws of the status line, in milliseconds.
pub const TICK_MILLIS: u64 = 50;

/// What happens once the command has finished.
#[derive(Clone, Copy, Debug, PartialEq, Eq, Structural)]
pub enum FinalBehavior {
    /// The host process ends with the command's exit code.
    Exit,
    /// The exit code is handed back to the caller and nothing is ended.
    ReturnCode,
}

/// The mathematical value of a [`Kritik`]: its texts as character sequences.
pub struct KritikView {
    /// Whether the elapsed time stands in place of the running word.
    pub showtime: bool,
    /// The status word shown while the command runs.
    pub running_text: Seq<char>,
    /// The status word of a command that succeeded.
    pub success_text: Seq<char>,
    /// The status word of a command that failed.
    pub failure_text: Seq<char>,
    /// The text that names the command to the user; empty while unset.
    pub message: Seq<char>,
    /// The command line handed to the shell.
    pub command: Seq<char>,
    /// The layout of the status line; empty until it has been built.
    pub template: Seq<char>,
    /// How the run ends.
    pub behavior: FinalBehavior,
}

impl KritikView {
    /// The configuration that [`Kritik::default`] gives.
    pub open spec fn initial() -> KritikView {
        KritikView {
            showtime: false,
            running_text: "RUNNING"@,
            success_text: "SUCCESS"@,
            failure_text: "FAILURE"@,
            message: Seq::empty(),
            command: Seq::empty(),
            template: Seq::empty(),
            behavior: FinalBehavior::Exit,
        }
    }

    /// The text shown for the command: the message, or the command itself
    /// where no message was set.
    pub open spec fn display_message(self) -> Seq<char> {
        if self.message.len() == 0 {
            self.command
        } else {
            self.message
        }
    }

    /// A command can be run only if there is one.
    pub open spec fn runnable(self) -> bool {
        self.command.len() > 0
    }

    /// The layout of the status line: the animated glyph, then the elapsed
    /// time or else the running word, then the message.
    pub open spec fn status_template(self, ansi: bool) -> Seq<char> {
        "{spinner:.bold.cyan}"@ + (if self.showtime {
            " [{elapsed_precise:.bold}]"@
        } else {
            " ["@ + painted(self.running_text, Tint::Cyan, ansi) + "]"@
        }) + " {wide_msg}"@
    }

    /// The configuration once its status line has been laid out: the message
    /// is settled and the template is built.
    pub open spec fn prepared(self, ansi: bool) -> KritikView {
        KritikView {
            message: self.display_message(),
            template: self.status_template(ansi),
            ..self
        }
    }
}

/// The configuration of one run.
pub struct Kritik<'a> {
    showtime: bool,
    running_text: &'a str,
    success_text: &'a str,
    failure_text: &'a str,
    message: String,
    command: String,
    template: String,
    behavior: FinalBehavior,
}

impl<'a> View for Kritik<'a> {
    type V = KritikView;

    closed spec fn view(&self) -> KritikView {
        KritikView {
            showtime: self.showtime,
            running_text: self.running_text@,
            success_text: self.success_text@,
            failure_text: self.failure_text@,
            message: self.message@,
            command: self.command@,
            template: self.template@,
            behavior: self.behavior,
        }
    }
}

impl<'a> Default for Kritik<'a> {
    /// The default configuration: the status words are "RUNNING", "SUCCESS"
    /// and "FAILURE", no command and no message are set, the elapsed time is
    /// not shown, and the host process ends with the command's exit code.
    fn default() -> (kritik: Kritik<'a>)
        ensures
            kritik@ == KritikView::initial(),
    {
        Kritik {
            showtime: false,
            running_text: "RUNNING",
            success_text: "SUCCESS",
            failure_text: "FAILURE",
            message: String::new(),
            command: String::new(),
            template: String::new(),
            behavior: FinalBehavior::Exit,
        }
    }
}

impl<'a> Kritik<'a> {
    /// Defines the command that will be run.
    pub fn set_command(&mut self, command: String) -> (updated: &mut Self)
        ensures
            updated@ == (KritikView { command: command@, ..old(self)@ }),
            *final(self) == *final(updated),
    {
        self.command = command;
        self
    }

    /// Shows the time since the command started in place of the running word.
    pub fn showtime(&mut self) -> (updated: &mut Self)
        ensures
            updated@ == (KritikView { showtime: true, ..old(self)@ }),
            *final(self) == *final(updated),
    {
        self.showtime = true;
        self
    }

    /// Defines the message that is displayed while the command runs and in the
    /// report. An empty message counts as unset.
    pub fn set_message(&mut self, message: String) -> (updated: &mut Self)
        ensures
            updated@ == (KritikView { message: message@, ..old(self)@ }),
            *final(self) == *final(updated),
    {
        self.message = message;
        self
    }

    /// Defines the status word of a running command. It is not shown where the
    /// elapsed time is.
    pub fn set_running_message(&mut self, running_message: &'a str) -> (updated: &mut Self)
        ensures
            updated@ == (KritikView { running_text: running_message@, ..old(self)@ }),
            *final(self) == *final(updated),
    {
        self.running_text = running_message;
        self
    }

    /// Defines the status word of a command that succeeded.
    pub fn set_success_message(&mut self, success_message: &'a str) -> (updated: &mut Self)
        ensures
            updated@ == (KritikView { success_text: success_message@, ..old(self)@ }),
            *final(self) == *final(updated),
    {
        self.success_text = success_message;
        self
    }

    /// Defines the status word of a command that failed.
    pub fn set_failure_message(&mut self, failure_message: &'a str) -> (updated: &mut Self)
        ensures
            updated@ == (KritikView { failure_text: failure_message@, ..old(self)@ }),
            *final(self) == *final(updated),
    {
        self.failure_text = failure_message;
        self
    }

    /// Settles the message and lays out the status line. With `ansi` set the
    /// running word is wrapped in the escape sequences of its style.
    pub fn build_template(&mut self, ansi: bool)
        ensures
            final(self)@ == old(self)@.prepared(ansi),
    {
        if self.message.as_str().is_empty() {
            self.message = self.command.clone();
        }
        let mut template = String::from_str("{spinner:.bold.cyan}");
        if self.showtime {
            template.append(" [{elapsed_precise:.bold}]");
        } else {
            let mut word = String::from_str(" [");
            word.append(paint(self.running_text, Tint::Cyan, ansi).as_str());
            word.append("]");
            template.append(word.as_str());
        }
        template.append(" {wide_msg}");
        self.template = template;
    }

    /// Makes the run hand the command's exit code back instead of ending the
    /// host process with it.
    pub fn return_exit_code(&mut self) -> (updated: &mut Self)
        ensures
            updated@ == (KritikView { behavior: FinalBehavior::ReturnCode, ..old(self)@ }),
            *final(self) == *final(updated),
    {
        self.behavior = FinalBehavior::ReturnCode;
        self
    }
}

impl<'a> Kritik<'a> {
    /// Whether the elapsed time stands in place of the running word.
    pub fn shows_time(&self) -> (shown: bool)
        ensures
            shown == self@.showtime,
    {
        self.showtime
    }

    /// The status word shown while the command runs.
    pub fn running_text(&self) -> (text: &'a str)
        ensures
            text@ == self@.running_text,
    {
        self.running_text
    }

    /// The status word of a command that succeeded.
    pub fn success_text(&self) -> (text: &'a str)
        ensures
            text@ == self@.success_text,
    {
        self.success_text
    }

    /// The status word of a command that failed.
    pub fn failure_text(&self) -> (text: &'a str)
        ensures
            text@ == self@.failure_text,
    {
        self.failure_text
    }

    /// The message as it was set; empty while unset.
    pub fn message(&self) -> (text: &str)
        ensures
            text@ == self@.message,
    {
        self.message.as_str()
    }

    /// The command line handed to the shell.
    pub fn command(&self) -> (text: &str)
        ensures
            text@ == self@.command,
    {
        self.command.as_str()
    }

    /// The layout of the status line; empty until it has been built.
    pub fn template(&self) -> (text: &str)
        ensures
            text@ == self@.template,
    {
        self.template.as_str()
    }

    /// How the run ends.
    pub fn behavior(&self) -> (behavior: FinalBehavior)
        ensures
            behavior == self@.behavior,
    {
        self.behavior
    }

    /// The text shown for the command: the message, or the command itself
    /// where no message was set.
    pub fn display_message(&self) -> (text: &str)
        ensures
            text@ == self@.display_message(),
    {
        if self.message.as_str().is_empty() {
            self.command.as_str()
        } else {
            self.message.as_str()
        }
    }
}

/// The default status words are words: none of them is empty.
pub proof fn lemma_default_words_not_empty()
    ensures
        KritikView::initial().running_text.len() > 0,
        KritikView::initial().success_text.len() > 0,
        KritikView::initial().failure_text.len() > 0,
{
    reveal_strlit("RUNNING");
    reveal_strlit("SUCCESS");
    reveal_strlit("FAILURE");
}

/// Where no message is set, the text shown for the command is the command
/// itself, while it runs and afterwards.
pub proof fn lemma_unset_message_is_command(config: KritikView, ansi: bool)
    requires
        config.message.len() == 0,
    ensures
        config.display_message() == config.command,
        config.prepared(ansi).message == config.command,
        config.prepared(ansi).display_message() == config.command,
{
}

/// Where the elapsed time is shown, the status line holds the glyph, the timer
/// and the message, and nothing of the running word: whatever that word is and
/// whether or not it would be styled, the layout is the same.
pub proof fn lemma_showtime_drops_running_word(config: KritikView, ansi: bool)
    requires
        config.showtime,
    ensures
        config.status_template(ansi) == "{spinner:.bold.cyan}"@ + " [{elapsed_precise:.bold}]"@
            + " {wide_msg}"@,
        forall|word: Seq<char>, styled: bool|
            (#[trigger] KritikView { running_text: word, ..config }.status_template(styled))
                == config.status_template(ansi),
{
}

/// Where the elapsed time is not shown, the status line holds the glyph, the
/// running word between square brackets and the message, and no timer.
pub proof fn lemma_running_word_shown(config: KritikView, ansi: bool)
    requires
        !config.showtime,
    ensures
        config.status_template(ansi) == "{spinner:.bold.cyan}"@ + (" ["@ + painted(
            config.running_text,
            Tint::Cyan,
            ansi,
        ) + "]"@) + " {wide_msg}"@,
{
}

} // verus!
