//! From the arguments of the command line to a configuration.
use crate::config::{FinalBehavior, Kritik, KritikView};
use crate::error::KritikError;
use vstd::prelude::*;

verus! {

/// What the command line held, once its options have been told apart.
#[derive(Debug, PartialEq, Eq)]
pub struct Invocation {
    /// Whether the elapsed time was asked for.
    pub showtime: bool,
    /// The message, where one was given.
    pub message: Option<String>,
    /// The running word, where one was given.
    pub running_message: Option<String>,
    /// The success word, where one was given.
    pub success_message: Option<String>,
    /// The failure word, where one was given.
    pub failure_message: Option<String>,
    /// The words of the command, in order; empty where no command was given.
    pub command: Vec<String>,
}

/// The text of an option, or `otherwise` where the option was not given.
pub open spec fn text_or(option: Option<String>, otherwise: Seq<char>) -> Seq<char> {
    match option {
        Some(text) => text@,
        None => otherwise,
    }
}

/// The words in order, with one space between each two of them.
pub open spec fn joined(words: Seq<Seq<char>>) -> Seq<char>
    decreases words.len(),
{
    if words.len() == 0 {
        Seq::empty()
    } else if words.len() == 1 {
        words[0]
    } else {
        joined(words.drop_last()) + " "@ + words.last()
    }
}

/// The configuration that a command line asks for: what it gives replaces the
/// defaults, and the words of the command are joined into one line.
pub open spec fn configured(invocation: Invocation) -> KritikView {
    KritikView {
        showtime: invocation.showtime,
        running_text: text_or(invocation.running_message, KritikView::initial().running_text),
        success_text: text_or(invocation.success_message, KritikView::initial().success_text),
        failure_text: text_or(invocation.failure_message, KritikView::initial().failure_text),
        message: text_or(invocation.message, Seq::empty()),
        command: joined(invocation.command.deep_view()),
        template: Seq::empty(),
        behavior: FinalBehavior::Exit,
    }
}

/// Joins the words of a command into one line, with one space between each
/// two of them.
pub fn join_words(words: &Vec<String>) -> (line: String)
    ensures
        line@ == joined(words.deep_view()),
{
    let mut line = String::new();
    let mut i: usize = 0;
    while i < words.len()
        invariant
            i <= words.len(),
            line@ == joined(words.deep_view().take(i as int)),
        decreases words.len() - i,
    {
        let ghost before = words.deep_view().take(i as int);
        let ghost after = words.deep_view().take(i + 1);
        assert(after.drop_last() =~= before);
        if i > 0 {
            line.append(" ");
        }
        line.append(words[i].as_str());
        i += 1;
    }
    assert(words.deep_view().take(i as int) =~= words.deep_view());
    line
}

/// Builds the configuration that a command line asks for. A command line
/// without a command is refused, and no other.
pub fn init_runner<'a>(invocation: &'a Invocation) -> (runner: Result<Kritik<'a>, KritikError>)
    ensures
        runner is Err <==> invocation.command@.len() == 0,
        runner matches Err(error) ==> error == KritikError::MissingCommand,
        runner matches Ok(kritik) ==> kritik@ == configured(*invocation),
{
    if invocation.command.len() == 0 {
        return Err(KritikError::MissingCommand);
    }
    let mut kritik: Kritik<'a> = Kritik::default();
    kritik.set_command(join_words(&invocation.command));
    match &invocation.message {
        Some(message) => {
            kritik.set_message(message.clone());
        },
        None => {},
    }
    match &invocation.running_message {
        Some(word) => {
            kritik.set_running_message(word.as_str());
        },
        None => {},
    }
    match &invocation.success_message {
        Some(word) => {
            kritik.set_success_message(word.as_str());
        },
        None => {},
    }
    match &invocation.failure_message {
        Some(word) => {
            kritik.set_failure_message(word.as_str());
        },
        None => {},
    }
    if invocation.showtime {
        kritik.showtime();
    }
    Ok(kritik)
}

} // verus!
