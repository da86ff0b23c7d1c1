//! What is written to standard output once the command has finished.
use crate::config::{Kritik, KritikView};
use crate::decimal::{decimal, decimal_text};
use crate::style::{paint, painted, Tint};
use vstd::prelude::*;
use vstd::utf8::encode_utf8;

verus! {

/// The exit code reported for a command that ended without one, as a command
/// killed by a signal does. No command can end with it on its own account
/// where exit codes run from 0 to 255.
pub const NO_EXIT_CODE: i32 = -1;

/// How the command ended and what it wrote.
#[derive(Debug, PartialEq, Eq)]
pub struct ExecutionResult {
    /// The exit code; `None` where the command ended without one.
    pub code: Option<i32>,
    /// The bytes that the command wrote to its standard output.
    pub stdout: Vec<u8>,
    /// The bytes that the command wrote to its standard error.
    pub stderr: Vec<u8>,
}

impl ExecutionResult {
    /// A command succeeded if and only if its exit code is 0.
    pub open spec fn succeeded(self) -> bool {
        self.code == Some(0i32)
    }

    /// The exit code, with [`NO_EXIT_CODE`] in place of a missing one.
    pub open spec fn reported_code(self) -> i32 {
        match self.code {
            Some(code) => code,
            None => NO_EXIT_CODE,
        }
    }

    /// Whether the command succeeded: whether its exit code is 0.
    pub fn success(&self) -> (ok: bool)
        ensures
            ok == self.succeeded(),
    {
        match self.code {
            Some(code) => code == 0,
            None => false,
        }
    }

    /// The exit code, with [`NO_EXIT_CODE`] in place of a missing one. It is 0
    /// if and only if the command succeeded.
    pub fn exit_code(&self) -> (code: i32)
        ensures
            code == self.reported_code(),
            code == 0 <==> self.succeeded(),
    {
        match self.code {
            Some(code) => code,
            None => NO_EXIT_CODE,
        }
    }
}

/// A status word between square brackets, indented by two spaces.
pub open spec fn tag(word: Seq<char>, tint: Tint, ansi: bool) -> Seq<char> {
    "  ["@ + painted(word, tint, ansi) + "]"@
}

/// The line that reports a success: the success word and the message.
pub open spec fn success_line(config: KritikView, ansi: bool) -> Seq<char> {
    tag(config.success_text, Tint::Green, ansi) + " "@ + config.display_message() + "\n"@
}

/// The line that opens the report of a failure: the failure word and the
/// message.
pub open spec fn failure_line(config: KritikView, ansi: bool) -> Seq<char> {
    tag(config.failure_text, Tint::Red, ansi) + " "@ + config.display_message() + "\n"@
}

/// The line that gives the exit code of a failed command.
pub open spec fn code_line(code: int, ansi: bool) -> Seq<char> {
    tag("ERROR CODE"@, Tint::Red, ansi) + " "@ + decimal(code) + "\n"@
}

/// The block that shows one captured stream: its name on a line of its own and
/// then the captured bytes as they are, or the name and "Empty" where nothing
/// was captured.
pub open spec fn stream_block(name: Seq<char>, captured: Seq<u8>, ansi: bool) -> Seq<u8> {
    if captured.len() == 0 {
        encode_utf8(tag(name, Tint::White, ansi) + " Empty\n"@)
    } else {
        encode_utf8(tag(name, Tint::White, ansi) + "\n"@) + captured
    }
}

/// The report of a success: the success line in UTF-8.
pub open spec fn success_report(config: KritikView, ansi: bool) -> Seq<u8> {
    encode_utf8(success_line(config, ansi))
}

/// The report of a failure: the failure line, the exit code, the captured
/// standard output and the captured standard error.
pub open spec fn failure_report(
    config: KritikView,
    code: int,
    stdout: Seq<u8>,
    stderr: Seq<u8>,
    ansi: bool,
) -> Seq<u8> {
    encode_utf8(failure_line(config, ansi)) + encode_utf8(code_line(code, ansi)) + stream_block(
        "STDOUT"@,
        stdout,
        ansi,
    ) + stream_block("STDERR"@, stderr, ansi)
}

/// The report of a finished command.
pub open spec fn report(config: KritikView, result: ExecutionResult, ansi: bool) -> Seq<u8> {
    if result.succeeded() {
        success_report(config, ansi)
    } else {
        failure_report(
            config,
            result.reported_code() as int,
            result.stdout@,
            result.stderr@,
            ansi,
        )
    }
}

/// Writes a status word between square brackets.
fn tag_text(word: &str, tint: Tint, ansi: bool) -> (text: String)
    ensures
        text@ == tag(word@, tint, ansi),
{
    let mut text = String::from_str("  [");
    text.append(paint(word, tint, ansi).as_str());
    text.append("]");
    text
}

/// Appends the block of one captured stream to a report.
fn push_stream_block(out: &mut Vec<u8>, name: &str, captured: &Vec<u8>, ansi: bool)
    ensures
        final(out)@ == old(out)@ + stream_block(name@, captured@, ansi),
{
    let mut head = tag_text(name, Tint::White, ansi);
    if captured.len() == 0 {
        head.append(" Empty\n");
        let mut bytes = head.as_str().as_bytes_vec();
        out.append(&mut bytes);
    } else {
        head.append("\n");
        let mut bytes = head.as_str().as_bytes_vec();
        out.append(&mut bytes);
        let mut copy = captured.clone();
        out.append(&mut copy);
    }
}

impl<'a> Kritik<'a> {
    /// The report of a command that succeeded: one line with the success word
    /// and the message.
    pub fn handle_success(&self, ansi: bool) -> (report: Vec<u8>)
        ensures
            report@ == success_report(self@, ansi),
    {
        let mut line = tag_text(self.success_text(), Tint::Green, ansi);
        line.append(" ");
        line.append(self.display_message());
        line.append("\n");
        line.as_str().as_bytes_vec()
    }

    /// The report of a command that failed: the failure word and the message,
    /// the exit code, and what the command wrote to its standard output and to
    /// its standard error, byte for byte.
    pub fn handle_failure(&self, output: &ExecutionResult, ansi: bool) -> (report: Vec<u8>)
        ensures
            report@ == failure_report(
                self@,
                output.reported_code() as int,
                output.stdout@,
                output.stderr@,
                ansi,
            ),
    {
        let mut line = tag_text(self.failure_text(), Tint::Red, ansi);
        line.append(" ");
        line.append(self.display_message());
        line.append("\n");
        let mut report = line.as_str().as_bytes_vec();

        let mut line = tag_text("ERROR CODE", Tint::Red, ansi);
        line.append(" ");
        line.append(decimal_text(output.exit_code()).as_str());
        line.append("\n");
        let mut bytes = line.as_str().as_bytes_vec();
        report.append(&mut bytes);

        push_stream_block(&mut report, "STDOUT", &output.stdout, ansi);
        push_stream_block(&mut report, "STDERR", &output.stderr, ansi);
        report
    }
}

/// Whether `part` stands in `whole` from the index `at` on, byte for byte.
pub open spec fn stands_at(whole: Seq<u8>, part: Seq<u8>, at: int) -> bool {
    &&& 0 <= at
    &&& at + part.len() <= whole.len()
    &&& whole.subrange(at, at + part.len()) == part
}

/// Whether `part` stands somewhere in `whole`, byte for byte.
pub open spec fn holds(whole: Seq<u8>, part: Seq<u8>) -> bool {
    exists|at: int| stands_at(whole, part, at)
}

/// The UTF-8 bytes of two texts in a row are the bytes of the first followed by
/// the bytes of the second.
pub proof fn lemma_encode_concat(first: Seq<char>, second: Seq<char>)
    ensures
        encode_utf8(first + second) == encode_utf8(first) + encode_utf8(second),
    decreases first.len(),
{
    if first.len() > 0 {
        assert((first + second).drop_first() =~= first.drop_first() + second);
        lemma_encode_concat(first.drop_first(), second);
    }
}

/// What stands between two runs of bytes stands in the whole.
pub proof fn lemma_holds_between(before: Seq<u8>, part: Seq<u8>, after: Seq<u8>)
    ensures
        holds(before + part + after, part),
{
    let whole = before + part + after;
    let at = before.len() as int;
    assert(whole.subrange(at, at + part.len()) =~= part);
    assert(stands_at(whole, part, at));
}

/// Without styling, a status word stands between plain square brackets.
pub proof fn lemma_plain_tag(word: Seq<char>, tint: Tint)
    ensures
        tag(word, tint, false) == seq![' ', ' ', '['] + word + seq![']'],
{
    reveal_strlit("  [");
    reveal_strlit("]");
}

/// A success is reported by exactly one line: the success word between square
/// brackets, the message, or the command where no message was set, and the end
/// of the line. A command that succeeded cannot be told from another by
/// anything in its report but these.
pub proof fn lemma_success_report(config: KritikView, result: ExecutionResult)
    requires
        result.code == Some(0i32),
    ensures
        report(config, result, false) == encode_utf8(
            seq![' ', ' ', '['] + config.success_text + seq![']', ' '] + config.display_message()
                + seq!['\n'],
        ),
        config.message.len() == 0 ==> report(config, result, false) == encode_utf8(
            seq![' ', ' ', '['] + config.success_text + seq![']', ' '] + config.command + seq![
                '\n',
            ],
        ),
{
    lemma_plain_tag(config.success_text, Tint::Green);
    reveal_strlit(" ");
    reveal_strlit("\n");
    assert(success_line(config, false) =~= seq![' ', ' ', '['] + config.success_text + seq![
        ']',
        ' ',
    ] + config.display_message() + seq!['\n']);
}

/// The report of a failure holds the exit code in decimal behind the words
/// ERROR CODE, and what the command wrote to its standard output and to its
/// standard error, byte for byte. Without styling the exit code `n` reads
/// `[ERROR CODE] n`.
pub proof fn lemma_failure_report_holds(
    config: KritikView,
    code: int,
    stdout: Seq<u8>,
    stderr: Seq<u8>,
    ansi: bool,
)
    ensures
        holds(
            failure_report(config, code, stdout, stderr, ansi),
            encode_utf8(tag("ERROR CODE"@, Tint::Red, ansi) + " "@ + decimal(code)),
        ),
        !ansi ==> holds(
            failure_report(config, code, stdout, stderr, ansi),
            encode_utf8("[ERROR CODE] "@ + decimal(code)),
        ),
        holds(failure_report(config, code, stdout, stderr, ansi), stdout),
        holds(failure_report(config, code, stdout, stderr, ansi), stderr),
{
    let whole = failure_report(config, code, stdout, stderr, ansi);
    let head = encode_utf8(failure_line(config, ansi));
    let out_block = stream_block("STDOUT"@, stdout, ansi);
    let err_block = stream_block("STDERR"@, stderr, ansi);
    let end_of_line = encode_utf8("\n"@);

    // The exit code.
    let shown = tag("ERROR CODE"@, Tint::Red, ansi) + " "@ + decimal(code);
    lemma_encode_concat(shown, "\n"@);
    assert(whole =~= head + encode_utf8(shown) + (end_of_line + out_block + err_block));
    lemma_holds_between(head, encode_utf8(shown), end_of_line + out_block + err_block);

    if !ansi {
        let plain = "[ERROR CODE] "@ + decimal(code);
        reveal_strlit("  ");
        reveal_strlit("  [");
        reveal_strlit("]");
        reveal_strlit(" ");
        reveal_strlit("ERROR CODE");
        reveal_strlit("[ERROR CODE] ");
        assert(shown =~= "  "@ + plain);
        lemma_encode_concat("  "@, plain);
        assert(whole =~= (head + encode_utf8("  "@)) + encode_utf8(plain) + (end_of_line
            + out_block + err_block));
        lemma_holds_between(
            head + encode_utf8("  "@),
            encode_utf8(plain),
            end_of_line + out_block + err_block,
        );
    }

    // The captured standard output.
    let code_bytes = encode_utf8(code_line(code, ansi));
    if stdout.len() == 0 {
        assert(stands_at(whole, stdout, 0)) by {
            assert(whole.subrange(0, 0) =~= stdout);
        }
    } else {
        let name = encode_utf8(tag("STDOUT"@, Tint::White, ansi) + "\n"@);
        assert(whole =~= (head + code_bytes + name) + stdout + err_block);
        lemma_holds_between(head + code_bytes + name, stdout, err_block);
    }

    // The captured standard error.
    if stderr.len() == 0 {
        assert(stands_at(whole, stderr, 0)) by {
            assert(whole.subrange(0, 0) =~= stderr);
        }
    } else {
        let name = encode_utf8(tag("STDERR"@, Tint::White, ansi) + "\n"@);
        assert(whole =~= (head + code_bytes + out_block + name) + stderr + Seq::<u8>::empty());
        lemma_holds_between(head + code_bytes + out_block + name, stderr, Seq::<u8>::empty());
    }
}

/// A report shows the success word or the failure word, the message or the
/// command, and what the command did. Whether the elapsed time is shown, the
/// running word and the layout of the status line leave it unchanged.
pub proof fn lemma_report_ignores_status_line(
    first: KritikView,
    second: KritikView,
    result: ExecutionResult,
    ansi: bool,
)
    requires
        first.success_text == second.success_text,
        first.failure_text == second.failure_text,
        first.message == second.message,
        first.command == second.command,
    ensures
        report(first, result, ansi) == report(second, result, ansi),
{
}

/// Laying out the status line changes no report.
pub proof fn lemma_report_after_preparing(
    config: KritikView,
    styled: bool,
    result: ExecutionResult,
    ansi: bool,
)
    ensures
        report(config.prepared(styled), result, ansi) == report(config, result, ansi),
{
}

} // verus!
