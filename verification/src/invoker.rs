//! What every invoker decides around one run of a function: the shell line it
//! runs, the arguments of the direct launchers, when a new run has to wait for
//! a free slot, and where the function's output is published.

use vstd::prelude::*;
use crate::text::{decode_lossy, lossy_utf8, parse_u64, parse_unsigned, trim, trimmed};

verus! {

/// The exit status by which a function says that its output is not to be
/// published.
pub const SILENT_EXIT_CODE: i32 = 8;

/// `<command> '<payload>'`: the line that the invokers hand to `bash -c`.
pub open spec fn shell_line(command: Seq<char>, payload: Seq<char>) -> Seq<char> {
    command + seq![' ', '\''] + payload + seq!['\'']
}

/// The shell line for a message: the command followed by the message payload,
/// read as UTF-8 with invalid sequences replaced, in single quotes.
pub fn shell_command(command: &str, payload: &[u8]) -> (line: String)
    ensures
        line@ == shell_line(command@, lossy_utf8(payload@)),
        line@.len() == command@.len() + lossy_utf8(payload@).len() + 3,
        line@.take(command@.len() as int) == command@,
        line@.subrange(command@.len() + 2int, line@.len() - 1) == lossy_utf8(payload@),
        line@[command@.len() as int] == ' ' && line@[command@.len() + 1int] == '\''
            && line@.last() == '\'',
{
    proof {
        shell_line_holds_the_whole_payload(command@, lossy_utf8(payload@));
    }
    let text = decode_lossy(payload);
    let mut line = command.to_owned();
    proof {
        reveal_strlit(" '");
        reveal_strlit("'");
    }
    line.append(" '");
    line.append(text.as_str());
    line.append("'");
    assert(line@ =~= shell_line(command@, lossy_utf8(payload@)));
    line
}

/// Whether a message has to wait for a running function to finish before its
/// own run may start: it does while `running` runs are at least the limit.
pub fn must_wait_for_slot(running: usize, max_instances: usize) -> (wait: bool)
    ensures
        wait == (running >= max_instances),
{
    running >= max_instances
}

/// The subject that a function's output goes to: none when the function exited
/// with the silent status, else the message's reply subject where it has one,
/// else the configured output subject.
pub open spec fn output_destination(
    exit_code: i32,
    reply: Option<String>,
    output_subject: String,
) -> Option<String> {
    if exit_code == SILENT_EXIT_CODE {
        None
    } else {
        match reply {
            Some(subject) => Some(subject),
            None => Some(output_subject),
        }
    }
}

/// Chooses where a function's output is published.
pub fn output_subject(exit_code: i32, reply: Option<String>, default_subject: String) -> (dest:
    Option<String>)
    ensures
        dest == output_destination(exit_code, reply, default_subject),
        exit_code == SILENT_EXIT_CODE ==> dest is None,
        exit_code != SILENT_EXIT_CODE && reply is Some ==> dest == reply,
        exit_code != SILENT_EXIT_CODE && reply is None ==> dest == Some(default_subject),
{
    if exit_code == SILENT_EXIT_CODE {
        None
    } else {
        match reply {
            Some(subject) => Some(subject),
            None => Some(default_subject),
        }
    }
}

/// The time, in milliseconds since the Unix epoch, at which a message says its
/// request was sent: the payload is read as UTF-8 and then as a decimal `u64`.
pub fn request_sent_millis(payload: &[u8]) -> (millis: Option<u64>)
    ensures
        millis matches Some(m) ==> parse_unsigned(lossy_utf8(payload@), u64::MAX as nat) == Some(
            m as nat,
        ),
        millis is None ==> parse_unsigned(lossy_utf8(payload@), u64::MAX as nat) is None,
{
    let text = decode_lossy(payload);
    parse_u64(text.as_str())
}

/// The arguments of the Java launcher: `-jar` and the function's archive.
pub fn java_arguments(function_path: &str) -> (args: Vec<String>)
    ensures
        args@.len() == 2,
        args@[0]@ == "-jar"@,
        args@[1]@ == function_path@,
{
    let mut args: Vec<String> = Vec::new();
    args.push("-jar".to_owned());
    args.push(function_path.to_owned());
    args
}

/// A log record that the logging invoker receives as JSON.
pub struct LogPayload {
    pub timestamp: String,
    pub message: String,
    pub severity: String,
}

/// The arguments of the logging function: its script, then the record's
/// timestamp, message and severity.
pub fn log_arguments(function_path: &str, payload: &LogPayload) -> (args: Vec<String>)
    ensures
        args@.len() == 4,
        args@[0]@ == function_path@,
        args@[1]@ == payload.timestamp@,
        args@[2]@ == payload.message@,
        args@[3]@ == payload.severity@,
{
    let mut args: Vec<String> = Vec::new();
    args.push(function_path.to_owned());
    args.push(payload.timestamp.clone());
    args.push(payload.message.clone());
    args.push(payload.severity.clone());
    args
}


/// The output of a function run to completion: its standard output, read as
/// UTF-8 with invalid sequences replaced, without surrounding whitespace.
pub fn captured_output(stdout: &[u8]) -> (output: String)
    ensures
        output@ == trimmed(lossy_utf8(stdout@)),
{
    let text = decode_lossy(stdout);
    trim(text.as_str())
}

/// The lines that a function printed, each followed by a line break.
pub open spec fn joined_lines(lines: Seq<String>) -> Seq<char>
    decreases lines.len(),
{
    if lines.len() == 0 {
        Seq::empty()
    } else {
        joined_lines(lines.drop_last()) + lines.last()@ + seq!['\n']
    }
}

/// The output of a function whose standard output was read line by line:
/// the lines joined by line breaks, without surrounding whitespace.
pub fn streamed_output(lines: &Vec<String>) -> (output: String)
    ensures
        output@ == trimmed(joined_lines(lines@)),
{
    let mut text = String::new();
    for i in 0..lines.len()
        invariant
            text@ == joined_lines(lines@.take(i as int)),
    {
        assert(lines@.take(i + 1).drop_last() =~= lines@.take(i as int));
        let ghost before = text@;
        proof {
            reveal_strlit("\n");
        }
        text.append(lines[i].as_str());
        text.append("\n");
        assert(lines@.take(i + 1).last() == lines@[i as int]);
        assert(text@ =~= before + lines@[i as int]@ + seq!['\n']);
    }
    assert(lines@.take(lines.len() as int) =~= lines@);
    trim(text.as_str())
}


/// The shell line is the command, a space, the whole payload between single
/// quotes, and nothing else.
pub proof fn shell_line_holds_the_whole_payload(command: Seq<char>, payload: Seq<char>)
    ensures
        shell_line(command, payload).len() == command.len() + payload.len() + 3,
        shell_line(command, payload).take(command.len() as int) == command,
        shell_line(command, payload).subrange(
            command.len() + 2int,
            shell_line(command, payload).len() - 1,
        ) == payload,
        shell_line(command, payload)[command.len() as int] == ' ',
        shell_line(command, payload)[command.len() + 1int] == '\'',
        shell_line(command, payload).last() == '\'',
{
    let line = shell_line(command, payload);
    assert(line.take(command.len() as int) =~= command);
    assert(line.subrange(command.len() + 2int, line.len() - 1) =~= payload);
}

/// Output goes nowhere exactly on the silent exit status; on any other status
/// it goes to the message's reply subject where the message has one, and to
/// the configured subject otherwise.
pub proof fn output_goes_to_reply_first(exit_code: i32, reply: Option<String>, default_subject: String)
    ensures
        (output_destination(exit_code, reply, default_subject) is None) == (exit_code
            == SILENT_EXIT_CODE),
        exit_code != SILENT_EXIT_CODE && reply is Some ==> output_destination(
            exit_code,
            reply,
            default_subject,
        ) == reply,
        exit_code != SILENT_EXIT_CODE && reply is None ==> output_destination(
            exit_code,
            reply,
            default_subject,
        ) == Some(default_subject),
{
}

/// The joined text of two runs of lines is the joined text of the first
/// followed by that of the second: every line, blank or not, adds its text
/// and one line break.
pub proof fn joined_lines_concatenate(first: Seq<String>, second: Seq<String>)
    ensures
        joined_lines(first + second) == joined_lines(first) + joined_lines(second),
    decreases second.len(),
{
    if second.len() == 0 {
        assert(first + second =~= first);
    } else {
        joined_lines_concatenate(first, second.drop_last());
        assert((first + second).drop_last() =~= first + second.drop_last());
    }
}

/// A single line is joined as its text followed by one line break, whatever
/// the text, so the joined length is the sum of the line lengths plus one
/// break per line.
pub proof fn joined_line_is_text_and_break(line: String, lines: Seq<String>)
    ensures
        joined_lines(seq![line]) == line@ + seq!['\n'],
        joined_lines(lines.push(line)) == joined_lines(lines) + line@ + seq!['\n'],
        joined_lines(lines.push(line)).len() == joined_lines(lines).len() + line@.len() + 1,
{
    assert(seq![line].drop_last() =~= Seq::<String>::empty());
    assert(joined_lines(Seq::<String>::empty()) == Seq::<char>::empty());
    assert(joined_lines(seq![line]) =~= line@ + seq!['\n']);
    assert(lines.push(line).drop_last() =~= lines);
}

} // verus!
