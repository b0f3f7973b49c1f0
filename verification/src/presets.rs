//! The four fixed message shapes built on `Status`: ok, info, warning and
//! error, each a preset of flags, color, label and message separator.

use vstd::prelude::*;

use crate::color::CargoColor;
use crate::status::Status;
use crate::status::spec_line;
use crate::stream::CarlogStream;
use crate::stream::IoError;

verus! {

/// The line an ok message writes: a justified bold green label, then one
/// space and the message.
pub open spec fn spec_ok_output(status: Seq<char>, msg: Seq<char>) -> Seq<char> {
    spec_line(true, true, CargoColor::Green, status, seq![' '] + msg)
}

/// The line an info message writes: a justified bold cyan label, then one
/// space and the message.
pub open spec fn spec_info_output(status: Seq<char>, msg: Seq<char>) -> Seq<char> {
    spec_line(true, true, CargoColor::Cyan, status, seq![' '] + msg)
}

/// The line a warning writes: the plain yellow label `warning`, then a colon,
/// a space and the message.
pub open spec fn spec_warning_output(msg: Seq<char>) -> Seq<char> {
    spec_line(
        false,
        false,
        CargoColor::Yellow,
        seq!['w', 'a', 'r', 'n', 'i', 'n', 'g'],
        seq![':', ' '] + msg,
    )
}

/// The line an error writes: the plain red label `error`, then a colon, a
/// space and the message.
pub open spec fn spec_error_output(msg: Seq<char>) -> Seq<char> {
    spec_line(false, false, CargoColor::Red, seq!['e', 'r', 'r', 'o', 'r'], seq![':', ' '] + msg)
}

/// Prints an ok-style line: `status` justified, bold and green, one space,
/// then `msg`.
pub fn carlog_ok(status: &str, msg: &str, stream: &mut CarlogStream) -> (r: Result<(), IoError>)
    ensures
        *old(stream) is Custom ==> {
            &&& r is Ok
            &&& *final(stream) is Custom
            &&& (*final(stream))->Custom_0@ == (*old(stream))->Custom_0@ + spec_ok_output(
                status@,
                msg@,
            )
        },
        *old(stream) is Stdout ==> *final(stream) is Stdout,
        *old(stream) is Stderr ==> *final(stream) is Stderr,
{
    let mut m = " ".to_owned();
    m.append(msg);
    proof {
        reveal_strlit(" ");
        assert(m@ =~= seq![' '] + msg@);
    }
    Status::new().bold().justify().color(CargoColor::Green).status(status).print(
        stream,
        m.as_str(),
    )
}

/// Prints an info-style line: `status` justified, bold and cyan, one space,
/// then `msg`.
pub fn carlog_info(status: &str, msg: &str, stream: &mut CarlogStream) -> (r: Result<(), IoError>)
    ensures
        *old(stream) is Custom ==> {
            &&& r is Ok
            &&& *final(stream) is Custom
            &&& (*final(stream))->Custom_0@ == (*old(stream))->Custom_0@ + spec_info_output(
                status@,
                msg@,
            )
        },
        *old(stream) is Stdout ==> *final(stream) is Stdout,
        *old(stream) is Stderr ==> *final(stream) is Stderr,
{
    let mut m = " ".to_owned();
    m.append(msg);
    proof {
        reveal_strlit(" ");
        assert(m@ =~= seq![' '] + msg@);
    }
    Status::new().bold().justify().color(CargoColor::Cyan).status(status).print(
        stream,
        m.as_str(),
    )
}

/// Prints a warning line: the yellow label `warning`, a colon and a space,
/// then `msg`.
pub fn carlog_warning(msg: &str, stream: &mut CarlogStream) -> (r: Result<(), IoError>)
    ensures
        *old(stream) is Custom ==> {
            &&& r is Ok
            &&& *final(stream) is Custom
            &&& (*final(stream))->Custom_0@ == (*old(stream))->Custom_0@ + spec_warning_output(
                msg@,
            )
        },
        *old(stream) is Stdout ==> *final(stream) is Stdout,
        *old(stream) is Stderr ==> *final(stream) is Stderr,
{
    let mut m = ": ".to_owned();
    m.append(msg);
    proof {
        reveal_strlit(": ");
        reveal_strlit("warning");
        assert(m@ =~= seq![':', ' '] + msg@);
        assert("warning"@ =~= seq!['w', 'a', 'r', 'n', 'i', 'n', 'g']);
    }
    Status::new().color(CargoColor::Yellow).status("warning").print(stream, m.as_str())
}

/// Prints an error line: the red label `error`, a colon and a space, then
/// `msg`.
pub fn carlog_error(msg: &str, stream: &mut CarlogStream) -> (r: Result<(), IoError>)
    ensures
        *old(stream) is Custom ==> {
            &&& r is Ok
            &&& *final(stream) is Custom
            &&& (*final(stream))->Custom_0@ == (*old(stream))->Custom_0@ + spec_error_output(msg@)
        },
        *old(stream) is Stdout ==> *final(stream) is Stdout,
        *old(stream) is Stderr ==> *final(stream) is Stderr,
{
    let mut m = ": ".to_owned();
    m.append(msg);
    proof {
        reveal_strlit(": ");
        reveal_strlit("error");
        assert(m@ =~= seq![':', ' '] + msg@);
        assert("error"@ =~= seq!['e', 'r', 'r', 'o', 'r']);
    }
    Status::new().color(CargoColor::Red).status("error").print(stream, m.as_str())
}

/// The presets fix what stands between the label and the newline: ok and
/// info lines end with exactly one space, the message and a newline, while
/// warning and error lines end with exactly a colon, a space, the message
/// and a newline.
pub proof fn lemma_preset_message_separator(status: Seq<char>, msg: Seq<char>)
    ensures
        spec_ok_output(status, msg).skip(
            spec_ok_output(status, msg).len() - (msg.len() + 2),
        ) == seq![' '] + msg + seq!['\n'],
        spec_info_output(status, msg).skip(
            spec_info_output(status, msg).len() - (msg.len() + 2),
        ) == seq![' '] + msg + seq!['\n'],
        spec_warning_output(msg).skip(
            spec_warning_output(msg).len() - (msg.len() + 3),
        ) == seq![':', ' '] + msg + seq!['\n'],
        spec_error_output(msg).skip(
            spec_error_output(msg).len() - (msg.len() + 3),
        ) == seq![':', ' '] + msg + seq!['\n'],
{
    assert(spec_ok_output(status, msg).skip(
        spec_ok_output(status, msg).len() - (msg.len() + 2),
    ) =~= seq![' '] + msg + seq!['\n']);
    assert(spec_info_output(status, msg).skip(
        spec_info_output(status, msg).len() - (msg.len() + 2),
    ) =~= seq![' '] + msg + seq!['\n']);
    assert(spec_warning_output(msg).skip(
        spec_warning_output(msg).len() - (msg.len() + 3),
    ) =~= seq![':', ' '] + msg + seq!['\n']);
    assert(spec_error_output(msg).skip(
        spec_error_output(msg).len() - (msg.len() + 3),
    ) =~= seq![':', ' '] + msg + seq!['\n']);
}

} // verus!
