//! External command output handling: the host spawns the process and hands
//! the captured exit status and stream bytes here, and the functions below
//! decide what the caller receives.

use crate::text::decode_utf8_lossy;
use crate::text::lossy_utf8;
use vstd::prelude::*;
use vstd::string::StringExecFns;
use vstd::utf8::decode_utf8;
use vstd::utf8::valid_utf8;

verus! {

/// The description `String::from_utf8` gives of a failed decoding: a pure
/// function of the bytes alone.
pub uninterp spec fn utf8_error_text(bytes: Seq<u8>) -> Seq<char>;

/// Relies on `String::from_utf8`: it succeeds exactly on valid UTF-8 and
/// then returns the decoded characters; its error describes the first
/// invalid sequence and depends on the bytes alone.
#[verifier::external_body]
fn decode_utf8_strict(bytes: Vec<u8>) -> (r: Result<String, String>)
    ensures
        r is Ok <==> valid_utf8(bytes@),
        r is Ok ==> r->Ok_0@ == decode_utf8(bytes@),
        r is Err ==> r->Err_0@ == utf8_error_text(bytes@),
{
    match String::from_utf8(bytes) {
        Ok(s) => Ok(s),
        Err(e) => Err(e.to_string()),
    }
}

/// The message for command output that is not valid UTF-8.
pub open spec fn invalid_output_error_text(stdout: Seq<u8>) -> Seq<char> {
    "Invalid UTF-8 output: "@ + utf8_error_text(stdout)
}

/// The message for a command that could not be launched at all, built
/// around the platform's own description of the failure.
pub open spec fn launch_error_text(detail: Seq<char>) -> Seq<char> {
    "Failed to execute command: "@ + detail
}

/// The error a caller receives when the command could not be spawned;
/// `detail` is the platform's description of the launch failure.
pub fn launch_failure_error(detail: &str) -> (r: String)
    ensures
        r@ == launch_error_text(detail@),
{
    let msg: String = "Failed to execute command: ".to_owned();
    msg.concat(detail)
}

/// What a command invocation returns once the child process has exited:
/// on a success status the standard output decoded strictly as UTF-8 (a
/// decoding failure is an error even then), on any other status the
/// standard error decoded lossily.
pub fn command_outcome(exit_success: bool, stdout: Vec<u8>, stderr: &Vec<u8>) -> (r: Result<
    String,
    String,
>)
    ensures
        exit_success && valid_utf8(stdout@) ==> r is Ok && r->Ok_0@ == decode_utf8(stdout@),
        exit_success && !valid_utf8(stdout@) ==> r is Err && r->Err_0@ == invalid_output_error_text(
            stdout@,
        ),
        !exit_success ==> r is Err && r->Err_0@ == lossy_utf8(stderr@),
        !exit_success && valid_utf8(stderr@) ==> r->Err_0@ == decode_utf8(stderr@),
        !exit_success && stderr@.len() == 0 ==> r->Err_0@ == Seq::<char>::empty(),
{
    if exit_success {
        match decode_utf8_strict(stdout) {
            Ok(s) => Ok(s),
            Err(e) => {
                let msg: String = "Invalid UTF-8 output: ".to_owned();
                Err(msg.concat(e.as_str()))
            },
        }
    } else {
        proof {
            if stderr@.len() == 0 {
                assert(valid_utf8(stderr@));
                assert(decode_utf8(stderr@) == Seq::<char>::empty());
            }
        }
        Err(decode_utf8_lossy(stderr))
    }
}

} // verus!
