use vstd::prelude::*;
use vstd::utf8::{decode_utf8, valid_utf8};

use crate::error::{result_model, ErrorModel, ExecError};

verus! {

/// How a process ended, as reported by the operating system: its exit code
/// (none when a signal ended it) and everything it wrote to standard output
/// and standard error.
pub struct ExitReport {
    pub code: Option<i32>,
    pub stdout: Vec<u8>,
    pub stderr: Vec<u8>,
}

/// What a pipeline yields once its last process has ended:
/// - ended by a signal: [`ErrorModel::TerminationBySignal`];
/// - exit code 0: the standard output as text, or [`ErrorModel::Utf8`] when
///   it is not valid UTF-8;
/// - any other code: that code with the standard error as text, or the code
///   alone when standard error is not valid UTF-8.
pub open spec fn exit_outcome(code: Option<i32>, stdout: Seq<u8>, stderr: Seq<u8>) -> Result<
    Seq<char>,
    ErrorModel,
> {
    match code {
        None => Err(ErrorModel::TerminationBySignal),
        Some(c) => if c == 0 {
            if valid_utf8(stdout) {
                Ok(decode_utf8(stdout))
            } else {
                Err(ErrorModel::Utf8)
            }
        } else if valid_utf8(stderr) {
            Err(ErrorModel::TerminationWithError(c, decode_utf8(stderr)))
        } else {
            Err(ErrorModel::TerminationWithErrorCode(c))
        },
    }
}

/// Relies on `String::from_utf8`: it succeeds exactly on valid UTF-8, and
/// the text it returns is what the bytes encode, nothing replaced or cut.
#[verifier::external_body]
fn text_from_utf8(bytes: Vec<u8>) -> (r: Result<String, std::string::FromUtf8Error>)
    ensures
        r is Ok <==> valid_utf8(bytes@),
        r is Ok ==> r->Ok_0@ == decode_utf8(bytes@),
{
    String::from_utf8(bytes)
}

/// Checks how a process ended. On exit code 0 its standard output is handed
/// back as bytes; otherwise the matching error.
pub fn check_output(output: ExitReport) -> (r: Result<Vec<u8>, ExecError>)
    ensures
        match r {
            Ok(bytes) => output.code == Some(0i32) && bytes@ == output.stdout@,
            Err(e) => output.code != Some(0i32) && exit_outcome(
                output.code,
                output.stdout@,
                output.stderr@,
            ) == Err::<Seq<char>, ErrorModel>(e@),
        },
{
    match output.code {
        Some(code) => {
            if code == 0 {
                Ok(output.stdout)
            } else {
                match text_from_utf8(output.stderr) {
                    Ok(s) => Err(ExecError::TerminationWithError(code, s)),
                    Err(_) => Err(ExecError::TerminationWithErrorCode(code)),
                }
            }
        },
        None => Err(ExecError::TerminationBySignal),
    }
}

/// The result of a pipeline whose last process ended as `output` reports:
/// its standard output as text, or why it failed.
pub fn collect_output(output: ExitReport) -> (r: Result<String, ExecError>)
    ensures
        result_model(r) == exit_outcome(output.code, output.stdout@, output.stderr@),
{
    let bytes = check_output(output)?;
    match text_from_utf8(bytes) {
        Ok(s) => Ok(s),
        Err(e) => Err(ExecError::Utf8(e)),
    }
}

} // verus!
