use vstd::prelude::*;

verus! {

#[verifier::external_type_specification]
#[verifier::external_body]
pub struct ExIoError(std::io::Error);

#[verifier::external_type_specification]
#[verifier::external_body]
pub struct ExFromUtf8Error(std::string::FromUtf8Error);

/// Why running a command or a pipeline failed.
#[derive(Debug)]
pub enum ExecError {
    /// A generic execution failure, with a diagnostic message.
    Execution(String),
    /// Spawning a process, or waiting for it, failed.
    Io(std::io::Error),
    /// The output of a successful command is not valid UTF-8.
    Utf8(std::string::FromUtf8Error),
    /// The pipeline was empty, or the output of the preceding command could
    /// not be had, or the process events came out of order.
    Chaining,
    /// The command was terminated by a signal.
    TerminationBySignal,
    /// The command exited with a non-zero code and this standard error.
    TerminationWithError(i32, String),
    /// The command exited with a non-zero code; its standard error is not
    /// valid UTF-8.
    TerminationWithErrorCode(i32),
}

/// The mathematical value of an [`ExecError`]. Of a decoding failure only
/// the fact is kept.
pub enum ErrorModel {
    Execution(Seq<char>),
    Io(std::io::Error),
    Utf8,
    Chaining,
    TerminationBySignal,
    TerminationWithError(i32, Seq<char>),
    TerminationWithErrorCode(i32),
}

impl View for ExecError {
    type V = ErrorModel;

    open spec fn view(&self) -> ErrorModel {
        match self {
            ExecError::Execution(m) => ErrorModel::Execution(m@),
            ExecError::Io(e) => ErrorModel::Io(*e),
            ExecError::Utf8(_) => ErrorModel::Utf8,
            ExecError::Chaining => ErrorModel::Chaining,
            ExecError::TerminationBySignal => ErrorModel::TerminationBySignal,
            ExecError::TerminationWithError(c, m) => ErrorModel::TerminationWithError(*c, m@),
            ExecError::TerminationWithErrorCode(c) => ErrorModel::TerminationWithErrorCode(*c),
        }
    }
}

/// The model of a command's result: its output text, or why it failed.
pub open spec fn result_model(r: Result<String, ExecError>) -> Result<Seq<char>, ErrorModel> {
    match r {
        Ok(s) => Ok(s@),
        Err(e) => Err(e@),
    }
}

} // verus!
