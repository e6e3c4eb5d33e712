//! The ways one execution can fail.

use vstd::prelude::*;

verus! {

/// Why an execution produced no output. Every failure ends the execution it
/// belongs to; nothing is retried.
#[derive(Debug, Clone, PartialEq, Eq)]
pub enum ExecError {
    /// The deadline passed while the program's output was being read.
    Timeout,
    /// The program's output stream ended without a single chunk.
    Empty,
    /// The container daemon rejected a request; the text is its diagnostic.
    Docker(String),
    /// The connection to the daemon failed while a stream was being read; the
    /// text is the transport's diagnostic.
    DockerConnection(String),
}

/// What an [`ExecError`] stands for, with its diagnostic as characters.
pub enum Failure {
    Timeout,
    Empty,
    Docker(Seq<char>),
    DockerConnection(Seq<char>),
}

impl View for ExecError {
    type V = Failure;

    open spec fn view(&self) -> Failure {
        match self {
            ExecError::Timeout => Failure::Timeout,
            ExecError::Empty => Failure::Empty,
            ExecError::Docker(detail) => Failure::Docker(detail@),
            ExecError::DockerConnection(detail) => Failure::DockerConnection(detail@),
        }
    }
}

impl Failure {
    /// The message shown to the user. It names the kind of failure and never
    /// holds the daemon's own diagnostic.
    pub open spec fn message_spec(self) -> Seq<char> {
        match self {
            Failure::Timeout => "code execution timed out"@,
            Failure::Empty => "no output"@,
            Failure::Docker(_) => "an error occurred with docker"@,
            Failure::DockerConnection(_) => "an error occurred with the docker connection"@,
        }
    }
}

/// The daemon's diagnostic stays out of what the user is shown: two failures
/// of one kind have one message, whatever their diagnostics say.
pub proof fn law_diagnostic_withheld(first: Seq<char>, second: Seq<char>)
    ensures
        Failure::Docker(first).message_spec() == Failure::Docker(second).message_spec(),
        Failure::DockerConnection(first).message_spec() == Failure::DockerConnection(
            second,
        ).message_spec(),
{
}

impl ExecError {
    /// The message shown to the user.
    pub fn message(&self) -> (res: String)
        ensures
            res@ == self@.message_spec(),
    {
        match self {
            ExecError::Timeout => String::from_str("code execution timed out"),
            ExecError::Empty => String::from_str("no output"),
            ExecError::Docker(_) => String::from_str("an error occurred with docker"),
            ExecError::DockerConnection(_) => String::from_str(
                "an error occurred with the docker connection",
            ),
        }
    }
}

} // verus!
