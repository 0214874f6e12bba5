//! Termination of a process tree that a remote executor runs.

use vstd::prelude::*;

use crate::error::{ErrorKind, IoError};
use crate::text::decimal_string;

verus! {

/// How long an executor may take to terminate a process, in nanoseconds.
pub const EXECUTOR_TERMINATION_TIMEOUT: u64 = 5_000_000_000;

/// The nanoseconds of a second.
pub const NANOS_PER_SECOND: u64 = 1_000_000_000;

/// What came of the request to terminate a process.
pub enum ExecutorReply {
    /// The executor answered in time, with success or the text of its failure.
    Answered(Result<(), String>),
    /// The executor did not answer in time.
    TimedOut,
}

/// The text of the failure of an executor to answer in time.
pub open spec fn timeout_text(program_name: Seq<char>) -> Seq<char> {
    "executor MCP server termination timed out after "@ + crate::text::decimal(
        (EXECUTOR_TERMINATION_TIMEOUT / NANOS_PER_SECOND) as nat,
    ) + " seconds ("@ + program_name + ")"@
}

/// Whether `result` is what the termination comes to: the answer of the
/// executor, its failure being one of no particular kind, or a timeout that
/// names the program.
pub open spec fn settles(
    reply: ExecutorReply,
    program_name: Seq<char>,
    result: Result<(), IoError>,
) -> bool {
    match reply {
        ExecutorReply::Answered(Ok(())) => result == Ok::<(), IoError>(()),
        ExecutorReply::Answered(Err(message)) => result == Err::<(), IoError>(
            IoError { kind: ErrorKind::Other, message },
        ),
        ExecutorReply::TimedOut => {
            &&& result matches Err(error)
            &&& error.describes(ErrorKind::TimedOut, timeout_text(program_name))
        },
    }
}

/// What the termination of an executor's process comes to.
pub fn terminate_executor_process(reply: ExecutorReply, program_name: &str) -> (result: Result<
    (),
    IoError,
>)
    ensures
        settles(reply, program_name@, result),
        result is Ok <==> (reply matches ExecutorReply::Answered(Ok(_))),
{
    match reply {
        ExecutorReply::Answered(Ok(())) => Ok(()),
        ExecutorReply::Answered(Err(message)) => Err(IoError::other(message)),
        ExecutorReply::TimedOut => {
            let mut message = "executor MCP server termination timed out after ".to_owned();
            message.append(
                decimal_string(EXECUTOR_TERMINATION_TIMEOUT / NANOS_PER_SECOND).as_str(),
            );
            message.append(" seconds (");
            message.append(program_name);
            message.append(")");
            Err(IoError::new(ErrorKind::TimedOut, message))
        },
    }
}

/// An executor that answers in time decides: its success is success, and its
/// failure is one of no particular kind with the text that it gave. One that does
/// not answer in time has timed out, and the text says after how many seconds and
/// for which program.
pub proof fn law_executor_reply_decides(
    reply: ExecutorReply,
    program_name: Seq<char>,
    result: Result<(), IoError>,
)
    requires
        settles(reply, program_name, result),
    ensures
        result is Ok <==> (reply matches ExecutorReply::Answered(Ok(_))),
        reply matches ExecutorReply::Answered(Err(text)) ==> {
            &&& result matches Err(error)
            &&& error.kind == ErrorKind::Other
            &&& error.message == text
        },
        reply is TimedOut ==> {
            &&& result matches Err(error)
            &&& error.kind == ErrorKind::TimedOut
            &&& error.message@ == "executor MCP server termination timed out after "@
                + crate::text::decimal(5) + " seconds ("@ + program_name + ")"@
        },
{
}

} // verus!
