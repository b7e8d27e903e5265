//! The failure taxonomy of a backup run, and the classification of remote
//! shell invocations into it.

use vstd::prelude::*;
use crate::text::dec_signed_seq;
use crate::text::dec_string_signed;

verus! {

/// What can go wrong during target probing or snapshot rotation.
#[derive(Debug)]
pub enum BackupError {
    /// The transport to a target could not be established (connection
    /// refused, authentication failure, or timeout). Recoverable while
    /// probing: the selector skips to the next target. Fatal once a run has
    /// committed to a target.
    ConnectionFailed,
    /// The remote command ran but exited non-zero; the exit status and the
    /// captured standard error are kept. Always fatal to the current
    /// operation.
    CommandFailed { exit_status: i32, stderr: String },
    /// Every configured target failed its readiness probe.
    NoReachableTarget,
}

impl Clone for BackupError {
    fn clone(&self) -> (r: Self)
        ensures
            r == self,
    {
        match self {
            BackupError::ConnectionFailed => BackupError::ConnectionFailed,
            BackupError::CommandFailed { exit_status, stderr } => BackupError::CommandFailed {
                exit_status: *exit_status,
                stderr: stderr.clone(),
            },
            BackupError::NoReachableTarget => BackupError::NoReachableTarget,
        }
    }
}

impl BackupError {
    /// A human-readable rendering of the error.
    pub open spec fn describe_spec(&self) -> Seq<char> {
        match *self {
            BackupError::ConnectionFailed => "could not connect to the target"@,
            BackupError::CommandFailed { exit_status, stderr } => "the remote command failed with exit status "@
                + dec_signed_seq(exit_status as int) + ": "@ + stderr@,
            BackupError::NoReachableTarget => "could not connect to any of the targets"@,
        }
    }

    /// A human-readable rendering of the error, for the caller's reporting.
    pub fn describe(&self) -> (r: String)
        ensures
            r@ == self.describe_spec(),
    {
        match self {
            BackupError::ConnectionFailed => String::from_str("could not connect to the target"),
            BackupError::CommandFailed { exit_status, stderr } => {
                let mut s = String::from_str("the remote command failed with exit status ");
                s.append(dec_string_signed(*exit_status as i64).as_str());
                s.append(": ");
                s.append(stderr.as_str());
                proof {
                    assert(s@ =~= self.describe_spec());
                }
                s
            },
            BackupError::NoReachableTarget => String::from_str(
                "could not connect to any of the targets",
            ),
        }
    }
}

/// How one finished remote shell invocation is classified: exit status zero
/// is success; the remote shell's own failure status (255) and a missing
/// status (the process was killed) mean the session could not be used; any
/// other status is a failure of the command itself.
pub open spec fn classify_spec(code: Option<i32>, stderr: String) -> Result<(), BackupError> {
    match code {
        Some(c) => if c == 0 {
            Ok(())
        } else if c == 255 {
            Err(BackupError::ConnectionFailed)
        } else {
            Err(BackupError::CommandFailed { exit_status: c, stderr })
        },
        None => Err(BackupError::ConnectionFailed),
    }
}

/// Classify the exit of one remote shell invocation.
pub fn classify_ssh_exit(code: Option<i32>, stderr: String) -> (r: Result<(), BackupError>)
    ensures
        r == classify_spec(code, stderr),
        r is Ok <==> code == Some(0i32),
{
    match code {
        Some(c) => if c == 0 {
            Ok(())
        } else if c == 255 {
            Err(BackupError::ConnectionFailed)
        } else {
            Err(BackupError::CommandFailed { exit_status: c, stderr })
        },
        None => Err(BackupError::ConnectionFailed),
    }
}

/// How one finished local helper invocation (the notification sink) is
/// classified: exit status zero is success; any other is a failure of the
/// command itself. The remote shell's own-failure convention (255) does not
/// apply to a local process. A process that ended without an exit status
/// (on a signal) is kept as status -1.
pub open spec fn classify_local_spec(code: Option<i32>, stderr: String) -> Result<
    (),
    BackupError,
> {
    match code {
        Some(c) => if c == 0 {
            Ok(())
        } else {
            Err(BackupError::CommandFailed { exit_status: c, stderr })
        },
        None => Err(BackupError::CommandFailed { exit_status: -1i32, stderr }),
    }
}

/// Classify the exit of one local helper invocation.
pub fn classify_local_exit(code: Option<i32>, stderr: String) -> (r: Result<(), BackupError>)
    ensures
        r == classify_local_spec(code, stderr),
        r is Ok <==> code == Some(0i32),
{
    match code {
        Some(c) => if c == 0 {
            Ok(())
        } else {
            Err(BackupError::CommandFailed { exit_status: c, stderr })
        },
        None => Err(BackupError::CommandFailed { exit_status: -1i32, stderr }),
    }
}

/// A readiness probe reports any failure as `ConnectionFailed`: the probe
/// only answers whether the target can be used, so a failed remote command
/// and a failed session both mean "not ready".
pub fn probe_classification(r: Result<(), BackupError>) -> (p: Result<(), BackupError>)
    ensures
        p is Ok <==> r is Ok,
        p is Err ==> p == Err::<(), BackupError>(BackupError::ConnectionFailed),
{
    match r {
        Ok(()) => Ok(()),
        Err(_) => Err(BackupError::ConnectionFailed),
    }
}

} // verus!
