//! Installing a package from a file.
//!
//! The work is done by an installer that runs as a process of its own. What
//! is decided here is when it is started and what its end means. The
//! decisions form a machine that is driven from outside like those of
//! [`repository`](crate::repository): the path of the package stays with
//! whoever drives it.

use crate::error::{Error, ProcessFailure};
use vstd::prelude::*;

verus! {

/// The program that installs a package.
pub const INSTALLER: &'static str = "powershell";

/// The installer's first argument: the command that adds a package.
pub const ADD_COMMAND: &'static str = "Add-AppxPackage";

/// The installer's second argument; the path of the package follows it.
pub const PATH_FLAG: &'static str = "-Path";

/// What the driver of an installation is asked to do.
#[derive(Clone, Copy, Debug, PartialEq, Eq, Structural, Hash)]
pub enum InstallRequest {
    /// Find out whether the package's path exists.
    CheckPath,
    /// Run [`INSTALLER`] with [`ADD_COMMAND`], [`PATH_FLAG`] and the path,
    /// and wait for it to end.
    Run,
}

/// What the driver of an installation found.
#[derive(Clone, Copy, Debug, PartialEq, Eq, Structural, Hash)]
pub enum InstallReply {
    /// This platform has no installer; nothing was tried.
    Unsupported,
    /// Whether the package's path exists.
    PathExists(bool),
    /// The installer could not be started.
    NotLaunched,
    /// The installer ran and ended with this exit code.
    Exited(i32),
    /// The installer was ended by a signal.
    Signaled,
}

/// How far an installation has come.
#[derive(Clone, Copy, Debug, PartialEq, Eq)]
pub enum Install {
    /// Nothing is known of the path yet.
    Unchecked,
    /// The path exists; the installer has not run yet.
    Checked,
    /// The installation is over.
    Done(Result<(), Error>),
}

impl Install {
    /// What to do next: none once the installation is over.
    pub open spec fn spec_request(self) -> Option<InstallRequest> {
        match self {
            Install::Unchecked => Some(InstallRequest::CheckPath),
            Install::Checked => Some(InstallRequest::Run),
            Install::Done(_) => None,
        }
    }

    /// The installation once `reply` is in.
    ///
    /// A path that does not exist ends it at once as not found, and no
    /// installer is run. Of the installer's end only exit code zero is
    /// success; each other end is a failure of its own kind. A reply that
    /// does not answer what was asked is an invalid argument.
    pub open spec fn after(self, reply: InstallReply) -> Install {
        match self {
            Install::Unchecked => match reply {
                InstallReply::Unsupported => Install::Done(Err(Error::Unsupported)),
                InstallReply::PathExists(true) => Install::Checked,
                InstallReply::PathExists(false) => Install::Done(Err(Error::NotFound)),
                _ => Install::Done(Err(Error::InvalidArgument)),
            },
            Install::Checked => match reply {
                InstallReply::Unsupported => Install::Done(Err(Error::Unsupported)),
                InstallReply::Exited(code) => if code == 0 {
                    Install::Done(Ok(()))
                } else {
                    Install::Done(
                        Err(Error::ExternalProcessFailure(ProcessFailure::ExitCode(code))),
                    )
                },
                InstallReply::NotLaunched => Install::Done(
                    Err(Error::ExternalProcessFailure(ProcessFailure::NotLaunched)),
                ),
                InstallReply::Signaled => Install::Done(
                    Err(Error::ExternalProcessFailure(ProcessFailure::Signaled)),
                ),
                InstallReply::PathExists(_) => Install::Done(Err(Error::InvalidArgument)),
            },
            Install::Done(result) => Install::Done(result),
        }
    }

    /// What the installation gave, once it is over.
    pub open spec fn outcome(self) -> Option<Result<(), Error>> {
        match self {
            Install::Done(result) => Some(result),
            _ => None,
        }
    }

    /// What to do next, or `None` when the installation is over.
    #[verifier::when_used_as_spec(spec_request)]
    pub fn request(self) -> (request: Option<InstallRequest>)
        ensures
            request == self.spec_request(),
    {
        match self {
            Install::Unchecked => Some(InstallRequest::CheckPath),
            Install::Checked => Some(InstallRequest::Run),
            Install::Done(_) => None,
        }
    }

    /// Takes the reply to what [`request`](Install::request) asked for.
    pub fn respond(&mut self, reply: InstallReply)
        ensures
            *final(self) == old(self).after(reply),
    {
        match *self {
            Install::Unchecked => {
                *self =
                match reply {
                    InstallReply::Unsupported => Install::Done(Err(Error::Unsupported)),
                    InstallReply::PathExists(exists) => if exists {
                        Install::Checked
                    } else {
                        Install::Done(Err(Error::NotFound))
                    },
                    _ => Install::Done(Err(Error::InvalidArgument)),
                };
            },
            Install::Checked => {
                let failure = match reply {
                    InstallReply::Unsupported => Some(Error::Unsupported),
                    InstallReply::Exited(code) => if code == 0 {
                        None
                    } else {
                        Some(Error::ExternalProcessFailure(ProcessFailure::ExitCode(code)))
                    },
                    InstallReply::NotLaunched => Some(
                        Error::ExternalProcessFailure(ProcessFailure::NotLaunched),
                    ),
                    InstallReply::Signaled => Some(
                        Error::ExternalProcessFailure(ProcessFailure::Signaled),
                    ),
                    InstallReply::PathExists(_) => Some(Error::InvalidArgument),
                };
                *self =
                match failure {
                    Some(e) => Install::Done(Err(e)),
                    None => Install::Done(Ok(())),
                };
            },
            Install::Done(_) => {},
        }
    }

    /// What the installation gave, or `None` while it is not over.
    pub fn finish(self) -> (outcome: Option<Result<(), Error>>)
        ensures
            outcome == self.outcome(),
    {
        match self {
            Install::Done(result) => Some(result),
            _ => None,
        }
    }
}

/// An installation succeeds in one way only: the path exists and the
/// installer ends with exit code zero.
pub proof fn lemma_success_needs_path_and_exit_zero(first: InstallReply, second: InstallReply)
    ensures
        Install::Unchecked.after(first).after(second).outcome() == Some(Ok::<(), Error>(())) <==> first
            == InstallReply::PathExists(true) && second == InstallReply::Exited(0),
{
}

/// Two replies are all that an installation takes: after them it is over,
/// whatever they were.
pub proof fn lemma_installation_ends(first: InstallReply, second: InstallReply)
    ensures
        Install::Unchecked.after(first).after(second).outcome() is Some,
        Install::Unchecked.after(first).after(second).spec_request() is None,
{
}

/// Without the path there is nothing to install: the installation is over as
/// not found, the installer is never asked for, and no later reply changes
/// that.
pub proof fn lemma_missing_path_ends_installation(later: InstallReply)
    ensures
        Install::Unchecked.after(InstallReply::PathExists(false)) == Install::Done(
            Err(Error::NotFound),
        ),
        Install::Unchecked.after(InstallReply::PathExists(false)).spec_request() is None,
        Install::Unchecked.after(InstallReply::PathExists(false)).after(later) == Install::Done(
            Err(Error::NotFound),
        ),
{
}

/// The three ways in which the installer can fail are told apart.
pub proof fn lemma_installer_failures_differ(code: i32)
    requires
        code != 0,
    ensures
        Install::Checked.after(InstallReply::NotLaunched) == Install::Done(
            Err(Error::ExternalProcessFailure(ProcessFailure::NotLaunched)),
        ),
        Install::Checked.after(InstallReply::Exited(code)) == Install::Done(
            Err(Error::ExternalProcessFailure(ProcessFailure::ExitCode(code))),
        ),
        Install::Checked.after(InstallReply::Signaled) == Install::Done(
            Err(Error::ExternalProcessFailure(ProcessFailure::Signaled)),
        ),
{
}

} // verus!
