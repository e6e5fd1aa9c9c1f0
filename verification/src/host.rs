//! What the service asks of its host, queued until the panel acts on it.

use std::path::PathBuf;
use vstd::prelude::*;

verus! {

/// One thing the service asked for.
#[derive(Debug, PartialEq, Eq)]
pub enum HostRequest {
    OpenWorkspace(PathBuf),
    RunAgent { cwd: PathBuf, command: Vec<String> },
}

/// Why the host could not take or give requests.
#[derive(Debug, Clone, Copy, PartialEq, Eq, Structural)]
pub enum HostError {
    QueuePoisoned,
}

pub open spec fn queue_poisoned_text() -> Seq<char> {
    "Zed host request queue is poisoned"@
}

impl HostError {
    /// The message a user reads.
    pub fn message(&self) -> (message: String)
        ensures
            message@ == queue_poisoned_text(),
    {
        "Zed host request queue is poisoned".to_string()
    }
}

/// The requests not yet acted on, oldest first. The application keeps it
/// behind a lock; a thread that panicked while it held the lock leaves the
/// queue poisoned, and each operation is told so.
#[derive(Debug)]
pub struct ZedHost {
    pub requests: Vec<HostRequest>,
}

impl Default for ZedHost {
    fn default() -> (host: Self)
        ensures
            host.requests@ == Seq::<HostRequest>::empty(),
    {
        ZedHost { requests: Vec::new() }
    }
}

impl ZedHost {
    /// Takes every queued request, oldest first, and leaves the queue empty. A
    /// poisoned queue is left as it is.
    pub fn drain(&mut self, poisoned: bool) -> (drained: Result<Vec<HostRequest>, HostError>)
        ensures
            match drained {
                Ok(requests) => {
                    &&& !poisoned
                    &&& requests@ == old(self).requests@
                    &&& final(self).requests@ == Seq::<HostRequest>::empty()
                },
                Err(error) => {
                    &&& poisoned
                    &&& error == HostError::QueuePoisoned
                    &&& *final(self) == *old(self)
                },
            },
    {
        if poisoned {
            return Err(HostError::QueuePoisoned);
        }
        let mut requests: Vec<HostRequest> = Vec::new();
        std::mem::swap(&mut requests, &mut self.requests);
        Ok(requests)
    }

    /// Queues a request to open the workspace at `path`.
    pub fn open_workspace(&mut self, path: &PathBuf, poisoned: bool) -> (queued: Result<
        (),
        HostError,
    >)
        ensures
            match queued {
                Ok(_) => {
                    &&& !poisoned
                    &&& final(self).requests@ == old(self).requests@.push(
                        HostRequest::OpenWorkspace(*path),
                    )
                },
                Err(error) => {
                    &&& poisoned
                    &&& error == HostError::QueuePoisoned
                    &&& *final(self) == *old(self)
                },
            },
    {
        if poisoned {
            return Err(HostError::QueuePoisoned);
        }
        self.requests.push(HostRequest::OpenWorkspace(path.clone()));
        Ok(())
    }

    /// Queues a request to run `command` in `cwd`.
    pub fn run_agent(&mut self, cwd: &PathBuf, command: &Vec<String>, poisoned: bool) -> (queued:
        Result<(), HostError>)
        ensures
            match queued {
                Ok(_) => {
                    &&& !poisoned
                    &&& final(self).requests@.len() == old(self).requests@.len() + 1
                    &&& final(self).requests@.drop_last() == old(self).requests@
                    &&& final(self).requests@.last() matches HostRequest::RunAgent {
                        cwd: queued_cwd,
                        command: queued_command,
                    } && queued_cwd == *cwd && queued_command@ == command@
                },
                Err(error) => {
                    &&& poisoned
                    &&& error == HostError::QueuePoisoned
                    &&& *final(self) == *old(self)
                },
            },
    {
        if poisoned {
            return Err(HostError::QueuePoisoned);
        }
        let copy = command.clone();
        assert(copy@ =~= command@);
        self.requests.push(HostRequest::RunAgent { cwd: cwd.clone(), command: copy });
        assert(self.requests@.drop_last() =~= old(self).requests@);
        Ok(())
    }
}

} // verus!
