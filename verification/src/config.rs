//! The typed configuration the orchestrator consumes. Loading and parsing
//! the configuration document is the surrounding application's work; the
//! orchestrator only ever sees this structure.

use vstd::prelude::*;
use crate::target::SshRsyncTarget;

verus! {

/// One run's configuration: output verbosity, an optional local user to
/// notify, the local source path, and the targets to try, in priority order.
/// The order of `targets` is significant: it is the sole fallback order, and
/// it is never changed during a run.
#[derive(Debug)]
pub struct Configuration {
    /// Whether or not to output detailed information.
    pub verbose: bool,
    /// The local user to send status updates to.
    pub notify_user: Option<String>,
    /// The absolute path to the local data to back up.
    pub source_path: String,
    /// The targets to try, in declared order.
    pub targets: Vec<SshRsyncTarget>,
}

impl Clone for Configuration {
    fn clone(&self) -> (r: Self)
        ensures
            r.verbose == self.verbose,
            r.notify_user == self.notify_user,
            r.source_path == self.source_path,
            r.targets@ == self.targets@,
    {
        let mut targets: Vec<SshRsyncTarget> = Vec::new();
        let mut k: usize = 0;
        while k < self.targets.len()
            invariant
                k <= self.targets@.len(),
                targets@.len() == k,
                forall|i: int| 0 <= i < k ==> targets@[i] == self.targets@[i],
            decreases self.targets@.len() - k,
        {
            targets.push(self.targets[k].clone());
            k += 1;
        }
        proof {
            assert(targets@ =~= self.targets@);
        }
        Configuration {
            verbose: self.verbose,
            notify_user: match &self.notify_user {
                Some(user) => Some(user.clone()),
                None => None,
            },
            source_path: self.source_path.clone(),
            targets,
        }
    }
}

impl Configuration {
    pub fn new(
        verbose: bool,
        notify_user: Option<String>,
        source_path: String,
        targets: Vec<SshRsyncTarget>,
    ) -> (r: Configuration)
        ensures
            r.verbose == verbose && r.notify_user == notify_user && r.source_path == source_path
                && r.targets == targets,
    {
        Configuration { verbose, notify_user, source_path, targets }
    }
}

} // verus!
