//! Offloading work to the runtime thread.

use crate::directive::{Directive, Submission};
use crate::host::Host;
use crate::task::{create_task, ServerTask, Task};
use vstd::prelude::*;

verus! {

/// A spawner used to spawn tasks on the runtime thread.
#[verifier::reject_recursive_types(P)]
pub struct AppkitSpawner<P: Host>(flume::Sender<Option<ServerTask<P>>>);

impl<P: Host> AppkitSpawner<P> {
    /// The sending end of the directive queue that this spawner sends through.
    pub closed spec fn queue(self) -> flume::Sender<Option<ServerTask<P>>> {
        self.0
    }

    /// A spawner that queues its work through `sender`.
    pub fn new(sender: flume::Sender<Option<ServerTask<P>>>) -> (spawner: Self)
        ensures
            spawner.queue() == sender,
    {
        Self(sender)
    }

    /// Makes the task that offloads `f`, without sending it. The work belongs to no
    /// session.
    pub fn prepare(&self, f: P::Work) -> (halves: (Task<P>, ServerTask<P>))
        ensures
            halves.0.asks() == (Submission { manager_id: 0, data: Directive::<P>::Offload(f) }),
            halves.1.held() == Some(Submission { manager_id: 0, data: Directive::<P>::Offload(f) }),
    {
        create_task(Submission { manager_id: 0, data: Directive::Offload(f) })
    }

    /// Has `f` run on the runtime thread, and hands back the claim on what it returns.
    ///
    /// What is handed back is the claim on the reply to the directive that offloads `f`
    /// and belongs to no session. If the queue does not take the work, the claim is
    /// handed back all the same: it then reports that its channel is closed.
    pub fn spawn_blocking(&self, f: P::Work) -> (task: Task<P>)
        ensures
            task.asks() == (Submission { manager_id: 0, data: Directive::<P>::Offload(f) }),
    {
        let (t, s) = self.prepare(f);
        let _ = self.0.try_send(Some(s));
        t
    }
}

} // verus!
