//! Planning a pool of engine instances and the decisions of its workers.
//!
//! The pool gives each engine instance its own worker thread with a mailbox
//! of commands and an outbox of results.  Thread and channel plumbing is
//! outside the library; verified here are the argument check that guards
//! the whole pool — parallel lists of equal length, or no instance at all —
//! and the step a worker takes for each received command, including the
//! quit sentinel that ends the worker without a result.

use vstd::prelude::*;

use crate::error::Error;
use crate::spawn::R2PipeSpawnOptions;

verus! {

/// One planned pool entry: its index and the spawn request of its engine.
pub struct ThreadPlan {
    pub id: u16,
    pub name: &'static str,
    pub opts: Option<R2PipeSpawnOptions>,
}

/// Plans one pool entry per element of the parallel lists `names` and
/// `opts`.  Lists of unequal length are an argument mismatch, and then no
/// entry is planned and no worker is started.
pub fn plan_threads(names: Vec<&'static str>, opts: Vec<Option<R2PipeSpawnOptions>>) -> (r:
    Result<Vec<ThreadPlan>, Error>)
    ensures
        names@.len() != opts@.len() ==> (r matches Err(e) && e == Error::ArgumentMismatch),
        names@.len() == opts@.len() ==> (r matches Ok(plans) && plans@.len() == names@.len()
            && (forall|k: int|
            0 <= k < names@.len() ==> {
                &&& (#[trigger] plans@[k]).id as int == k % 0x10000
                &&& plans@[k].name == names@[k]
                &&& plans@[k].opts == opts@[k]
            })),
{
    if names.len() != opts.len() {
        return Err(Error::ArgumentMismatch);
    }
    let n = names.len();
    let mut rest = opts;
    let ghost all = rest@;
    let mut plans: Vec<ThreadPlan> = Vec::new();
    let mut i: usize = 0;
    while i < n
        invariant
            i <= n,
            n == names@.len(),
            all.len() == n,
            rest@ =~= all.skip(i as int),
            plans@.len() == i,
            forall|k: int|
                0 <= k < i ==> {
                    &&& (#[trigger] plans@[k]).id as int == k % 0x10000
                    &&& plans@[k].name == names@[k]
                    &&& plans@[k].opts == all[k]
                },
        decreases n - i,
    {
        let name: &'static str = names[i];
        let opt = rest.remove(0);
        proof {
            assert(opt == all[i as int]);
            assert(rest@ =~= all.skip(i + 1));
        }
        let id_low: usize = i % 0x10000;
        plans.push(ThreadPlan { id: id_low as u16, name, opts: opt });
        i += 1;
    }
    Ok(plans)
}

/// What a worker does with one command taken from its mailbox.
pub enum WorkerAction {
    /// End the loop without producing a result for this command.
    Quit,
    /// Issue the command as a structured request and put the rendered
    /// result on the outbox.
    Run(String),
}

/// The dispatch decision of a pool worker: the sentinel `"q"` ends the
/// worker — with no outbox entry for it — and every other command is run.
pub fn worker_step(cmd: String) -> (r: WorkerAction)
    ensures
        cmd@ == "q"@ ==> r is Quit,
        cmd@ != "q"@ ==> (r matches WorkerAction::Run(c) && c@ == cmd@),
{
    let quit = String::from_str("q");
    if cmd == quit {
        WorkerAction::Quit
    } else {
        WorkerAction::Run(cmd)
    }
}

} // verus!
