//! The pod worker: turns watcher events into container-runtime
//! invocations, strictly one at a time and in arrival order.

use vstd::prelude::*;

verus! {

/// What a pod event asks for.
#[derive(Debug, Copy, Clone, PartialEq, Eq, Structural)]
pub enum PodOps {
    /// Play the descriptor.
    Apply,
    /// Tear the descriptor down.
    Down,
}

/// One unit of work: an operation and the descriptor file it concerns.
#[derive(Debug)]
pub struct Event {
    pub ops: PodOps,
    pub yaml: String,
}

/// The container-runtime subcommand word an operation maps to.
pub open spec fn spec_ops_word(ops: PodOps) -> Seq<char> {
    match ops {
        PodOps::Apply => "play"@,
        PodOps::Down => "down"@,
    }
}

/// The worker: which container runtime to drive and where its combined
/// output is appended.
pub struct Worker {
    pub cruntime: String,
    pub log_file: String,
}

impl Worker {
    /// The exact command line one event maps to: the runtime binary, its
    /// `kube` subcommand, the operation word, and the descriptor path.
    pub fn command_argv(&self, event: &Event) -> (argv: Vec<String>)
        ensures
            argv@.len() == 4,
            argv@[0]@ == self.cruntime@,
            argv@[1]@ == "kube"@,
            argv@[2]@ == spec_ops_word(event.ops),
            argv@[3]@ == event.yaml@,
    {
        let mut argv: Vec<String> = Vec::new();
        argv.push(self.cruntime.clone());
        argv.push(String::from_str("kube"));
        match event.ops {
            PodOps::Apply => argv.push(String::from_str("play")),
            PodOps::Down => argv.push(String::from_str("down")),
        }
        argv.push(event.yaml.clone());
        argv
    }
}

/// What to delete once an invocation came back: a successfully downed
/// descriptor is removed from `down/`; everything else is left in place,
/// a failed one deliberately so, for inspection and retry.
pub fn removal_after(event: &Event, success: bool) -> (r: Option<String>)
    ensures
        event.ops == PodOps::Down && success ==> (r matches Some(p) && p@ == event.yaml@),
        event.ops != PodOps::Down || !success ==> r is None,
{
    if success {
        match event.ops {
            PodOps::Down => Some(event.yaml.clone()),
            PodOps::Apply => None,
        }
    } else {
        None
    }
}

/// Does `argv` spell the invocation for `event` under runtime `cruntime`?
pub open spec fn argv_matches(argv: Seq<String>, cruntime: Seq<char>, event: Event) -> bool {
    &&& argv.len() == 4
    &&& argv[0]@ == cruntime
    &&& argv[1]@ == "kube"@
    &&& argv[2]@ == spec_ops_word(event.ops)
    &&& argv[3]@ == event.yaml@
}

impl Worker {
    /// Runs a queue of events through `run_f`, strictly one at a time and
    /// in queue order, and returns the invocation record: the `i`-th entry
    /// holds the exact command line of the `i`-th event and the outcome its
    /// invocation reported.  No event is skipped, duplicated or reordered,
    /// and a failed invocation never stops the ones after it.
    pub fn run_queue<R: Fn(&Vec<String>) -> bool>(&self, events: &Vec<Event>, run_f: R) -> (log:
        Vec<(Vec<String>, bool)>)
        requires
            forall|argv: &Vec<String>|
                #![trigger call_requires(run_f, (argv,))]
                call_requires(run_f, (argv,)),
        ensures
            log@.len() == events@.len(),
            forall|i: int|
                #![trigger log@[i]]
                0 <= i < events@.len() ==> argv_matches(log@[i].0@, self.cruntime@, events@[i])
                    && call_ensures(run_f, (&log@[i].0,), log@[i].1),
    {
        let mut log: Vec<(Vec<String>, bool)> = Vec::new();
        let mut k: usize = 0;
        while k < events.len()
            invariant
                k <= events@.len(),
                log@.len() == k,
                forall|argv: &Vec<String>|
                    #![trigger call_requires(run_f, (argv,))]
                    call_requires(run_f, (argv,)),
                forall|i: int|
                    #![trigger log@[i]]
                    0 <= i < k ==> argv_matches(log@[i].0@, self.cruntime@, events@[i])
                        && call_ensures(run_f, (&log@[i].0,), log@[i].1),
            decreases events@.len() - k,
        {
            let argv = self.command_argv(&events[k]);
            let ok = run_f(&argv);
            log.push((argv, ok));
            k += 1;
        }
        log
    }
}

} // verus!
