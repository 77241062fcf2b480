//! The registry of running jobs: from the id of a job to the process id of
//! its worker, so that a job can be stopped from outside its supervisor.

use vstd::prelude::*;
use vstd::hash_map::StringHashMap;
use crate::drain::DrainView;
use crate::supervisor::{
    classify, closing, next, stopped_notice, Exit, JobInputView, JobKind, JobStateView, JobView,
    OutcomeView,
};
use crate::text::chain;

verus! {

/// A process id that a signal can be sent to, alone and as a process group.
pub open spec fn valid_pid(pid: u32) -> bool {
    0 < pid <= i32::MAX
}

/// The two targets of the signal that stops the process `pid`.
pub struct SignalTargets {
    /// The process group that `pid` leads: the negative of the id.
    pub group: i32,
    /// The process itself.
    pub direct: i32,
}

/// The targets of the signal that stops the process `pid`.
pub open spec fn targets_of(pid: u32) -> SignalTargets {
    SignalTargets { group: (-(pid as int)) as i32, direct: pid as i32 }
}

/// The answer to a request to stop a job.
pub enum Cancel {
    /// No job of that id is running.
    NotFound,
    /// The job was running: these are the targets to signal.
    SignalSent(SignalTargets),
}

/// The answer to a request to stop the job `job_id`, over the entries `m`.
pub open spec fn cancel_answer(m: Map<Seq<char>, u32>, job_id: Seq<char>) -> Cancel {
    if m.contains_key(job_id) {
        Cancel::SignalSent(targets_of(m[job_id]))
    } else {
        Cancel::NotFound
    }
}

/// The running jobs, each with the process id of its worker.
pub struct JobRegistry {
    entries: StringHashMap<u32>,
}

impl View for JobRegistry {
    type V = Map<Seq<char>, u32>;

    closed spec fn view(&self) -> Map<Seq<char>, u32> {
        self.entries@
    }
}

impl JobRegistry {
    /// Every process id in the registry is one that can be signalled.
    pub closed spec fn wf(&self) -> bool {
        forall|id: Seq<char>| #[trigger]
            self.entries@.contains_key(id) ==> valid_pid(self.entries@[id])
    }

    /// A registry without entries.
    pub fn new() -> (r: JobRegistry)
        ensures
            r.wf(),
            r@ == Map::<Seq<char>, u32>::empty(),
    {
        JobRegistry { entries: StringHashMap::new() }
    }

    /// How many jobs are running.
    pub fn len(&self) -> (n: usize)
        ensures
            n == self@.len(),
    {
        self.entries.len()
    }

    /// Enters the job `job_id` with the process id `pid`, in place of an
    /// earlier entry of that id. A process id that cannot be signalled is not
    /// entered.
    pub fn register(&mut self, job_id: &str, pid: u32) -> (entered: bool)
        requires
            old(self).wf(),
        ensures
            final(self).wf(),
            entered == valid_pid(pid),
            final(self)@ == (if entered {
                old(self)@.insert(job_id@, pid)
            } else {
                old(self)@
            }),
    {
        if pid == 0 || pid > i32::MAX as u32 {
            return false;
        }
        self.entries.insert(job_id.to_owned(), pid);
        true
    }

    /// The process id of the job `job_id`, if it is running.
    pub fn lookup(&self, job_id: &str) -> (r: Option<u32>)
        requires
            self.wf(),
        ensures
            r == (if self@.contains_key(job_id@) {
                Some(self@[job_id@])
            } else {
                None
            }),
            r matches Some(pid) ==> valid_pid(pid),
    {
        match self.entries.get(job_id) {
            Some(pid) => Some(*pid),
            None => None,
        }
    }

    /// Takes the job `job_id` out of the registry, and says whether it was in.
    pub fn remove(&mut self, job_id: &str) -> (removed: bool)
        requires
            old(self).wf(),
        ensures
            final(self).wf(),
            removed == old(self)@.contains_key(job_id@),
            final(self)@ == old(self)@.remove(job_id@),
    {
        let removed = self.entries.contains_key(job_id);
        self.entries.remove(job_id);
        removed
    }

    /// Answers a request to stop the job `job_id`. A job that is running
    /// leaves the registry, and the answer names the process and the process
    /// group to signal; of any other id the answer is that it was not found.
    pub fn cancel(&mut self, job_id: &str) -> (r: Cancel)
        requires
            old(self).wf(),
        ensures
            final(self).wf(),
            r == cancel_answer(old(self)@, job_id@),
            final(self)@ == old(self)@.remove(job_id@),
            r matches Cancel::SignalSent(t) ==> 0 < t.direct && t.group == -t.direct,
    {
        match self.lookup(job_id) {
            Some(pid) => {
                self.remove(job_id);
                let direct: i32 = pid as i32;
                Cancel::SignalSent(SignalTargets { group: -direct, direct })
            },
            None => {
                assert(old(self)@.remove(job_id@) == old(self)@);
                Cancel::NotFound
            },
        }
    }
}

/// What the user is told of a request to stop a job that is not running.
pub open spec fn not_running_message(kind: JobKind) -> Seq<char> {
    match kind {
        JobKind::Dataset => "No generation process running"@,
        _ => kind.label() + " process not found or already finished"@,
    }
}

/// Says that a job that was to be stopped is not running.
pub fn not_running_text(kind: JobKind) -> (r: String)
    ensures
        r@ == not_running_message(kind),
{
    match kind {
        JobKind::Dataset => "No generation process running".to_owned(),
        _ => chain(kind.display_label(), " process not found or already finished"),
    }
}

/// A request to stop a job that is not in the registry is answered with "not
/// found" and changes nothing. A request to stop a job that is in it takes
/// the entry out, and when the worker then ends on the signal, having
/// reported no error, the job ends as cancelled and not as failed: the sink
/// is told that it was stopped.
pub proof fn law_cancel(
    m: Map<Seq<char>, u32>,
    job_id: Seq<char>,
    job: JobView,
    d: DrainView,
    exit: Exit,
    stamp: Seq<char>,
)
    requires
        exit.by_signal(),
        !d.saw_error,
    ensures
        !m.contains_key(job_id) ==> cancel_answer(m, job_id) == Cancel::NotFound && m.remove(job_id)
            == m,
        m.contains_key(job_id) ==> cancel_answer(m, job_id) is SignalSent && !m.remove(
            job_id,
        ).contains_key(job_id),
        classify(job.kind, d, exit) == OutcomeView::Cancelled,
        next(job, JobStateView::Running(d), JobInputView::Exited(exit, stamp)) == (
            JobStateView::Done(OutcomeView::Cancelled),
            closing(job, false, true, stopped_notice(job)),
        ),
{
    assert(!m.contains_key(job_id) ==> m.remove(job_id) =~= m);
}

} // verus!
