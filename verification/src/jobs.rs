//! The registry of export jobs and their cancellation flags.

use crate::named::NamedMap;
use vstd::prelude::*;

verus! {

/// The jobs that were submitted and not yet disposed of, each with its
/// cancellation flag. A job stays registered when it ends: only `remove`
/// takes it out.
#[derive(Debug)]
pub struct ExportJobs {
    jobs: NamedMap<bool>,
}

/// The message for a job that is not registered.
pub open spec fn unknown_job_text() -> Seq<char> {
    "Unknown export job"@
}

/// The shape of a job identifier: 36 characters, in five groups with a
/// hyphen between each two.
pub open spec fn job_id_shape(id: Seq<char>) -> bool {
    &&& id.len() == 36
    &&& id[8] == '-'
    &&& id[13] == '-'
    &&& id[18] == '-'
    &&& id[23] == '-'
}

/// Calls `uuid::Uuid::new_v4` and renders the identifier as text. Trusted:
/// the text has the hyphenated form in which the crate writes every
/// identifier. Nothing else is claimed of it: it is random.
#[verifier::external_body]
pub(crate) fn fresh_job_id() -> (id: String)
    ensures
        job_id_shape(id@),
{
    uuid::Uuid::new_v4().to_string()
}

impl View for ExportJobs {
    type V = Map<Seq<char>, bool>;

    /// The cancellation flag of each registered job.
    closed spec fn view(&self) -> Map<Seq<char>, bool> {
        self.jobs.as_map()
    }
}

impl Default for ExportJobs {
    fn default() -> (jobs: Self)
        ensures
            jobs@ == Map::<Seq<char>, bool>::empty(),
    {
        let jobs = ExportJobs { jobs: NamedMap::new() };
        assert(jobs@ =~= Map::<Seq<char>, bool>::empty());
        jobs
    }
}

impl ExportJobs {
    /// Registers the job `job_id` with its flag down; a job that was
    /// registered under this identifier is replaced.
    pub fn insert(&mut self, job_id: String)
        ensures
            final(self)@ == old(self)@.insert(job_id@, false),
    {
        self.jobs.insert(job_id, false);
    }

    /// Raises the cancellation flag of the job `job_id`. A job that is not
    /// registered is refused, and nothing changes.
    pub fn cancel(&mut self, job_id: &str) -> (r: Result<(), String>)
        ensures
            old(self)@.contains_key(job_id@) ==> r is Ok && final(self)@ == old(self)@.insert(
                job_id@,
                true,
            ),
            !old(self)@.contains_key(job_id@) ==> r is Err && r->Err_0@ == unknown_job_text()
                && final(self)@ == old(self)@,
    {
        if self.jobs.get(job_id).is_some() {
            self.jobs.insert(String::from_str(job_id), true);
            Ok(())
        } else {
            Err(String::from_str("Unknown export job"))
        }
    }

    /// Takes the job `job_id` out of the registry; nothing happens where
    /// it is not registered.
    pub fn remove(&mut self, job_id: &str)
        ensures
            final(self)@ == old(self)@.remove(job_id@),
    {
        self.jobs.remove(job_id);
    }

    /// Whether the job `job_id` is registered with its flag up.
    pub fn is_cancelled(&self, job_id: &str) -> (b: bool)
        ensures
            b == (self@.contains_key(job_id@) && self@[job_id@]),
    {
        match self.jobs.get(job_id) {
            Some(flag) => *flag,
            None => false,
        }
    }

    /// Whether the job `job_id` is registered.
    pub fn contains(&self, job_id: &str) -> (b: bool)
        ensures
            b == self@.contains_key(job_id@),
    {
        self.jobs.get(job_id).is_some()
    }
}

/// Submits a job: a fresh identifier is registered with its flag down and
/// returned. The caller starts the export under that identifier.
pub fn export_file_async(state: &mut ExportJobs) -> (r: Result<String, String>)
    ensures
        r is Ok,
        job_id_shape(r->Ok_0@),
        final(state)@ == old(state)@.insert(r->Ok_0@, false),
{
    let job_id = fresh_job_id();
    state.insert(job_id.clone());
    Ok(job_id)
}

/// Asks the job `job_id` to stop; fails for a job that is not registered.
pub fn cancel_export(job_id: String, state: &mut ExportJobs) -> (r: Result<(), String>)
    ensures
        old(state)@.contains_key(job_id@) ==> r is Ok && final(state)@ == old(state)@.insert(
            job_id@,
            true,
        ),
        !old(state)@.contains_key(job_id@) ==> r is Err && r->Err_0@ == unknown_job_text()
            && final(state)@ == old(state)@,
{
    state.cancel(job_id.as_str())
}

/// Disposes of the job `job_id`, whether it is registered or not.
pub fn cleanup_export(job_id: String, state: &mut ExportJobs)
    ensures
        final(state)@ == old(state)@.remove(job_id@),
{
    state.remove(job_id.as_str());
}

/// Disposing of a job twice is disposing of it once, and a job that was
/// disposed of is not registered, so that it can no longer be cancelled.
pub proof fn lemma_cleanup_idempotent(jobs: Map<Seq<char>, bool>, job_id: Seq<char>)
    ensures
        jobs.remove(job_id).remove(job_id) == jobs.remove(job_id),
        !jobs.remove(job_id).contains_key(job_id),
        !jobs.contains_key(job_id) ==> jobs.remove(job_id) == jobs,
{
    assert(jobs.remove(job_id).remove(job_id) =~= jobs.remove(job_id));
    if !jobs.contains_key(job_id) {
        assert(jobs.remove(job_id) =~= jobs);
    }
}

} // verus!
