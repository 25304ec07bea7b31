//! Batch conversion bookkeeping: jobs, their outcomes, progress
//! checkpoints, and the collection of outcomes in the order of submission.

use vstd::prelude::*;

verus! {

/// The settings shared by the items of a request.
#[derive(Clone, Debug)]
pub struct ConversionSettings {
    pub target_format: String,
    pub quality: u8,
    pub preserve_metadata: bool,
}

/// One job of a batch.
#[derive(Clone, Debug)]
pub struct BatchConversionItem {
    pub file_id: String,
    pub path: String,
    pub output_path: String,
}

/// The outcome of one job: a success with its output path, or a failure
/// with its message.
#[derive(Clone, Debug)]
pub struct BatchConversionResult {
    pub file_id: String,
    pub success: bool,
    pub output_path: Option<String>,
    pub error: Option<String>,
}

/// A progress notification for one job.
#[derive(Clone, Debug)]
pub struct ConversionProgress {
    pub file_id: String,
    pub progress: u8,
}

/// What a metadata query returns.
#[derive(Clone, Debug)]
pub struct ImageMetadata {
    pub width: u32,
    pub height: u32,
    pub format: String,
}

/// The percentage reported once a job's image is decoded.
pub const PROGRESS_DECODED: u8 = 50;

/// The percentage reported once a job's output is written.
pub const PROGRESS_ENCODED: u8 = 100;

/// The notification sent once the image of job `file_id` is decoded.
pub fn progress_after_decode(file_id: &String) -> (p: ConversionProgress)
    ensures
        p.file_id@ == file_id@,
        p.progress == 50,
{
    ConversionProgress { file_id: file_id.clone(), progress: PROGRESS_DECODED }
}

/// The notification sent once the output of job `file_id` is written.
pub fn progress_after_encode(file_id: &String) -> (p: ConversionProgress)
    ensures
        p.file_id@ == file_id@,
        p.progress == 100,
{
    ConversionProgress { file_id: file_id.clone(), progress: PROGRESS_ENCODED }
}

impl BatchConversionResult {
    /// An outcome is a success with a path and no message, or a failure
    /// with a message and no path.
    pub open spec fn wf(&self) -> bool {
        if self.success {
            self.output_path is Some && self.error is None
        } else {
            self.output_path is None && self.error is Some
        }
    }

    /// This is the outcome of `item` for the result its pipeline gave: the
    /// output path on success, the message on failure.
    pub open spec fn records(&self, item: &BatchConversionItem, result: &Result<String, String>)
        -> bool {
        &&& self.file_id@ == item.file_id@
        &&& match result {
            Ok(path) => {
                &&& self.success
                &&& self.error is None
                &&& self.output_path is Some
                &&& self.output_path->Some_0@ == path@
            },
            Err(message) => {
                &&& !self.success
                &&& self.output_path is None
                &&& self.error is Some
                &&& self.error->Some_0@ == message@
            },
        }
    }
}

/// The outcome of one job, from what its pipeline returned.
pub fn job_outcome(item: &BatchConversionItem, result: &Result<String, String>) -> (out:
    BatchConversionResult)
    ensures
        out.records(item, result),
        out.wf(),
{
    match result {
        Ok(path) => BatchConversionResult {
            file_id: item.file_id.clone(),
            success: true,
            output_path: Some(path.clone()),
            error: None,
        },
        Err(message) => BatchConversionResult {
            file_id: item.file_id.clone(),
            success: false,
            output_path: None,
            error: Some(message.clone()),
        },
    }
}

/// Job `job` occurs in `order`.
pub open spec fn names_job(order: Seq<usize>, job: int) -> bool {
    exists|j: int| 0 <= j < order.len() && #[trigger] order[j] == job
}

/// `order` names each of the jobs `0..n` exactly once.
pub open spec fn is_arrangement(order: Seq<usize>, n: nat) -> bool {
    &&& forall|j: int| 0 <= j < order.len() ==> #[trigger] order[j] < n
    &&& forall|j: int, k: int|
        0 <= j < k < order.len() ==> #[trigger] order[j] != #[trigger] order[k]
    &&& forall|i: int| 0 <= i < n ==> #[trigger] names_job(order, i)
}

/// For each job, the position at which it completed. `order` lists the
/// jobs in their order of completion; the answer is `None` unless it names
/// each of the `n` jobs exactly once.
pub fn completion_slots(n: usize, order: &Vec<usize>) -> (r: Option<Vec<usize>>)
    ensures
        r is Some <==> is_arrangement(order@, n as nat),
        r matches Some(slots) ==> slots@.len() == n && forall|i: int|
            0 <= i < n ==> 0 <= #[trigger] slots@[i] < order@.len() && order@[slots@[i] as int]
                == i,
{
    let mut found: Vec<Option<usize>> = Vec::new();
    let mut i: usize = 0;
    while i < n
        invariant
            i <= n,
            found@.len() == i,
            forall|t: int| 0 <= t < i ==> #[trigger] found@[t] is None,
        decreases n - i,
    {
        found.push(None);
        i += 1;
    }
    let mut j: usize = 0;
    while j < order.len()
        invariant
            j <= order@.len(),
            found@.len() == n,
            forall|k: int| 0 <= k < j ==> #[trigger] order@[k] < n,
            forall|a: int, b: int| 0 <= a < b < j ==> #[trigger] order@[a] != #[trigger] order@[b],
            forall|t: int|
                0 <= t < n ==> (match #[trigger] found@[t] {
                    Some(at) => at < j && order@[at as int] == t,
                    None => forall|k: int| 0 <= k < j ==> #[trigger] order@[k] != t,
                }),
        decreases order@.len() - j,
    {
        let job: usize = order[j];
        if job >= n {
            return None;
        }
        match found[job] {
            Some(earlier) => {
                assert(order@[earlier as int] == order@[j as int]);
                return None;
            },
            None => {},
        }
        found.set(job, Some(j));
        j += 1;
    }
    let mut slots: Vec<usize> = Vec::new();
    let mut t: usize = 0;
    while t < n
        invariant
            t <= n,
            j == order@.len(),
            found@.len() == n,
            slots@.len() == t,
            forall|k: int| 0 <= k < j ==> #[trigger] order@[k] < n,
            forall|a: int, b: int| 0 <= a < b < j ==> #[trigger] order@[a] != #[trigger] order@[b],
            forall|t: int|
                0 <= t < n ==> (match #[trigger] found@[t] {
                    Some(at) => at < j && order@[at as int] == t,
                    None => forall|k: int| 0 <= k < j ==> #[trigger] order@[k] != t,
                }),
            forall|i: int|
                0 <= i < t ==> 0 <= #[trigger] slots@[i] < order@.len() && order@[slots@[i] as int]
                    == i,
        decreases n - t,
    {
        match found[t] {
            Some(at) => {
                slots.push(at);
            },
            None => {
                assert(forall|k: int| 0 <= k < order@.len() ==> #[trigger] order@[k] != t);
                assert(!names_job(order@, t as int));
                return None;
            },
        }
        t += 1;
    }
    assert forall|i: int| 0 <= i < n implies #[trigger] names_job(order@, i) by {
        assert(order@[slots@[i] as int] == i);
    }
    Some(slots)
}

/// Collects the outcomes of a batch in the order of submission, whatever
/// the order of completion. `order[j]` is the job that completed at
/// position `j` and `results[j]` what its pipeline returned. The answer is
/// `None` unless every job completed exactly once.
pub fn collect_outcomes(
    items: &Vec<BatchConversionItem>,
    order: &Vec<usize>,
    results: &Vec<Result<String, String>>,
) -> (r: Option<Vec<BatchConversionResult>>)
    ensures
        r is Some <==> results@.len() == order@.len() && is_arrangement(
            order@,
            items@.len(),
        ),
        r matches Some(outcomes) ==> outcomes@.len() == items@.len() && (forall|i: int|
            0 <= i < items@.len() ==> (#[trigger] outcomes@[i]).wf() && outcomes@[i].file_id@
                == items@[i].file_id@) && (forall|j: int|
            0 <= j < order@.len() ==> outcomes@[order@[j] as int].records(
                &items@[order@[j] as int],
                &#[trigger] results@[j],
            )),
{
    if results.len() != order.len() {
        return None;
    }
    let slots = match completion_slots(items.len(), order) {
        Some(slots) => slots,
        None => {
            return None;
        },
    };
    let mut outcomes: Vec<BatchConversionResult> = Vec::new();
    let mut i: usize = 0;
    while i < items.len()
        invariant
            i <= items@.len(),
            outcomes@.len() == i,
            slots@.len() == items@.len(),
            results@.len() == order@.len(),
            forall|t: int|
                0 <= t < items@.len() ==> 0 <= #[trigger] slots@[t] < order@.len()
                    && order@[slots@[t] as int] == t,
            forall|t: int|
                0 <= t < i ==> (#[trigger] outcomes@[t]).wf() && outcomes@[t].records(
                    &items@[t],
                    &results@[slots@[t] as int],
                ),
        decreases items@.len() - i,
    {
        let out = job_outcome(&items[i], &results[slots[i]]);
        outcomes.push(out);
        i += 1;
    }
    assert forall|j: int| 0 <= j < order@.len() implies outcomes@[order@[j] as int].records(
        &items@[order@[j] as int],
        &#[trigger] results@[j],
    ) by {
        let t = order@[j] as int;
        let at = slots@[t] as int;
        assert(order@[at] == t);
        if at != j {
            if at < j {
                assert(order@[at] != order@[j]);
            } else {
                assert(order@[j] != order@[at]);
            }
        }
    }
    Some(outcomes)
}

} // verus!
