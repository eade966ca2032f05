//! The decisions of the background workflows: what a tracked process does
//! next, given what the store answered.
use vstd::prelude::*;
use vstd::string::StringExecFns;

verus! {

/// The workflow that sets a payment method to its awaited status.
pub struct PaymentMethodStatusUpdateWorkflow;

/// The status of a stored payment method.
#[derive(Debug, Clone, Copy, PartialEq, Eq, Structural)]
pub enum PaymentMethodStatus {
    Active,
    Inactive,
    Processing,
    AwaitingData,
}

/// What the status workflow was scheduled with.
pub struct PaymentMethodStatusTrackingData {
    pub payment_method_id: String,
    pub prev_status: PaymentMethodStatus,
    pub curr_status: PaymentMethodStatus,
    pub merchant_id: String,
}

/// When a failed process is tried again: first after `start_after` seconds,
/// then after the frequency of the first entry of `frequencies` whose count,
/// added to the counts before it, reaches the number of the retry.
pub struct RetryMapping {
    pub start_after: i32,
    pub frequencies: Vec<(i32, i32)>,
}

/// How a process ended, as the tracker records it.
#[derive(Debug, Clone, Copy, PartialEq, Eq, Structural)]
pub enum BusinessStatus {
    /// `PROCESS_ALREADY_COMPLETED`
    ProcessAlreadyCompleted,
    /// `COMPLETED_BY_PT`
    CompletedByPt,
    /// `RETRIES_EXCEEDED`
    RetriesExceeded,
}

/// What a workflow does next.
#[derive(Debug, Clone, Copy, PartialEq, Eq, Structural)]
pub enum TrackerStep {
    /// Write the status to the payment method.
    UpdateStatus(PaymentMethodStatus),
    /// Close the process with the given record.
    Finish(BusinessStatus),
    /// Run the process again after so many seconds.
    Retry(i32),
}

/// What the store answered to a request to delete a key.
#[derive(Debug, Clone, Copy, PartialEq, Eq, Structural)]
pub enum DelReply {
    KeyDeleted,
    KeyNotDeleted,
}

/// The errors that the locker's callers see.
#[derive(Debug, Clone, Copy, PartialEq, Eq, Structural)]
pub enum ApiErrorResponse {
    InternalServerError,
    /// The token is invalid or expired.
    UnprocessableEntity,
    /// The flow is not supported.
    NotImplemented,
}

/// Why a tracked process failed.
#[derive(Debug, Clone, Copy, PartialEq, Eq, Structural)]
pub enum ProcessTrackerError {
    /// The tracking data could not be read.
    DeserializationFailed,
    /// The store failed.
    StorageError,
}

/// The frequency of the first entry whose count, added to `cumulative` and the
/// counts before it, reaches `retry_count`.
pub open spec fn reached(frequencies: Seq<(i32, i32)>, retry_count: int, cumulative: int) -> Option<
    i32,
>
    decreases frequencies.len(),
{
    if frequencies.len() == 0 {
        None
    } else if cumulative + frequencies[0].1 >= retry_count {
        Some(frequencies[0].0)
    } else {
        reached(frequencies.drop_first(), retry_count, cumulative + frequencies[0].1)
    }
}

/// The delay before retry number `retry_count`: none for a count that is not
/// positive, else the frequency that the count reaches, `None` where the
/// retries are used up.
pub open spec fn delay(retry_count: int, frequencies: Seq<(i32, i32)>) -> Option<i32> {
    if retry_count <= 0 {
        Some(0)
    } else {
        reached(frequencies, retry_count, 0)
    }
}

/// The delay before the next run of a process that has been retried
/// `retry_count` times.
pub open spec fn next_delay(retry_count: int, start_after: i32, frequencies: Seq<(i32, i32)>) -> Option<
    i32,
> {
    if retry_count == 0 {
        Some(start_after)
    } else {
        delay(retry_count + 1, frequencies)
    }
}

/// The text of a record.
pub open spec fn business_status_text(status: BusinessStatus) -> Seq<char> {
    match status {
        BusinessStatus::ProcessAlreadyCompleted => "PROCESS_ALREADY_COMPLETED"@,
        BusinessStatus::CompletedByPt => "COMPLETED_BY_PT"@,
        BusinessStatus::RetriesExceeded => "RETRIES_EXCEEDED"@,
    }
}

impl BusinessStatus {
    /// The text that the tracker stores for the record.
    pub fn as_str(&self) -> (text: &'static str)
        ensures
            text@ == business_status_text(*self),
    {
        match self {
            BusinessStatus::ProcessAlreadyCompleted => "PROCESS_ALREADY_COMPLETED",
            BusinessStatus::CompletedByPt => "COMPLETED_BY_PT",
            BusinessStatus::RetriesExceeded => "RETRIES_EXCEEDED",
        }
    }
}

/// The delay before retry number `retry_count`, in seconds.
pub fn get_delay(retry_count: i64, frequencies: &Vec<(i32, i32)>) -> (found: Option<i32>)
    ensures
        found == delay(retry_count as int, frequencies@),
{
    if retry_count <= 0 {
        return Some(0);
    }
    let mut cumulative_count: i128 = 0;
    let mut i: usize = 0;
    proof {
        assert(frequencies@.skip(0) =~= frequencies@);
    }
    while i < frequencies.len()
        invariant
            retry_count > 0,
            i <= frequencies@.len(),
            -(i as int) * 0x8000_0000 <= cumulative_count < retry_count,
            reached(frequencies@, retry_count as int, 0) == reached(
                frequencies@.skip(i as int),
                retry_count as int,
                cumulative_count as int,
            ),
        decreases frequencies@.len() - i,
    {
        let (frequency, count) = frequencies[i];
        proof {
            let rest = frequencies@.skip(i as int);
            assert(rest[0] == frequencies@[i as int]);
            assert(rest.drop_first() =~= frequencies@.skip(i + 1));
        }
        cumulative_count = cumulative_count + count as i128;
        if cumulative_count >= retry_count as i128 {
            return Some(frequency);
        }
        i = i + 1;
    }
    None
}

impl PaymentMethodStatusUpdateWorkflow {
    /// What to do once the payment method has been read. A payment method
    /// that no longer has the status the process was scheduled for is left
    /// alone and the process closed as already completed; else the awaited
    /// status is written.
    pub fn on_payment_method(
        &self,
        stored: PaymentMethodStatus,
        tracking_data: &PaymentMethodStatusTrackingData,
    ) -> (step: TrackerStep)
        ensures
            step == if stored != tracking_data.prev_status {
                TrackerStep::Finish(BusinessStatus::ProcessAlreadyCompleted)
            } else {
                TrackerStep::UpdateStatus(tracking_data.curr_status)
            },
    {
        if stored != tracking_data.prev_status {
            TrackerStep::Finish(BusinessStatus::ProcessAlreadyCompleted)
        } else {
            TrackerStep::UpdateStatus(tracking_data.curr_status)
        }
    }

    /// What to do once the update has been tried. A process whose update went
    /// through is closed as completed. One whose update failed runs again:
    /// the first time after the mapping's start delay, later after the delay
    /// of the next retry; where the retries are used up it is closed so.
    pub fn on_update(&self, updated: bool, retry_count: i32, mapping: &RetryMapping) -> (step:
        TrackerStep)
        ensures
            step == if updated {
                TrackerStep::Finish(BusinessStatus::CompletedByPt)
            } else {
                match next_delay(retry_count as int, mapping.start_after, mapping.frequencies@) {
                    Some(seconds) => TrackerStep::Retry(seconds),
                    None => TrackerStep::Finish(BusinessStatus::RetriesExceeded),
                }
            },
    {
        if updated {
            return TrackerStep::Finish(BusinessStatus::CompletedByPt);
        }
        let time_delta = if retry_count == 0 {
            Some(mapping.start_after)
        } else {
            get_delay(retry_count as i64 + 1, &mapping.frequencies)
        };
        match time_delta {
            Some(seconds) => TrackerStep::Retry(seconds),
            None => TrackerStep::Finish(BusinessStatus::RetriesExceeded),
        }
    }

    /// A failure of the workflow is logged and otherwise let pass.
    pub fn error_handler(&self, _error: ProcessTrackerError) -> (result: Result<
        (),
        ProcessTrackerError,
    >)
        ensures
            result is Ok,
    {
        Ok(())
    }
}

/// What the delete of a locker entry came to: done where the key was deleted,
/// an internal error where it was not there or the store failed.
pub fn on_delete_reply(reply: Option<DelReply>) -> (result: Result<(), ApiErrorResponse>)
    ensures
        result == match reply {
            Some(DelReply::KeyDeleted) => Ok::<(), ApiErrorResponse>(()),
            _ => Err::<(), ApiErrorResponse>(ApiErrorResponse::InternalServerError),
        },
{
    match reply {
        Some(DelReply::KeyDeleted) => Ok(()),
        Some(DelReply::KeyNotDeleted) => Err(ApiErrorResponse::InternalServerError),
        None => Err(ApiErrorResponse::InternalServerError),
    }
}

/// What the workflow that empties the locker does once the delete has been
/// tried: closed as completed where the entry is gone, else run again at the
/// time the schedule gives, or closed where the schedule gives none.
pub fn on_tokenized_data_delete(deleted: bool, schedule_delay: Option<i32>) -> (step: TrackerStep)
    ensures
        step == if deleted {
            TrackerStep::Finish(BusinessStatus::CompletedByPt)
        } else {
            retry_step(schedule_delay)
        },
{
    if deleted {
        TrackerStep::Finish(BusinessStatus::CompletedByPt)
    } else {
        retry_delete_tokenize(schedule_delay)
    }
}

/// The step of a retry: run again after the delay, or close.
pub open spec fn retry_step(schedule_delay: Option<i32>) -> TrackerStep {
    match schedule_delay {
        Some(seconds) => TrackerStep::Retry(seconds),
        None => TrackerStep::Finish(BusinessStatus::RetriesExceeded),
    }
}

/// Runs the delete again after the delay the schedule gives, or closes the
/// process where it gives none.
pub fn retry_delete_tokenize(schedule_delay: Option<i32>) -> (step: TrackerStep)
    ensures
        step == retry_step(schedule_delay),
{
    match schedule_delay {
        Some(seconds) => TrackerStep::Retry(seconds),
        None => TrackerStep::Finish(BusinessStatus::RetriesExceeded),
    }
}

/// The id of the process that empties the locker for `lookup_key`: the name
/// of the runner, an underscore, the lookup key.
pub fn delete_tokenize_task_id(runner: &str, lookup_key: &str) -> (id: String)
    ensures
        id@ == runner@ + "_"@ + lookup_key@,
{
    let mut id = String::from_str(runner);
    id.append("_");
    id.append(lookup_key);
    id
}

/// The key under which the retry schedule of a payment method is kept.
pub fn delete_tokenize_mapping_key(payment_method: &str) -> (key: String)
    ensures
        key@ == "pt_mapping_delete_"@ + payment_method@ + "_tokenize_data"@,
{
    let mut key = String::from_str("pt_mapping_delete_");
    key.append(payment_method);
    key.append("_tokenize_data");
    key
}

/// What inserting the delete task came to: a task that is there already is
/// as good as a new one; any other failure is an internal error.
pub fn on_task_insert(inserted: bool, unique_violation: bool) -> (result: Result<
    (),
    ApiErrorResponse,
>)
    ensures
        result == if inserted || unique_violation {
            Ok::<(), ApiErrorResponse>(())
        } else {
            Err::<(), ApiErrorResponse>(ApiErrorResponse::InternalServerError)
        },
{
    if inserted || unique_violation {
        Ok(())
    } else {
        Err(ApiErrorResponse::InternalServerError)
    }
}

/// The reject flow is not supported: deciding it is `NotImplemented`.
pub fn decide_flows() -> (result: Result<(), ApiErrorResponse>)
    ensures
        result == Err::<(), ApiErrorResponse>(ApiErrorResponse::NotImplemented),
{
    Err(ApiErrorResponse::NotImplemented)
}

/// The reject flow is not supported: it has no connector request.
pub fn build_flow_specific_connector_request() -> (result: Result<(), ApiErrorResponse>)
    ensures
        result == Err::<(), ApiErrorResponse>(ApiErrorResponse::NotImplemented),
{
    Err(ApiErrorResponse::NotImplemented)
}

} // verus!
