//! The part of a Temporal history event that the tokenizer reads, held as
//! plain values.
use vstd::prelude::*;

verus! {

/// The kind of a history event (`temporal.api.enums.v1.EventType`).
#[derive(Clone, Copy, Debug, PartialEq, Eq, Structural)]
pub enum EventType {
    Unspecified,
    WorkflowExecutionStarted,
    WorkflowExecutionCompleted,
    WorkflowExecutionFailed,
    WorkflowExecutionTimedOut,
    WorkflowTaskScheduled,
    WorkflowTaskStarted,
    WorkflowTaskCompleted,
    WorkflowTaskTimedOut,
    WorkflowTaskFailed,
    ActivityTaskScheduled,
    ActivityTaskStarted,
    ActivityTaskCompleted,
    ActivityTaskFailed,
    ActivityTaskTimedOut,
    ActivityTaskCancelRequested,
    ActivityTaskCanceled,
    TimerStarted,
    TimerFired,
    TimerCanceled,
    WorkflowExecutionCancelRequested,
    WorkflowExecutionCanceled,
    RequestCancelExternalWorkflowExecutionInitiated,
    RequestCancelExternalWorkflowExecutionFailed,
    ExternalWorkflowExecutionCancelRequested,
    MarkerRecorded,
    WorkflowExecutionSignaled,
    WorkflowExecutionTerminated,
    WorkflowExecutionContinuedAsNew,
    StartChildWorkflowExecutionInitiated,
    StartChildWorkflowExecutionFailed,
    ChildWorkflowExecutionStarted,
    ChildWorkflowExecutionCompleted,
    ChildWorkflowExecutionFailed,
    ChildWorkflowExecutionCanceled,
    ChildWorkflowExecutionTimedOut,
    ChildWorkflowExecutionTerminated,
    SignalExternalWorkflowExecutionInitiated,
    SignalExternalWorkflowExecutionFailed,
    ExternalWorkflowExecutionSignaled,
    UpsertWorkflowSearchAttributes,
    WorkflowExecutionUpdateAdmitted,
    WorkflowExecutionUpdateAccepted,
    WorkflowExecutionUpdateRejected,
    WorkflowExecutionUpdateCompleted,
    WorkflowPropertiesModifiedExternally,
    ActivityPropertiesModifiedExternally,
    WorkflowPropertiesModified,
    NexusOperationScheduled,
    NexusOperationStarted,
    NexusOperationCompleted,
    NexusOperationFailed,
    NexusOperationCanceled,
    NexusOperationTimedOut,
    NexusOperationCancelRequested,
    WorkflowExecutionOptionsUpdated,
    NexusOperationCancelRequestCompleted,
    NexusOperationCancelRequestFailed,
    WorkflowExecutionPaused,
    WorkflowExecutionUnpaused,
    WorkflowExecutionTimeSkippingTransitioned,
}

/// Why starting a child workflow failed
/// (`temporal.api.enums.v1.StartChildWorkflowExecutionFailedCause`).
#[derive(Clone, Copy, Debug, PartialEq, Eq, Structural)]
pub enum StartChildWorkflowExecutionFailedCause {
    Unspecified,
    WorkflowAlreadyExists,
    NamespaceNotFound,
    InvalidVersioningOverride,
}

/// The detail of a failure that the tokenizer distinguishes.
#[derive(Clone, Debug, PartialEq, Eq)]
pub enum FailureInfo {
    /// An application failure, with its error type (such as `MyError`).
    ApplicationFailureInfo { failure_type: String },
    TimeoutFailureInfo,
    CanceledFailureInfo,
    /// Any other kind of failure detail, with its `Debug` text.
    Other { debug: String },
}

/// A failure attached to an event.
#[derive(Clone, Debug, PartialEq, Eq)]
pub struct Failure {
    pub failure_info: Option<FailureInfo>,
}

/// One entry of a marker's details: its key and the data of its payloads, in order.
#[derive(Clone, Debug, PartialEq, Eq)]
pub struct MarkerDetail {
    pub key: String,
    pub payloads: Vec<Vec<u8>>,
}

/// The attributes of an event, as far as the tokenizer reads them.
#[derive(Clone, Debug, PartialEq, Eq)]
pub enum Attributes {
    WorkflowExecutionStartedEventAttributes { workflow_type: Option<String> },
    ActivityTaskScheduledEventAttributes { activity_type: Option<String> },
    ActivityTaskFailedEventAttributes { failure: Option<Failure> },
    /// The timer's start-to-fire timeout in whole seconds, where one is set.
    TimerStartedEventAttributes { start_to_fire_timeout: Option<i64> },
    MarkerRecordedEventAttributes { marker_name: String, details: Vec<MarkerDetail> },
    StartChildWorkflowExecutionInitiatedEventAttributes { workflow_type: Option<String> },
    ChildWorkflowExecutionFailedEventAttributes { failure: Option<Failure> },
    WorkflowExecutionSignaledEventAttributes { signal_name: String },
    WorkflowExecutionFailedEventAttributes { failure: Option<Failure> },
    SignalExternalWorkflowExecutionInitiatedEventAttributes { signal_name: String },
    StartChildWorkflowExecutionFailedEventAttributes {
        cause: StartChildWorkflowExecutionFailedCause,
    },
    /// The update's name where the accepted request carries an input, and the
    /// `Debug` text of the accepted request.
    WorkflowExecutionUpdateAcceptedEventAttributes {
        update_name: Option<String>,
        accepted_request: String,
    },
    /// Attributes of any other kind.
    Other,
}

/// One event of a workflow history.
#[derive(Clone, Debug, PartialEq, Eq)]
pub struct HistoryEvent {
    pub event_id: i64,
    pub event_type: EventType,
    pub attributes: Option<Attributes>,
}

/// How `Debug` writes an event type: the variant's name.
pub open spec fn event_type_name(t: EventType) -> Seq<char> {
    match t {
        EventType::Unspecified => "Unspecified"@,
        EventType::WorkflowExecutionStarted => "WorkflowExecutionStarted"@,
        EventType::WorkflowExecutionCompleted => "WorkflowExecutionCompleted"@,
        EventType::WorkflowExecutionFailed => "WorkflowExecutionFailed"@,
        EventType::WorkflowExecutionTimedOut => "WorkflowExecutionTimedOut"@,
        EventType::WorkflowTaskScheduled => "WorkflowTaskScheduled"@,
        EventType::WorkflowTaskStarted => "WorkflowTaskStarted"@,
        EventType::WorkflowTaskCompleted => "WorkflowTaskCompleted"@,
        EventType::WorkflowTaskTimedOut => "WorkflowTaskTimedOut"@,
        EventType::WorkflowTaskFailed => "WorkflowTaskFailed"@,
        EventType::ActivityTaskScheduled => "ActivityTaskScheduled"@,
        EventType::ActivityTaskStarted => "ActivityTaskStarted"@,
        EventType::ActivityTaskCompleted => "ActivityTaskCompleted"@,
        EventType::ActivityTaskFailed => "ActivityTaskFailed"@,
        EventType::ActivityTaskTimedOut => "ActivityTaskTimedOut"@,
        EventType::ActivityTaskCancelRequested => "ActivityTaskCancelRequested"@,
        EventType::ActivityTaskCanceled => "ActivityTaskCanceled"@,
        EventType::TimerStarted => "TimerStarted"@,
        EventType::TimerFired => "TimerFired"@,
        EventType::TimerCanceled => "TimerCanceled"@,
        EventType::WorkflowExecutionCancelRequested => "WorkflowExecutionCancelRequested"@,
        EventType::WorkflowExecutionCanceled => "WorkflowExecutionCanceled"@,
        EventType::RequestCancelExternalWorkflowExecutionInitiated => "RequestCancelExternalWorkflowExecutionInitiated"@,
        EventType::RequestCancelExternalWorkflowExecutionFailed => "RequestCancelExternalWorkflowExecutionFailed"@,
        EventType::ExternalWorkflowExecutionCancelRequested => "ExternalWorkflowExecutionCancelRequested"@,
        EventType::MarkerRecorded => "MarkerRecorded"@,
        EventType::WorkflowExecutionSignaled => "WorkflowExecutionSignaled"@,
        EventType::WorkflowExecutionTerminated => "WorkflowExecutionTerminated"@,
        EventType::WorkflowExecutionContinuedAsNew => "WorkflowExecutionContinuedAsNew"@,
        EventType::StartChildWorkflowExecutionInitiated => "StartChildWorkflowExecutionInitiated"@,
        EventType::StartChildWorkflowExecutionFailed => "StartChildWorkflowExecutionFailed"@,
        EventType::ChildWorkflowExecutionStarted => "ChildWorkflowExecutionStarted"@,
        EventType::ChildWorkflowExecutionCompleted => "ChildWorkflowExecutionCompleted"@,
        EventType::ChildWorkflowExecutionFailed => "ChildWorkflowExecutionFailed"@,
        EventType::ChildWorkflowExecutionCanceled => "ChildWorkflowExecutionCanceled"@,
        EventType::ChildWorkflowExecutionTimedOut => "ChildWorkflowExecutionTimedOut"@,
        EventType::ChildWorkflowExecutionTerminated => "ChildWorkflowExecutionTerminated"@,
        EventType::SignalExternalWorkflowExecutionInitiated => "SignalExternalWorkflowExecutionInitiated"@,
        EventType::SignalExternalWorkflowExecutionFailed => "SignalExternalWorkflowExecutionFailed"@,
        EventType::ExternalWorkflowExecutionSignaled => "ExternalWorkflowExecutionSignaled"@,
        EventType::UpsertWorkflowSearchAttributes => "UpsertWorkflowSearchAttributes"@,
        EventType::WorkflowExecutionUpdateAdmitted => "WorkflowExecutionUpdateAdmitted"@,
        EventType::WorkflowExecutionUpdateAccepted => "WorkflowExecutionUpdateAccepted"@,
        EventType::WorkflowExecutionUpdateRejected => "WorkflowExecutionUpdateRejected"@,
        EventType::WorkflowExecutionUpdateCompleted => "WorkflowExecutionUpdateCompleted"@,
        EventType::WorkflowPropertiesModifiedExternally => "WorkflowPropertiesModifiedExternally"@,
        EventType::ActivityPropertiesModifiedExternally => "ActivityPropertiesModifiedExternally"@,
        EventType::WorkflowPropertiesModified => "WorkflowPropertiesModified"@,
        EventType::NexusOperationScheduled => "NexusOperationScheduled"@,
        EventType::NexusOperationStarted => "NexusOperationStarted"@,
        EventType::NexusOperationCompleted => "NexusOperationCompleted"@,
        EventType::NexusOperationFailed => "NexusOperationFailed"@,
        EventType::NexusOperationCanceled => "NexusOperationCanceled"@,
        EventType::NexusOperationTimedOut => "NexusOperationTimedOut"@,
        EventType::NexusOperationCancelRequested => "NexusOperationCancelRequested"@,
        EventType::WorkflowExecutionOptionsUpdated => "WorkflowExecutionOptionsUpdated"@,
        EventType::NexusOperationCancelRequestCompleted => "NexusOperationCancelRequestCompleted"@,
        EventType::NexusOperationCancelRequestFailed => "NexusOperationCancelRequestFailed"@,
        EventType::WorkflowExecutionPaused => "WorkflowExecutionPaused"@,
        EventType::WorkflowExecutionUnpaused => "WorkflowExecutionUnpaused"@,
        EventType::WorkflowExecutionTimeSkippingTransitioned => "WorkflowExecutionTimeSkippingTransitioned"@,
    }
}

/// The name of an event type, as `Debug` writes it.
pub fn event_type_debug(t: EventType) -> (r: &'static str)
    ensures
        r@ == event_type_name(t),
{
    match t {
        EventType::Unspecified => "Unspecified",
        EventType::WorkflowExecutionStarted => "WorkflowExecutionStarted",
        EventType::WorkflowExecutionCompleted => "WorkflowExecutionCompleted",
        EventType::WorkflowExecutionFailed => "WorkflowExecutionFailed",
        EventType::WorkflowExecutionTimedOut => "WorkflowExecutionTimedOut",
        EventType::WorkflowTaskScheduled => "WorkflowTaskScheduled",
        EventType::WorkflowTaskStarted => "WorkflowTaskStarted",
        EventType::WorkflowTaskCompleted => "WorkflowTaskCompleted",
        EventType::WorkflowTaskTimedOut => "WorkflowTaskTimedOut",
        EventType::WorkflowTaskFailed => "WorkflowTaskFailed",
        EventType::ActivityTaskScheduled => "ActivityTaskScheduled",
        EventType::ActivityTaskStarted => "ActivityTaskStarted",
        EventType::ActivityTaskCompleted => "ActivityTaskCompleted",
        EventType::ActivityTaskFailed => "ActivityTaskFailed",
        EventType::ActivityTaskTimedOut => "ActivityTaskTimedOut",
        EventType::ActivityTaskCancelRequested => "ActivityTaskCancelRequested",
        EventType::ActivityTaskCanceled => "ActivityTaskCanceled",
        EventType::TimerStarted => "TimerStarted",
        EventType::TimerFired => "TimerFired",
        EventType::TimerCanceled => "TimerCanceled",
        EventType::WorkflowExecutionCancelRequested => "WorkflowExecutionCancelRequested",
        EventType::WorkflowExecutionCanceled => "WorkflowExecutionCanceled",
        EventType::RequestCancelExternalWorkflowExecutionInitiated => "RequestCancelExternalWorkflowExecutionInitiated",
        EventType::RequestCancelExternalWorkflowExecutionFailed => "RequestCancelExternalWorkflowExecutionFailed",
        EventType::ExternalWorkflowExecutionCancelRequested => "ExternalWorkflowExecutionCancelRequested",
        EventType::MarkerRecorded => "MarkerRecorded",
        EventType::WorkflowExecutionSignaled => "WorkflowExecutionSignaled",
        EventType::WorkflowExecutionTerminated => "WorkflowExecutionTerminated",
        EventType::WorkflowExecutionContinuedAsNew => "WorkflowExecutionContinuedAsNew",
        EventType::StartChildWorkflowExecutionInitiated => "StartChildWorkflowExecutionInitiated",
        EventType::StartChildWorkflowExecutionFailed => "StartChildWorkflowExecutionFailed",
        EventType::ChildWorkflowExecutionStarted => "ChildWorkflowExecutionStarted",
        EventType::ChildWorkflowExecutionCompleted => "ChildWorkflowExecutionCompleted",
        EventType::ChildWorkflowExecutionFailed => "ChildWorkflowExecutionFailed",
        EventType::ChildWorkflowExecutionCanceled => "ChildWorkflowExecutionCanceled",
        EventType::ChildWorkflowExecutionTimedOut => "ChildWorkflowExecutionTimedOut",
        EventType::ChildWorkflowExecutionTerminated => "ChildWorkflowExecutionTerminated",
        EventType::SignalExternalWorkflowExecutionInitiated => "SignalExternalWorkflowExecutionInitiated",
        EventType::SignalExternalWorkflowExecutionFailed => "SignalExternalWorkflowExecutionFailed",
        EventType::ExternalWorkflowExecutionSignaled => "ExternalWorkflowExecutionSignaled",
        EventType::UpsertWorkflowSearchAttributes => "UpsertWorkflowSearchAttributes",
        EventType::WorkflowExecutionUpdateAdmitted => "WorkflowExecutionUpdateAdmitted",
        EventType::WorkflowExecutionUpdateAccepted => "WorkflowExecutionUpdateAccepted",
        EventType::WorkflowExecutionUpdateRejected => "WorkflowExecutionUpdateRejected",
        EventType::WorkflowExecutionUpdateCompleted => "WorkflowExecutionUpdateCompleted",
        EventType::WorkflowPropertiesModifiedExternally => "WorkflowPropertiesModifiedExternally",
        EventType::ActivityPropertiesModifiedExternally => "ActivityPropertiesModifiedExternally",
        EventType::WorkflowPropertiesModified => "WorkflowPropertiesModified",
        EventType::NexusOperationScheduled => "NexusOperationScheduled",
        EventType::NexusOperationStarted => "NexusOperationStarted",
        EventType::NexusOperationCompleted => "NexusOperationCompleted",
        EventType::NexusOperationFailed => "NexusOperationFailed",
        EventType::NexusOperationCanceled => "NexusOperationCanceled",
        EventType::NexusOperationTimedOut => "NexusOperationTimedOut",
        EventType::NexusOperationCancelRequested => "NexusOperationCancelRequested",
        EventType::WorkflowExecutionOptionsUpdated => "WorkflowExecutionOptionsUpdated",
        EventType::NexusOperationCancelRequestCompleted => "NexusOperationCancelRequestCompleted",
        EventType::NexusOperationCancelRequestFailed => "NexusOperationCancelRequestFailed",
        EventType::WorkflowExecutionPaused => "WorkflowExecutionPaused",
        EventType::WorkflowExecutionUnpaused => "WorkflowExecutionUnpaused",
        EventType::WorkflowExecutionTimeSkippingTransitioned => "WorkflowExecutionTimeSkippingTransitioned",
    }
}

/// How `Debug` writes a child-start failure cause.
pub open spec fn cause_name(c: StartChildWorkflowExecutionFailedCause) -> Seq<char> {
    match c {
        StartChildWorkflowExecutionFailedCause::Unspecified => "Unspecified"@,
        StartChildWorkflowExecutionFailedCause::WorkflowAlreadyExists => "WorkflowAlreadyExists"@,
        StartChildWorkflowExecutionFailedCause::NamespaceNotFound => "NamespaceNotFound"@,
        StartChildWorkflowExecutionFailedCause::InvalidVersioningOverride => "InvalidVersioningOverride"@,
    }
}

/// The name of a child-start failure cause, as `Debug` writes it.
pub fn cause_debug(c: StartChildWorkflowExecutionFailedCause) -> (r: &'static str)
    ensures
        r@ == cause_name(c),
{
    match c {
        StartChildWorkflowExecutionFailedCause::Unspecified => "Unspecified",
        StartChildWorkflowExecutionFailedCause::WorkflowAlreadyExists => "WorkflowAlreadyExists",
        StartChildWorkflowExecutionFailedCause::NamespaceNotFound => "NamespaceNotFound",
        StartChildWorkflowExecutionFailedCause::InvalidVersioningOverride => "InvalidVersioningOverride",
    }
}

} // verus!

verus! {

/// Distinct child-start failure causes have distinct names, so the token of
/// a failed child start tells its cause.
pub proof fn law_cause_names_distinct(c1: StartChildWorkflowExecutionFailedCause, c2: StartChildWorkflowExecutionFailedCause)
    ensures
        c1 != c2 ==> cause_name(c1) != cause_name(c2),
{
    reveal_strlit("Unspecified");
    reveal_strlit("WorkflowAlreadyExists");
    reveal_strlit("NamespaceNotFound");
    reveal_strlit("InvalidVersioningOverride");
    if c1 != c2 {
        assert(cause_name(c1).len() != cause_name(c2).len());
    }
}

} // verus!
