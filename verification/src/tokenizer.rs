//! Canonical tokens of history events, and the semantic hash of a history.
use vstd::prelude::*;
use vstd::utf8::encode_utf8;
use crate::history::{
    cause_debug, cause_name, event_type_debug, event_type_name, Attributes, EventType, Failure,
    FailureInfo, HistoryEvent, MarkerDetail, StartChildWorkflowExecutionFailedCause,
};
use crate::text::{
    cat, cat3, hex_encode, hex_lower, i64_text, int_text, trim_double_quotes, trim_quotes,
    trim_white, trim_whitespace,
};
use crate::wrappers::{
    debug_str, json_i64, json_string, lossy_utf8, opt_string_view, parse_json_i64,
    parse_json_string, sha256, sha256_digest, str_debug, utf8_lossy,
};

verus! {

// ---------------------------------------------------------------------------
// Timer buckets
// ---------------------------------------------------------------------------

/// The bucket a timer timeout (in seconds) is rounded up to: one minute, ten
/// minutes, one hour, one day, seven days, thirty days, and ninety days for
/// everything longer or negative.
pub open spec fn bucket_of(seconds: int) -> int {
    if 0 <= seconds <= 60 {
        60
    } else if 61 <= seconds <= 600 {
        600
    } else if 601 <= seconds <= 3600 {
        3600
    } else if 3601 <= seconds <= 86400 {
        86400
    } else if 86401 <= seconds <= 604800 {
        604800
    } else if 604801 <= seconds <= 2592000 {
        2592000
    } else {
        7776000
    }
}

/// Rounds a timer timeout, in seconds, up to its bucket.
pub fn bucket(seconds: i64) -> (r: i64)
    ensures
        r == bucket_of(seconds as int),
{
    if 0 <= seconds && seconds <= 60 {
        60
    } else if 61 <= seconds && seconds <= 600 {
        600
    } else if 601 <= seconds && seconds <= 3600 {
        3600
    } else if 3601 <= seconds && seconds <= 86400 {
        86400
    } else if 86401 <= seconds && seconds <= 604800 {
        604800
    } else if 604801 <= seconds && seconds <= 2592000 {
        2592000
    } else {
        7776000
    }
}

// ---------------------------------------------------------------------------
// The shape of tokens and error messages
// ---------------------------------------------------------------------------

/// The view of a token result.
pub open spec fn token_view(r: Result<Option<String>, String>) -> Result<Option<Seq<char>>, Seq<char>> {
    match r {
        Ok(Some(s)) => Ok(Some(s@)),
        Ok(None) => Ok(None),
        Err(m) => Err(m@),
    }
}

/// The view of a text result.
pub open spec fn text_view(r: Result<String, String>) -> Result<Seq<char>, Seq<char>> {
    match r {
        Ok(s) => Ok(s@),
        Err(m) => Err(m@),
    }
}

/// `<EventType> event <id>`, the start of most error messages.
pub open spec fn event_lead(e: HistoryEvent) -> Seq<char> {
    event_type_name(e.event_type) + " event "@ + int_text(e.event_id as int)
}

/// `'<EventType>' event <id>`, the start of the messages for missing names.
pub open spec fn quoted_lead(e: HistoryEvent) -> Seq<char> {
    "'"@ + event_type_name(e.event_type) + "' event "@ + int_text(e.event_id as int)
}

/// The message for an event whose attributes are not of the kind its type calls for.
pub open spec fn missing_attributes(e: HistoryEvent, kind: Seq<char>) -> Seq<char> {
    event_lead(e) + " is missing expected '"@ + kind + "'"@
}

/// What a failure contributes to a token: the application error type,
/// `Timeout` or `Canceled`; any other failure is an error.
pub open spec fn failure_reason(e: HistoryEvent, failure: Option<Failure>) -> Result<Seq<char>, Seq<char>> {
    match failure {
        None => Err(event_lead(e) + " is missing 'failure' attribute"@),
        Some(f) => match f.failure_info {
            Some(FailureInfo::ApplicationFailureInfo { failure_type }) => Ok(failure_type@),
            Some(FailureInfo::TimeoutFailureInfo) => Ok("Timeout"@),
            Some(FailureInfo::CanceledFailureInfo) => Ok("Canceled"@),
            Some(FailureInfo::Other { debug }) => Err(
                event_lead(e) + " has an unhandled 'failure_info' variant: "@ + debug@
                    + ", please handle it"@,
            ),
            None => Err(event_lead(e) + " has no failure_info set"@),
        },
    }
}

/// `prefix` followed by the failure's reason, or the failure's error.
pub open spec fn failure_token(e: HistoryEvent, prefix: Seq<char>, failure: Option<Failure>) -> Result<Option<Seq<char>>, Seq<char>> {
    match failure_reason(e, failure) {
        Ok(info) => Ok(Some(prefix + info)),
        Err(m) => Err(m),
    }
}

/// `prefix` followed by a type name, or the message for a missing name.
pub open spec fn name_token(e: HistoryEvent, prefix: Seq<char>, name: Option<String>, kind: Seq<char>) -> Result<Option<Seq<char>>, Seq<char>> {
    match name {
        Some(n) => Ok(Some(prefix + n@)),
        None => Err(quoted_lead(e) + " is missing '"@ + kind + "'"@),
    }
}

// ---------------------------------------------------------------------------
// Markers
// ---------------------------------------------------------------------------

/// The first detail entry with the given key.
pub open spec fn find_detail(details: Seq<MarkerDetail>, key: Seq<char>) -> Option<MarkerDetail>
    decreases details.len(),
{
    if details.len() == 0 {
        None
    } else if details[0].key@ == key {
        Some(details[0])
    } else {
        find_detail(details.drop_first(), key)
    }
}

/// The data of the first payload of a detail entry, if there is one.
pub open spec fn first_payload(d: Option<MarkerDetail>) -> Option<Seq<u8>> {
    match d {
        Some(m) => if m.payloads@.len() > 0 {
            Some(m.payloads@[0]@)
        } else {
            None
        },
        None => None,
    }
}

/// The payload that holds a version marker's change id: under `changeId`
/// (Go SDK), or else under `change-id` (Java SDK).
pub open spec fn change_id_payload(details: Seq<MarkerDetail>) -> Option<Seq<u8>> {
    match find_detail(details, "changeId"@) {
        Some(m) => first_payload(Some(m)),
        None => first_payload(find_detail(details, "change-id"@)),
    }
}

/// A raw payload read as text: trimmed of white space, then of quotes;
/// nothing if that leaves nothing.
pub open spec fn raw_marker_text(raw: Seq<char>) -> Option<Seq<char>> {
    let t = trim_quotes(trim_white(raw));
    if t.len() == 0 {
        None
    } else {
        Some(t)
    }
}

/// A marker payload read as a string: as a JSON string where it is one,
/// otherwise as its raw text.
pub open spec fn marker_text(data: Seq<u8>) -> Option<Seq<char>> {
    match json_string(data) {
        Some(s) => Some(s),
        None => raw_marker_text(lossy_utf8(data)),
    }
}

/// The change id of a version marker.
pub open spec fn marker_change_id(details: Seq<MarkerDetail>) -> Option<Seq<char>> {
    match change_id_payload(details) {
        Some(p) => marker_text(p),
        None => None,
    }
}

/// The version number of a version marker.
pub open spec fn marker_version(details: Seq<MarkerDetail>) -> Option<i64> {
    match first_payload(find_detail(details, "version"@)) {
        Some(p) => json_i64(p),
        None => None,
    }
}

/// How `Debug` writes an `Option<String>`.
pub open spec fn opt_debug(id: Option<Seq<char>>) -> Seq<char> {
    match id {
        Some(s) => "Some("@ + str_debug(s) + ")"@,
        None => "None"@,
    }
}

/// The token of a version marker, given its change id and version.
pub open spec fn version_token(e: HistoryEvent, change_id: Option<Seq<char>>, version: Option<i64>) -> Result<Option<Seq<char>>, Seq<char>> {
    match version {
        Some(v) => match change_id {
            Some(id) => Ok(Some("V:"@ + str_debug(id) + ":"@ + int_text(v as int))),
            None => Ok(Some("V:?:"@ + int_text(v as int))),
        },
        None => Err(
            event_lead(e) + " has an unparseable 'Version' marker (changeId="@ + opt_debug(change_id)
                + ", version=None)"@,
        ),
    }
}

/// The token of a marker.
pub open spec fn marker_token(e: HistoryEvent, marker_name: Seq<char>, details: Seq<MarkerDetail>) -> Result<Option<Seq<char>>, Seq<char>> {
    if marker_name == "Version"@ {
        version_token(e, marker_change_id(details), marker_version(details))
    } else if marker_name == "SideEffect"@ {
        Ok(Some("SE"@))
    } else {
        Err(
            event_lead(e) + " has undefined markerName value: "@ + marker_name
                + ", please pay attention and handle it.."@,
        )
    }
}

// ---------------------------------------------------------------------------
// The token of an event
// ---------------------------------------------------------------------------

/// Event types that carry nothing of the workflow code's decisions.
pub open spec fn is_ignored(t: EventType) -> bool {
    match t {
        EventType::WorkflowTaskScheduled | EventType::WorkflowTaskStarted | EventType::WorkflowTaskCompleted | EventType::WorkflowExecutionUnpaused | EventType::WorkflowExecutionPaused | EventType::ActivityTaskStarted | EventType::WorkflowExecutionOptionsUpdated | EventType::WorkflowPropertiesModifiedExternally | EventType::WorkflowPropertiesModified | EventType::WorkflowExecutionUpdateAdmitted | EventType::ActivityPropertiesModifiedExternally | EventType::ChildWorkflowExecutionStarted | EventType::WorkflowExecutionTimeSkippingTransitioned | EventType::ExternalWorkflowExecutionSignaled | EventType::UpsertWorkflowSearchAttributes | EventType::WorkflowTaskFailed | EventType::ExternalWorkflowExecutionCancelRequested | EventType::ActivityTaskCancelRequested | EventType::WorkflowTaskTimedOut => true,
        _ => false,
    }
}

/// Nexus event types, which are not handled yet.
pub open spec fn is_nexus(t: EventType) -> bool {
    match t {
        EventType::NexusOperationScheduled | EventType::NexusOperationCompleted | EventType::NexusOperationCanceled | EventType::NexusOperationTimedOut | EventType::NexusOperationCancelRequested | EventType::NexusOperationStarted | EventType::NexusOperationCancelRequestCompleted | EventType::NexusOperationCancelRequestFailed | EventType::NexusOperationFailed => true,
        _ => false,
    }
}

/// The token of event types whose token does not depend on the attributes.
pub open spec fn fixed_token(t: EventType) -> Option<Seq<char>> {
    match t {
        EventType::ActivityTaskCompleted => Some("AC"@),
        EventType::ActivityTaskCanceled => Some("ACx"@),
        EventType::ActivityTaskTimedOut => Some("ATO"@),
        EventType::TimerFired => Some("TF"@),
        EventType::TimerCanceled => Some("TX"@),
        EventType::ChildWorkflowExecutionCompleted => Some("CC"@),
        EventType::ChildWorkflowExecutionTerminated => Some("CTx"@),
        EventType::ChildWorkflowExecutionTimedOut => Some("CTO"@),
        EventType::ChildWorkflowExecutionCanceled => Some("CCx"@),
        EventType::WorkflowExecutionCancelRequested => Some("CR"@),
        EventType::WorkflowExecutionCanceled => Some("DONE:canceled"@),
        EventType::WorkflowExecutionCompleted => Some("DONE:success"@),
        EventType::WorkflowExecutionTimedOut => Some("DONE:timedout"@),
        EventType::WorkflowExecutionTerminated => Some("DONE:terminated"@),
        EventType::WorkflowExecutionContinuedAsNew => Some("DONE:continue-as-new"@),
        EventType::RequestCancelExternalWorkflowExecutionInitiated => Some("RCE"@),
        EventType::RequestCancelExternalWorkflowExecutionFailed => Some("RCEF"@),
        EventType::SignalExternalWorkflowExecutionFailed => Some("SIGF"@),
        EventType::WorkflowExecutionUpdateCompleted => Some("UC"@),
        _ => None,
    }
}

/// The token of an event whose token reads its attributes, or the error.
pub open spec fn attribute_token(e: HistoryEvent) -> Result<Option<Seq<char>>, Seq<char>> {
    match e.event_type {
        EventType::WorkflowExecutionStarted => match e.attributes {
            Some(Attributes::WorkflowExecutionStartedEventAttributes { workflow_type }) => name_token(
                e,
                "WS:"@,
                workflow_type,
                "workflowExecutionStartedEventAttributes"@,
            ),
            _ => Err(missing_attributes(e, "WorkflowExecutionStartedEventAttributes"@)),
        },
        EventType::ActivityTaskScheduled => match e.attributes {
            Some(Attributes::ActivityTaskScheduledEventAttributes { activity_type }) => name_token(
                e,
                "A:"@,
                activity_type,
                "ActivityTaskScheduledEventAttributes"@,
            ),
            _ => Err(missing_attributes(e, "ActivityTaskScheduledEventAttributes"@)),
        },
        EventType::ActivityTaskFailed => match e.attributes {
            Some(Attributes::ActivityTaskFailedEventAttributes { failure }) => failure_token(
                e,
                "AF:"@,
                failure,
            ),
            _ => Err(missing_attributes(e, "ActivityTaskFailedEventAttributes"@)),
        },
        EventType::TimerStarted => match e.attributes {
            Some(Attributes::TimerStartedEventAttributes { start_to_fire_timeout }) => match start_to_fire_timeout {
                Some(s) => Ok(Some("T:"@ + int_text(bucket_of(s as int)))),
                None => Err(
                    event_lead(e)
                        + " has incorrect 'timerStartedEventAttributes.startToFireTimeout' attribute None"@,
                ),
            },
            _ => Err(missing_attributes(e, "TimerStartedEventAttributes"@)),
        },
        EventType::MarkerRecorded => match e.attributes {
            Some(Attributes::MarkerRecordedEventAttributes { marker_name, details }) => marker_token(
                e,
                marker_name@,
                details@,
            ),
            _ => Err(missing_attributes(e, "MarkerRecordedEventAttributes"@)),
        },
        EventType::StartChildWorkflowExecutionInitiated => match e.attributes {
            Some(
                Attributes::StartChildWorkflowExecutionInitiatedEventAttributes { workflow_type },
            ) => name_token(
                e,
                "C:"@,
                workflow_type,
                "StartChildWorkflowExecutionInitiatedEventAttributes"@,
            ),
            _ => Err(missing_attributes(e, "StartChildWorkflowExecutionInitiatedEventAttributes"@)),
        },
        EventType::ChildWorkflowExecutionFailed => match e.attributes {
            Some(Attributes::ChildWorkflowExecutionFailedEventAttributes { failure }) => failure_token(
                e,
                "CF:"@,
                failure,
            ),
            _ => Err(missing_attributes(e, "ChildWorkflowExecutionFailedEventAttributes"@)),
        },
        EventType::WorkflowExecutionSignaled => match e.attributes {
            Some(Attributes::WorkflowExecutionSignaledEventAttributes { signal_name }) => Ok(
                Some("S:"@ + signal_name@),
            ),
            _ => Err(missing_attributes(e, "WorkflowExecutionSignaledEventAttributes"@)),
        },
        EventType::WorkflowExecutionFailed => match e.attributes {
            Some(Attributes::WorkflowExecutionFailedEventAttributes { failure }) => failure_token(
                e,
                "DONE:failure:"@,
                failure,
            ),
            _ => Err(missing_attributes(e, "WorkflowExecutionFailedEventAttributes"@)),
        },
        EventType::SignalExternalWorkflowExecutionInitiated => match e.attributes {
            Some(
                Attributes::SignalExternalWorkflowExecutionInitiatedEventAttributes { signal_name },
            ) => Ok(Some("SIG:"@ + signal_name@)),
            _ => Err(
                missing_attributes(e, "SignalExternalWorkflowExecutionInitiatedEventAttributes"@),
            ),
        },
        EventType::StartChildWorkflowExecutionFailed => match e.attributes {
            Some(Attributes::StartChildWorkflowExecutionFailedEventAttributes { cause }) => Ok(
                Some("CSF:"@ + cause_name(cause)),
            ),
            _ => Err(missing_attributes(e, "StartChildWorkflowExecutionFailedEventAttributes"@)),
        },
        EventType::WorkflowExecutionUpdateAccepted => match e.attributes {
            Some(
                Attributes::WorkflowExecutionUpdateAcceptedEventAttributes {
                    update_name,
                    accepted_request,
                },
            ) => match update_name {
                Some(n) => Ok(Some("U:"@ + n@)),
                None => Err(
                    event_lead(e)
                        + " has incorrect 'workflowExecutionUpdateAcceptedEventAttributes.accepted_request' attribute "@
                        + accepted_request@,
                ),
            },
            _ => Err(missing_attributes(e, "WorkflowExecutionUpdateAcceptedEventAttributes"@)),
        },
        EventType::WorkflowExecutionUpdateRejected => Err(
            event_lead(e) + " does not expect to be in history"@,
        ),
        _ => Err("Undefined type while trying to make hash string: "@ + event_type_name(e.event_type)),
    }
}

/// The canonical token of an event: `None` for events that carry no
/// decision, a short text for the others, or an error for events the
/// tokenizer cannot stand for faithfully.
pub open spec fn event_token_of(e: HistoryEvent) -> Result<Option<Seq<char>>, Seq<char>> {
    if is_ignored(e.event_type) {
        Ok(None)
    } else if fixed_token(e.event_type) is Some {
        Ok(fixed_token(e.event_type))
    } else if is_nexus(e.event_type) {
        Err(event_lead(e) + " is not supported yet"@)
    } else {
        attribute_token(e)
    }
}

} // verus!

verus! {

// ---------------------------------------------------------------------------
// Executable tokenizer
// ---------------------------------------------------------------------------

fn lead(e: &HistoryEvent) -> (r: String)
    ensures
        r@ == event_lead(*e),
{
    let id = i64_text(e.event_id);
    cat3(event_type_debug(e.event_type), " event ", id.as_str())
}

fn quoted(e: &HistoryEvent) -> (r: String)
    ensures
        r@ == quoted_lead(*e),
{
    let id = i64_text(e.event_id);
    let mut s = cat3("'", event_type_debug(e.event_type), "' event ");
    s.append(id.as_str());
    s
}

fn error_after(e: &HistoryEvent, suffix: &str) -> (r: Result<Option<String>, String>)
    ensures
        token_view(r) == Err::<Option<Seq<char>>, Seq<char>>(event_lead(*e) + suffix@),
{
    let mut m = lead(e);
    m.append(suffix);
    Err(m)
}

fn missing(e: &HistoryEvent, kind: &str) -> (r: Result<Option<String>, String>)
    ensures
        token_view(r) == Err::<Option<Seq<char>>, Seq<char>>(missing_attributes(*e, kind@)),
{
    let mut m = lead(e);
    m.append(" is missing expected '");
    m.append(kind);
    m.append("'");
    Err(m)
}

fn token(prefix: &str, rest: &str) -> (r: Result<Option<String>, String>)
    ensures
        token_view(r) == Ok::<Option<Seq<char>>, Seq<char>>(Some(prefix@ + rest@)),
{
    Ok(Some(cat(prefix, rest)))
}

/// What a failure contributes to a token, or the error.
fn failure_text(e: &HistoryEvent, failure: &Option<Failure>) -> (r: Result<String, String>)
    ensures
        text_view(r) == failure_reason(*e, *failure),
{
    match failure {
        None => Err(cat(lead(e).as_str(), " is missing 'failure' attribute")),
        Some(f) => match &f.failure_info {
            Some(FailureInfo::ApplicationFailureInfo { failure_type }) => Ok(failure_type.clone()),
            Some(FailureInfo::TimeoutFailureInfo) => Ok(String::from_str("Timeout")),
            Some(FailureInfo::CanceledFailureInfo) => Ok(String::from_str("Canceled")),
            Some(FailureInfo::Other { debug }) => {
                let mut m = lead(e);
                m.append(" has an unhandled 'failure_info' variant: ");
                m.append(debug.as_str());
                m.append(", please handle it");
                Err(m)
            },
            None => Err(cat(lead(e).as_str(), " has no failure_info set")),
        },
    }
}

fn failure_token_of(e: &HistoryEvent, prefix: &str, failure: &Option<Failure>) -> (r: Result<
    Option<String>,
    String,
>)
    ensures
        token_view(r) == failure_token(*e, prefix@, *failure),
{
    match failure_text(e, failure) {
        Ok(info) => token(prefix, info.as_str()),
        Err(m) => Err(m),
    }
}

fn name_token_of(e: &HistoryEvent, prefix: &str, name: &Option<String>, kind: &str) -> (r: Result<
    Option<String>,
    String,
>)
    ensures
        token_view(r) == name_token(*e, prefix@, *name, kind@),
{
    match name {
        Some(n) => token(prefix, n.as_str()),
        None => {
            let mut m = quoted(e);
            m.append(" is missing '");
            m.append(kind);
            m.append("'");
            Err(m)
        },
    }
}

/// The index of the first detail entry with the given key.
fn find_detail_index(details: &Vec<MarkerDetail>, key: &String) -> (r: Option<usize>)
    ensures
        match r {
            Some(i) => i < details@.len() && find_detail(details@, key@) == Some(details@[i as int]),
            None => find_detail(details@, key@) is None,
        },
{
    let n = details.len();
    let mut i: usize = 0;
    assert(details@.skip(0) == details@);
    while i < n
        invariant
            n == details@.len(),
            i <= n,
            find_detail(details@, key@) == find_detail(details@.skip(i as int), key@),
        decreases n - i,
    {
        let ghost rest = details@.skip(i as int);
        assert(rest[0] == details@[i as int]);
        assert(rest.drop_first() == details@.skip(i + 1));
        if details[i].key.eq(key) {
            return Some(i);
        }
        i = i + 1;
    }
    assert(details@.skip(n as int).len() == 0);
    None
}

/// The data of the first payload under the given key, if there is one.
fn payload_under<'a>(details: &'a Vec<MarkerDetail>, key: &String) -> (r: Option<&'a Vec<u8>>)
    ensures
        match r {
            Some(p) => first_payload(find_detail(details@, key@)) == Some(p@),
            None => first_payload(find_detail(details@, key@)) is None,
        },
{
    match find_detail_index(details, key) {
        Some(i) => {
            if details[i].payloads.len() > 0 {
                Some(&details[i].payloads[0])
            } else {
                None
            }
        },
        None => None,
    }
}

/// A raw marker payload read as text: trimmed of white space, then of
/// quotes; nothing if that leaves nothing.
pub fn marker_text_from_raw(raw: &str) -> (r: Option<String>)
    ensures
        opt_string_view(r) == raw_marker_text(raw@),
{
    let a = trim_whitespace(raw);
    let b = trim_double_quotes(a.as_str());
    if b.as_str().is_empty() {
        None
    } else {
        Some(b)
    }
}

/// Reads a marker-detail payload as a string: as JSON where the data is a
/// JSON string, otherwise as the raw bytes decoded as UTF-8, trimmed of
/// white space and quotes.
pub fn marker_payload_string(payload: &[u8]) -> (r: Option<String>)
    ensures
        opt_string_view(r) == marker_text(payload@),
{
    match parse_json_string(payload) {
        Some(s) => Some(s),
        None => {
            let raw = utf8_lossy(payload);
            marker_text_from_raw(raw.as_str())
        },
    }
}

fn change_id_of(details: &Vec<MarkerDetail>) -> (r: Option<String>)
    ensures
        opt_string_view(r) == marker_change_id(details@),
{
    let primary = String::from_str("changeId");
    let payload = match find_detail_index(details, &primary) {
        Some(i) => {
            if details[i].payloads.len() > 0 {
                Some(&details[i].payloads[0])
            } else {
                None
            }
        },
        None => {
            let secondary = String::from_str("change-id");
            payload_under(details, &secondary)
        },
    };
    match payload {
        Some(p) => marker_payload_string(p.as_slice()),
        None => None,
    }
}

fn version_of(details: &Vec<MarkerDetail>) -> (r: Option<i64>)
    ensures
        r == marker_version(details@),
{
    let key = String::from_str("version");
    match payload_under(details, &key) {
        Some(p) => parse_json_i64(p.as_slice()),
        None => None,
    }
}

/// The token of a version marker, given the change id and version read
/// from its details.
pub fn version_marker_token(event: &HistoryEvent, change_id: Option<String>, version: Option<i64>) -> (r: Result<
    Option<String>,
    String,
>)
    ensures
        token_view(r) == version_token(*event, opt_string_view(change_id), version),
{
    match version {
        Some(v) => {
            let number = i64_text(v);
            match change_id {
                Some(id) => {
                    let quoted_id = debug_str(id.as_str());
                    let mut s = cat3("V:", quoted_id.as_str(), ":");
                    s.append(number.as_str());
                    Ok(Some(s))
                },
                None => token("V:?:", number.as_str()),
            }
        },
        None => {
            let id_text = match change_id {
                Some(id) => {
                    let quoted_id = debug_str(id.as_str());
                    cat3("Some(", quoted_id.as_str(), ")")
                },
                None => String::from_str("None"),
            };
            let mut m = lead(event);
            m.append(" has an unparseable 'Version' marker (changeId=");
            m.append(id_text.as_str());
            m.append(", version=None)");
            Err(m)
        },
    }
}

fn marker_event_token(e: &HistoryEvent, marker_name: &String, details: &Vec<MarkerDetail>) -> (r: Result<
    Option<String>,
    String,
>)
    ensures
        token_view(r) == marker_token(*e, marker_name@, details@),
{
    if marker_name.eq(&String::from_str("Version")) {
        let change_id = change_id_of(details);
        let version = version_of(details);
        version_marker_token(e, change_id, version)
    } else if marker_name.eq(&String::from_str("SideEffect")) {
        Ok(Some(String::from_str("SE")))
    } else {
        let mut m = lead(e);
        m.append(" has undefined markerName value: ");
        m.append(marker_name.as_str());
        m.append(", please pay attention and handle it..");
        Err(m)
    }
}

fn ignored_event(t: EventType) -> (r: bool)
    ensures
        r == is_ignored(t),
{
    match t {
        EventType::WorkflowTaskScheduled | EventType::WorkflowTaskStarted | EventType::WorkflowTaskCompleted | EventType::WorkflowExecutionUnpaused | EventType::WorkflowExecutionPaused | EventType::ActivityTaskStarted | EventType::WorkflowExecutionOptionsUpdated | EventType::WorkflowPropertiesModifiedExternally | EventType::WorkflowPropertiesModified | EventType::WorkflowExecutionUpdateAdmitted | EventType::ActivityPropertiesModifiedExternally | EventType::ChildWorkflowExecutionStarted | EventType::WorkflowExecutionTimeSkippingTransitioned | EventType::ExternalWorkflowExecutionSignaled | EventType::UpsertWorkflowSearchAttributes | EventType::WorkflowTaskFailed | EventType::ExternalWorkflowExecutionCancelRequested | EventType::ActivityTaskCancelRequested | EventType::WorkflowTaskTimedOut => true,
        _ => false,
    }
}

fn nexus_event(t: EventType) -> (r: bool)
    ensures
        r == is_nexus(t),
{
    match t {
        EventType::NexusOperationScheduled | EventType::NexusOperationCompleted | EventType::NexusOperationCanceled | EventType::NexusOperationTimedOut | EventType::NexusOperationCancelRequested | EventType::NexusOperationStarted | EventType::NexusOperationCancelRequestCompleted | EventType::NexusOperationCancelRequestFailed | EventType::NexusOperationFailed => true,
        _ => false,
    }
}

fn fixed_token_text(t: EventType) -> (r: Option<&'static str>)
    ensures
        match r {
            Some(s) => fixed_token(t) == Some(s@),
            None => fixed_token(t) is None,
        },
{
    match t {
        EventType::ActivityTaskCompleted => Some("AC"),
        EventType::ActivityTaskCanceled => Some("ACx"),
        EventType::ActivityTaskTimedOut => Some("ATO"),
        EventType::TimerFired => Some("TF"),
        EventType::TimerCanceled => Some("TX"),
        EventType::ChildWorkflowExecutionCompleted => Some("CC"),
        EventType::ChildWorkflowExecutionTerminated => Some("CTx"),
        EventType::ChildWorkflowExecutionTimedOut => Some("CTO"),
        EventType::ChildWorkflowExecutionCanceled => Some("CCx"),
        EventType::WorkflowExecutionCancelRequested => Some("CR"),
        EventType::WorkflowExecutionCanceled => Some("DONE:canceled"),
        EventType::WorkflowExecutionCompleted => Some("DONE:success"),
        EventType::WorkflowExecutionTimedOut => Some("DONE:timedout"),
        EventType::WorkflowExecutionTerminated => Some("DONE:terminated"),
        EventType::WorkflowExecutionContinuedAsNew => Some("DONE:continue-as-new"),
        EventType::RequestCancelExternalWorkflowExecutionInitiated => Some("RCE"),
        EventType::RequestCancelExternalWorkflowExecutionFailed => Some("RCEF"),
        EventType::SignalExternalWorkflowExecutionFailed => Some("SIGF"),
        EventType::WorkflowExecutionUpdateCompleted => Some("UC"),
        _ => None,
    }
}

fn attribute_event_token(e: &HistoryEvent) -> (r: Result<Option<String>, String>)
    ensures
        token_view(r) == attribute_token(*e),
{
    match e.event_type {
        EventType::WorkflowExecutionStarted => match &e.attributes {
            Some(Attributes::WorkflowExecutionStartedEventAttributes { workflow_type }) => name_token_of(
                e,
                "WS:",
                workflow_type,
                "workflowExecutionStartedEventAttributes",
            ),
            _ => missing(e, "WorkflowExecutionStartedEventAttributes"),
        },
        EventType::ActivityTaskScheduled => match &e.attributes {
            Some(Attributes::ActivityTaskScheduledEventAttributes { activity_type }) => name_token_of(
                e,
                "A:",
                activity_type,
                "ActivityTaskScheduledEventAttributes",
            ),
            _ => missing(e, "ActivityTaskScheduledEventAttributes"),
        },
        EventType::ActivityTaskFailed => match &e.attributes {
            Some(Attributes::ActivityTaskFailedEventAttributes { failure }) => failure_token_of(
                e,
                "AF:",
                failure,
            ),
            _ => missing(e, "ActivityTaskFailedEventAttributes"),
        },
        EventType::TimerStarted => match &e.attributes {
            Some(Attributes::TimerStartedEventAttributes { start_to_fire_timeout }) => match start_to_fire_timeout {
                Some(s) => {
                    let b = i64_text(bucket(*s));
                    token("T:", b.as_str())
                },
                None => error_after(
                    e,
                    " has incorrect 'timerStartedEventAttributes.startToFireTimeout' attribute None",
                ),
            },
            _ => missing(e, "TimerStartedEventAttributes"),
        },
        EventType::MarkerRecorded => match &e.attributes {
            Some(Attributes::MarkerRecordedEventAttributes { marker_name, details }) => marker_event_token(
                e,
                marker_name,
                details,
            ),
            _ => missing(e, "MarkerRecordedEventAttributes"),
        },
        EventType::StartChildWorkflowExecutionInitiated => match &e.attributes {
            Some(
                Attributes::StartChildWorkflowExecutionInitiatedEventAttributes { workflow_type },
            ) => name_token_of(
                e,
                "C:",
                workflow_type,
                "StartChildWorkflowExecutionInitiatedEventAttributes",
            ),
            _ => missing(e, "StartChildWorkflowExecutionInitiatedEventAttributes"),
        },
        EventType::ChildWorkflowExecutionFailed => match &e.attributes {
            Some(Attributes::ChildWorkflowExecutionFailedEventAttributes { failure }) => failure_token_of(
                e,
                "CF:",
                failure,
            ),
            _ => missing(e, "ChildWorkflowExecutionFailedEventAttributes"),
        },
        EventType::WorkflowExecutionSignaled => match &e.attributes {
            Some(Attributes::WorkflowExecutionSignaledEventAttributes { signal_name }) => token(
                "S:",
                signal_name.as_str(),
            ),
            _ => missing(e, "WorkflowExecutionSignaledEventAttributes"),
        },
        EventType::WorkflowExecutionFailed => match &e.attributes {
            Some(Attributes::WorkflowExecutionFailedEventAttributes { failure }) => failure_token_of(
                e,
                "DONE:failure:",
                failure,
            ),
            _ => missing(e, "WorkflowExecutionFailedEventAttributes"),
        },
        EventType::SignalExternalWorkflowExecutionInitiated => match &e.attributes {
            Some(
                Attributes::SignalExternalWorkflowExecutionInitiatedEventAttributes { signal_name },
            ) => token("SIG:", signal_name.as_str()),
            _ => missing(e, "SignalExternalWorkflowExecutionInitiatedEventAttributes"),
        },
        EventType::StartChildWorkflowExecutionFailed => match &e.attributes {
            Some(Attributes::StartChildWorkflowExecutionFailedEventAttributes { cause }) => token(
                "CSF:",
                cause_debug(*cause),
            ),
            _ => missing(e, "StartChildWorkflowExecutionFailedEventAttributes"),
        },
        EventType::WorkflowExecutionUpdateAccepted => match &e.attributes {
            Some(
                Attributes::WorkflowExecutionUpdateAcceptedEventAttributes {
                    update_name,
                    accepted_request,
                },
            ) => match update_name {
                Some(n) => token("U:", n.as_str()),
                None => {
                    let mut m = lead(e);
                    m.append(
                        " has incorrect 'workflowExecutionUpdateAcceptedEventAttributes.accepted_request' attribute ",
                    );
                    m.append(accepted_request.as_str());
                    Err(m)
                },
            },
            _ => missing(e, "WorkflowExecutionUpdateAcceptedEventAttributes"),
        },
        EventType::WorkflowExecutionUpdateRejected => error_after(
            e,
            " does not expect to be in history",
        ),
        _ => Err(
            cat(
                "Undefined type while trying to make hash string: ",
                event_type_debug(e.event_type),
            ),
        ),
    }
}

/// The canonical token of one history event: `Ok(None)` for events that
/// carry no decision of the workflow code, `Ok(Some(token))` for the others,
/// and `Err(message)` where a faithful token cannot be made.
pub fn event_token(event: &HistoryEvent) -> (r: Result<Option<String>, String>)
    ensures
        token_view(r) == event_token_of(*event),
{
    let t = event.event_type;
    if ignored_event(t) {
        return Ok(None);
    }
    match fixed_token_text(t) {
        Some(tok) => {
            return Ok(Some(String::from_str(tok)));
        },
        None => {},
    }
    if nexus_event(t) {
        return error_after(event, " is not supported yet");
    }
    attribute_event_token(event)
}

} // verus!

verus! {

// ---------------------------------------------------------------------------
// Histories and their semantic hash
// ---------------------------------------------------------------------------

/// The tokens of a history in order, leaving out events without a token;
/// the first error, if any event has one.
pub open spec fn history_tokens(events: Seq<HistoryEvent>) -> Result<Seq<Seq<char>>, Seq<char>>
    decreases events.len(),
{
    if events.len() == 0 {
        Ok(Seq::empty())
    } else {
        match history_tokens(events.drop_last()) {
            Err(m) => Err(m),
            Ok(ts) => match event_token_of(events.last()) {
                Err(m) => Err(m),
                Ok(Some(t)) => Ok(ts.push(t)),
                Ok(None) => Ok(ts),
            },
        }
    }
}

/// The tokens joined by newlines.
pub open spec fn join_lines(ts: Seq<Seq<char>>) -> Seq<char>
    decreases ts.len(),
{
    if ts.len() == 0 {
        Seq::empty()
    } else if ts.len() == 1 {
        ts[0]
    } else {
        join_lines(ts.drop_last()) + "\n"@ + ts.last()
    }
}

/// SHA-256 of the UTF-8 bytes of `text`, in lower-case hexadecimal.
pub open spec fn semantic_hash_of(text: Seq<char>) -> Seq<char> {
    hex_lower(sha256(encode_utf8(text)))
}

/// The semantic hash of a history, or the error that keeps it from having one.
pub open spec fn history_hash(events: Seq<HistoryEvent>) -> Result<Seq<char>, Seq<char>> {
    match history_tokens(events) {
        Ok(ts) => Ok(semantic_hash_of(join_lines(ts))),
        Err(m) => Err(m),
    }
}

/// Whether `c` is a lower-case hexadecimal digit.
pub open spec fn is_hex_digit(c: char) -> bool {
    ('0' <= c <= '9') || ('a' <= c <= 'f')
}

pub proof fn lemma_hex_lower_shape(bytes: Seq<u8>)
    ensures
        hex_lower(bytes).len() == 2 * bytes.len(),
        forall|i: int| 0 <= i < hex_lower(bytes).len() ==> is_hex_digit(#[trigger] hex_lower(bytes)[i]),
    decreases bytes.len(),
{
    if bytes.len() > 0 {
        lemma_hex_lower_shape(bytes.drop_first());
        let head = seq![crate::text::hex_alphabet()[(bytes[0] / 16) as int], crate::text::hex_alphabet()[(bytes[0] % 16) as int]];
        assert forall|i: int| 0 <= i < hex_lower(bytes).len() implies is_hex_digit(#[trigger] hex_lower(bytes)[i]) by {
            if i >= 2 {
                assert(hex_lower(bytes)[i] == hex_lower(bytes.drop_first())[i - 2]);
            } else {
                assert(hex_lower(bytes)[i] == head[i]);
            }
        }
    }
}

/// The semantic hash of `tokens`: SHA-256 of its UTF-8 bytes, as 64
/// lower-case hexadecimal digits.
pub fn semantic_hash(tokens: &str) -> (r: String)
    ensures
        r@ == semantic_hash_of(tokens@),
        r@.len() == 64,
        forall|i: int| 0 <= i < r@.len() ==> is_hex_digit(#[trigger] r@[i]),
{
    let bytes = tokens.as_bytes();
    let digest = sha256_digest(bytes);
    proof {
        lemma_hex_lower_shape(digest@);
    }
    hex_encode(digest.as_slice())
}

/// Once a prefix of a history has an error, every longer prefix has the same one.
pub proof fn lemma_error_persists(events: Seq<HistoryEvent>, j: int, k: int)
    requires
        0 <= j <= k <= events.len(),
        history_tokens(events.take(j)) is Err,
    ensures
        history_tokens(events.take(k)) == history_tokens(events.take(j)),
    decreases k - j,
{
    if k > j {
        lemma_error_persists(events, j, k - 1);
        assert(events.take(k).drop_last() == events.take(k - 1));
    }
}

/// The semantic hash of a workflow history: its tokens joined by newlines,
/// hashed. A history with an event that has no faithful token has no hash:
/// the first such event's message is returned instead.
pub fn workflow_semantic_hash(events: &[HistoryEvent]) -> (r: Result<String, String>)
    ensures
        text_view(r) == history_hash(events@),
{
    let n = events.len();
    let mut joined = String::new();
    let ghost mut ts: Seq<Seq<char>> = Seq::empty();
    let mut count: usize = 0;
    let mut i: usize = 0;
    assert(events@.take(0) == Seq::<HistoryEvent>::empty());
    while i < n
        invariant
            n == events@.len(),
            i <= n,
            count == ts.len(),
            count <= i,
            history_tokens(events@.take(i as int)) == Ok::<Seq<Seq<char>>, Seq<char>>(ts),
            joined@ == join_lines(ts),
        decreases n - i,
    {
        assert(events@.take(i + 1).drop_last() == events@.take(i as int));
        assert(events@.take(i + 1).last() == events@[i as int]);
        match event_token(&events[i]) {
            Err(m) => {
                proof {
                    lemma_error_persists(events@, i + 1, n as int);
                    assert(events@.take(n as int) == events@);
                }
                return Err(m);
            },
            Ok(None) => {},
            Ok(Some(t)) => {
                if count > 0 {
                    joined.append("\n");
                }
                joined.append(t.as_str());
                proof {
                    let old_ts = ts;
                    ts = ts.push(t@);
                    assert(ts.drop_last() == old_ts);
                }
                count = count + 1;
            },
        }
        i = i + 1;
    }
    assert(events@.take(n as int) == events@);
    Ok(semantic_hash(joined.as_str()))
}

} // verus!

verus! {

// ---------------------------------------------------------------------------
// Laws
// ---------------------------------------------------------------------------

/// A timeout is never rounded down: every timeout from zero to ninety days
/// lies at or below its bucket.
pub proof fn law_bucket_covers_timeout(seconds: int)
    requires
        0 <= seconds <= 7776000,
    ensures
        seconds <= bucket_of(seconds),
{
}

/// Rounding a bucket again leaves it unchanged.
pub proof fn law_bucket_idempotent(seconds: int)
    ensures
        bucket_of(bucket_of(seconds)) == bucket_of(seconds),
{
}

/// Longer non-negative timeouts never land in a smaller bucket.
pub proof fn law_bucket_monotone(a: int, b: int)
    requires
        0 <= a <= b,
    ensures
        bucket_of(a) <= bucket_of(b),
{
}

/// Two timers whose timeouts fall into the same bucket get the same token,
/// whatever their event ids.
pub proof fn law_timers_in_one_bucket_share_a_token(e1: HistoryEvent, e2: HistoryEvent, s1: i64, s2: i64)
    requires
        e1.event_type == EventType::TimerStarted,
        e2.event_type == EventType::TimerStarted,
        e1.attributes == Some(Attributes::TimerStartedEventAttributes { start_to_fire_timeout: Some(s1) }),
        e2.attributes == Some(Attributes::TimerStartedEventAttributes { start_to_fire_timeout: Some(s2) }),
        bucket_of(s1 as int) == bucket_of(s2 as int),
    ensures
        event_token_of(e1) == event_token_of(e2),
        event_token_of(e1) is Ok,
{
}

/// A token never depends on the event id: an event's token is the same for
/// every id it might carry in another run.
pub proof fn law_token_ignores_event_id(e1: HistoryEvent, e2: HistoryEvent)
    requires
        e1.event_type == e2.event_type,
        e1.attributes == e2.attributes,
        event_token_of(e1) is Ok,
    ensures
        event_token_of(e2) == event_token_of(e1),
{
    match e1.event_type {
        EventType::MarkerRecorded => {
            match e1.attributes {
                Some(Attributes::MarkerRecordedEventAttributes { marker_name, details }) => {
                    assert(marker_token(e1, marker_name@, details@) is Ok);
                },
                _ => {},
            }
        },
        _ => {},
    }
}

/// Two histories that agree event by event on types and attributes, and
/// differ only in event ids, have the same tokens.
pub proof fn law_history_ignores_event_ids(a: Seq<HistoryEvent>, b: Seq<HistoryEvent>)
    requires
        a.len() == b.len(),
        forall|i: int|
            0 <= i < a.len() ==> (#[trigger] a[i]).event_type == b[i].event_type && a[i].attributes
                == b[i].attributes,
        history_tokens(a) is Ok,
    ensures
        history_tokens(b) == history_tokens(a),
    decreases a.len(),
{
    if a.len() > 0 {
        assert forall|i: int| 0 <= i < a.drop_last().len() implies (#[trigger] a.drop_last()[i]).event_type
            == b.drop_last()[i].event_type && a.drop_last()[i].attributes
            == b.drop_last()[i].attributes by {
            assert(a.drop_last()[i] == a[i]);
            assert(b.drop_last()[i] == b[i]);
        }
        law_history_ignores_event_ids(a.drop_last(), b.drop_last());
        assert(a.last() == a[a.len() - 1]);
        law_token_ignores_event_id(a.last(), b.last());
    }
}

/// Events that carry no decision of the workflow code are invisible: adding
/// one anywhere in a history leaves its tokens, and so its hash, unchanged.
pub proof fn law_ignored_event_is_invisible(before: Seq<HistoryEvent>, e: HistoryEvent, after: Seq<HistoryEvent>)
    requires
        is_ignored(e.event_type),
    ensures
        history_tokens(before + seq![e] + after) == history_tokens(before + after),
        history_hash(before + seq![e] + after) == history_hash(before + after),
    decreases after.len(),
{
    if after.len() == 0 {
        assert(before + seq![e] + after == before.push(e));
        assert(before.push(e).drop_last() == before);
        assert(before + after == before);
    } else {
        law_ignored_event_is_invisible(before, e, after.drop_last());
        assert((before + seq![e] + after).drop_last() == before + seq![e] + after.drop_last());
        assert((before + after).drop_last() == before + after.drop_last());
        assert((before + seq![e] + after).last() == after.last());
        assert((before + after).last() == after.last());
    }
}

/// A history with an event that has no faithful token has no hash.
pub proof fn law_error_drops_history(events: Seq<HistoryEvent>, i: int)
    requires
        0 <= i < events.len(),
        event_token_of(events[i]) is Err,
    ensures
        history_hash(events) is Err,
{
    assert(events.take(i + 1).drop_last() == events.take(i));
    assert(events.take(i + 1).last() == events[i]);
    if history_tokens(events.take(i)) is Err {
        lemma_error_persists(events, i, events.len() as int);
    } else {
        lemma_error_persists(events, i + 1, events.len() as int);
    }
    assert(events.take(events.len() as int) == events);
}

/// Histories with the same tokens have the same semantic hash.
pub proof fn law_same_tokens_same_hash(a: Seq<HistoryEvent>, b: Seq<HistoryEvent>)
    requires
        history_tokens(a) is Ok,
        history_tokens(a) == history_tokens(b),
    ensures
        history_hash(a) == history_hash(b),
        history_hash(a) is Ok,
{
}

} // verus!

verus! {

/// A history has a semantic hash exactly when every one of its events has a
/// token (or is one of the events without one).
pub proof fn law_hashable_iff_every_event_tokenizes(events: Seq<HistoryEvent>)
    ensures
        history_hash(events) is Ok <==> forall|i: int|
            0 <= i < events.len() ==> #[trigger] event_token_of(events[i]) is Ok,
    decreases events.len(),
{
    if events.len() > 0 {
        let prefix = events.drop_last();
        law_hashable_iff_every_event_tokenizes(prefix);
        if history_hash(events) is Ok {
            assert forall|i: int| 0 <= i < events.len() implies #[trigger] event_token_of(events[i]) is Ok by {
                if i < events.len() - 1 {
                    assert(prefix[i] == events[i]);
                    assert(event_token_of(prefix[i]) is Ok);
                }
            }
        }
        if forall|i: int| 0 <= i < events.len() ==> #[trigger] event_token_of(events[i]) is Ok {
            assert forall|i: int| 0 <= i < prefix.len() implies #[trigger] event_token_of(prefix[i]) is Ok by {
                assert(prefix[i] == events[i]);
                assert(event_token_of(events[i]) is Ok);
            }
            assert(event_token_of(events[events.len() - 1]) is Ok);
        }
    }
}

} // verus!

verus! {

/// Appending an event appends its token, whatever the tokens before it:
/// a token is kept even where it repeats the previous one; an event
/// without a token adds nothing; an event with an error makes the history's
/// result that error.
pub proof fn law_history_tokens_extend(events: Seq<HistoryEvent>, e: HistoryEvent)
    ensures
        history_tokens(events) matches Ok(ts) ==> match event_token_of(e) {
            Ok(Some(t)) => history_tokens(events.push(e)) == Ok::<Seq<Seq<char>>, Seq<char>>(
                ts.push(t),
            ),
            Ok(None) => history_tokens(events.push(e)) == Ok::<Seq<Seq<char>>, Seq<char>>(ts),
            Err(m) => history_tokens(events.push(e)) == Err::<Seq<Seq<char>>, Seq<char>>(m),
        },
        history_tokens(events) matches Err(m) ==> history_tokens(events.push(e)) == Err::<
            Seq<Seq<char>>,
            Seq<char>,
        >(m),
{
    assert(events.push(e).drop_last() == events);
}

/// The tokens of two histories one after the other are the tokens of the
/// first followed by the tokens of the second.
pub proof fn law_history_tokens_concatenate(a: Seq<HistoryEvent>, b: Seq<HistoryEvent>)
    requires
        history_tokens(a) is Ok,
        history_tokens(b) is Ok,
    ensures
        history_tokens(a + b) == Ok::<Seq<Seq<char>>, Seq<char>>(
            history_tokens(a)->Ok_0 + history_tokens(b)->Ok_0,
        ),
    decreases b.len(),
{
    if b.len() == 0 {
        assert(a + b == a);
        assert(history_tokens(a)->Ok_0 + history_tokens(b)->Ok_0 == history_tokens(a)->Ok_0);
    } else {
        assert(b.drop_last().push(b.last()) == b);
        law_history_tokens_extend(b.drop_last(), b.last());
        law_history_tokens_concatenate(a, b.drop_last());
        assert((a + b).drop_last() == a + b.drop_last());
        assert((a + b).last() == b.last());
        law_history_tokens_extend(a + b.drop_last(), b.last());
        assert(a + b.drop_last().push(b.last()) == a + b);
        let ta = history_tokens(a)->Ok_0;
        let tb0 = history_tokens(b.drop_last())->Ok_0;
        match event_token_of(b.last()) {
            Ok(Some(t)) => {
                assert(ta + tb0.push(t) == (ta + tb0).push(t));
            },
            _ => {},
        }
    }
}

/// The number of events of a history that have a token.
pub open spec fn tokened_events(events: Seq<HistoryEvent>) -> nat
    decreases events.len(),
{
    if events.len() == 0 {
        0
    } else {
        tokened_events(events.drop_last()) + if event_token_of(events.last()) matches Ok(Some(_)) {
            1nat
        } else {
            0nat
        }
    }
}

/// Every token is kept: a history has exactly as many tokens as it has
/// events with a token, and each token is that of its event.
pub proof fn law_every_token_kept(events: Seq<HistoryEvent>)
    requires
        history_tokens(events) is Ok,
    ensures
        history_tokens(events)->Ok_0.len() == tokened_events(events),
    decreases events.len(),
{
    if events.len() > 0 {
        law_every_token_kept(events.drop_last());
    }
}

/// Joining one more token puts a newline between it and what came before.
pub proof fn law_join_lines_push(ts: Seq<Seq<char>>, t: Seq<char>)
    ensures
        ts.len() == 0 ==> join_lines(ts.push(t)) == t,
        ts.len() > 0 ==> join_lines(ts.push(t)) == join_lines(ts) + "\n"@ + t,
{
    assert(ts.push(t).drop_last() == ts);
    if ts.len() == 0 {
        assert(ts.push(t)[0] == t);
    }
}

/// Two failed child starts get the same token exactly when their causes agree.
pub proof fn law_child_start_failure_token_tells_cause(e1: HistoryEvent, e2: HistoryEvent, c1: StartChildWorkflowExecutionFailedCause, c2: StartChildWorkflowExecutionFailedCause)
    requires
        e1.event_type == EventType::StartChildWorkflowExecutionFailed,
        e2.event_type == EventType::StartChildWorkflowExecutionFailed,
        e1.attributes == Some(Attributes::StartChildWorkflowExecutionFailedEventAttributes { cause: c1 }),
        e2.attributes == Some(Attributes::StartChildWorkflowExecutionFailedEventAttributes { cause: c2 }),
    ensures
        event_token_of(e1) is Ok,
        (event_token_of(e1) == event_token_of(e2)) <==> (c1 == c2),
{
    crate::history::law_cause_names_distinct(c1, c2);
    if c1 != c2 {
        let p = "CSF:"@;
        if p + cause_name(c1) == p + cause_name(c2) {
            assert((p + cause_name(c1)).skip(p.len() as int) =~= cause_name(c1));
            assert((p + cause_name(c2)).skip(p.len() as int) =~= cause_name(c2));
        }
    }
}

/// The timer buckets.
pub open spec fn is_bucket(b: int) -> bool {
    b == 60 || b == 600 || b == 3600 || b == 86400 || b == 604800 || b == 2592000 || b == 7776000
}

/// A timeout from zero to ninety days goes to the smallest bucket that holds
/// it; anything else goes to the largest.
pub proof fn law_bucket_is_smallest_holding_bucket(seconds: int, b: int)
    ensures
        is_bucket(bucket_of(seconds)),
        0 <= seconds <= 7776000 && is_bucket(b) && seconds <= b ==> bucket_of(seconds) <= b,
        !(0 <= seconds <= 7776000) ==> bucket_of(seconds) == 7776000,
{
}

} // verus!
