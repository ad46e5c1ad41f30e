//! The two operations of the wire protocol, split into what can be proved:
//! building the exact JSON request bodies, and interpreting response bodies.
//! A transport only has to POST the body this module builds and hand the
//! response text back to the decoders, whose contracts are stated over named
//! projections of that text (see `ext`).

use vstd::prelude::*;

use crate::ext::{
    json_int_field, json_solution_present, json_str_field, read_int_field, read_solution_present,
    read_str_field,
};
use crate::jsonfmt::{append_json_string, json_string_lit};
use crate::{Client, ClientError, ResponseBase, Task, TaskConfig, TaskSolution, TaskResult, TaskStatus};

verus! {

/// A response that could not be decoded into the expected shape.
pub open spec fn is_parse_failure(e: ClientError) -> bool {
    e matches ClientError::ParseError(m) && m@ == "Failed to parse response"@
}

/// The protocol violation of a ready task without a solution.
pub open spec fn is_missing_solution(e: ClientError) -> bool {
    e matches ClientError::ParseError(m) && m@ == "No solution provided"@
}

fn parse_failure() -> (e: ClientError)
    ensures
        is_parse_failure(e),
{
    ClientError::ParseError("Failed to parse response".to_owned())
}

fn missing_solution() -> (e: ClientError)
    ensures
        is_missing_solution(e),
{
    ClientError::ParseError("No solution provided".to_owned())
}

/// The body POSTed to `{baseUrl}/createTask`.
pub open spec fn create_task_body(key: Seq<char>, task_json: Seq<char>) -> Seq<char> {
    "{\"clientKey\":"@ + json_string_lit(key) + ",\"task\":"@ + task_json + "}"@
}

/// The body POSTed to `{baseUrl}/getTaskResult`.
pub open spec fn task_result_body(key: Seq<char>, task_id: Seq<char>) -> Seq<char> {
    "{\"clientKey\":"@ + json_string_lit(key) + ",\"taskId\":"@ + json_string_lit(task_id) + "}"@
}

impl Client {
    /// The exact JSON body that submits `config`: the credential beside the
    /// serialized task description.
    pub fn create_task_request<C: TaskConfig>(&self, config: &C) -> (r: String)
        ensures
            r@ == create_task_body(self.client_key@, config.config_json()),
    {
        let mut out = String::new();
        out.append("{\"clientKey\":");
        append_json_string(&mut out, self.client_key.as_str());
        out.append(",\"task\":");
        let cfg = config.to_json();
        out.append(cfg.as_str());
        out.append("}");
        proof {
            assert(out@ =~= create_task_body(self.client_key@, config.config_json()));
        }
        out
    }

    /// The exact JSON body that polls `task`: the credential beside the task
    /// id the service assigned.
    pub fn get_task_result_request<T: Task>(&self, task: &T) -> (r: String)
        ensures
            r@ == task_result_body(self.client_key@, task.id()),
    {
        let mut out = String::new();
        out.append("{\"clientKey\":");
        append_json_string(&mut out, self.client_key.as_str());
        out.append(",\"taskId\":");
        append_json_string(&mut out, task.task_id());
        out.append("}");
        proof {
            assert(out@ =~= task_result_body(self.client_key@, task.id()));
        }
        out
    }
}

/// Character-for-character equality of two strings.
fn str_eq(a: &str, b: &str) -> (r: bool)
    ensures
        r <==> a@ == b@,
{
    let na = a.unicode_len();
    let nb = b.unicode_len();
    if na != nb {
        return false;
    }
    let mut i: usize = 0;
    while i < na
        invariant
            i <= na,
            na == a@.len(),
            na == nb,
            nb == b@.len(),
            forall|j: int| 0 <= j < i ==> a@[j] == b@[j],
        decreases na - i,
    {
        if a.get_char(i) != b.get_char(i) {
            return false;
        }
        i = i + 1;
    }
    proof {
        assert(a@ =~= b@);
    }
    true
}

/// The status a `status` field of the given text denotes, if any.
pub open spec fn spec_status_of(s: Seq<char>) -> Option<TaskStatus> {
    if s == "Processing"@ {
        Some(TaskStatus::Processing)
    } else if s == "Ready"@ {
        Some(TaskStatus::Ready)
    } else {
        None
    }
}

/// Decodes the text of a `status` field.
pub fn status_of(s: &str) -> (r: Option<TaskStatus>)
    ensures
        r == spec_status_of(s@),
{
    if str_eq(s, "Processing") {
        Some(TaskStatus::Processing)
    } else if str_eq(s, "Ready") {
        Some(TaskStatus::Ready)
    } else {
        None
    }
}

/// An optional string, viewed as an optional character sequence.
pub open spec fn opt_str_view(o: Option<String>) -> Option<Seq<char>> {
    match o {
        Some(s) => Some(s@),
        None => None,
    }
}

/// The envelope of `body` can be read: `errorId` is present and fits the
/// envelope's integer type.
pub open spec fn envelope_readable(body: Seq<char>) -> bool {
    json_int_field(body, "errorId"@) matches Some(i) && i32::MIN as i64 <= i <= i32::MAX as i64
}

/// `b` is exactly the envelope the top level of `body` holds.
pub open spec fn envelope_of(body: Seq<char>, b: ResponseBase) -> bool {
    &&& json_int_field(body, "errorId"@) == Some(b.error_id as i64)
    &&& opt_str_view(b.error_code) == json_str_field(body, "errorCode"@)
    &&& opt_str_view(b.error_description) == json_str_field(body, "errorDescription"@)
}

/// The envelope of `body` reports success: `errorId` present and zero.
pub open spec fn reports_success(body: Seq<char>) -> bool {
    json_int_field(body, "errorId"@) matches Some(i) && i == 0
}

/// The envelope of `body` reports an API-level failure: `errorId` present
/// and non-zero.
pub open spec fn reports_api_error(body: Seq<char>) -> bool {
    json_int_field(body, "errorId"@) matches Some(i) && i != 0
}

/// The status field of `body`, as a status value, if it holds a known one.
pub open spec fn status_field(body: Seq<char>) -> Option<TaskStatus> {
    match json_str_field(body, "status"@) {
        Some(s) => spec_status_of(s),
        None => None,
    }
}

/// Reads the error envelope every response embeds.  `errorId` is required
/// and must fit the envelope's integer type; the code and description are
/// the optional string fields of the same names, absent when the body holds
/// none (or holds them with a non-string value).
pub fn read_envelope(body: &str) -> (r: Result<ResponseBase, ClientError>)
    ensures
        r is Ok <==> envelope_readable(body@),
        r matches Ok(b) ==> envelope_of(body@, b),
        r matches Err(e) ==> is_parse_failure(e),
{
    let wide: i64 = match read_int_field(body, "errorId") {
        None => {
            return Err(parse_failure());
        },
        Some(n) => n,
    };
    if wide < i32::MIN as i64 || wide > i32::MAX as i64 {
        return Err(parse_failure());
    }
    let error_id: i32 = wide as i32;
    let error_code = read_str_field(body, "errorCode");
    let error_description = read_str_field(body, "errorDescription");
    Ok(ResponseBase { error_id, error_code, error_description })
}

/// What a decoded `createTask` response must be turned into: the envelope
/// short-circuits on failure, a present task handle is returned, and a
/// missing one is a shape violation.
pub open spec fn create_post<T>(
    base: ResponseBase,
    task: Option<T>,
    r: Result<T, ClientError>,
) -> bool {
    &&& base.error_id != 0 ==> r == Err::<T, ClientError>(ClientError::ApiError(base))
    &&& (base.error_id == 0 && task is Some) ==> r == Ok::<T, ClientError>(task.unwrap())
    &&& (base.error_id == 0 && task is None) ==> (r matches Err(e) && is_parse_failure(e))
}

/// Turns the decoded pieces of a `createTask` response into its outcome.
pub fn create_outcome<T>(base: ResponseBase, task: Option<T>) -> (r: Result<T, ClientError>)
    ensures
        create_post(base, task, r),
{
    if base.error_id != 0 {
        return Err(ClientError::ApiError(base));
    }
    match task {
        Some(t) => Ok(t),
        None => Err(parse_failure()),
    }
}

/// What a decoded `getTaskResult` response must be turned into: the envelope
/// short-circuits on failure; an unreadable status is a shape violation; a
/// processing task reports progress whatever else the response holds; a
/// ready task must carry a solution, and one without is the protocol
/// violation `No solution provided`.
pub open spec fn poll_post<T: Task>(
    base: ResponseBase,
    status: Option<TaskStatus>,
    solution: Option<T::Solution>,
    r: Result<TaskResult<T>, ClientError>,
) -> bool {
    &&& base.error_id != 0 ==> r == Err::<TaskResult<T>, ClientError>(ClientError::ApiError(base))
    &&& (base.error_id == 0 && status is None) ==> (r matches Err(e) && is_parse_failure(e))
    &&& (base.error_id == 0 && status == Some(TaskStatus::Processing)) ==> r == Ok::<
        TaskResult<T>,
        ClientError,
    >(TaskResult::Processing)
    &&& (base.error_id == 0 && status == Some(TaskStatus::Ready) && solution is Some) ==> r == Ok::<
        TaskResult<T>,
        ClientError,
    >(TaskResult::Ready(solution.unwrap()))
    &&& (base.error_id == 0 && status == Some(TaskStatus::Ready) && solution is None) ==> (
    r matches Err(e) && is_missing_solution(e))
}

/// Turns the decoded pieces of a `getTaskResult` response into its outcome.
pub fn poll_outcome<T: Task>(
    base: ResponseBase,
    status: Option<TaskStatus>,
    solution: Option<T::Solution>,
) -> (r: Result<TaskResult<T>, ClientError>)
    ensures
        poll_post::<T>(base, status, solution, r),
{
    if base.error_id != 0 {
        return Err(ClientError::ApiError(base));
    }
    match status {
        None => Err(parse_failure()),
        Some(TaskStatus::Processing) => Ok(TaskResult::Processing),
        Some(TaskStatus::Ready) => match solution {
            Some(s) => Ok(TaskResult::Ready(s)),
            None => Err(missing_solution()),
        },
    }
}

/// What `decode_create_task_response` owes for every response text: a parse
/// failure exactly when the envelope cannot be read; the envelope verbatim
/// inside `ApiError` when it reports a failure; and on success the task
/// decoded from the body's own fields, or a parse failure when the body
/// holds none.
pub open spec fn create_response_post<T: Task>(
    body: Seq<char>,
    r: Result<T, ClientError>,
) -> bool {
    &&& !envelope_readable(body) ==> (r matches Err(e) && is_parse_failure(e))
    &&& (envelope_readable(body) && reports_api_error(body)) ==> (r matches Err(e) && (
    e matches ClientError::ApiError(b) && envelope_of(body, b)))
    &&& reports_success(body) ==> (if T::body_decodable(body) {
        r matches Ok(t) && T::body_decodes_to(body, t)
    } else {
        r matches Err(e) && is_parse_failure(e)
    })
}

/// Decodes the response text of `createTask`: the envelope first, then —
/// only on success — the task fields, which sit flattened beside it.
pub fn decode_create_task_response<C: TaskConfig>(body: &str) -> (r: Result<
    C::Task,
    ClientError,
>)
    ensures
        create_response_post::<C::Task>(body@, r),
{
    let base = match read_envelope(body) {
        Err(e) => {
            return Err(e);
        },
        Ok(b) => b,
    };
    let task = if base.error_id == 0 {
        <C::Task as Task>::from_body(body)
    } else {
        None
    };
    create_outcome(base, task)
}

/// What `decode_task_result_response` owes once the envelope reports
/// success, by the body's `status` and `solution` fields.
pub open spec fn task_result_success_post<T: Task>(
    body: Seq<char>,
    r: Result<TaskResult<T>, ClientError>,
) -> bool {
    &&& status_field(body) is None ==> (r matches Err(e) && is_parse_failure(e))
    &&& status_field(body) == Some(TaskStatus::Processing) ==> r == Ok::<
        TaskResult<T>,
        ClientError,
    >(TaskResult::Processing)
    &&& (status_field(body) == Some(TaskStatus::Ready) && !json_solution_present(body)) ==> (
    r matches Err(e) && is_missing_solution(e))
    &&& (status_field(body) == Some(TaskStatus::Ready) && json_solution_present(body)
        && !T::Solution::solution_decodable(body)) ==> (r matches Err(e) && is_parse_failure(e))
    &&& (status_field(body) == Some(TaskStatus::Ready) && json_solution_present(body)
        && T::Solution::solution_decodable(body)) ==> (r matches Ok(x) && (
    x matches TaskResult::Ready(s) && T::Solution::solution_decodes_to(body, s)))
}

/// What `decode_task_result_response` owes for every response text.
pub open spec fn task_result_response_post<T: Task>(
    body: Seq<char>,
    r: Result<TaskResult<T>, ClientError>,
) -> bool {
    &&& !envelope_readable(body) ==> (r matches Err(e) && is_parse_failure(e))
    &&& (envelope_readable(body) && reports_api_error(body)) ==> (r matches Err(e) && (
    e matches ClientError::ApiError(b) && envelope_of(body, b)))
    &&& reports_success(body) ==> task_result_success_post::<T>(body, r)
}

/// Decodes the response text of `getTaskResult`: the envelope first, then
/// the status, then — only for a ready task — the solution.  A solution
/// beside a processing status is ignored, malformed or not.
pub fn decode_task_result_response<T: Task>(body: &str) -> (r: Result<
    TaskResult<T>,
    ClientError,
>)
    ensures
        task_result_response_post::<T>(body@, r),
{
    let base = match read_envelope(body) {
        Err(e) => {
            return Err(e);
        },
        Ok(b) => b,
    };
    if base.error_id != 0 {
        return poll_outcome::<T>(base, None, None);
    }
    let status = match read_str_field(body, "status") {
        None => {
            return Err(parse_failure());
        },
        Some(s) => match status_of(s.as_str()) {
            None => {
                return Err(parse_failure());
            },
            Some(st) => st,
        },
    };
    match status {
        TaskStatus::Processing => poll_outcome::<T>(base, Some(TaskStatus::Processing), None),
        TaskStatus::Ready => {
            if !read_solution_present(body) {
                poll_outcome::<T>(base, Some(TaskStatus::Ready), None)
            } else {
                match <T::Solution as TaskSolution>::from_body(body) {
                    None => Err(parse_failure()),
                    Some(sol) => poll_outcome::<T>(base, Some(TaskStatus::Ready), Some(sol)),
                }
            }
        },
    }
}

/// A poll of a ready task with a present solution yields exactly that
/// solution: the outcome is `Ready` and carries the solution unchanged.
pub proof fn lemma_ready_yields_solution<T: Task>(
    base: ResponseBase,
    sol: T::Solution,
    r: Result<TaskResult<T>, ClientError>,
)
    requires
        base.error_id == 0,
        poll_post::<T>(base, Some(TaskStatus::Ready), Some(sol), r),
    ensures
        r == Ok::<TaskResult<T>, ClientError>(TaskResult::Ready(sol)),
{
}

/// A poll of a ready task without a solution never yields a solution and
/// never panics: it fails, with exactly the message `No solution provided`.
pub proof fn lemma_ready_without_solution<T: Task>(
    base: ResponseBase,
    r: Result<TaskResult<T>, ClientError>,
)
    requires
        base.error_id == 0,
        poll_post::<T>(base, Some(TaskStatus::Ready), None::<T::Solution>, r),
    ensures
        r matches Err(e) && is_missing_solution(e),
{
}

/// An envelope that reports a failure short-circuits both operations: each
/// fails with `ApiError` carrying that envelope verbatim, whatever else the
/// response holds.
pub proof fn lemma_api_error_short_circuits<T: Task>(
    base: ResponseBase,
    task: Option<T>,
    status: Option<TaskStatus>,
    solution: Option<T::Solution>,
    rc: Result<T, ClientError>,
    rp: Result<TaskResult<T>, ClientError>,
)
    requires
        base.error_id != 0,
        create_post::<T>(base, task, rc),
        poll_post::<T>(base, status, solution, rp),
    ensures
        rc == Err::<T, ClientError>(ClientError::ApiError(base)),
        rp == Err::<TaskResult<T>, ClientError>(ClientError::ApiError(base)),
{
}

/// A poll's outcome is decided by the decoded response alone: two polls of
/// an unchanged successful response are independent and equal — in
/// particular, two polls of a processing task both report progress.
pub proof fn lemma_poll_idempotent<T: Task>(
    base: ResponseBase,
    status: Option<TaskStatus>,
    solution: Option<T::Solution>,
    r1: Result<TaskResult<T>, ClientError>,
    r2: Result<TaskResult<T>, ClientError>,
)
    requires
        base.error_id == 0,
        status == Some(TaskStatus::Processing) || (status == Some(TaskStatus::Ready)
            && solution is Some),
        poll_post::<T>(base, status, solution, r1),
        poll_post::<T>(base, status, solution, r2),
    ensures
        r1 == r2,
{
}

} // verus!
