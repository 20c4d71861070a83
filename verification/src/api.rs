use vstd::prelude::*;
use vstd::string::StringExecFns;
use crate::app_state::AppState;
use crate::auth::{answers_login_at, credentials_match, login_user, LATEST_READING};
use crate::dto::{
    map_records, responses_of, ApiResponse, LoginRequest, LoginResponse, SearchMqLogRequest,
    SearchMqLogResponse, STATUS_INTERNAL_SERVER_ERROR, STATUS_UNAUTHORIZED,
};
use crate::model::MQLogUsage;
use crate::query::{
    system_name_list_statement, system_name_list_text, tps_summary_statement, usage_statement,
    Statement,
};

verus! {

/// Why a read from the store failed. Either way the whole operation fails:
/// no partial result is returned.
#[derive(Debug)]
pub enum StoreError {
    /// The store could not prepare or execute the statement; the text is
    /// the underlying cause.
    QueryFailed(String),
    /// A row could not be mapped to a record; the text is the underlying
    /// cause.
    DecodeError(String),
}

/// A store error as a plain value.
pub enum StoreErrorView {
    QueryFailed(Seq<char>),
    DecodeError(Seq<char>),
}

impl StoreErrorView {
    /// The underlying cause, as text.
    pub open spec fn cause(self) -> Seq<char> {
        match self {
            StoreErrorView::QueryFailed(cause) => cause,
            StoreErrorView::DecodeError(cause) => cause,
        }
    }
}

impl View for StoreError {
    type V = StoreErrorView;

    open spec fn view(&self) -> StoreErrorView {
        match self {
            StoreError::QueryFailed(cause) => StoreErrorView::QueryFailed(cause@),
            StoreError::DecodeError(cause) => StoreErrorView::DecodeError(cause@),
        }
    }
}

impl StoreError {
    /// The underlying cause, as text.
    pub open spec fn cause(&self) -> Seq<char> {
        self@.cause()
    }

    /// The underlying cause, for the operator.
    pub fn message(&self) -> (text: &str)
        ensures
            text@ == self.cause(),
    {
        match self {
            StoreError::QueryFailed(cause) => cause.as_str(),
            StoreError::DecodeError(cause) => cause.as_str(),
        }
    }
}

/// The message of a response to an internal failure.
pub open spec fn failure_text(cause: Seq<char>) -> Seq<char> {
    "Error: "@ + cause
}

/// The envelope of an internal failure: status 500, the cause in the
/// message, no data.
pub fn failure_response<T>(error: &StoreError) -> (resp: ApiResponse<T>)
    ensures
        resp.is_error(failure_text(error.cause()), STATUS_INTERNAL_SERVER_ERROR),
{
    let mut message = String::from_str("Error: ");
    message.append(error.message());
    ApiResponse::error(message.as_str(), STATUS_INTERNAL_SERVER_ERROR)
}

/// The envelope that answers a login: the token on success; on failure
/// status 401 and a message that does not say which field was wrong.
pub fn login_response(outcome: Option<LoginResponse>) -> (resp: ApiResponse<LoginResponse>)
    ensures
        outcome is Some ==> resp.is_success("Success"@, outcome),
        outcome is None ==> resp.is_error("Invalid credentials"@, STATUS_UNAUTHORIZED),
{
    match outcome {
        Some(body) => ApiResponse::success("Success", Some(body)),
        None => ApiResponse::error("Invalid credentials", STATUS_UNAUTHORIZED),
    }
}

/// Answers a login request against the configured credential pair.
///
/// Whatever the clock reads, right credentials are answered with a token
/// and wrong ones with status 401. The token is that of a login at some
/// instant that a clock reading can stand for.
pub fn login(app_state: &AppState, req: LoginRequest) -> (resp: ApiResponse<LoginResponse>)
    ensures
        credentials_match(&req, app_state) ==> resp.is_success("Success"@, resp.data)
            && resp.data is Some,
        !credentials_match(&req, app_state) ==> resp.is_error(
            "Invalid credentials"@,
            STATUS_UNAUTHORIZED,
        ),
        exists|now: u64|
            now <= LATEST_READING && #[trigger] answers_login_at(
                &req,
                app_state,
                resp.data,
                now,
            ),
{
    login_response(login_user(req, app_state))
}

/// The envelope that answers a request for a list of names: the list as
/// the store returned it, or the failure.
pub fn name_list_response(result: Result<Vec<String>, StoreError>) -> (resp: ApiResponse<
    Vec<String>,
>)
    ensures
        result matches Ok(names) ==> resp.is_success("Success"@, Some(names)),
        result matches Err(e) ==> resp.is_error(
            failure_text(e.cause()),
            STATUS_INTERNAL_SERVER_ERROR,
        ),
{
    match result {
        Ok(names) => ApiResponse::success("Success", Some(names)),
        Err(e) => failure_response(&e),
    }
}

/// The statement behind the systems endpoint: the distinct systems that
/// report under the function named in the path.
pub fn mq_function_systems_statement(function: &str) -> (stmt: Statement)
    ensures
        stmt@.sql == system_name_list_text(),
        stmt@.params == seq![function@],
{
    system_name_list_statement(function)
}

/// The statement behind the search endpoint.
pub fn mq_search_statement(data: &SearchMqLogRequest) -> (stmt: Statement)
    ensures
        stmt@ == data.filter_spec().usage_statement(),
{
    let filter = data.to_filter();
    usage_statement(&filter)
}

/// The statement behind the summary endpoint.
pub fn mq_tps_summary_statement(data: &SearchMqLogRequest) -> (stmt: Statement)
    ensures
        stmt@ == data.filter_spec().tps_summary_statement(),
{
    let filter = data.to_filter();
    tps_summary_statement(&filter)
}

/// The envelope that answers a search or a summary: every record in its
/// external shape, in the store's order, or the failure.
pub fn search_response(result: Result<Vec<MQLogUsage>, StoreError>) -> (resp: ApiResponse<
    Vec<SearchMqLogResponse>,
>)
    ensures
        result matches Ok(records) ==> resp.success && resp.message@ == "Success"@
            && resp.status_code == 200 && resp.data is Some && resp.data->0@ == responses_of(
            records@,
        ),
        result matches Err(e) ==> resp.is_error(
            failure_text(e.cause()),
            STATUS_INTERNAL_SERVER_ERROR,
        ),
{
    match result {
        Ok(records) => ApiResponse::success("Success", Some(map_records(records))),
        Err(e) => failure_response(&e),
    }
}

} // verus!
