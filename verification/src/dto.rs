use vstd::prelude::*;
use vstd::std_specs::convert::FromSpecImpl;
use vstd::string::StringExecFns;
use crate::model::MQLogUsage;
use crate::query::{TimeRange, UsageFilter};

verus! {

/// Status of a successful response.
pub const STATUS_OK: u16 = 200;

/// Status of a response to failed authentication.
pub const STATUS_UNAUTHORIZED: u16 = 401;

/// Status of a response to an internal failure.
pub const STATUS_INTERNAL_SERVER_ERROR: u16 = 500;

/// The envelope of every JSON response. The status travels with the
/// envelope and is not part of the body.
#[derive(Debug, Clone)]
pub struct ApiResponse<T> {
    pub data: Option<T>,
    pub success: bool,
    pub message: String,
    pub status_code: u16,
}

impl<T> ApiResponse<T> {
    /// Whether this is the successful envelope with the given message and
    /// data: `success` set, status 200.
    pub open spec fn is_success(&self, message: Seq<char>, data: Option<T>) -> bool {
        &&& self.success
        &&& self.message@ == message
        &&& self.data == data
        &&& self.status_code == STATUS_OK
    }

    /// Whether this is the failed envelope with the given message and
    /// status: `success` cleared, no data.
    pub open spec fn is_error(&self, message: Seq<char>, status_code: u16) -> bool {
        &&& !self.success
        &&& self.message@ == message
        &&& self.data is None
        &&& self.status_code == status_code
    }

    /// A successful envelope: status 200, the message, the data as given.
    pub fn success(message: &str, data: Option<T>) -> (resp: Self)
        ensures
            resp.is_success(message@, data),
    {
        Self { success: true, message: String::from_str(message), data, status_code: STATUS_OK }
    }

    /// A failed envelope: the status and the message as given, no data.
    pub fn error(message: &str, status_code: u16) -> (resp: Self)
        ensures
            resp.is_error(message@, status_code),
    {
        Self { success: false, message: String::from_str(message), data: None, status_code }
    }
}

/// Body of a search or summary request. Both bounds are RFC 3339 text.
#[derive(Debug, Clone)]
pub struct SearchMqLogRequest {
    pub from_datetime: String,
    pub to_datetime: String,
    pub mq_function_name: String,
    pub system_name: Option<String>,
}

impl SearchMqLogRequest {
    /// The filter that the request asks for, as a plain description: its
    /// function, its system if it names one, and always its time range.
    pub open spec fn filter_spec(&self) -> UsageFilter {
        UsageFilter {
            mq_function: self.mq_function_name,
            system_name: self.system_name,
            range: Some(TimeRange { from: self.from_datetime, to: self.to_datetime }),
        }
    }

    /// Builds the filter that the request asks for.
    pub fn to_filter(&self) -> (filter: UsageFilter)
        ensures
            filter == self.filter_spec(),
    {
        let system_name = match &self.system_name {
            Some(name) => Some(name.clone()),
            None => None,
        };
        UsageFilter {
            mq_function: self.mq_function_name.clone(),
            system_name,
            range: Some(
                TimeRange { from: self.from_datetime.clone(), to: self.to_datetime.clone() },
            ),
        }
    }
}

/// One record as the search and summary endpoints show it: the display
/// strings `date` and `minute` are left out.
#[derive(Debug, Clone)]
pub struct SearchMqLogResponse {
    pub date_time: String,
    pub system_name: String,
    pub mq_function: String,
    pub work_total: u64,
    pub trans_per_sec: u64,
}

impl From<MQLogUsage> for SearchMqLogResponse {
    fn from(item: MQLogUsage) -> (resp: SearchMqLogResponse)
        ensures
            resp == response_of(item),
    {
        SearchMqLogResponse {
            date_time: item.date_time,
            system_name: item.system_name,
            mq_function: item.mq_function,
            work_total: item.work_total,
            trans_per_sec: item.trans_per_sec,
        }
    }
}

impl FromSpecImpl<MQLogUsage> for SearchMqLogResponse {
    open spec fn obeys_from_spec() -> bool {
        true
    }

    open spec fn from_spec(item: MQLogUsage) -> SearchMqLogResponse {
        response_of(item)
    }
}

/// The external shape of one record: its instant, system, function and the
/// two measurements, each unchanged.
pub open spec fn response_of(item: MQLogUsage) -> SearchMqLogResponse {
    SearchMqLogResponse {
        date_time: item.date_time,
        system_name: item.system_name,
        mq_function: item.mq_function,
        work_total: item.work_total,
        trans_per_sec: item.trans_per_sec,
    }
}

/// The external shapes of a sequence of records, one for one and in order.
pub open spec fn responses_of(records: Seq<MQLogUsage>) -> Seq<SearchMqLogResponse> {
    Seq::new(records.len(), |i: int| response_of(records[i]))
}

/// Maps each record to its external shape, keeping the order.
pub fn map_records(records: Vec<MQLogUsage>) -> (out: Vec<SearchMqLogResponse>)
    ensures
        out@ == responses_of(records@),
{
    let ghost all = records@;
    let mut rest = records;
    let mut reversed: Vec<SearchMqLogResponse> = Vec::new();
    while rest.len() > 0
        invariant
            rest@.len() + reversed@.len() == all.len(),
            rest@ == all.subrange(0, rest@.len() as int),
            forall|k: int|
                0 <= k < reversed@.len() ==> reversed@[k] == response_of(
                    #[trigger] all[all.len() - 1 - k],
                ),
        decreases rest@.len(),
    {
        let item = rest.pop().unwrap();
        reversed.push(SearchMqLogResponse::from(item));
    }
    let mut out: Vec<SearchMqLogResponse> = Vec::new();
    while reversed.len() > 0
        invariant
            out@.len() + reversed@.len() == all.len(),
            forall|k: int|
                0 <= k < reversed@.len() ==> reversed@[k] == response_of(
                    #[trigger] all[all.len() - 1 - k],
                ),
            forall|k: int|
                0 <= k < out@.len() ==> out@[k] == response_of(#[trigger] all[k]),
        decreases reversed@.len(),
    {
        let ghost last = reversed@.len() - 1;
        assert(reversed@[last] == response_of(all[all.len() - 1 - last]));
        let resp = reversed.pop().unwrap();
        out.push(resp);
    }
    assert(out@ =~= responses_of(all));
    out
}

/// Body of a login request.
#[derive(Debug)]
pub struct LoginRequest {
    pub username: String,
    pub password: String,
}

/// Body of a successful login response.
#[derive(Debug)]
pub struct LoginResponse {
    pub token: String,
}

} // verus!
