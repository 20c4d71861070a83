use mq_usage_viewer::api::{
    failure_response, login, login_response, mq_function_systems_statement, mq_search_statement,
    mq_tps_summary_statement, name_list_response, search_response, StoreError,
};
use mq_usage_viewer::app_state::AppState;
use mq_usage_viewer::auth::verify_token;
use mq_usage_viewer::dto::{
    map_records, ApiResponse, LoginRequest, LoginResponse, SearchMqLogRequest,
    SearchMqLogResponse, STATUS_INTERNAL_SERVER_ERROR, STATUS_OK, STATUS_UNAUTHORIZED,
};
use mq_usage_viewer::model::{MQLogUsage, NEGATIVE_ZERO_BITS, POSITIVE_INFINITY_BITS};

fn record(at: &str, system: &str, function: &str, work: f64, tps: f64) -> MQLogUsage {
    MQLogUsage {
        date_time: at.to_string(),
        date: at[0..10].to_string(),
        minute: at[11..16].to_string(),
        system_name: system.to_string(),
        mq_function: function.to_string(),
        work_total: work.to_bits(),
        trans_per_sec: tps.to_bits(),
    }
}

fn search(system: Option<&str>) -> SearchMqLogRequest {
    SearchMqLogRequest {
        from_datetime: "2024-05-01T00:00:00+07:00".to_string(),
        to_datetime: "2024-05-02T00:00:00+07:00".to_string(),
        mq_function_name: "F".to_string(),
        system_name: system.map(|s| s.to_string()),
    }
}

#[test]
fn status_codes() {
    assert_eq!(STATUS_OK, 200);
    assert_eq!(STATUS_UNAUTHORIZED, 401);
    assert_eq!(STATUS_INTERNAL_SERVER_ERROR, 500);
}

#[test]
fn success_envelope() {
    let resp = ApiResponse::success("Success", Some(7u32));
    assert!(resp.success);
    assert_eq!(resp.message, "Success");
    assert_eq!(resp.data, Some(7));
    assert_eq!(resp.status_code, 200);
    let empty = ApiResponse::<u32>::success("ok", None);
    assert!(empty.success);
    assert_eq!(empty.data, None);
    assert_eq!(empty.status_code, 200);
}

#[test]
fn error_envelope() {
    let resp = ApiResponse::<u32>::error("Invalid credentials", 401);
    assert!(!resp.success);
    assert_eq!(resp.message, "Invalid credentials");
    assert_eq!(resp.data, None);
    assert_eq!(resp.status_code, 401);
    assert_eq!(ApiResponse::<u32>::error("x", 500).status_code, 500);
}

#[test]
fn request_becomes_filter() {
    let f = search(Some("A")).to_filter();
    assert_eq!(f.mq_function, "F");
    assert_eq!(f.system_name.as_deref(), Some("A"));
    let r = f.range.expect("range");
    assert_eq!(r.from, "2024-05-01T00:00:00+07:00");
    assert_eq!(r.to, "2024-05-02T00:00:00+07:00");
    let f = search(None).to_filter();
    assert_eq!(f.system_name, None);
    assert!(f.range.is_some());
}

#[test]
fn search_statement_binds_the_request() {
    let stmt = mq_search_statement(&search(Some("A")));
    assert_eq!(
        stmt.sql,
        "SELECT date_time, date, minute, system_name, mq_function, work_total, trans_per_sec FROM mq_data WHERE mq_function = ?1 AND (date_time BETWEEN ?2 AND ?3) AND system_name = ?4"
    );
    assert_eq!(
        stmt.params,
        vec![
            "F".to_string(),
            "2024-05-01T00:00:00+07:00".to_string(),
            "2024-05-02T00:00:00+07:00".to_string(),
            "A".to_string()
        ]
    );
    let stmt = mq_search_statement(&search(None));
    assert_eq!(
        stmt.sql,
        "SELECT date_time, date, minute, system_name, mq_function, work_total, trans_per_sec FROM mq_data WHERE mq_function = ?1 AND (date_time BETWEEN ?2 AND ?3)"
    );
    assert_eq!(stmt.params.len(), 3);
}

#[test]
fn summary_statement_binds_the_request() {
    let stmt = mq_tps_summary_statement(&search(Some("A")));
    assert_eq!(
        stmt.sql,
        "SELECT date_time , SUM(trans_per_sec) AS total_trans_per_sec FROM mq_data WHERE mq_function = ?1 AND (date_time BETWEEN ?2 AND ?3) AND system_name = ?4 GROUP BY date_time"
    );
    assert_eq!(stmt.params.len(), 4);
    assert_eq!(stmt.params[3], "A");
    let stmt = mq_tps_summary_statement(&search(None));
    assert_eq!(stmt.params.len(), 3);
}

#[test]
fn systems_statement_binds_the_path() {
    let stmt = mq_function_systems_statement("F' OR '1'='1");
    assert_eq!(
        stmt.sql,
        "SELECT DISTINCT system_name FROM mq_data WHERE mq_function = ? ORDER BY system_name"
    );
    assert_eq!(stmt.params, vec!["F' OR '1'='1".to_string()]);
}

#[test]
fn record_maps_to_external_shape() {
    let r = record("2024-05-01T10:00:00+00:00", "A", "F", 12.5, 3.25);
    let resp = SearchMqLogResponse::from(r);
    assert_eq!(resp.date_time, "2024-05-01T10:00:00+00:00");
    assert_eq!(resp.system_name, "A");
    assert_eq!(resp.mq_function, "F");
    assert_eq!(f64::from_bits(resp.work_total), 12.5);
    assert_eq!(f64::from_bits(resp.trans_per_sec), 3.25);
}

#[test]
fn records_map_in_order() {
    let out = map_records(vec![
        record("2024-05-01T10:00:00+00:00", "A", "F", 1.0, 3.0),
        record("2024-05-01T10:00:00+00:00", "B", "F", 2.0, 4.0),
        record("2024-05-01T10:01:00+00:00", "A", "F", 3.0, 5.0),
    ]);
    assert_eq!(out.len(), 3);
    assert_eq!(out[0].system_name, "A");
    assert_eq!(f64::from_bits(out[0].trans_per_sec), 3.0);
    assert_eq!(out[1].system_name, "B");
    assert_eq!(f64::from_bits(out[1].work_total), 2.0);
    assert_eq!(out[2].date_time, "2024-05-01T10:01:00+00:00");
    assert_eq!(f64::from_bits(out[2].trans_per_sec), 5.0);
    assert!(map_records(Vec::new()).is_empty());
}

#[test]
fn search_response_wraps_records() {
    let resp = search_response(Ok(vec![
        record("2024-05-01T10:00:00+00:00", "A", "F", 1.0, 3.0),
        record("2024-05-01T10:01:00+00:00", "B", "F", 2.0, 4.0),
    ]));
    assert!(resp.success);
    assert_eq!(resp.message, "Success");
    assert_eq!(resp.status_code, 200);
    let data = resp.data.expect("data");
    assert_eq!(data.len(), 2);
    assert_eq!(data[0].system_name, "A");
    assert_eq!(data[1].system_name, "B");
    let empty = search_response(Ok(Vec::new()));
    assert!(empty.success);
    assert_eq!(empty.data.expect("data").len(), 0);
}

#[test]
fn search_response_reports_failures() {
    let resp = search_response(Err(StoreError::QueryFailed("disk I/O error".to_string())));
    assert!(!resp.success);
    assert_eq!(resp.message, "Error: disk I/O error");
    assert_eq!(resp.status_code, 500);
    assert!(resp.data.is_none());
    let resp = search_response(Err(StoreError::DecodeError("Invalid column type".to_string())));
    assert!(!resp.success);
    assert_eq!(resp.message, "Error: Invalid column type");
    assert_eq!(resp.status_code, 500);
}

#[test]
fn name_list_response_wraps_names() {
    let resp = name_list_response(Ok(vec!["a".to_string(), "b".to_string()]));
    assert!(resp.success);
    assert_eq!(resp.message, "Success");
    assert_eq!(resp.status_code, 200);
    assert_eq!(resp.data, Some(vec!["a".to_string(), "b".to_string()]));
    let resp = name_list_response(Err(StoreError::QueryFailed("locked".to_string())));
    assert!(!resp.success);
    assert_eq!(resp.message, "Error: locked");
    assert_eq!(resp.status_code, 500);
    assert_eq!(resp.data, None);
}

#[test]
fn store_error_message_is_the_cause() {
    assert_eq!(StoreError::QueryFailed("q".to_string()).message(), "q");
    assert_eq!(StoreError::DecodeError("d".to_string()).message(), "d");
    let resp = failure_response::<u8>(&StoreError::DecodeError("".to_string()));
    assert_eq!(resp.message, "Error: ");
    assert_eq!(resp.status_code, 500);
}

#[test]
fn login_response_maps_outcome() {
    let ok = login_response(Some(LoginResponse { token: "t".to_string() }));
    assert!(ok.success);
    assert_eq!(ok.message, "Success");
    assert_eq!(ok.status_code, 200);
    assert_eq!(ok.data.expect("data").token, "t");
    let bad = login_response(None);
    assert!(!bad.success);
    assert_eq!(bad.message, "Invalid credentials");
    assert_eq!(bad.status_code, 401);
    assert!(bad.data.is_none());
}

#[test]
fn login_answers_with_a_verifiable_token() {
    let st = AppState {
        user_name: "admin".to_string(),
        password: "pw".to_string(),
        secret_value: "k".to_string(),
        salt_key: "s".to_string(),
    };
    let ok = login(&st, LoginRequest { username: "admin".to_string(), password: "pw".to_string() });
    assert!(ok.success);
    assert_eq!(ok.status_code, 200);
    let token = ok.data.expect("data").token;
    assert_eq!(verify_token(&token, &st).expect("claims").sub, "admin");
    let bad = login(&st, LoginRequest { username: "admin".to_string(), password: "x".to_string() });
    assert!(!bad.success);
    assert_eq!(bad.status_code, 401);
    assert_eq!(bad.message, "Invalid credentials");
    assert!(bad.data.is_none());
    let bad = login(&st, LoginRequest { username: "x".to_string(), password: "pw".to_string() });
    assert_eq!(bad.message, "Invalid credentials");
}

#[test]
fn persisted_record_invariant() {
    assert!(record("2024-05-01T10:00:00+00:00", "A", "F", 1.0, 0.0).check_persisted());
    assert!(record("2024-05-01T10:00:00+00:00", "A", "F", 1.0, 3.5).check_persisted());
    assert!(record("2024-05-01T10:00:00+00:00", "A", "F", 1.0, -0.0).check_persisted());
    assert!(record("2024-05-01T10:00:00+00:00", "A", "F", -1.0, f64::INFINITY).check_persisted());
    assert!(!record("2024-05-01T10:00:00+00:00", "A", "F", 1.0, -0.5).check_persisted());
    assert!(!record("2024-05-01T10:00:00+00:00", "A", "F", 1.0, f64::NAN).check_persisted());
    assert!(!record("2024-05-01T10:00:00+00:00", "A", "F", 1.0, f64::NEG_INFINITY).check_persisted());
    assert!(!record("2024-05-01T10:00:00+00:00", "", "F", 1.0, 1.0).check_persisted());
    assert!(!record("2024-05-01T10:00:00+00:00", "A", "", 1.0, 1.0).check_persisted());
    assert_eq!(POSITIVE_INFINITY_BITS, f64::INFINITY.to_bits());
    assert_eq!(NEGATIVE_ZERO_BITS, (-0.0f64).to_bits());
}

#[test]
fn summary_row_holds_instant_and_sum_only() {
    let row = MQLogUsage::summary_row("2024-05-01T10:00:00+00:00".to_string(), 7.0f64.to_bits());
    assert_eq!(row.date_time, "2024-05-01T10:00:00+00:00");
    assert_eq!(f64::from_bits(row.trans_per_sec), 7.0);
    assert_eq!(f64::from_bits(row.work_total), 0.0);
    assert_eq!(row.date, "");
    assert_eq!(row.minute, "");
    assert_eq!(row.system_name, "");
    assert_eq!(row.mq_function, "");
    let resp = SearchMqLogResponse::from(row);
    assert_eq!(resp.date_time, "2024-05-01T10:00:00+00:00");
    assert_eq!(f64::from_bits(resp.trans_per_sec), 7.0);
}
