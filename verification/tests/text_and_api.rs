use harvux::api::{
    create_time_entry_request, delete_time_entry_request, failure_message, list_projects_request,
    list_task_assignments_request, list_time_entries_request, me_request, restart_time_entry_request,
    stop_time_entry_request, update_time_entry_request, ApiOperation, FailureStage, HttpMethod,
};
use harvux::client::{authorization_value, ClientError, HarvestClient};
use harvux::text::{clock, entry_duration, int_to_text, nat_to_text, pad2, total_duration};

fn pairs(q: &[(String, String)]) -> Vec<(&str, &str)> {
    q.iter().map(|(k, v)| (k.as_str(), v.as_str())).collect()
}

#[test]
fn decimal_text_of_integers() {
    assert_eq!(nat_to_text(0), "0");
    assert_eq!(nat_to_text(1234567890), "1234567890");
    assert_eq!(int_to_text(-42), "-42");
    assert_eq!(int_to_text(i128::MIN), i128::MIN.to_string());
    assert_eq!(int_to_text(i128::MAX), i128::MAX.to_string());
}

#[test]
fn two_digit_padding_matches_format() {
    for n in [-123i128, -10, -9, -1, 0, 1, 9, 10, 59, 99, 100, 12345] {
        assert_eq!(pad2(n), format!("{:02}", n));
    }
}

#[test]
fn entry_durations() {
    assert_eq!(entry_duration(0), "0m");
    assert_eq!(entry_duration(59), "0m");
    assert_eq!(entry_duration(1800), "30m");
    assert_eq!(entry_duration(3600), "1h 00m");
    assert_eq!(entry_duration(5400), "1h 30m");
    assert_eq!(entry_duration(3 * 3600 + 5 * 60 + 59), "3h 05m");
}

#[test]
fn total_durations_always_show_hours() {
    assert_eq!(total_duration(0), "0h 00m");
    assert_eq!(total_duration(1800), "0h 30m");
    assert_eq!(total_duration(9000), "2h 30m");
}

#[test]
fn clock_readings() {
    assert_eq!(clock(0), "00:00:00");
    assert_eq!(clock(3725), "01:02:05");
    assert_eq!(clock(100 * 3600 + 59), "100:00:59");
    // A clock that went back shows what Rust's `{:02}` shows.
    let t: i128 = -5;
    assert_eq!(clock(t), format!("{:02}:{:02}:{:02}", t / 3600, (t % 3600) / 60, t % 60));
}

#[test]
fn client_urls_and_headers() {
    let client = HarvestClient::new("token", "12345").expect("client");
    assert_eq!(client.url_for("/users/me"), "https://api.harvestapp.com/v2/users/me");
    assert_eq!(authorization_value("abc"), "Bearer abc");
    let copy = client.clone();
    assert_eq!(copy.url_for("/projects"), "https://api.harvestapp.com/v2/projects");
}

#[test]
fn invalid_header_values_are_refused() {
    assert_eq!(HarvestClient::new("bad\ntoken", "1").err(), Some(ClientError::InvalidAccessToken));
    assert_eq!(HarvestClient::new("token", "12\u{7f}").err(), Some(ClientError::InvalidAccountId));
    assert_eq!(HarvestClient::new("bad\rtoken", "12\u{7f}").err(), Some(ClientError::InvalidAccessToken));
    // Tabs and bytes above 127 may stand in a header value.
    assert!(HarvestClient::new("tok\ten", "ünïcode").is_ok());
}

#[test]
fn client_error_messages() {
    assert_eq!(ClientError::InvalidAccessToken.message(), "Invalid access token");
    assert_eq!(ClientError::InvalidAccountId.message(), "Invalid account ID");
    assert_eq!(ClientError::HttpClientBuild.message(), "Failed to build HTTP client");
}

#[test]
fn request_descriptions() {
    let r = me_request();
    assert_eq!((r.method, r.path.as_str()), (HttpMethod::Get, "/users/me"));
    assert!(r.query.is_empty());

    let r = list_projects_request();
    assert_eq!((r.method, r.path.as_str()), (HttpMethod::Get, "/projects"));
    assert_eq!(pairs(&r.query), vec![("is_active", "true"), ("per_page", "2000")]);

    let r = list_task_assignments_request(77);
    assert_eq!(r.path, "/projects/77/task_assignments");
    assert_eq!(pairs(&r.query), vec![("is_active", "true"), ("per_page", "2000")]);

    let r = list_time_entries_request("2024-05-01", None);
    assert_eq!(r.path, "/time_entries");
    assert_eq!(pairs(&r.query), vec![("from", "2024-05-01"), ("to", "2024-05-01")]);

    let r = list_time_entries_request("2024-05-01", Some(9));
    assert_eq!(pairs(&r.query), vec![("from", "2024-05-01"), ("to", "2024-05-01"), ("user_id", "9")]);

    let r = create_time_entry_request();
    assert_eq!((r.method, r.path.as_str()), (HttpMethod::Post, "/time_entries"));

    let r = update_time_entry_request(5);
    assert_eq!((r.method, r.path.as_str()), (HttpMethod::Patch, "/time_entries/5"));

    let r = stop_time_entry_request(5);
    assert_eq!((r.method, r.path.as_str()), (HttpMethod::Patch, "/time_entries/5/stop"));

    let r = restart_time_entry_request(-3);
    assert_eq!((r.method, r.path.as_str()), (HttpMethod::Patch, "/time_entries/-3/restart"));

    let r = delete_time_entry_request(5);
    assert_eq!((r.method, r.path.as_str()), (HttpMethod::Delete, "/time_entries/5"));
}

#[test]
fn failure_messages() {
    assert_eq!(
        failure_message(ApiOperation::FetchCurrentUser, FailureStage::Send).as_deref(),
        Some("Failed to fetch current user")
    );
    assert_eq!(
        failure_message(ApiOperation::FetchProjects, FailureStage::Status).as_deref(),
        Some("API error fetching projects")
    );
    assert_eq!(
        failure_message(ApiOperation::RestartTimeEntry, FailureStage::Parse).as_deref(),
        Some("Failed to parse restarted time entry")
    );
    assert_eq!(
        failure_message(ApiOperation::DeleteTimeEntry, FailureStage::Status).as_deref(),
        Some("API error deleting time entry")
    );
    assert_eq!(failure_message(ApiOperation::DeleteTimeEntry, FailureStage::Parse), None);
}
