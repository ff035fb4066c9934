use harvux::api::{list_time_entries_request, stop_time_entry_request, update_time_entry_request};
use harvux::client::HarvestClient;
use harvux::clock::{seconds_between, timestamp_from_epoch_offset, utc_now, Timestamp};

fn method_and_url(b: reqwest::RequestBuilder) -> (String, String) {
    let r = b.build().expect("request");
    (r.method().as_str().to_string(), r.url().as_str().to_string())
}

#[test]
fn client_requests_carry_method_and_url() {
    let client = HarvestClient::new("tok", "123").expect("client");
    assert_eq!(
        method_and_url(client.get("/users/me").into_builder()),
        ("GET".to_string(), "https://api.harvestapp.com/v2/users/me".to_string())
    );
    assert_eq!(
        method_and_url(client.post("/time_entries").into_builder()),
        ("POST".to_string(), "https://api.harvestapp.com/v2/time_entries".to_string())
    );
    assert_eq!(
        method_and_url(client.patch("/time_entries/42").into_builder()),
        ("PATCH".to_string(), "https://api.harvestapp.com/v2/time_entries/42".to_string())
    );
    assert_eq!(
        method_and_url(client.delete("/time_entries/42").into_builder()),
        ("DELETE".to_string(), "https://api.harvestapp.com/v2/time_entries/42".to_string())
    );
}

#[test]
fn described_requests_become_http_requests() {
    let client = HarvestClient::new("tok", "123").expect("client");
    assert_eq!(
        method_and_url(client.request(&update_time_entry_request(42)).into_builder()),
        ("PATCH".to_string(), "https://api.harvestapp.com/v2/time_entries/42".to_string())
    );
    assert_eq!(
        method_and_url(client.request(&stop_time_entry_request(7)).into_builder()),
        ("PATCH".to_string(), "https://api.harvestapp.com/v2/time_entries/7/stop".to_string())
    );
    assert_eq!(
        method_and_url(client.request(&list_time_entries_request("2024-05-01", Some(9))).into_builder()),
        (
            "GET".to_string(),
            "https://api.harvestapp.com/v2/time_entries?from=2024-05-01&to=2024-05-01&user_id=9".to_string()
        )
    );
}

#[test]
fn epoch_offsets_become_instants() {
    assert_eq!(timestamp_from_epoch_offset(Ok((5, 7))), Timestamp { secs: 5, nanos: 7 });
    assert_eq!(timestamp_from_epoch_offset(Err((5, 0))), Timestamp { secs: -5, nanos: 0 });
    assert_eq!(timestamp_from_epoch_offset(Err((5, 300))), Timestamp { secs: -6, nanos: 999_999_700 });
    assert_eq!(timestamp_from_epoch_offset(Ok((u64::MAX, 3))), Timestamp { secs: i64::MAX, nanos: 0 });
    assert_eq!(timestamp_from_epoch_offset(Err((u64::MAX, 3))), Timestamp { secs: i64::MIN, nanos: 0 });
}

#[test]
fn the_clock_reads_after_the_epoch() {
    let a = utc_now();
    let b = utc_now();
    assert!(a.secs > 1_600_000_000);
    assert!(a.nanos < 1_000_000_000);
    assert!(seconds_between(a, b) >= 0);
}
