use harvux::client::{ClientError, HarvestClient};
use harvux::credentials::{credentials_from_items, CredentialsError};
use harvux::ui::{client_or_message, client_or_none, outcome_after_save, SaveOutcome, StatusStyle};

fn bytes(s: &str) -> Option<Result<Vec<u8>, ()>> {
    Some(Ok(s.as_bytes().to_vec()))
}

#[test]
fn items_not_found_give_no_credentials() {
    assert!(matches!(credentials_from_items(None, bytes("123")), Ok(None)));
    assert!(matches!(credentials_from_items(bytes("tok"), None), Ok(None)));
    assert!(matches!(credentials_from_items(None, None), Ok(None)));
}

#[test]
fn items_found_are_read_token_first() {
    let c = credentials_from_items(bytes("tok"), bytes("123")).expect("ok").expect("some");
    assert_eq!((c.access_token.as_str(), c.account_id.as_str()), ("tok", "123"));
    assert!(matches!(credentials_from_items(bytes("tok"), bytes("")), Ok(None)));
    assert_eq!(credentials_from_items(Some(Err(())), Some(Err(()))).err(), Some(CredentialsError::ReadAccessToken));
    assert_eq!(
        credentials_from_items(Some(Ok(vec![0xff])), Some(Err(()))).err(),
        Some(CredentialsError::AccessTokenNotUtf8)
    );
    assert_eq!(credentials_from_items(bytes("tok"), Some(Err(()))).err(), Some(CredentialsError::ReadAccountId));
    assert_eq!(
        credentials_from_items(bytes("tok"), Some(Ok(vec![0xc3]))).err(),
        Some(CredentialsError::AccountIdNotUtf8)
    );
}

#[test]
fn built_clients_are_handed_on() {
    assert!(client_or_none(HarvestClient::new("tok", "123")).is_some());
    assert!(client_or_none(Err(ClientError::HttpClientBuild)).is_none());
    assert!(client_or_message(HarvestClient::new("tok", "123")).is_ok());
    assert_eq!(client_or_message(Err(ClientError::InvalidAccountId)).err(), Some("Invalid account ID".to_string()));
    assert!(matches!(outcome_after_save(HarvestClient::new("tok", "123")), SaveOutcome::ShowTimer(_)));
    match outcome_after_save(Err(ClientError::HttpClientBuild)) {
        SaveOutcome::Status(m) => {
            assert_eq!(m.text, "Credentials saved, but could not create client.");
            assert_eq!(m.style, StatusStyle::Success);
        }
        SaveOutcome::ShowTimer(_) => panic!("expected a status"),
    }
}
