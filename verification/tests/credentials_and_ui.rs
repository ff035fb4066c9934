use harvux::client::ClientError;
use harvux::credentials::{
    credentials_from_secrets, credentials_from_texts, decode_secret, item_attributes, item_label, Credentials,
    CredentialsError, SecretKind,
};
use harvux::models::User;
use harvux::ui::{
    activate_action, check_form, connection_status, save_outcome, saving_status, startup_client, test_client,
    testing_status, ActivateAction, SaveOutcome, StatusStyle,
};

fn user() -> User {
    User {
        id: 1,
        first_name: "Ada".to_string(),
        last_name: "Lovelace".to_string(),
        email: "ada@example.com".to_string(),
        timezone: None,
        avatar_url: None,
    }
}

#[test]
fn item_labels_and_attributes() {
    assert_eq!(item_label(SecretKind::AccessToken), "Harvux - Access Token");
    assert_eq!(item_label(SecretKind::AccountId), "Harvux - Account ID");
    let a = item_attributes(SecretKind::AccessToken);
    assert_eq!(
        a,
        vec![
            ("application".to_string(), "Harvux".to_string()),
            ("type".to_string(), "harvest_access_token".to_string())
        ]
    );
    let b = item_attributes(SecretKind::AccountId);
    assert_eq!(b[1], ("type".to_string(), "harvest_account_id".to_string()));
}

#[test]
fn secrets_decode_as_utf8() {
    assert_eq!(decode_secret(SecretKind::AccessToken, "tökén".as_bytes().to_vec()), Ok("tökén".to_string()));
    assert_eq!(decode_secret(SecretKind::AccessToken, vec![0xff, 0xfe]), Err(CredentialsError::AccessTokenNotUtf8));
    assert_eq!(decode_secret(SecretKind::AccountId, vec![0xc0, 0x80]), Err(CredentialsError::AccountIdNotUtf8));
}

#[test]
fn stored_credentials_load_back() {
    let loaded = credentials_from_secrets(b"secret-token".to_vec(), b"4242".to_vec());
    assert_eq!(
        loaded,
        Ok(Some(Credentials { access_token: "secret-token".to_string(), account_id: "4242".to_string() }))
    );
}

#[test]
fn empty_or_broken_secrets() {
    assert_eq!(credentials_from_secrets(Vec::new(), b"4242".to_vec()), Ok(None));
    assert_eq!(credentials_from_secrets(b"tok".to_vec(), Vec::new()), Ok(None));
    assert_eq!(credentials_from_secrets(vec![0xff], vec![0xff]), Err(CredentialsError::AccessTokenNotUtf8));
    assert_eq!(credentials_from_secrets(b"tok".to_vec(), vec![0xff]), Err(CredentialsError::AccountIdNotUtf8));
    assert_eq!(credentials_from_texts(String::new(), String::new()), None);
}

#[test]
fn credentials_error_messages() {
    assert_eq!(CredentialsError::OpenKeyring.message(), "Failed to open keyring");
    assert_eq!(CredentialsError::StoreAccessToken.message(), "Failed to store access token");
    assert_eq!(CredentialsError::SearchAccountId.message(), "Failed to search for account ID");
    assert_eq!(CredentialsError::AccessTokenNotUtf8.message(), "Token is not valid UTF-8");
    assert_eq!(CredentialsError::ReadAccountId.message(), "Failed to read account secret");
}

#[test]
fn activation_toggles_the_window() {
    assert_eq!(activate_action(Some(true), true), ActivateAction::HideWindow);
    assert_eq!(activate_action(Some(false), true), ActivateAction::PresentActiveWindow);
    assert_eq!(activate_action(None, true), ActivateAction::PresentFirstWindow);
    assert_eq!(activate_action(None, false), ActivateAction::CreateWindow);
}

#[test]
fn startup_page() {
    let good = Credentials { access_token: "t".to_string(), account_id: "1".to_string() };
    let bad = Credentials { access_token: "t\n".to_string(), account_id: "1".to_string() };
    assert!(startup_client(Ok(Some(good))).is_some());
    assert!(startup_client(Ok(Some(bad))).is_none());
    assert!(startup_client(Ok(None)).is_none());
    assert!(startup_client(Err(CredentialsError::OpenKeyring)).is_none());
}

#[test]
fn form_checks_and_statuses() {
    let m = check_form("", "123").expect("complaint");
    assert_eq!(m.text, "Please enter both access token and account ID.");
    assert_eq!(m.style, StatusStyle::Error);
    assert!(check_form("tok", "").is_some());
    assert!(check_form("tok", "123").is_none());
    assert_eq!(testing_status().text, "Testing connection...");
    assert_eq!(saving_status().text, "Saving credentials...");
}

#[test]
fn connection_test_statuses() {
    let ok = connection_status(&Ok(user()));
    assert_eq!(ok.text, "Connected as Ada Lovelace (ada@example.com)");
    assert_eq!(ok.style, StatusStyle::Success);
    let failed = connection_status(&Err("Failed to fetch current user".to_string()));
    assert_eq!(failed.text, "Connection failed: Failed to fetch current user");
    assert_eq!(failed.style, StatusStyle::Error);
    assert_eq!(test_client("bad\n", "1").err(), Some(ClientError::InvalidAccessToken.message()));
    assert!(test_client("tok", "1").is_ok());
}

#[test]
fn save_outcomes() {
    match save_outcome(Err(CredentialsError::OpenKeyring), "t", "1") {
        SaveOutcome::Status(m) => {
            assert_eq!(m.text, "Failed to save: Failed to open keyring");
            assert_eq!(m.style, StatusStyle::Error);
        }
        SaveOutcome::ShowTimer(_) => panic!("a failed save shows a status"),
    }
    match save_outcome(Ok(()), "t\n", "1") {
        SaveOutcome::Status(m) => {
            assert_eq!(m.text, "Credentials saved, but could not create client.");
            assert_eq!(m.style, StatusStyle::Success);
        }
        SaveOutcome::ShowTimer(_) => panic!("an unusable token makes no client"),
    }
    assert!(matches!(save_outcome(Ok(()), "t", "1"), SaveOutcome::ShowTimer(_)));
}
