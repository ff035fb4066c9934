//! The decisions of the application window and the preferences dialog: what
//! activating the application does, which page the window starts on, and the
//! status messages of the credentials form.
use crate::client::{bearer_text, credential_headers, header_value_valid, ClientError, ClientView, HarvestClient, BASE_URL};
use crate::credentials::{Credentials, CredentialsError};
use crate::models::User;
use vstd::prelude::*;

verus! {

/// What activating the application (launcher or tray) does to its window.
#[derive(Debug, Clone, Copy, PartialEq, Eq)]
pub enum ActivateAction {
    /// The active window is visible: hide it.
    HideWindow,
    /// The active window is hidden: show it.
    PresentActiveWindow,
    /// No window is active but one exists: show the first.
    PresentFirstWindow,
    /// There is no window yet: create one and load the credentials.
    CreateWindow,
}

/// What activating the application does, given whether there is an active
/// window (and whether it is visible) and whether any window exists.
pub fn activate_action(active_window_visible: Option<bool>, has_window: bool) -> (a: ActivateAction)
    ensures
        a == (match active_window_visible {
            Some(true) => ActivateAction::HideWindow,
            Some(false) => ActivateAction::PresentActiveWindow,
            None => if has_window {
                ActivateAction::PresentFirstWindow
            } else {
                ActivateAction::CreateWindow
            },
        }),
{
    match active_window_visible {
        Some(true) => ActivateAction::HideWindow,
        Some(false) => ActivateAction::PresentActiveWindow,
        None => if has_window {
            ActivateAction::PresentFirstWindow
        } else {
            ActivateAction::CreateWindow
        },
    }
}

/// Credentials that make a client: both header values are valid.
pub open spec fn credentials_usable(c: Credentials) -> bool {
    header_value_valid(bearer_text(c.access_token@)) && header_value_valid(c.account_id@)
}

/// What a client made for these credentials is: it requests the API root
/// with their headers.
pub open spec fn client_for(c: Credentials) -> ClientView {
    ClientView { base_url: BASE_URL@, headers: credential_headers(c.access_token@, c.account_id@) }
}

/// The client a new window starts with, from the credentials loaded from the
/// keyring: the timer page needs one, and without one the window shows the
/// welcome page. Only loaded, usable credentials give a client.
pub fn startup_client(loaded: Result<Option<Credentials>, CredentialsError>) -> (c: Option<HarvestClient>)
    ensures
        c is Some ==> (loaded matches Ok(Some(cr)) && credentials_usable(cr)),
        (loaded matches Ok(Some(cr)) && !credentials_usable(cr)) ==> c is None,
        c matches Some(client) ==> client@ == client_for(loaded->Ok_0->Some_0),
{
    match loaded {
        Ok(Some(creds)) => client_or_none(HarvestClient::new(creds.access_token.as_str(), creds.account_id.as_str())),
        _ => None,
    }
}

/// The start-up client once the loaded credentials were handed to
/// `HarvestClient::new`: the client it built, or none when it failed.
pub fn client_or_none(built: Result<HarvestClient, ClientError>) -> (c: Option<HarvestClient>)
    ensures
        match built {
            Ok(b) => c matches Some(x) && x@ == b@,
            Err(_) => c is None,
        },
{
    match built {
        Ok(client) => Some(client),
        Err(_) => None,
    }
}

/// How a status message is styled.
#[derive(Debug, Clone, Copy, PartialEq, Eq)]
pub enum StatusStyle {
    Neutral,
    Success,
    Error,
}

/// A message of the preferences dialog's status line.
#[derive(Debug, Clone, PartialEq, Eq)]
pub struct StatusMessage {
    pub text: String,
    pub style: StatusStyle,
}

pub open spec fn missing_fields_text() -> Seq<char> {
    "Please enter both access token and account ID."@
}

/// The form's complaint when the token or the account ID is empty; `None`
/// when both are filled in.
pub fn check_form(access_token: &str, account_id: &str) -> (m: Option<StatusMessage>)
    ensures
        m is Some <==> (access_token@.len() == 0 || account_id@.len() == 0),
        m matches Some(msg) ==> msg.text@ == missing_fields_text() && msg.style == StatusStyle::Error,
{
    if access_token.is_empty() || account_id.is_empty() {
        Some(
            StatusMessage {
                text: String::from_str("Please enter both access token and account ID."),
                style: StatusStyle::Error,
            },
        )
    } else {
        None
    }
}

/// The status while the connection is tested.
pub fn testing_status() -> (m: StatusMessage)
    ensures
        m.text@ == "Testing connection..."@,
        m.style == StatusStyle::Neutral,
{
    StatusMessage { text: String::from_str("Testing connection..."), style: StatusStyle::Neutral }
}

/// The status while the credentials are saved.
pub fn saving_status() -> (m: StatusMessage)
    ensures
        m.text@ == "Saving credentials..."@,
        m.style == StatusStyle::Neutral,
{
    StatusMessage { text: String::from_str("Saving credentials..."), style: StatusStyle::Neutral }
}

/// The client to test the connection with, or the message of why there is none.
pub fn test_client(access_token: &str, account_id: &str) -> (r: Result<HarvestClient, String>)
    ensures
        match r {
            Ok(c) => header_value_valid(bearer_text(access_token@)) && header_value_valid(account_id@) && c@
                == (ClientView { base_url: BASE_URL@, headers: credential_headers(access_token@, account_id@) }),
            Err(m) => m@ == (if !header_value_valid(bearer_text(access_token@)) {
                ClientError::InvalidAccessToken
            } else if !header_value_valid(account_id@) {
                ClientError::InvalidAccountId
            } else {
                ClientError::HttpClientBuild
            }).message_text(),
        },
{
    client_or_message(HarvestClient::new(access_token, account_id))
}

/// The connection test's client once the form's credentials were handed to
/// `HarvestClient::new`: the client it built, or the message of its error.
pub fn client_or_message(built: Result<HarvestClient, ClientError>) -> (r: Result<HarvestClient, String>)
    ensures
        match built {
            Ok(b) => r matches Ok(x) && x@ == b@,
            Err(e) => r matches Err(m) && m@ == e.message_text(),
        },
{
    match built {
        Ok(c) => Ok(c),
        Err(e) => Err(e.message()),
    }
}

/// The text reporting a successful connection test.
pub open spec fn connected_text(u: User) -> Seq<char> {
    "Connected as "@ + u.first_name@ + " "@ + u.last_name@ + " ("@ + u.email@ + ")"@
}

/// The status after a connection test: who is signed in, or why it failed.
pub fn connection_status(result: &Result<User, String>) -> (m: StatusMessage)
    ensures
        match result {
            Ok(u) => m.text@ == connected_text(*u) && m.style == StatusStyle::Success,
            Err(e) => m.text@ == "Connection failed: "@ + e@ && m.style == StatusStyle::Error,
        },
{
    match result {
        Ok(u) => {
            let text = String::from_str("Connected as ").concat(u.first_name.as_str()).concat(" ").concat(
                u.last_name.as_str(),
            ).concat(" (").concat(u.email.as_str()).concat(")");
            StatusMessage { text, style: StatusStyle::Success }
        },
        Err(e) => StatusMessage {
            text: String::from_str("Connection failed: ").concat(e.as_str()),
            style: StatusStyle::Error,
        },
    }
}

/// What follows an attempt to save the credentials.
pub enum SaveOutcome {
    /// Saved, and a client made: the window shows the timer page with it and
    /// the dialog closes.
    ShowTimer(HarvestClient),
    /// The dialog shows this status and enables its save button again.
    Status(StatusMessage),
}

pub open spec fn saved_without_client_text() -> Seq<char> {
    "Credentials saved, but could not create client."@
}

/// What follows an attempt to store the form's credentials.
pub fn save_outcome(stored: Result<(), CredentialsError>, access_token: &str, account_id: &str) -> (o: SaveOutcome)
    ensures
        match stored {
            Err(e) => o matches SaveOutcome::Status(m) && m.text@ == "Failed to save: "@ + e.message_text()
                && m.style == StatusStyle::Error,
            Ok(()) => {
                &&& o is ShowTimer ==> header_value_valid(bearer_text(access_token@)) && header_value_valid(account_id@)
                &&& o matches SaveOutcome::ShowTimer(c) ==> c@ == (ClientView {
                    base_url: BASE_URL@,
                    headers: credential_headers(access_token@, account_id@),
                })
                &&& o matches SaveOutcome::Status(m) ==> m.text@ == saved_without_client_text() && m.style
                    == StatusStyle::Success
                &&& !(header_value_valid(bearer_text(access_token@)) && header_value_valid(account_id@)) ==> o is Status
            },
        },
{
    match stored {
        Err(e) => {
            let msg = e.message();
            SaveOutcome::Status(
                StatusMessage {
                    text: String::from_str("Failed to save: ").concat(msg.as_str()),
                    style: StatusStyle::Error,
                },
            )
        },
        Ok(()) => outcome_after_save(HarvestClient::new(access_token, account_id)),
    }
}

/// What follows storing the credentials once they were handed to
/// `HarvestClient::new`: the timer page with the client it built, or the
/// status that they were saved without a client.
pub fn outcome_after_save(built: Result<HarvestClient, ClientError>) -> (o: SaveOutcome)
    ensures
        match built {
            Ok(b) => o matches SaveOutcome::ShowTimer(x) && x@ == b@,
            Err(_) => o matches SaveOutcome::Status(m) && m.text@ == saved_without_client_text() && m.style
                == StatusStyle::Success,
        },
{
    match built {
        Ok(client) => SaveOutcome::ShowTimer(client),
        Err(_) => SaveOutcome::Status(
            StatusMessage {
                text: String::from_str("Credentials saved, but could not create client."),
                style: StatusStyle::Success,
            },
        ),
    }
}

} // verus!
