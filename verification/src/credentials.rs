//! How the access token and the account ID are kept in the keyring: the
//! label and attributes of each item, and how the two secrets read back
//! become credentials.
use crate::api::query_text;
use std::string::FromUtf8Error;
use vstd::prelude::*;
use vstd::utf8::{decode_utf8, encode_utf8, valid_utf8};

verus! {

#[verifier::external_type_specification]
#[verifier::external_body]
pub struct ExFromUtf8Error(FromUtf8Error);

/// The attribute value that marks the access token's item.
pub const TOKEN_ATTR: &'static str = "harvest_access_token";

/// The attribute value that marks the account ID's item.
pub const ACCOUNT_ATTR: &'static str = "harvest_account_id";

/// The application's name in item labels and attributes.
pub const APP_LABEL: &'static str = "Harvux";

/// The account's credentials: a personal access token and an account ID.
#[derive(Debug, Clone, PartialEq, Eq)]
pub struct Credentials {
    pub access_token: String,
    pub account_id: String,
}

/// The two secrets kept in the keyring.
#[derive(Debug, Clone, Copy, PartialEq, Eq)]
pub enum SecretKind {
    AccessToken,
    AccountId,
}

/// The value of the `type` attribute of a secret's item.
pub open spec fn type_attr(kind: SecretKind) -> Seq<char> {
    match kind {
        SecretKind::AccessToken => TOKEN_ATTR@,
        SecretKind::AccountId => ACCOUNT_ATTR@,
    }
}

/// The label of a secret's item.
pub open spec fn label_text(kind: SecretKind) -> Seq<char> {
    match kind {
        SecretKind::AccessToken => APP_LABEL@ + " - Access Token"@,
        SecretKind::AccountId => APP_LABEL@ + " - Account ID"@,
    }
}

/// The attributes a secret's item is stored with and searched by.
pub open spec fn attributes_text(kind: SecretKind) -> Seq<(Seq<char>, Seq<char>)> {
    seq![("application"@, APP_LABEL@), ("type"@, type_attr(kind))]
}

/// The label of a secret's item, `"Harvux - Access Token"` or `"Harvux - Account ID"`.
pub fn item_label(kind: SecretKind) -> (s: String)
    ensures
        s@ == label_text(kind),
{
    match kind {
        SecretKind::AccessToken => String::from_str(APP_LABEL).concat(" - Access Token"),
        SecretKind::AccountId => String::from_str(APP_LABEL).concat(" - Account ID"),
    }
}

/// The attributes of a secret's item: `application = Harvux` and its `type`.
/// Storing and searching both use these, so a search finds what was stored.
pub fn item_attributes(kind: SecretKind) -> (attrs: Vec<(String, String)>)
    ensures
        query_text(attrs@) == attributes_text(kind),
{
    let kind_text = match kind {
        SecretKind::AccessToken => String::from_str(TOKEN_ATTR),
        SecretKind::AccountId => String::from_str(ACCOUNT_ATTR),
    };
    let mut attrs: Vec<(String, String)> = Vec::new();
    attrs.push((String::from_str("application"), String::from_str(APP_LABEL)));
    attrs.push((String::from_str("type"), kind_text));
    assert(query_text(attrs@) =~= attributes_text(kind));
    attrs
}

/// What went wrong while storing or loading credentials.
#[derive(Debug, Clone, Copy, PartialEq, Eq)]
pub enum CredentialsError {
    OpenKeyring,
    StoreAccessToken,
    StoreAccountId,
    SearchAccessToken,
    SearchAccountId,
    ReadAccessToken,
    AccessTokenNotUtf8,
    ReadAccountId,
    AccountIdNotUtf8,
}

impl CredentialsError {
    pub open spec fn message_text(self) -> Seq<char> {
        match self {
            CredentialsError::OpenKeyring => "Failed to open keyring"@,
            CredentialsError::StoreAccessToken => "Failed to store access token"@,
            CredentialsError::StoreAccountId => "Failed to store account ID"@,
            CredentialsError::SearchAccessToken => "Failed to search for access token"@,
            CredentialsError::SearchAccountId => "Failed to search for account ID"@,
            CredentialsError::ReadAccessToken => "Failed to read token secret"@,
            CredentialsError::AccessTokenNotUtf8 => "Token is not valid UTF-8"@,
            CredentialsError::ReadAccountId => "Failed to read account secret"@,
            CredentialsError::AccountIdNotUtf8 => "Account ID is not valid UTF-8"@,
        }
    }

    /// The message shown for this error.
    pub fn message(&self) -> (s: String)
        ensures
            s@ == self.message_text(),
    {
        match self {
            CredentialsError::OpenKeyring => String::from_str("Failed to open keyring"),
            CredentialsError::StoreAccessToken => String::from_str("Failed to store access token"),
            CredentialsError::StoreAccountId => String::from_str("Failed to store account ID"),
            CredentialsError::SearchAccessToken => String::from_str("Failed to search for access token"),
            CredentialsError::SearchAccountId => String::from_str("Failed to search for account ID"),
            CredentialsError::ReadAccessToken => String::from_str("Failed to read token secret"),
            CredentialsError::AccessTokenNotUtf8 => String::from_str("Token is not valid UTF-8"),
            CredentialsError::ReadAccountId => String::from_str("Failed to read account secret"),
            CredentialsError::AccountIdNotUtf8 => String::from_str("Account ID is not valid UTF-8"),
        }
    }
}

/// `String::from_utf8` (std): `Ok` with the decoded text exactly when the
/// bytes are valid UTF-8.
#[verifier::external_body]
fn string_from_utf8(bytes: Vec<u8>) -> (r: Result<String, FromUtf8Error>)
    ensures
        r is Ok <==> valid_utf8(bytes@),
        r matches Ok(s) ==> s@ == decode_utf8(bytes@),
{
    String::from_utf8(bytes)
}

/// The text a secret's bytes hold, if they are UTF-8.
pub open spec fn secret_text(bytes: Seq<u8>) -> Option<Seq<char>> {
    if valid_utf8(bytes) {
        Some(decode_utf8(bytes))
    } else {
        None
    }
}

/// A secret read back from the keyring as text; an error names the secret
/// that is not UTF-8.
pub fn decode_secret(kind: SecretKind, bytes: Vec<u8>) -> (r: Result<String, CredentialsError>)
    ensures
        match secret_text(bytes@) {
            Some(t) => r matches Ok(s) && s@ == t,
            None => r == Err::<String, CredentialsError>(
                match kind {
                    SecretKind::AccessToken => CredentialsError::AccessTokenNotUtf8,
                    SecretKind::AccountId => CredentialsError::AccountIdNotUtf8,
                },
            ),
        },
{
    match string_from_utf8(bytes) {
        Ok(s) => Ok(s),
        Err(_) => match kind {
            SecretKind::AccessToken => Err(CredentialsError::AccessTokenNotUtf8),
            SecretKind::AccountId => Err(CredentialsError::AccountIdNotUtf8),
        },
    }
}

/// Credentials from the two secrets' texts: none when either is empty.
pub fn credentials_from_texts(access_token: String, account_id: String) -> (c: Option<Credentials>)
    ensures
        c is Some <==> (access_token@.len() > 0 && account_id@.len() > 0),
        c matches Some(cr) ==> cr.access_token@ == access_token@ && cr.account_id@ == account_id@,
{
    if access_token.as_str().is_empty() || account_id.as_str().is_empty() {
        None
    } else {
        Some(Credentials { access_token, account_id })
    }
}

/// What loading gives for the two secrets' bytes, once both items were found
/// and read: the token is decoded first, then the account ID; empty texts
/// give no credentials.
pub open spec fn loaded_credentials(token: Seq<u8>, account: Seq<u8>) -> Result<Option<(Seq<char>, Seq<char>)>, CredentialsError> {
    match secret_text(token) {
        None => Err(CredentialsError::AccessTokenNotUtf8),
        Some(t) => match secret_text(account) {
            None => Err(CredentialsError::AccountIdNotUtf8),
            Some(a) => if t.len() > 0 && a.len() > 0 {
                Ok(Some((t, a)))
            } else {
                Ok(None)
            },
        },
    }
}

/// The credentials the two secrets' bytes hold.
pub fn credentials_from_secrets(token: Vec<u8>, account: Vec<u8>) -> (r: Result<Option<Credentials>, CredentialsError>)
    ensures
        match loaded_credentials(token@, account@) {
            Err(e) => r == Err::<Option<Credentials>, CredentialsError>(e),
            Ok(None) => r == Ok::<Option<Credentials>, CredentialsError>(None),
            Ok(Some((t, a))) => r matches Ok(Some(c)) && c.access_token@ == t && c.account_id@ == a,
        },
{
    let t = match decode_secret(SecretKind::AccessToken, token) {
        Ok(t) => t,
        Err(e) => return Err(e),
    };
    let a = match decode_secret(SecretKind::AccountId, account) {
        Ok(a) => a,
        Err(e) => return Err(e),
    };
    Ok(credentials_from_texts(t, a))
}

/// What loading gives once the keyring was searched for both items: nothing
/// unless both were found; else the token's secret is read and decoded, then
/// the account ID's. `None` stands for an item not found, `Err` for a secret
/// that could not be read.
pub fn credentials_from_items(
    token: Option<Result<Vec<u8>, ()>>,
    account: Option<Result<Vec<u8>, ()>>,
) -> (r: Result<Option<Credentials>, CredentialsError>)
    ensures
        match (token, account) {
            (Some(t), Some(a)) => match t {
                Err(_) => r == Err::<Option<Credentials>, CredentialsError>(CredentialsError::ReadAccessToken),
                Ok(tb) => match secret_text(tb@) {
                    None => r == Err::<Option<Credentials>, CredentialsError>(CredentialsError::AccessTokenNotUtf8),
                    Some(_) => match a {
                        Err(_) => r == Err::<Option<Credentials>, CredentialsError>(CredentialsError::ReadAccountId),
                        Ok(ab) => match loaded_credentials(tb@, ab@) {
                            Err(e) => r == Err::<Option<Credentials>, CredentialsError>(e),
                            Ok(None) => r == Ok::<Option<Credentials>, CredentialsError>(None),
                            Ok(Some((tt, at))) => r matches Ok(Some(c)) && c.access_token@ == tt && c.account_id@ == at,
                        },
                    },
                },
            },
            _ => r == Ok::<Option<Credentials>, CredentialsError>(None),
        },
{
    match (token, account) {
        (Some(t), Some(a)) => match t {
            Err(_) => Err(CredentialsError::ReadAccessToken),
            Ok(tb) => {
                let tt = match decode_secret(SecretKind::AccessToken, tb) {
                    Ok(x) => x,
                    Err(e) => return Err(e),
                };
                match a {
                    Err(_) => Err(CredentialsError::ReadAccountId),
                    Ok(ab) => {
                        let at = match decode_secret(SecretKind::AccountId, ab) {
                            Ok(x) => x,
                            Err(e) => return Err(e),
                        };
                        Ok(credentials_from_texts(tt, at))
                    },
                }
            },
        },
        _ => Ok(None),
    }
}

/// Storing credentials and loading them back gives the same credentials: the
/// UTF-8 bytes the keyring keeps of each text decode to that text, and two
/// texts that are not empty make credentials again.
pub proof fn law_stored_credentials_load_back(access_token: Seq<char>, account_id: Seq<char>)
    requires
        access_token.len() > 0,
        account_id.len() > 0,
    ensures
        loaded_credentials(encode_utf8(access_token), encode_utf8(account_id)) == Ok::<
            Option<(Seq<char>, Seq<char>)>,
            CredentialsError,
        >(Some((access_token, account_id))),
{
    vstd::utf8::encode_utf8_valid_utf8(access_token);
    vstd::utf8::encode_utf8_valid_utf8(account_id);
    vstd::utf8::encode_utf8_decode_utf8(access_token);
    vstd::utf8::encode_utf8_decode_utf8(account_id);
}

/// Empty credentials are never loaded: a secret that reads back empty gives
/// no credentials, whatever the other holds.
pub proof fn law_empty_secret_gives_no_credentials(token: Seq<u8>, account: Seq<u8>)
    requires
        token.len() == 0 || account.len() == 0,
        valid_utf8(token),
        valid_utf8(account),
    ensures
        loaded_credentials(token, account) == Ok::<Option<(Seq<char>, Seq<char>)>, CredentialsError>(None),
{
    if token.len() == 0 {
        assert(decode_utf8(token) =~= Seq::<char>::empty());
    } else {
        assert(decode_utf8(account) =~= Seq::<char>::empty());
    }
}

} // verus!
