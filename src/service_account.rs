//! The service-account key file that credentials are read from.
use crate::error::{need, Error, Result};
use crate::json::{field, parsed_json, text_of, Json};
use crate::text::same;
use vstd::prelude::*;

verus! {

/// The content of a service-account key file. It has no `Debug`, so that the private
/// key is not printed by accident.
pub struct ServiceAccount {
    /// The kind of credential; always `service_account`.
    pub account_type: String,
    /// The project that the account belongs to.
    pub project_id: String,
    /// The id of the private key.
    pub private_key_id: String,
    /// The private key, PEM-encoded.
    pub private_key: String,
    /// The account's email address.
    pub client_email: String,
    /// The account's id.
    pub client_id: String,
    /// Where authentication happens.
    pub auth_uri: String,
    /// Where tokens are issued.
    pub token_uri: String,
    /// Where the provider's certificates are.
    pub auth_provider_x509_cert_url: String,
    /// Where this account's certificate is.
    pub client_x509_cert_url: String,
}

/// The content of a `ServiceAccount`.
pub struct ServiceAccountView {
    pub account_type: Seq<char>,
    pub project_id: Seq<char>,
    pub private_key_id: Seq<char>,
    pub private_key: Seq<char>,
    pub client_email: Seq<char>,
    pub client_id: Seq<char>,
    pub auth_uri: Seq<char>,
    pub token_uri: Seq<char>,
    pub auth_provider_x509_cert_url: Seq<char>,
    pub client_x509_cert_url: Seq<char>,
}

impl View for ServiceAccount {
    type V = ServiceAccountView;

    open spec fn view(&self) -> ServiceAccountView {
        ServiceAccountView {
            account_type: self.account_type@,
            project_id: self.project_id@,
            private_key_id: self.private_key_id@,
            private_key: self.private_key@,
            client_email: self.client_email@,
            client_id: self.client_id@,
            auth_uri: self.auth_uri@,
            token_uri: self.token_uri@,
            auth_provider_x509_cert_url: self.auth_provider_x509_cert_url@,
            client_x509_cert_url: self.client_x509_cert_url@,
        }
    }
}

/// The account that a key file's JSON object describes: every member is a string.
pub open spec fn service_account_of(j: Json) -> Option<ServiceAccountView> {
    let t = |k: Seq<char>| text_of(field(j, k));
    if t("type"@) is Some && t("project_id"@) is Some && t("private_key_id"@) is Some && t(
        "private_key"@,
    ) is Some && t("client_email"@) is Some && t("client_id"@) is Some && t("auth_uri"@) is Some
        && t("token_uri"@) is Some && t("auth_provider_x509_cert_url"@) is Some && t(
        "client_x509_cert_url"@,
    ) is Some {
        Some(
            ServiceAccountView {
                account_type: t("type"@)->0,
                project_id: t("project_id"@)->0,
                private_key_id: t("private_key_id"@)->0,
                private_key: t("private_key"@)->0,
                client_email: t("client_email"@)->0,
                client_id: t("client_id"@)->0,
                auth_uri: t("auth_uri"@)->0,
                token_uri: t("token_uri"@)->0,
                auth_provider_x509_cert_url: t("auth_provider_x509_cert_url"@)->0,
                client_x509_cert_url: t("client_x509_cert_url"@)->0,
            },
        )
    } else {
        None
    }
}

/// What reading a key file's text comes to: the account, where the text is a JSON
/// object with every member and its type is `service_account`; else a configuration
/// failure.
pub open spec fn key_file_outcome(text: Seq<char>, r: Result<ServiceAccount>) -> bool {
    match parsed_json(text) {
        Some(j) => match service_account_of(j) {
            Some(v) => if v.account_type == "service_account"@ {
                r matches Ok(a) && a@ == v
            } else {
                r matches Err(Error::Configuration(_))
            },
            None => r matches Err(Error::Configuration(_)),
        },
        None => r matches Err(Error::Configuration(_)),
    }
}

impl ServiceAccount {
    /// Reads an account from its JSON object.
    pub fn from_json(j: &Json) -> (r: Result<ServiceAccount>)
        ensures
            match service_account_of(*j) {
                Some(v) => r matches Ok(a) && a@ == v,
                None => r matches Err(Error::Decode(_)),
            },
    {
        Ok(ServiceAccount {
            account_type: need(j.text("type"), "type")?,
            project_id: need(j.text("project_id"), "project_id")?,
            private_key_id: need(j.text("private_key_id"), "private_key_id")?,
            private_key: need(j.text("private_key"), "private_key")?,
            client_email: need(j.text("client_email"), "client_email")?,
            client_id: need(j.text("client_id"), "client_id")?,
            auth_uri: need(j.text("auth_uri"), "auth_uri")?,
            token_uri: need(j.text("token_uri"), "token_uri")?,
            auth_provider_x509_cert_url: need(
                j.text("auth_provider_x509_cert_url"),
                "auth_provider_x509_cert_url",
            )?,
            client_x509_cert_url: need(j.text("client_x509_cert_url"), "client_x509_cert_url")?,
        })
    }

    /// Reads an account from the text of its key file.
    pub fn from_key_file(text: &str) -> (r: Result<ServiceAccount>)
        ensures
            key_file_outcome(text@, r),
    {
        let j = match Json::parse(text) {
            Some(j) => j,
            None => {
                return Err(Error::Configuration(String::from_str("key file is not JSON")));
            },
        };
        match ServiceAccount::from_json(&j) {
            Ok(a) => {
                if same(a.account_type.as_str(), "service_account") {
                    Ok(a)
                } else {
                    Err(Error::Configuration(String::from_str("key file is not a service account")))
                }
            },
            Err(_) => Err(Error::Configuration(String::from_str("key file lacks a member"))),
        }
    }
}

} // verus!
