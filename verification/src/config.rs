//! Configuration records for the deployment. Loading them from a file is the
//! host program's concern; this module only defines the shapes and the pure
//! derivations on them.

use vstd::prelude::*;

verus! {

/// Connection parameters of the relational store.
#[derive(Clone, Debug)]
pub struct PgConfig {
    pub host: String,
    pub user: String,
    pub password: String,
    pub port: String,
    pub db: String,
}

impl PgConfig {
    /// The connection URL assembled from the individual parameters.
    pub fn get_db_url(&self) -> (url: String)
        ensures
            url@ == "postgres://"@ + self.user@ + ":"@ + self.password@ + "@"@ + self.host@
                + ":"@ + self.port@ + "/"@ + self.db@,
    {
        let mut url = String::from_str("postgres://");
        url.append(self.user.as_str());
        url.append(":");
        url.append(self.password.as_str());
        url.append("@");
        url.append(self.host.as_str());
        url.append(":");
        url.append(self.port.as_str());
        url.append("/");
        url.append(self.db.as_str());
        url
    }
}

/// General server settings.
#[derive(Clone, Debug)]
pub struct BaseConfig {
    pub production: bool,
    pub domain_name: String,
    pub frontend_origin: String,
    pub ip_address: String,
    pub port: String,
    pub allowed_origins: Vec<String>,
    pub workers: Option<usize>,
}

/// Outgoing-mail settings; absent fields disable email delivery, which in
/// turn disables the email-verification gate.
#[derive(Clone, Debug)]
pub struct SmtpConfig {
    pub smtp_login: Option<String>,
    pub smtp_password: Option<String>,
    pub smtp_server: Option<String>,
}

/// OAuth provider settings; the token exchange itself happens outside this
/// subsystem.
#[derive(Clone, Debug)]
pub struct GoogleOAuthConfig {
    pub client_id: String,
    pub client_secret: String,
    pub redirect_url: String,
}

/// Object-storage settings for uploaded files.
#[derive(Clone, Debug)]
pub struct S3Config {
    pub bucket_name: String,
    pub account_id: String,
    pub access_key_id: String,
    pub access_key_secret: String,
    pub base_url: String,
}

/// Signing secrets and token lifetimes, in minutes, for the two token kinds.
#[derive(Clone, Debug)]
pub struct JwtConfig {
    pub access_secret: String,
    pub refresh_secret: String,
    pub access_token_expiration: i64,
    pub refresh_token_expiration: i64,
}

} // verus!
