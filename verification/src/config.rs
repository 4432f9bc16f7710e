use vstd::prelude::*;
use vstd::string::*;
use vstd::utf8::encode_utf8;

use crate::text::{parse_u16, parse_u16_str, split_commas, split_commas_trimmed, string_views, trim};

verus! {

/// Settings of the service, as read from its environment.
#[derive(Debug, Clone)]
pub struct AppConfig {
    pub database_url: String,
    pub jwt_secret: String,
    pub admin_email: String,
    pub admin_password: String,
    pub allowed_origins: Vec<String>,
    pub port: u16,
}

/// Whether a signing secret is shorter than the 32 bytes a secret needs.
pub open spec fn secret_too_short(secret: Seq<char>) -> bool {
    encode_utf8(secret).len() < 32
}

/// The value of an optional setting, or its default.
pub open spec fn value_or(v: Option<String>, default: Seq<char>) -> Seq<char> {
    match v {
        Some(s) => s@,
        None => default,
    }
}

/// The allowed origins given by a comma-separated list.
pub open spec fn origins_of(raw: Seq<char>) -> Seq<Seq<char>> {
    split_commas(raw).map_values(|p: Seq<char>| trim(p))
}

/// Which error, if any, a set of raw settings is refused with; the checks run
/// in this order.
pub open spec fn config_error(
    database_url: Option<String>,
    jwt_secret: Option<String>,
    admin_password: Option<String>,
    port: Option<String>,
) -> Option<Seq<char>> {
    if database_url is None {
        Some("DATABASE_URL must be set"@)
    } else if jwt_secret is None {
        Some("JWT_SECRET must be set"@)
    } else if secret_too_short(jwt_secret->0@) {
        Some("JWT_SECRET must be at least 32 characters"@)
    } else if admin_password is None {
        Some("ADMIN_PASSWORD must be set"@)
    } else if parse_u16(value_or(port, "3000"@)) is None {
        Some("PORT must be a valid number"@)
    } else {
        None
    }
}

impl AppConfig {
    /// Builds the settings from the raw values of `DATABASE_URL`, `JWT_SECRET`,
    /// `ADMIN_EMAIL`, `ADMIN_PASSWORD`, `ALLOWED_ORIGINS` and `PORT` (`None`
    /// where a variable is unset). `ADMIN_EMAIL` defaults to
    /// `admin@example.com`, `ALLOWED_ORIGINS` to `http://localhost:3000` and
    /// `PORT` to `3000`.
    pub fn from_values(
        database_url: Option<String>,
        jwt_secret: Option<String>,
        admin_email: Option<String>,
        admin_password: Option<String>,
        allowed_origins: Option<String>,
        port: Option<String>,
    ) -> (r: Result<AppConfig, String>)
        ensures
            config_error(database_url, jwt_secret, admin_password, port) matches Some(msg) ==> (
            r matches Err(e) && e@ == msg),
            config_error(database_url, jwt_secret, admin_password, port) is None ==> (r matches Ok(
                c,
            ) && {
                &&& c.database_url@ == database_url->0@
                &&& c.jwt_secret@ == jwt_secret->0@
                &&& c.admin_email@ == value_or(admin_email, "admin@example.com"@)
                &&& c.admin_password@ == admin_password->0@
                &&& string_views(c.allowed_origins@) == origins_of(
                    value_or(allowed_origins, "http://localhost:3000"@),
                )
                &&& Some(c.port) == parse_u16(value_or(port, "3000"@))
            }),
    {
        let database_url = match database_url {
            Some(v) => v,
            None => {
                return Err(String::from_str("DATABASE_URL must be set"));
            },
        };
        let jwt_secret = match jwt_secret {
            Some(v) => v,
            None => {
                return Err(String::from_str("JWT_SECRET must be set"));
            },
        };
        if jwt_secret.as_str().as_bytes().len() < 32 {
            return Err(String::from_str("JWT_SECRET must be at least 32 characters"));
        }
        let admin_email = match admin_email {
            Some(v) => v,
            None => String::from_str("admin@example.com"),
        };
        let admin_password = match admin_password {
            Some(v) => v,
            None => {
                return Err(String::from_str("ADMIN_PASSWORD must be set"));
            },
        };
        let origins_raw = match allowed_origins {
            Some(v) => v,
            None => String::from_str("http://localhost:3000"),
        };
        let allowed_origins = split_commas_trimmed(origins_raw.as_str());
        let port_raw = match port {
            Some(v) => v,
            None => String::from_str("3000"),
        };
        let port = match parse_u16_str(port_raw.as_str()) {
            Some(p) => p,
            None => {
                return Err(String::from_str("PORT must be a valid number"));
            },
        };
        Ok(AppConfig { database_url, jwt_secret, admin_email, admin_password, allowed_origins, port })
    }
}

} // verus!
