//! Verified core of a JWT-authenticated user backend: configuration checks,
//! pagination, bearer-token handling, access/refresh token issuance and the
//! decision logic of the register, login, refresh and admin-seeding flows.

pub mod error;
pub mod text;
pub mod clock;
pub mod config;
pub mod pagination;
pub mod ids;
pub mod users;
pub mod tokens;
pub mod password;
pub mod requests;
pub mod flows;

pub mod responses;
pub mod laws;
