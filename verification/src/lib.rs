//! Core of an e-mail one-time-password (OTP) service.
//!
//! The library owns the OTP lifecycle: issuing a short-lived six-digit code
//! bound to a normalized e-mail address, storing it, verifying a submitted
//! code atomically under expiry and single-use constraints, and superseding
//! prior codes on resend. Transport concerns (HTTP, mail delivery, the
//! backing database connection) live outside the library and hand it plain
//! values.

pub mod email;
pub mod mail;
pub mod otp;
pub mod user;
