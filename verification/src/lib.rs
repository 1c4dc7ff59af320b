//! Authentication and session-context subsystem of a server-rendered
//! membership site: password verification, session issuance, cookie-based
//! session lookup, and the per-request authorization guard, together with
//! the error taxonomy they share.
//!
//! Known gaps, kept as given rather than silently repaired: sessions have
//! no expiry, revocation or logout path — once created they are logically
//! permanent — and the session cookie is set without `HttpOnly`, `Secure`
//! or `SameSite` attributes.

pub mod assoc;
pub mod auth;
pub mod error;
pub mod guard;
pub mod messages;
pub mod pages;
pub mod session;
pub mod store;
pub mod verify;
