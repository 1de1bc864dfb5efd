//! The decision logic of a small subscription intake service.
//!
//! The service answers two requests. `GET /health_check` always succeeds with
//! an empty body. `POST /subscriptions` carries a form-encoded body with the
//! keys `name` and `email`; a body that decodes to both fields becomes one row
//! of the subscription table, anything else is turned away.
//!
//! Reading requests, talking to the database and writing responses are left to
//! the program around this crate. What the handlers decide is here, as plain
//! functions with contracts: [`routes::subscription::subscribe`] is the
//! transition function of a request, and the caller carries out the actions
//! it hands back. [`guarantees`] states what follows for a request as a whole.
//!
//! # What is taken on trust
//!
//! Three calls leave the verified code, each behind a private function whose
//! contract is believed, not proved:
//!
//! * `serde_urlencoded::from_bytes` takes a body apart into pairs. Its result
//!   is only given a name, [`routes::subscription::form_pairs`]; which pairs a
//!   body holds is not stated anywhere.
//! * `uuid::Uuid::new_v4` draws an identifier. It is taken to be of version 4.
//! * `chrono::Utc::now` reads the clock. Its subsecond part is taken to be
//!   less than a second.

pub mod guarantees;
pub mod record;
pub mod response;
pub mod routes;
pub mod storage;
