//! Resonate transport plugins: every provider call as a durable promise.
//!
//! Each plugin turns one delivered promise into a verdict (resolve, reject,
//! halt or release). The deciding logic lives here as verified state
//! machines; the caller performs the HTTP requests and sleeps that the
//! machines ask for and feeds the outcomes back.

pub mod json;
pub mod text;
pub mod verdict;
pub mod http;
pub mod clock;
pub mod frame;
pub mod promise;
pub mod args;
pub mod query;
pub mod worker;

pub mod airflow;
pub mod bannerbear;
pub mod baserow;
pub mod elasticsearch;
pub mod gotify;
pub mod grafana;
pub mod n8n;
pub mod rundeck;
