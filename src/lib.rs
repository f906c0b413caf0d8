//! Host-based reverse-proxy gateway logic: routing a request by its `Host`
//! header through a static table, planning the single outbound call, and
//! mapping the outcome to the response.
pub mod gateway;
pub mod laws;
pub mod router;
