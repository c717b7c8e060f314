//! An SSL-terminating reverse proxy core: request dispatch, header hygiene,
//! WebSocket message translation, certificate lifecycle decisions, the ACME
//! challenge endpoint and TLS material loading, all with verified contracts.
pub mod certs;
pub mod config;
pub mod dispatch;
pub mod headers;
pub mod messages;
pub mod redirect;
pub mod text;
pub mod tls;
