//! A protocol-translation gateway core: weather-observation submissions
//! arrive as plain values decoded from HTTP/JSON, their category fields are
//! mapped to the backend's numeric codes, the request is forwarded to the
//! backend service under exclusive access, and the backend's outcome is
//! translated back into a uniform response envelope.

pub mod endpoint;
pub mod json;
pub mod manager;
pub mod mapper;
pub mod messages;
pub mod translate;
