//! A verified dispatch bridge between an HTTP transport and an embedded,
//! single-threaded scripting runtime.
//!
//! The library holds the logic of the bridge: marshaling an inbound request
//! into the read-only capability object handed to the script, converting the
//! script's loosely-typed return value into a typed response, and mapping
//! script failures to an error response. The transport itself and the
//! scripting engine live outside the library; they hand it plain values.

pub mod http;
pub mod lua_service;
