//! A small HTTP server as a library of decisions.
//!
//! The library turns the bytes of one request into a response. It opens no
//! socket, starts no thread and reads no file: `router::handle_connection`
//! looks at the request and either has the response or names the backing
//! file it needs, and `router::resume` goes on once the caller has read that
//! file. The `pool` module keeps the books of a worker pool in the same way:
//! it says which task a worker runs next, and the caller owns the threads.
//!
//! Every function carries a contract over a mathematical model of its
//! arguments. The contracts are proved, but for the few in the module
//! `trusted`, which are believed: they speak of the decoding of UTF-8, of
//! regular expressions and of JSON.

pub mod config;
pub mod error;
pub mod handlers;
pub mod number;
pub mod pool;
pub mod query;
pub mod request;
pub mod response;
pub mod router;
pub mod search;
pub mod step;
pub mod text;
pub mod trusted;
