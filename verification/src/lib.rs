//! A client library for the Mistral AI platform API, with its request
//! logic, tool-call bookkeeping and wire identifiers verified by Verus.

pub mod v1;
