//! A cooperative, poll-based stream combinator: items pulled from an
//! asynchronous source sequence are passed, one at a time, through an
//! asynchronous and possibly-suspending transform, and handed downstream
//! under the same poll protocol the combinator itself consumes.

pub mod fixtures;
pub mod interface;
pub mod outcome;
pub mod stream;
