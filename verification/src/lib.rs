//! Resolution-and-estimation engine for account creation timestamps.
//!
//! An identity service assigns numeric identifiers to accounts roughly in
//! order of creation.  For an identifier whose profile is publicly
//! queryable, the true creation timestamp can be fetched once and cached;
//! for a private profile, the creation time is estimated by linear
//! interpolation between the two cached identifiers numerically closest to
//! the target, together with a margin of error for the estimate.
//!
//! This crate holds the verified core: the cache of confirmed facts
//! ([`store`]), the interpolation arithmetic ([`estimator`]), and the
//! resolution engine that ties them together ([`engine`]).  Network and
//! database transports are collaborators of the caller; the engine receives
//! their answers as plain values.

pub mod engine;
pub mod estimator;
pub mod math;
pub mod store;
