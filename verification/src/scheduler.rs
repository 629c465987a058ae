//! What a block knows of its scheduler.

use std::time::Instant;
use vstd::prelude::*;

verus! {

/// A point in time. The library only carries such values.
#[verifier::external_type_specification]
#[verifier::external_body]
pub struct ExInstant(Instant);

/// The sending half of a channel. The library only carries such values.
#[verifier::external_type_specification]
#[verifier::external_body]
#[verifier::reject_recursive_types(T)]
pub struct ExSender<T>(crossbeam_channel::Sender<T>);

/// A request to poll the block with the token `id` at `update_time`.
#[derive(Debug)]
pub struct Task {
    pub id: String,
    pub update_time: Instant,
}

} // verus!
