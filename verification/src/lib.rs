//! A line-oriented broadcast library: one producer publishes newline-delimited
//! records into a bounded topic, and any number of independently paced
//! consumers read them through their own cursors. Slow consumers lag and skip
//! forward instead of stalling the producer; closing the topic terminates
//! every consumer. A header line can be turned into a field-index-to-name
//! mapping used to reshape raw lines into keyed records.
use vstd::prelude::*;

pub mod header;
pub mod input_handler;
pub mod lines;
pub mod server;
pub mod sink;
pub mod topic;

verus! {

/// Checked addition on `u64`; the sum must fit.
pub fn add(left: u64, right: u64) -> (r: u64)
    requires
        left + right <= u64::MAX,
    ensures
        r == left + right,
{
    left + right
}

} // verus!
