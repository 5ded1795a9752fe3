//! Abuse control: the shapes of the counters that the request-handling layer
//! keeps beside the binding cache, and their lifetimes in seconds. The cache
//! itself neither fills nor reads them.

use std::collections::HashMap;
use std::collections::HashSet;
use std::sync::Arc;
use std::time::Instant;
use vstd::prelude::*;

verus! {

/// Per address: the block counter with its timestamp, and the set of
/// related ids with its timestamp.
pub type IpBlockMap = HashMap<String, ((u32, Instant), (HashSet<String>, Instant))>;

/// Per user credential: the cached status of the user.
pub type UserStatusMap = HashMap<Vec<u8>, Arc<(Option<Vec<u8>>, bool)>>;

/// Per address: the timestamp of the window, and per target id the number
/// of changes counted.
pub type IpChangesMap = HashMap<String, (Instant, HashMap<String, i32>)>;

/// Window over which changes of the target id from one address are counted.
pub const IP_CHANGE_DUR: u64 = 180;

/// Twice the change window.
pub const IP_CHANGE_DUR_X2: u64 = IP_CHANGE_DUR * 2;

/// Length of a day.
pub const DAY_SECONDS: u64 = 3600 * 24;

/// How long an address stays blocked.
pub const IP_BLOCK_DUR: u64 = 60;

} // verus!
