use vstd::prelude::*;

verus! {

/// Capacity of the asset whitelist, and of the per-participant balance table.
pub const MAX_TOKEN: usize = 20;

/// Base-currency amount escrowed when a vault or a participant record is set up.
pub const INIT_DEPOSIT_AMOUNT: u64 = 1_000_000;

} // verus!
