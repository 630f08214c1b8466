//! Metering of the simulator's calls, and the DynamoDB capacity they cost.

use vstd::prelude::*;

use std::sync::atomic::AtomicU64;

verus! {

/// Counters of the simulator's calls, shared by all bots.
#[derive(Debug)]
pub struct CostMetrics {
    /// GraphQL mutations sent (HTTP calls).
    pub graphql_mutations: AtomicU64,
    pub register_new_player: AtomicU64,
    pub buy_baby_yak: AtomicU64,
    pub sell_grown_yak: AtomicU64,
    pub buy_grown_yak: AtomicU64,
    pub sell_unsheared_yak: AtomicU64,
    pub buy_unsheared_yak: AtomicU64,
    pub sell_sheared_yak: AtomicU64,
    /// Real-time messages received over all subscriptions.
    pub ws_messages_received: AtomicU64,
    /// Time connected, summed over all subscriptions, in milliseconds.
    pub ws_connection_ms: AtomicU64,
}

impl CostMetrics {
    /// Counters that all start at zero.
    pub fn new() -> Self {
        CostMetrics {
            graphql_mutations: AtomicU64::new(0),
            register_new_player: AtomicU64::new(0),
            buy_baby_yak: AtomicU64::new(0),
            sell_grown_yak: AtomicU64::new(0),
            buy_grown_yak: AtomicU64::new(0),
            sell_unsheared_yak: AtomicU64::new(0),
            buy_unsheared_yak: AtomicU64::new(0),
            sell_sheared_yak: AtomicU64::new(0),
            ws_messages_received: AtomicU64::new(0),
            ws_connection_ms: AtomicU64::new(0),
        }
    }
}

/// The mutations of the game API.
#[derive(Debug, Clone, Copy, PartialEq, Eq, Structural)]
pub enum Mutation {
    RegisterNewPlayer,
    BuyBabyYak,
    SellGrownYak,
    BuyGrownYak,
    SellUnshearedYak,
    BuyUnshearedYak,
    SellShearedYak,
}

/// The mutation at a position of the cost report's order.
pub open spec fn mutation_at(i: int) -> Mutation {
    if i == 0 {
        Mutation::RegisterNewPlayer
    } else if i == 1 {
        Mutation::BuyBabyYak
    } else if i == 2 {
        Mutation::SellGrownYak
    } else if i == 3 {
        Mutation::BuyGrownYak
    } else if i == 4 {
        Mutation::SellUnshearedYak
    } else if i == 5 {
        Mutation::BuyUnshearedYak
    } else {
        Mutation::SellShearedYak
    }
}

/// The DynamoDB requests one mutation makes: standard reads, standard
/// writes and transactional writes.
#[derive(Debug, Clone, Copy, PartialEq, Eq, Structural)]
pub struct DdbProfile {
    pub std_reads: u64,
    pub std_writes: u64,
    pub tx_writes: u64,
}

/// The DynamoDB requests of each mutation.
pub open spec fn spec_profile(m: Mutation) -> DdbProfile {
    match m {
        Mutation::RegisterNewPlayer => DdbProfile { std_reads: 0, std_writes: 2, tx_writes: 0 },
        Mutation::BuyBabyYak => DdbProfile { std_reads: 3, std_writes: 1, tx_writes: 2 },
        Mutation::SellGrownYak => DdbProfile { std_reads: 2, std_writes: 1, tx_writes: 3 },
        Mutation::BuyGrownYak => DdbProfile { std_reads: 4, std_writes: 1, tx_writes: 3 },
        Mutation::SellUnshearedYak => DdbProfile { std_reads: 2, std_writes: 1, tx_writes: 3 },
        Mutation::BuyUnshearedYak => DdbProfile { std_reads: 4, std_writes: 1, tx_writes: 3 },
        Mutation::SellShearedYak => DdbProfile { std_reads: 2, std_writes: 1, tx_writes: 2 },
    }
}

impl Mutation {
    /// The DynamoDB requests the mutation makes.
    pub fn profile(self) -> (r: DdbProfile)
        ensures
            r == spec_profile(self),
    {
        match self {
            Mutation::RegisterNewPlayer => DdbProfile { std_reads: 0, std_writes: 2, tx_writes: 0 },
            Mutation::BuyBabyYak => DdbProfile { std_reads: 3, std_writes: 1, tx_writes: 2 },
            Mutation::SellGrownYak => DdbProfile { std_reads: 2, std_writes: 1, tx_writes: 3 },
            Mutation::BuyGrownYak => DdbProfile { std_reads: 4, std_writes: 1, tx_writes: 3 },
            Mutation::SellUnshearedYak => DdbProfile { std_reads: 2, std_writes: 1, tx_writes: 3 },
            Mutation::BuyUnshearedYak => DdbProfile { std_reads: 4, std_writes: 1, tx_writes: 3 },
            Mutation::SellShearedYak => DdbProfile { std_reads: 2, std_writes: 1, tx_writes: 2 },
        }
    }

    /// The mutations, in the cost report's order.
    pub fn all() -> (r: [Mutation; 7])
        ensures
            forall|i: int| 0 <= i < 7 ==> #[trigger] r@[i] == mutation_at(i),
    {
        [
            Mutation::RegisterNewPlayer,
            Mutation::BuyBabyYak,
            Mutation::SellGrownYak,
            Mutation::BuyGrownYak,
            Mutation::SellUnshearedYak,
            Mutation::BuyUnshearedYak,
            Mutation::SellShearedYak,
        ]
    }
}

/// The DynamoDB requests of the mutations counted in `counts` (in the cost
/// report's order), summed up to position `n`.
pub open spec fn total_reads(counts: Seq<u64>, n: int) -> int
    decreases n,
{
    if n <= 0 {
        0
    } else {
        total_reads(counts, n - 1) + counts[n - 1] * spec_profile(mutation_at(n - 1)).std_reads
    }
}

pub open spec fn total_writes(counts: Seq<u64>, n: int) -> int
    decreases n,
{
    if n <= 0 {
        0
    } else {
        total_writes(counts, n - 1) + counts[n - 1] * spec_profile(mutation_at(n - 1)).std_writes
    }
}

pub open spec fn total_tx_writes(counts: Seq<u64>, n: int) -> int
    decreases n,
{
    if n <= 0 {
        0
    } else {
        total_tx_writes(counts, n - 1) + counts[n - 1] * spec_profile(mutation_at(n - 1)).tx_writes
    }
}

proof fn lemma_totals_monotonic(counts: Seq<u64>, i: int, n: int)
    requires
        0 <= i <= n,
    ensures
        0 <= total_reads(counts, i) <= total_reads(counts, n),
        0 <= total_writes(counts, i) <= total_writes(counts, n),
        0 <= total_tx_writes(counts, i) <= total_tx_writes(counts, n),
    decreases n,
{
    if n > 0 {
        if i < n {
            lemma_totals_monotonic(counts, i, n - 1);
        }
        lemma_totals_monotonic(counts, n - 1, n - 1);
        assert(counts[n - 1] * spec_profile(mutation_at(n - 1)).std_reads >= 0) by (nonlinear_arith)
            requires
                counts[n - 1] >= 0,
                spec_profile(mutation_at(n - 1)).std_reads >= 0,
        ;
        assert(counts[n - 1] * spec_profile(mutation_at(n - 1)).std_writes >= 0) by (nonlinear_arith)
            requires
                counts[n - 1] >= 0,
                spec_profile(mutation_at(n - 1)).std_writes >= 0,
        ;
        assert(counts[n - 1] * spec_profile(mutation_at(n - 1)).tx_writes >= 0) by (nonlinear_arith)
            requires
                counts[n - 1] >= 0,
                spec_profile(mutation_at(n - 1)).tx_writes >= 0,
        ;
    }
}

/// DynamoDB request totals.
#[derive(Debug, Clone, Copy, PartialEq, Eq, Structural)]
pub struct DdbTotals {
    pub std_reads: u64,
    pub std_writes: u64,
    pub tx_writes: u64,
}

/// The DynamoDB requests made by the mutations counted in `counts` (in the
/// cost report's order): for each kind of request, the sum over mutations
/// of their count times the requests each makes.
pub fn ddb_totals(counts: [u64; 7]) -> (r: DdbTotals)
    requires
        total_reads(counts@, 7) <= u64::MAX,
        total_writes(counts@, 7) <= u64::MAX,
        total_tx_writes(counts@, 7) <= u64::MAX,
    ensures
        r.std_reads == total_reads(counts@, 7),
        r.std_writes == total_writes(counts@, 7),
        r.tx_writes == total_tx_writes(counts@, 7),
{
    let mutations = Mutation::all();
    let mut total_std_reads: u64 = 0;
    let mut total_std_writes: u64 = 0;
    let mut total_tx: u64 = 0;
    let mut i: usize = 0;
    while i < 7
        invariant
            0 <= i <= 7,
            forall|t: int| 0 <= t < 7 ==> #[trigger] mutations@[t] == mutation_at(t),
            total_reads(counts@, 7) <= u64::MAX,
            total_writes(counts@, 7) <= u64::MAX,
            total_tx_writes(counts@, 7) <= u64::MAX,
            total_std_reads == total_reads(counts@, i as int),
            total_std_writes == total_writes(counts@, i as int),
            total_tx == total_tx_writes(counts@, i as int),
        decreases 7 - i,
    {
        let count = counts[i];
        let profile = mutations[i].profile();
        proof {
            lemma_totals_monotonic(counts@, i + 1, 7);
            lemma_totals_monotonic(counts@, i as int, i as int);
        }
        total_std_reads = total_std_reads + count * profile.std_reads;
        total_std_writes = total_std_writes + count * profile.std_writes;
        total_tx = total_tx + count * profile.tx_writes;
        i += 1;
    }
    DdbTotals { std_reads: total_std_reads, std_writes: total_std_writes, tx_writes: total_tx }
}

/// The unit a quantity is reported in.
#[derive(Debug, Clone, Copy, PartialEq, Eq, Structural)]
pub enum QtyScale {
    Millions,
    Thousands,
    Units,
}

/// Quantities from a million up are reported in millions, from a thousand
/// up in thousands, smaller ones as they are.
pub fn qty_scale(n: u64) -> (r: QtyScale)
    ensures
        r == (if n >= 1_000_000 {
            QtyScale::Millions
        } else if n >= 1_000 {
            QtyScale::Thousands
        } else {
            QtyScale::Units
        }),
{
    if n >= 1_000_000 {
        QtyScale::Millions
    } else if n >= 1_000 {
        QtyScale::Thousands
    } else {
        QtyScale::Units
    }
}

} // verus!
