//! The records of one aggregation cycle for layer-1 chains: what the market
//! provider reports, the snapshot built from it, and the steps that complete
//! a snapshot with a gas price and a throughput.
//!
//! The numeric type `N` of prices and capitalizations is the caller's. The
//! engine hands such numbers on and never computes with them.

use crate::estimator::Family;
use crate::explorer::{explorer_url_of, get_explorer_url};
use crate::text::{str_equals, to_uppercase, uppercase_of};
use crate::throughput::{Estimate, Outcome};
use vstd::prelude::*;
use vstd::string::StringExecFns;

verus! {

/// One record of the market provider's answer. Each of the three numbers
/// may be missing on its own.
#[derive(Debug, Clone, PartialEq)]
pub struct MarketRecord<N> {
    pub id: String,
    pub symbol: String,
    pub name: String,
    pub current_price: Option<N>,
    pub market_cap: Option<N>,
    pub price_change_percentage_24h: Option<N>,
}

/// The mathematical content of a [`MarketRecord`].
pub struct MarketRecordView<N> {
    pub id: Seq<char>,
    pub symbol: Seq<char>,
    pub name: Seq<char>,
    pub current_price: Option<N>,
    pub market_cap: Option<N>,
    pub price_change_percentage_24h: Option<N>,
}

impl<N> View for MarketRecord<N> {
    type V = MarketRecordView<N>;

    open spec fn view(&self) -> MarketRecordView<N> {
        MarketRecordView {
            id: self.id@,
            symbol: self.symbol@,
            name: self.name@,
            current_price: self.current_price,
            market_cap: self.market_cap,
            price_change_percentage_24h: self.price_change_percentage_24h,
        }
    }
}

/// The normalized view of one layer-1 chain.
#[derive(Debug, Clone, PartialEq)]
pub struct ChainSnapshot<N> {
    pub name: String,
    /// The ticker symbol, in upper case.
    pub symbol: String,
    pub price_usd: Option<N>,
    pub market_cap: Option<N>,
    pub price_change_24h: Option<N>,
    /// Present only for the chain that has a gas oracle.
    pub gas_fees: Option<String>,
    /// Transactions per second with two decimal places; absent whenever the
    /// chain's estimator has no rate.
    pub tps: Option<String>,
    /// Not filled in for layer-1 chains.
    pub tvl: Option<N>,
    /// Empty where the chain's identifier is not in the explorer directory.
    pub explorer_url: String,
}

/// The mathematical content of a [`ChainSnapshot`].
pub struct ChainSnapshotView<N> {
    pub name: Seq<char>,
    pub symbol: Seq<char>,
    pub price_usd: Option<N>,
    pub market_cap: Option<N>,
    pub price_change_24h: Option<N>,
    pub gas_fees: Option<Seq<char>>,
    pub tps: Option<Seq<char>>,
    pub tvl: Option<N>,
    pub explorer_url: Seq<char>,
}

/// The mathematical content of a text that may be absent.
pub open spec fn text_view(text: Option<String>) -> Option<Seq<char>> {
    match text {
        Some(t) => Some(t@),
        None => None,
    }
}

impl<N> View for ChainSnapshot<N> {
    type V = ChainSnapshotView<N>;

    open spec fn view(&self) -> ChainSnapshotView<N> {
        ChainSnapshotView {
            name: self.name@,
            symbol: self.symbol@,
            price_usd: self.price_usd,
            market_cap: self.market_cap,
            price_change_24h: self.price_change_24h,
            gas_fees: text_view(self.gas_fees),
            tps: text_view(self.tps),
            tvl: self.tvl,
            explorer_url: self.explorer_url@,
        }
    }
}

/// The mathematical content of a list of market records.
pub open spec fn market_views<N>(records: Seq<MarketRecord<N>>) -> Seq<MarketRecordView<N>> {
    records.map_values(|record: MarketRecord<N>| record@)
}

/// The mathematical content of a list of snapshots.
pub open spec fn snapshot_views<N>(chains: Seq<ChainSnapshot<N>>) -> Seq<ChainSnapshotView<N>> {
    chains.map_values(|chain: ChainSnapshot<N>| chain@)
}

/// The snapshot of a market record under a given symbol: name and numbers
/// as reported, the explorer address of the record's identifier, and no gas
/// price, throughput or locked value yet.
pub open spec fn snapshot_under<N>(
    record: MarketRecordView<N>,
    symbol: Seq<char>,
) -> ChainSnapshotView<N> {
    ChainSnapshotView {
        name: record.name,
        symbol,
        price_usd: record.current_price,
        market_cap: record.market_cap,
        price_change_24h: record.price_change_percentage_24h,
        gas_fees: None,
        tps: None,
        tvl: None,
        explorer_url: explorer_url_of(record.id),
    }
}

/// The snapshot that a market record starts as: its symbol in upper case.
pub open spec fn base_snapshot_of<N>(record: MarketRecordView<N>) -> ChainSnapshotView<N> {
    snapshot_under(record, uppercase_of(record.symbol))
}

/// The snapshots that a market answer starts as, one per record and in the
/// answer's order.
pub open spec fn base_snapshots_of<N>(records: Seq<MarketRecordView<N>>) -> Seq<
    ChainSnapshotView<N>,
> {
    records.map_values(|record: MarketRecordView<N>| base_snapshot_of(record))
}

/// Builds the snapshot of a market record under a symbol that the caller
/// has normalized.
pub fn snapshot_with_symbol<N: Copy>(record: &MarketRecord<N>, symbol: String) -> (chain:
    ChainSnapshot<N>)
    ensures
        chain@ == snapshot_under(record@, symbol@),
{
    ChainSnapshot {
        name: record.name.clone(),
        symbol,
        price_usd: record.current_price,
        market_cap: record.market_cap,
        price_change_24h: record.price_change_percentage_24h,
        gas_fees: None,
        tps: None,
        tvl: None,
        explorer_url: get_explorer_url(record.id.as_str()),
    }
}

/// Builds the snapshot that a market record starts as.
pub fn base_snapshot<N: Copy>(record: &MarketRecord<N>) -> (chain: ChainSnapshot<N>)
    ensures
        chain@ == base_snapshot_of(record@),
        chain@.symbol == uppercase_of(record@.symbol),
{
    snapshot_with_symbol(record, to_uppercase(record.symbol.as_str()))
}

/// Builds the snapshots that a market answer starts as.
pub fn base_snapshots<N: Copy>(records: &Vec<MarketRecord<N>>) -> (chains: Vec<ChainSnapshot<N>>)
    ensures
        snapshot_views(chains@) == base_snapshots_of(market_views(records@)),
        chains@.len() == records@.len(),
        forall|i: int|
            0 <= i < records@.len() ==> (#[trigger] chains@[i])@.symbol == uppercase_of(
                records@[i]@.symbol,
            ),
{
    let mut chains: Vec<ChainSnapshot<N>> = Vec::new();
    let mut i: usize = 0;
    while i < records.len()
        invariant
            0 <= i <= records@.len(),
            chains@.len() == i,
            forall|j: int|
                0 <= j < i ==> (#[trigger] chains@[j])@ == base_snapshot_of(records@[j]@),
        decreases records@.len() - i,
    {
        chains.push(base_snapshot(&records[i]));
        i += 1;
    }
    chains
}

/// The family of estimator that serves a chain, chosen by the chain's name;
/// nothing for a chain that no estimator serves.
pub open spec fn family_of(name: Seq<char>) -> Option<Family> {
    if name == "Aptos"@ {
        Some(Family::HeightIndexed)
    } else if name == "Sui"@ {
        Some(Family::CheckpointSequence)
    } else if name == "Sei"@ {
        Some(Family::Tendermint)
    } else {
        None
    }
}

/// Chooses the family of estimator for a chain by the chain's name.
pub fn estimator_family(name: &str) -> (family: Option<Family>)
    ensures
        family == family_of(name@),
{
    if str_equals(name, "Aptos") {
        Some(Family::HeightIndexed)
    } else if str_equals(name, "Sui") {
        Some(Family::CheckpointSequence)
    } else if str_equals(name, "Sei") {
        Some(Family::Tendermint)
    } else {
        None
    }
}

/// The estimators to run for a list of snapshots: one slot per snapshot, in
/// order, empty where no estimator serves the chain.
pub open spec fn estimator_plan_of<N>(chains: Seq<ChainSnapshotView<N>>) -> Seq<Option<Family>> {
    chains.map_values(|chain: ChainSnapshotView<N>| family_of(chain.name))
}

/// Plans the estimators to run for a list of snapshots.
pub fn estimator_plan<N>(chains: &Vec<ChainSnapshot<N>>) -> (plan: Vec<Option<Family>>)
    ensures
        plan@ == estimator_plan_of(snapshot_views(chains@)),
{
    let mut plan: Vec<Option<Family>> = Vec::new();
    let mut i: usize = 0;
    while i < chains.len()
        invariant
            0 <= i <= chains@.len(),
            plan@.len() == i,
            forall|j: int| 0 <= j < i ==> #[trigger] plan@[j] == family_of(chains@[j]@.name),
        decreases chains@.len() - i,
    {
        plan.push(estimator_family(chains[i].name.as_str()));
        i += 1;
    }
    plan
}

/// The gas summary for a safe gas price: the price as reported, a space and
/// the unit.
pub open spec fn gas_summary_of(safe_price: Seq<char>) -> Seq<char> {
    safe_price + " Gwei"@
}

/// Formats a safe gas price with its unit.
pub fn gas_summary(safe_price: &str) -> (summary: String)
    ensures
        summary@ == gas_summary_of(safe_price@),
{
    let mut summary = safe_price.to_owned();
    summary.append(" Gwei");
    summary
}

/// Whether the snapshot at `index` is the first one with the given name.
pub open spec fn is_first_named<N>(
    chains: Seq<ChainSnapshotView<N>>,
    name: Seq<char>,
    index: int,
) -> bool {
    &&& 0 <= index < chains.len()
    &&& chains[index].name == name
    &&& forall|k: int| 0 <= k < index ==> (#[trigger] chains[k]).name != name
}

/// A snapshot with the gas summary for a safe gas price.
pub open spec fn priced<N>(chain: ChainSnapshotView<N>, safe_price: Seq<char>) -> ChainSnapshotView<
    N,
> {
    ChainSnapshotView { gas_fees: Some(gas_summary_of(safe_price)), ..chain }
}

/// A list of snapshots after the gas price was attached: the first snapshot
/// named `Ethereum` carries the gas summary, and every other snapshot is as
/// it was. Where no snapshot has that name, nothing changes.
pub open spec fn with_gas<N>(chains: Seq<ChainSnapshotView<N>>, safe_price: Seq<char>) -> Seq<
    ChainSnapshotView<N>,
> {
    Seq::new(
        chains.len(),
        |i: int|
            if is_first_named(chains, "Ethereum"@, i) {
                priced(chains[i], safe_price)
            } else {
                chains[i]
            },
    )
}

/// Attaches the gas price to the chain that has a gas oracle.
pub fn attach_gas<N>(chains: &mut Vec<ChainSnapshot<N>>, safe_price: &str)
    ensures
        snapshot_views(final(chains)@) == with_gas(snapshot_views(old(chains)@), safe_price@),
{
    let ghost before = snapshot_views(chains@);
    let mut i: usize = 0;
    while i < chains.len()
        invariant
            0 <= i <= chains@.len(),
            before == snapshot_views(old(chains)@),
            snapshot_views(chains@) == before,
            forall|k: int| 0 <= k < i ==> (#[trigger] before[k]).name != "Ethereum"@,
        decreases chains@.len() - i,
    {
        if str_equals(chains[i].name.as_str(), "Ethereum") {
            let summary = gas_summary(safe_price);
            chains[i].gas_fees = Some(summary);
            proof {
                assert(is_first_named(before, "Ethereum"@, i as int));
            }
            return;
        }
        i += 1;
    }
}

/// A snapshot with the throughput that an outcome shows; a degraded outcome
/// leaves the snapshot as it was.
pub open spec fn rated<N>(chain: ChainSnapshotView<N>, outcome: Outcome) -> ChainSnapshotView<N> {
    match outcome {
        Outcome::Rate(rate) => ChainSnapshotView { tps: Some(rate.rendered()), ..chain },
        Outcome::Degraded(_) => chain,
    }
}

/// The estimate that belongs to the snapshot at `index`: the one in the
/// same slot of the results, where the chain has an estimator and the slot
/// is filled.
pub open spec fn estimate_for<N>(
    chains: Seq<ChainSnapshotView<N>>,
    results: Seq<Option<Outcome>>,
    index: int,
) -> Option<Outcome> {
    if 0 <= index < chains.len() && index < results.len() && family_of(chains[index].name)
        is Some {
        results[index]
    } else {
        None
    }
}

/// A list of snapshots after the estimators' results were merged: every
/// snapshot whose estimator gave a rate shows that rate, and every other
/// snapshot is as it was.
pub open spec fn with_estimates<N>(
    chains: Seq<ChainSnapshotView<N>>,
    results: Seq<Option<Outcome>>,
) -> Seq<ChainSnapshotView<N>> {
    Seq::new(
        chains.len(),
        |i: int|
            match estimate_for(chains, results, i) {
                Some(outcome) => rated(chains[i], outcome),
                None => chains[i],
            },
    )
}

/// The mathematical content of a list of results, one slot per snapshot.
pub open spec fn outcome_views(results: Seq<Option<Estimate>>) -> Seq<Option<Outcome>> {
    results.map_values(
        |slot: Option<Estimate>|
            match slot {
                Some(estimate) => Some(estimate@),
                None => None,
            },
    )
}

/// Merges the estimators' results into the snapshots they belong to.
pub fn merge_estimates<N>(chains: &mut Vec<ChainSnapshot<N>>, results: &Vec<Option<Estimate>>)
    ensures
        snapshot_views(final(chains)@) == with_estimates(
            snapshot_views(old(chains)@),
            outcome_views(results@),
        ),
{
    let ghost before = snapshot_views(chains@);
    let ghost outcomes = outcome_views(results@);
    let mut i: usize = 0;
    while i < chains.len()
        invariant
            0 <= i <= chains@.len(),
            before.len() == chains@.len(),
            outcomes == outcome_views(results@),
            forall|k: int|
                0 <= k < i ==> (#[trigger] chains@[k])@ == with_estimates(before, outcomes)[k],
            forall|k: int| i <= k < chains@.len() ==> (#[trigger] chains@[k])@ == before[k],
        decreases chains@.len() - i,
    {
        if i < results.len() {
            if let Some(estimate) = results[i] {
                if estimator_family(chains[i].name.as_str()).is_some() {
                    if let Some(text) = estimate.shown() {
                        chains[i].tps = Some(text);
                    }
                }
            }
        }
        i += 1;
    }
}

} // verus!
