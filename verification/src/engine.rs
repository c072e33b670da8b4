//! The aggregation cycle for the layer-1 chains.
//!
//! A cycle asks for the market data, then for the gas price, then for the
//! throughput estimates, and answers with the completed snapshots. The calls
//! themselves are made elsewhere: a [`Cycle`] takes what came back and says
//! what to do next. Market data and gas price are mandatory, and the lack of
//! either fails the whole cycle; an estimator without a rate only leaves one
//! snapshot without a throughput.

use crate::error::Error;
use crate::estimator::Family;
use crate::snapshot::{
    attach_gas, base_snapshots, base_snapshots_of, estimator_plan, estimator_plan_of, family_of,
    market_views, merge_estimates, outcome_views, snapshot_views, with_estimates, with_gas,
    ChainSnapshot, ChainSnapshotView, MarketRecord, MarketRecordView,
};
use crate::text::uppercase_of;
use crate::throughput::{Estimate, Outcome};
use vstd::prelude::*;

verus! {

/// The identifiers of the chains that a cycle asks the market provider for,
/// separated by commas.
pub fn market_ids() -> (ids: &'static str)
    ensures
        ids@ == "aptos,sui,sei-network,ethereum"@,
{
    "aptos,sui,sei-network,ethereum"
}

/// What a cycle wants done next.
#[derive(Debug, PartialEq)]
pub enum Command<N> {
    /// Ask the market provider for the fixed set of chains.
    FetchMarkets,
    /// Ask the gas oracle for the safe gas price.
    FetchGas,
    /// Run the estimators of the plan, all of them to the end whatever any
    /// one of them gives, and hand back one result per slot. The plan has
    /// one slot per snapshot, empty where no estimator serves the chain.
    RunEstimators(Vec<Option<Family>>),
    /// Answer the request: the completed snapshots in the market provider's
    /// order, or the one failure.
    Respond(Result<Vec<ChainSnapshot<N>>, Error>),
}

/// The mathematical content of a [`Command`].
pub enum CommandView<N> {
    FetchMarkets,
    FetchGas,
    RunEstimators(Seq<Option<Family>>),
    Respond(Result<Seq<ChainSnapshotView<N>>, Error>),
}

impl<N> View for Command<N> {
    type V = CommandView<N>;

    open spec fn view(&self) -> CommandView<N> {
        match *self {
            Command::FetchMarkets => CommandView::FetchMarkets,
            Command::FetchGas => CommandView::FetchGas,
            Command::RunEstimators(plan) => CommandView::RunEstimators(plan@),
            Command::Respond(Ok(chains)) => CommandView::Respond(Ok(snapshot_views(chains@))),
            Command::Respond(Err(error)) => CommandView::Respond(Err(error)),
        }
    }
}

/// What came back for a command.
#[derive(Debug, Clone, PartialEq)]
pub enum Event<N> {
    /// The market provider's answer, or nothing where the call failed or its
    /// body did not have the expected shape.
    Markets(Option<Vec<MarketRecord<N>>>),
    /// The safe gas price as the oracle reports it, or nothing where the
    /// call failed or its body did not have the expected shape.
    Gas(Option<String>),
    /// The estimators' results, one slot per slot of the plan.
    Estimates(Vec<Option<Estimate>>),
}

/// The mathematical content of an [`Event`].
pub enum EventView<N> {
    Markets(Option<Seq<MarketRecordView<N>>>),
    Gas(Option<Seq<char>>),
    Estimates(Seq<Option<Outcome>>),
}

impl<N> View for Event<N> {
    type V = EventView<N>;

    open spec fn view(&self) -> EventView<N> {
        match *self {
            Event::Markets(Some(records)) => EventView::Markets(Some(market_views(records@))),
            Event::Markets(None) => EventView::Markets(None),
            Event::Gas(Some(price)) => EventView::Gas(Some(price@)),
            Event::Gas(None) => EventView::Gas(None),
            Event::Estimates(results) => EventView::Estimates(outcome_views(results@)),
        }
    }
}

/// A cycle between two calls: what it waits for, and the snapshots as far
/// as they are built.
#[derive(Debug, Clone, PartialEq)]
pub enum Cycle<N> {
    AwaitMarkets,
    AwaitGas { chains: Vec<ChainSnapshot<N>> },
    AwaitEstimates { chains: Vec<ChainSnapshot<N>> },
    /// The request has been answered.
    Finished,
}

/// The mathematical content of a [`Cycle`].
pub enum CycleView<N> {
    AwaitMarkets,
    AwaitGas { chains: Seq<ChainSnapshotView<N>> },
    AwaitEstimates { chains: Seq<ChainSnapshotView<N>> },
    Finished,
}

impl<N> View for Cycle<N> {
    type V = CycleView<N>;

    open spec fn view(&self) -> CycleView<N> {
        match *self {
            Cycle::AwaitMarkets => CycleView::AwaitMarkets,
            Cycle::AwaitGas { chains } => CycleView::AwaitGas { chains: snapshot_views(chains@) },
            Cycle::AwaitEstimates { chains } => CycleView::AwaitEstimates {
                chains: snapshot_views(chains@),
            },
            Cycle::Finished => CycleView::Finished,
        }
    }
}

/// A cycle that ends in the one failure, with no snapshot handed out.
pub open spec fn failed<N>() -> (CycleView<N>, CommandView<N>) {
    (CycleView::Finished, CommandView::Respond(Err(Error::ApiRequestFailed)))
}

/// What a cycle does with an event.
///
/// The market answer becomes the base snapshots, and the gas price is asked
/// for. The gas price is attached, and the estimators are planned. The
/// estimators' results are merged, and the snapshots are the answer. A
/// missing market answer or gas price, an event of another kind than the one
/// awaited, and any event after the answer end the cycle in failure.
pub open spec fn step_of<N>(state: CycleView<N>, event: EventView<N>) -> (
    CycleView<N>,
    CommandView<N>,
) {
    match (state, event) {
        (CycleView::AwaitMarkets, EventView::Markets(Some(records))) => (
            CycleView::AwaitGas { chains: base_snapshots_of(records) },
            CommandView::FetchGas,
        ),
        (CycleView::AwaitGas { chains }, EventView::Gas(Some(price))) => (
            CycleView::AwaitEstimates { chains: with_gas(chains, price) },
            CommandView::RunEstimators(estimator_plan_of(with_gas(chains, price))),
        ),
        (CycleView::AwaitEstimates { chains }, EventView::Estimates(results)) => (
            CycleView::Finished,
            CommandView::Respond(Ok(with_estimates(chains, results))),
        ),
        _ => failed(),
    }
}

impl<N: Copy> Cycle<N> {
    /// Begins a cycle; its first command is to fetch the market data.
    pub fn start() -> (begun: (Cycle<N>, Command<N>))
        ensures
            begun.0@ == CycleView::<N>::AwaitMarkets,
            begun.1@ == CommandView::<N>::FetchMarkets,
    {
        (Cycle::AwaitMarkets, Command::FetchMarkets)
    }

    /// Takes what came back for the last command and says what to do next.
    pub fn step(self, event: Event<N>) -> (next: (Cycle<N>, Command<N>))
        ensures
            (next.0@, next.1@) == step_of(self@, event@),
    {
        match (self, event) {
            (Cycle::AwaitMarkets, Event::Markets(Some(records))) => {
                let chains = base_snapshots(&records);
                (Cycle::AwaitGas { chains }, Command::FetchGas)
            },
            (Cycle::AwaitGas { chains }, Event::Gas(Some(price))) => {
                let mut chains = chains;
                attach_gas(&mut chains, price.as_str());
                let plan = estimator_plan(&chains);
                (Cycle::AwaitEstimates { chains }, Command::RunEstimators(plan))
            },
            (Cycle::AwaitEstimates { chains }, Event::Estimates(results)) => {
                let mut chains = chains;
                merge_estimates(&mut chains, &results);
                (Cycle::Finished, Command::Respond(Ok(chains)))
            },
            _ => (Cycle::Finished, Command::Respond(Err(Error::ApiRequestFailed))),
        }
    }
}

/// The answer of a whole cycle for what the three upstreams gave: the base
/// snapshots with the gas price attached and the estimates merged, or the
/// one failure where market data or gas price is missing.
pub open spec fn chain_snapshots_of<N>(
    markets: Option<Seq<MarketRecordView<N>>>,
    gas: Option<Seq<char>>,
    results: Seq<Option<Outcome>>,
) -> Result<Seq<ChainSnapshotView<N>>, Error> {
    match (markets, gas) {
        (Some(records), Some(price)) => Ok(
            with_estimates(with_gas(base_snapshots_of(records), price), results),
        ),
        _ => Err(Error::ApiRequestFailed),
    }
}

/// A cycle that is given market data, a gas price and the estimators'
/// results, in this order, answers with exactly the snapshots of
/// [`chain_snapshots_of`].
pub proof fn lemma_cycle_answers<N>(
    records: Seq<MarketRecordView<N>>,
    price: Seq<char>,
    results: Seq<Option<Outcome>>,
)
    ensures
        ({
            let first = step_of(CycleView::AwaitMarkets, EventView::Markets(Some(records)));
            let second = step_of(first.0, EventView::Gas(Some(price)));
            let third = step_of(second.0, EventView::<N>::Estimates(results));
            &&& first.1 == CommandView::<N>::FetchGas
            &&& second.1 is RunEstimators
            &&& third.0 == CycleView::<N>::Finished
            &&& third.1 == CommandView::Respond(
                chain_snapshots_of(Some(records), Some(price), results),
            )
        }),
{
}

/// A cycle whose market data is missing fails at once, and a cycle whose gas
/// price is missing fails as soon as that is known. Either way the answer is
/// the one failure, and no snapshot is handed out.
pub proof fn lemma_missing_upstream_fails<N>(chains: Seq<ChainSnapshotView<N>>)
    ensures
        step_of(CycleView::<N>::AwaitMarkets, EventView::Markets(None)) == failed::<N>(),
        step_of(CycleView::AwaitGas { chains }, EventView::Gas(None)) == failed::<N>(),
        failed::<N>().1 == CommandView::<N>::Respond(Err(Error::ApiRequestFailed)),
{
}

/// Every snapshot of a cycle's answer stands where its market record stood
/// and carries that record's name and its symbol in upper case, whatever the
/// gas price and the estimators' results are.
pub proof fn lemma_symbols_are_upper_cased<N>(
    records: Seq<MarketRecordView<N>>,
    price: Seq<char>,
    results: Seq<Option<Outcome>>,
)
    ensures
        chain_snapshots_of(Some(records), Some(price), results) matches Ok(chains) && {
            &&& chains.len() == records.len()
            &&& forall|i: int|
                0 <= i < records.len() ==> {
                    &&& (#[trigger] chains[i]).symbol == uppercase_of(records[i].symbol)
                    &&& chains[i].name == records[i].name
                }
        },
{
}

/// A snapshot of a cycle's answer shows a throughput exactly where the
/// chain has an estimator and that estimator gave a rate, and what it shows
/// is that rate. A degraded estimate, an empty slot and a chain without an
/// estimator all leave the throughput absent.
pub proof fn lemma_throughput_only_from_a_rate<N>(
    records: Seq<MarketRecordView<N>>,
    price: Seq<char>,
    results: Seq<Option<Outcome>>,
    i: int,
)
    requires
        0 <= i < records.len(),
    ensures
        chain_snapshots_of(Some(records), Some(price), results) matches Ok(chains) && {
            &&& chains[i].tps is Some <==> (i < results.len() && family_of(records[i].name)
                is Some && results[i] matches Some(Outcome::Rate(_)))
            &&& chains[i].tps matches Some(text) ==> results[i] matches Some(Outcome::Rate(rate))
                && text == rate.rendered()
        },
{
}

/// A cycle never gives more than three commands after the first: whatever
/// the events are, it has answered after the third, and from then on it
/// stays finished.
pub proof fn lemma_cycle_finishes<N>(
    first: EventView<N>,
    second: EventView<N>,
    third: EventView<N>,
    later: EventView<N>,
)
    ensures
        ({
            let one = step_of(CycleView::AwaitMarkets, first);
            let two = step_of(one.0, second);
            let three = step_of(two.0, third);
            &&& three.0 == CycleView::<N>::Finished
            &&& one.1 is Respond ==> one.0 == CycleView::<N>::Finished
            &&& two.1 is Respond ==> two.0 == CycleView::<N>::Finished
            &&& three.1 is Respond || two.1 is Respond || one.1 is Respond
        }),
        step_of(CycleView::Finished, later) == failed::<N>(),
{
}

} // verus!
