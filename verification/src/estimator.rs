//! Throughput estimators, one per chain family.
//!
//! Every estimator compares the most recent unit of its chain with a
//! reference unit a fixed distance earlier. The calls that fetch the units
//! are made elsewhere: an [`Estimator`] says which unit to ask for next and,
//! once it has what it needs, what the estimate is.

use crate::rfc3339::{millis_between, rfc3339_millis_between};
use crate::text::{decimal_digits, decimal_of, lemma_decimal_round_trip, parse_decimal};
use crate::throughput::{Degradation, Estimate, Outcome, Rate, TimeUnit};
use vstd::prelude::*;

verus! {

/// The three shapes of chain that an estimator exists for.
#[derive(Debug, Clone, Copy, PartialEq, Eq, Structural)]
pub enum Family {
    /// Blocks found by height, stamped in microseconds.
    HeightIndexed,
    /// Checkpoints found by sequence number, stamped in milliseconds, each
    /// carrying the network-wide total of transactions so far.
    CheckpointSequence,
    /// Blocks found by height, stamped with an RFC 3339 date-time.
    Tendermint,
}

impl Family {
    /// How many units before the latest one the reference unit lies.
    pub open spec fn distance(self) -> nat {
        match self {
            Family::HeightIndexed => 1,
            Family::CheckpointSequence => 10,
            Family::Tendermint => 1,
        }
    }

    /// How many units before the latest one the reference unit lies.
    pub fn reference_distance(&self) -> (distance: u64)
        ensures
            distance == self.distance(),
    {
        match self {
            Family::HeightIndexed => 1,
            Family::CheckpointSequence => 10,
            Family::Tendermint => 1,
        }
    }
}

/// A block of a height-indexed chain, as far as an estimator reads it.
#[derive(Debug, Clone, PartialEq)]
pub struct HeightBlock {
    /// The height, as a decimal numeral.
    pub block_height: String,
    /// Microseconds since the epoch, as a decimal numeral.
    pub block_timestamp: String,
    /// How many transactions the block lists; 0 where the list was left out.
    pub transactions: u64,
}

/// The mathematical content of a [`HeightBlock`].
pub struct HeightBlockView {
    pub block_height: Seq<char>,
    pub block_timestamp: Seq<char>,
    pub transactions: u64,
}

impl View for HeightBlock {
    type V = HeightBlockView;

    open spec fn view(&self) -> HeightBlockView {
        HeightBlockView {
            block_height: self.block_height@,
            block_timestamp: self.block_timestamp@,
            transactions: self.transactions,
        }
    }
}

/// A checkpoint of a checkpoint-sequence chain, as far as an estimator
/// reads it.
#[derive(Debug, Clone, PartialEq)]
pub struct Checkpoint {
    /// The sequence number, as a decimal numeral.
    pub sequence_number: String,
    /// Milliseconds since the epoch, as a decimal numeral.
    pub timestamp_ms: String,
    /// Transactions on the whole network up to this checkpoint, as a
    /// decimal numeral.
    pub network_total_transactions: String,
}

/// The mathematical content of a [`Checkpoint`].
pub struct CheckpointView {
    pub sequence_number: Seq<char>,
    pub timestamp_ms: Seq<char>,
    pub network_total_transactions: Seq<char>,
}

impl View for Checkpoint {
    type V = CheckpointView;

    open spec fn view(&self) -> CheckpointView {
        CheckpointView {
            sequence_number: self.sequence_number@,
            timestamp_ms: self.timestamp_ms@,
            network_total_transactions: self.network_total_transactions@,
        }
    }
}

/// A block of a Tendermint-style chain, as far as an estimator reads it.
#[derive(Debug, Clone, PartialEq)]
pub struct TendermintBlock {
    /// The height, as a decimal numeral.
    pub height: String,
    /// The block time, as an RFC 3339 date-time.
    pub time: String,
    /// How many transaction ids the block lists.
    pub transactions: u64,
}

/// The mathematical content of a [`TendermintBlock`].
pub struct TendermintBlockView {
    pub height: Seq<char>,
    pub time: Seq<char>,
    pub transactions: u64,
}

impl View for TendermintBlock {
    type V = TendermintBlockView;

    open spec fn view(&self) -> TendermintBlockView {
        TendermintBlockView {
            height: self.height@,
            time: self.time@,
            transactions: self.transactions,
        }
    }
}

/// The index of the reference unit for a latest index given as text: the
/// latest index less the distance. A text that is no numeral is unreadable,
/// and an index smaller than the distance has no reference unit.
pub open spec fn reference_index_of(latest: Seq<char>, distance: nat) -> Result<u64, Degradation> {
    match decimal_of(latest) {
        Some(index) => if index >= distance {
            Ok((index - distance) as u64)
        } else {
            Err(Degradation::IndexTooSmall)
        },
        None => Err(Degradation::UnreadableField),
    }
}

/// Finds the index of the reference unit from the latest index.
pub fn reference_index(latest: &str, family: Family) -> (index: Result<u64, Degradation>)
    ensures
        index == reference_index_of(latest@, family.distance()),
{
    let distance: u64 = family.reference_distance();
    match parse_decimal(latest) {
        Some(index) => if index >= distance {
            Ok(index - distance)
        } else {
            Err(Degradation::IndexTooSmall)
        },
        None => Err(Degradation::UnreadableField),
    }
}

/// The time from a reference timestamp to a latest one, both given as
/// decimal numerals in the same unit. Time that is not positive is no
/// elapsed time.
pub open spec fn elapsed_between(latest: Seq<char>, reference: Seq<char>) -> Result<
    nat,
    Degradation,
> {
    match (decimal_of(latest), decimal_of(reference)) {
        (Some(end), Some(start)) => if end > start {
            Ok((end - start) as nat)
        } else {
            Err(Degradation::NoElapsedTime)
        },
        _ => Err(Degradation::UnreadableField),
    }
}

/// Measures the time from a reference timestamp to a latest one.
pub fn elapsed_ticks(latest: &str, reference: &str) -> (elapsed: Result<u64, Degradation>)
    ensures
        match elapsed {
            Ok(ticks) => elapsed_between(latest@, reference@) == Ok::<nat, Degradation>(
                ticks as nat,
            ),
            Err(reason) => elapsed_between(latest@, reference@) == Err::<nat, Degradation>(reason),
        },
{
    let end = parse_decimal(latest);
    let start = parse_decimal(reference);
    match (end, start) {
        (Some(end), Some(start)) => if end > start {
            Ok(end - start)
        } else {
            Err(Degradation::NoElapsedTime)
        },
        _ => Err(Degradation::UnreadableField),
    }
}

/// The estimate of a height-indexed chain: the transactions of the latest
/// block alone over the microseconds since the reference block. What the
/// reference block lists is not subtracted.
pub open spec fn height_indexed_outcome(
    latest: HeightBlockView,
    reference: HeightBlockView,
) -> Outcome {
    match elapsed_between(latest.block_timestamp, reference.block_timestamp) {
        Ok(elapsed) => Outcome::Rate(
            Rate {
                transactions: latest.transactions as nat,
                elapsed,
                unit: TimeUnit::Microseconds,
            },
        ),
        Err(reason) => Outcome::Degraded(reason),
    }
}

/// Estimates the throughput of a height-indexed chain from its latest block
/// and the block one height earlier.
pub fn height_indexed_estimate(latest: &HeightBlock, reference: &HeightBlock) -> (estimate:
    Estimate)
    ensures
        estimate@ == height_indexed_outcome(latest@, reference@),
{
    match elapsed_ticks(latest.block_timestamp.as_str(), reference.block_timestamp.as_str()) {
        Ok(elapsed) => Estimate::over(latest.transactions, elapsed, TimeUnit::Microseconds),
        Err(reason) => Estimate::Degraded(reason),
    }
}

/// The estimate of a checkpoint-sequence chain: the growth of the
/// network-wide total between the two checkpoints over the milliseconds
/// between them.
pub open spec fn checkpoint_outcome(latest: CheckpointView, reference: CheckpointView) -> Outcome {
    match (
        decimal_of(latest.network_total_transactions),
        decimal_of(reference.network_total_transactions),
    ) {
        (Some(end_total), Some(start_total)) => match elapsed_between(
            latest.timestamp_ms,
            reference.timestamp_ms,
        ) {
            Ok(elapsed) => if end_total >= start_total {
                Outcome::Rate(
                    Rate {
                        transactions: (end_total - start_total) as nat,
                        elapsed,
                        unit: TimeUnit::Milliseconds,
                    },
                )
            } else {
                Outcome::Degraded(Degradation::CounterWentBack)
            },
            Err(reason) => Outcome::Degraded(reason),
        },
        _ => Outcome::Degraded(Degradation::UnreadableField),
    }
}

/// Estimates the throughput of a checkpoint-sequence chain from its latest
/// checkpoint and the checkpoint ten sequence numbers earlier.
pub fn checkpoint_estimate(latest: &Checkpoint, reference: &Checkpoint) -> (estimate: Estimate)
    ensures
        estimate@ == checkpoint_outcome(latest@, reference@),
{
    let end_total = parse_decimal(latest.network_total_transactions.as_str());
    let start_total = parse_decimal(reference.network_total_transactions.as_str());
    match (end_total, start_total) {
        (Some(end_total), Some(start_total)) => match elapsed_ticks(
            latest.timestamp_ms.as_str(),
            reference.timestamp_ms.as_str(),
        ) {
            Ok(elapsed) => if end_total >= start_total {
                Estimate::over(end_total - start_total, elapsed, TimeUnit::Milliseconds)
            } else {
                Estimate::Degraded(Degradation::CounterWentBack)
            },
            Err(reason) => Estimate::Degraded(reason),
        },
        _ => Estimate::Degraded(Degradation::UnreadableField),
    }
}

/// The estimate of a Tendermint-style chain once the time between its two
/// blocks is known: `transactions` over `elapsed` milliseconds, where
/// `elapsed` is nothing if a block time could not be read.
pub open spec fn tendermint_outcome_over(transactions: u64, elapsed: Option<i64>) -> Outcome {
    match elapsed {
        Some(millis) => if millis > 0 {
            Outcome::Rate(
                Rate {
                    transactions: transactions as nat,
                    elapsed: millis as nat,
                    unit: TimeUnit::Milliseconds,
                },
            )
        } else {
            Outcome::Degraded(Degradation::NoElapsedTime)
        },
        None => Outcome::Degraded(Degradation::UnreadableField),
    }
}

/// Estimates the throughput of a Tendermint-style chain from the
/// transactions of its latest block and the milliseconds since the
/// reference block.
pub fn tendermint_estimate_over(transactions: u64, elapsed: Option<i64>) -> (estimate: Estimate)
    ensures
        estimate@ == tendermint_outcome_over(transactions, elapsed),
{
    match elapsed {
        Some(millis) => if millis > 0 {
            Estimate::over(transactions, millis as u64, TimeUnit::Milliseconds)
        } else {
            Estimate::Degraded(Degradation::NoElapsedTime)
        },
        None => Estimate::Degraded(Degradation::UnreadableField),
    }
}

/// The estimate of a Tendermint-style chain: the transactions of the latest
/// block alone over the milliseconds between the two block times.
pub open spec fn tendermint_outcome(
    latest: TendermintBlockView,
    reference: TendermintBlockView,
) -> Outcome {
    tendermint_outcome_over(
        latest.transactions,
        rfc3339_millis_between(latest.time, reference.time),
    )
}

/// Estimates the throughput of a Tendermint-style chain from its latest
/// block and the block one height earlier.
pub fn tendermint_estimate(latest: &TendermintBlock, reference: &TendermintBlock) -> (estimate:
    Estimate)
    ensures
        estimate@ == tendermint_outcome(latest@, reference@),
{
    let elapsed = millis_between(latest.time.as_str(), reference.time.as_str());
    tendermint_estimate_over(latest.transactions, elapsed)
}

/// A unit that an estimator asks for.
#[derive(Debug, Clone, Copy, PartialEq, Eq, Structural)]
pub enum Request {
    /// The most recent block of a height-indexed chain, with its
    /// transactions.
    LatestHeightBlock,
    /// The block of a height-indexed chain at a height; its transactions may
    /// be left out.
    HeightBlockAt(u64),
    /// The sequence number of the most recent checkpoint.
    LatestCheckpointNumber,
    /// The checkpoint with a sequence number.
    CheckpointAt(u64),
    /// The most recent block of a Tendermint-style chain.
    LatestTendermintBlock,
    /// The block of a Tendermint-style chain at a height.
    TendermintBlockAt(u64),
}

/// What came back for a request.
#[derive(Debug, Clone, PartialEq)]
pub enum Reply {
    /// The call failed, or its body did not have the expected shape.
    Unavailable,
    HeightBlock(HeightBlock),
    /// A checkpoint's sequence number, as a decimal numeral.
    CheckpointNumber(String),
    Checkpoint(Checkpoint),
    TendermintBlock(TendermintBlock),
}

/// The mathematical content of a [`Reply`].
pub enum ReplyView {
    Unavailable,
    HeightBlock(HeightBlockView),
    CheckpointNumber(Seq<char>),
    Checkpoint(CheckpointView),
    TendermintBlock(TendermintBlockView),
}

impl View for Reply {
    type V = ReplyView;

    open spec fn view(&self) -> ReplyView {
        match *self {
            Reply::Unavailable => ReplyView::Unavailable,
            Reply::HeightBlock(block) => ReplyView::HeightBlock(block@),
            Reply::CheckpointNumber(number) => ReplyView::CheckpointNumber(number@),
            Reply::Checkpoint(checkpoint) => ReplyView::Checkpoint(checkpoint@),
            Reply::TendermintBlock(block) => ReplyView::TendermintBlock(block@),
        }
    }
}

/// What an estimator wants next: another unit, or nothing more because the
/// estimate is made.
#[derive(Debug, Clone, Copy, PartialEq)]
pub enum Step {
    Ask(Request),
    Done(Estimate),
}

/// The mathematical content of a [`Step`].
pub enum StepView {
    Ask(Request),
    Done(Outcome),
}

impl View for Step {
    type V = StepView;

    open spec fn view(&self) -> StepView {
        match *self {
            Step::Ask(request) => StepView::Ask(request),
            Step::Done(estimate) => StepView::Done(estimate@),
        }
    }
}

/// An estimator between two calls: what it waits for and what it has kept
/// of the replies so far.
#[allow(inconsistent_fields)]
#[derive(Debug, Clone, PartialEq)]
pub enum Estimator {
    AwaitLatestHeightBlock,
    AwaitReferenceHeightBlock { latest: HeightBlock },
    AwaitCheckpointNumber,
    /// Waits for the latest checkpoint; `reference` is the sequence number
    /// to ask for after it.
    AwaitLatestCheckpoint { reference: u64 },
    AwaitReferenceCheckpoint { latest: Checkpoint },
    AwaitLatestTendermintBlock,
    AwaitReferenceTendermintBlock { latest: TendermintBlock },
    /// The estimate has been given.
    Finished,
}

/// The mathematical content of an [`Estimator`].
#[allow(inconsistent_fields)]
pub enum EstimatorView {
    AwaitLatestHeightBlock,
    AwaitReferenceHeightBlock { latest: HeightBlockView },
    AwaitCheckpointNumber,
    AwaitLatestCheckpoint { reference: u64 },
    AwaitReferenceCheckpoint { latest: CheckpointView },
    AwaitLatestTendermintBlock,
    AwaitReferenceTendermintBlock { latest: TendermintBlockView },
    Finished,
}

impl View for Estimator {
    type V = EstimatorView;

    open spec fn view(&self) -> EstimatorView {
        match *self {
            Estimator::AwaitLatestHeightBlock => EstimatorView::AwaitLatestHeightBlock,
            Estimator::AwaitReferenceHeightBlock { latest } => {
                EstimatorView::AwaitReferenceHeightBlock { latest: latest@ }
            },
            Estimator::AwaitCheckpointNumber => EstimatorView::AwaitCheckpointNumber,
            Estimator::AwaitLatestCheckpoint { reference } => {
                EstimatorView::AwaitLatestCheckpoint { reference }
            },
            Estimator::AwaitReferenceCheckpoint { latest } => {
                EstimatorView::AwaitReferenceCheckpoint { latest: latest@ }
            },
            Estimator::AwaitLatestTendermintBlock => EstimatorView::AwaitLatestTendermintBlock,
            Estimator::AwaitReferenceTendermintBlock { latest } => {
                EstimatorView::AwaitReferenceTendermintBlock { latest: latest@ }
            },
            Estimator::Finished => EstimatorView::Finished,
        }
    }
}

/// Where an estimator of a family begins, and the first unit it asks for.
pub open spec fn opening(family: Family) -> (EstimatorView, Request) {
    match family {
        Family::HeightIndexed => (
            EstimatorView::AwaitLatestHeightBlock,
            Request::LatestHeightBlock,
        ),
        Family::CheckpointSequence => (
            EstimatorView::AwaitCheckpointNumber,
            Request::LatestCheckpointNumber,
        ),
        Family::Tendermint => (
            EstimatorView::AwaitLatestTendermintBlock,
            Request::LatestTendermintBlock,
        ),
    }
}

/// An estimator that stops with a degraded estimate.
pub open spec fn stopped(reason: Degradation) -> (EstimatorView, StepView) {
    (EstimatorView::Finished, StepView::Done(Outcome::Degraded(reason)))
}

/// An estimator that stops with an estimate.
pub open spec fn concluded(outcome: Outcome) -> (EstimatorView, StepView) {
    (EstimatorView::Finished, StepView::Done(outcome))
}

/// What an estimator does with a reply.
///
/// A latest unit whose index gives a reference index is kept, and the
/// reference unit is asked for; the reference unit concludes the estimate.
/// A checkpoint-sequence estimator first learns the latest sequence number
/// and asks for that checkpoint. A failed call, a reply of another kind than
/// the one awaited, and any reply after the estimate was given stop the
/// estimator as unavailable.
pub open spec fn advance_of(state: EstimatorView, reply: ReplyView) -> (EstimatorView, StepView) {
    match (state, reply) {
        (EstimatorView::AwaitLatestHeightBlock, ReplyView::HeightBlock(latest)) => {
            match reference_index_of(latest.block_height, Family::HeightIndexed.distance()) {
                Ok(height) => (
                    EstimatorView::AwaitReferenceHeightBlock { latest },
                    StepView::Ask(Request::HeightBlockAt(height)),
                ),
                Err(reason) => stopped(reason),
            }
        },
        (
            EstimatorView::AwaitReferenceHeightBlock { latest },
            ReplyView::HeightBlock(reference),
        ) => concluded(height_indexed_outcome(latest, reference)),
        (EstimatorView::AwaitCheckpointNumber, ReplyView::CheckpointNumber(number)) => {
            match reference_index_of(number, Family::CheckpointSequence.distance()) {
                Ok(reference) => (
                    EstimatorView::AwaitLatestCheckpoint { reference },
                    StepView::Ask(Request::CheckpointAt((reference + 10) as u64)),
                ),
                Err(reason) => stopped(reason),
            }
        },
        (EstimatorView::AwaitLatestCheckpoint { reference }, ReplyView::Checkpoint(latest)) => (
            EstimatorView::AwaitReferenceCheckpoint { latest },
            StepView::Ask(Request::CheckpointAt(reference)),
        ),
        (EstimatorView::AwaitReferenceCheckpoint { latest }, ReplyView::Checkpoint(reference)) => {
            concluded(checkpoint_outcome(latest, reference))
        },
        (EstimatorView::AwaitLatestTendermintBlock, ReplyView::TendermintBlock(latest)) => {
            match reference_index_of(latest.height, Family::Tendermint.distance()) {
                Ok(height) => (
                    EstimatorView::AwaitReferenceTendermintBlock { latest },
                    StepView::Ask(Request::TendermintBlockAt(height)),
                ),
                Err(reason) => stopped(reason),
            }
        },
        (
            EstimatorView::AwaitReferenceTendermintBlock { latest },
            ReplyView::TendermintBlock(reference),
        ) => concluded(tendermint_outcome(latest, reference)),
        _ => stopped(Degradation::Unavailable),
    }
}

impl Estimator {
    /// Begins an estimate for a chain of the given family and says which
    /// unit to fetch first.
    pub fn start(family: Family) -> (begun: (Estimator, Request))
        ensures
            (begun.0@, begun.1) == opening(family),
    {
        match family {
            Family::HeightIndexed => (
                Estimator::AwaitLatestHeightBlock,
                Request::LatestHeightBlock,
            ),
            Family::CheckpointSequence => (
                Estimator::AwaitCheckpointNumber,
                Request::LatestCheckpointNumber,
            ),
            Family::Tendermint => (
                Estimator::AwaitLatestTendermintBlock,
                Request::LatestTendermintBlock,
            ),
        }
    }

    /// Takes the reply to the last request and says what to do next.
    pub fn advance(self, reply: Reply) -> (next: (Estimator, Step))
        ensures
            (next.0@, next.1@) == advance_of(self@, reply@),
    {
        match (self, reply) {
            (Estimator::AwaitLatestHeightBlock, Reply::HeightBlock(latest)) => {
                match reference_index(latest.block_height.as_str(), Family::HeightIndexed) {
                    Ok(height) => (
                        Estimator::AwaitReferenceHeightBlock { latest },
                        Step::Ask(Request::HeightBlockAt(height)),
                    ),
                    Err(reason) => (Estimator::Finished, Step::Done(Estimate::Degraded(reason))),
                }
            },
            (Estimator::AwaitReferenceHeightBlock { latest }, Reply::HeightBlock(reference)) => {
                (Estimator::Finished, Step::Done(height_indexed_estimate(&latest, &reference)))
            },
            (Estimator::AwaitCheckpointNumber, Reply::CheckpointNumber(number)) => {
                match reference_index(number.as_str(), Family::CheckpointSequence) {
                    Ok(reference) => (
                        Estimator::AwaitLatestCheckpoint { reference },
                        Step::Ask(Request::CheckpointAt(reference + 10)),
                    ),
                    Err(reason) => (Estimator::Finished, Step::Done(Estimate::Degraded(reason))),
                }
            },
            (Estimator::AwaitLatestCheckpoint { reference }, Reply::Checkpoint(latest)) => (
                Estimator::AwaitReferenceCheckpoint { latest },
                Step::Ask(Request::CheckpointAt(reference)),
            ),
            (Estimator::AwaitReferenceCheckpoint { latest }, Reply::Checkpoint(reference)) => {
                (Estimator::Finished, Step::Done(checkpoint_estimate(&latest, &reference)))
            },
            (Estimator::AwaitLatestTendermintBlock, Reply::TendermintBlock(latest)) => {
                match reference_index(latest.height.as_str(), Family::Tendermint) {
                    Ok(height) => (
                        Estimator::AwaitReferenceTendermintBlock { latest },
                        Step::Ask(Request::TendermintBlockAt(height)),
                    ),
                    Err(reason) => (Estimator::Finished, Step::Done(Estimate::Degraded(reason))),
                }
            },
            (
                Estimator::AwaitReferenceTendermintBlock { latest },
                Reply::TendermintBlock(reference),
            ) => (Estimator::Finished, Step::Done(tendermint_estimate(&latest, &reference))),
            _ => (Estimator::Finished, Step::Done(Estimate::Degraded(Degradation::Unavailable))),
        }
    }
}

/// No estimator gives a rate unless time has elapsed between its two
/// samples. Where the latest sample is not later than the reference sample,
/// the estimate of every family is degraded, and a degraded estimate shows
/// no throughput at all: not zero, and nothing negative. Every rate that is
/// given has a window longer than zero.
pub proof fn lemma_rate_needs_elapsed_time(
    latest_block: HeightBlockView,
    reference_block: HeightBlockView,
    latest_checkpoint: CheckpointView,
    reference_checkpoint: CheckpointView,
    transactions: u64,
    elapsed: Option<i64>,
)
    ensures
        (decimal_of(latest_block.block_timestamp) matches Some(end) && decimal_of(
            reference_block.block_timestamp,
        ) matches Some(start) && end <= start) ==> height_indexed_outcome(
            latest_block,
            reference_block,
        ) == Outcome::Degraded(Degradation::NoElapsedTime),
        (decimal_of(latest_checkpoint.timestamp_ms) matches Some(end) && decimal_of(
            reference_checkpoint.timestamp_ms,
        ) matches Some(start) && end <= start) ==> checkpoint_outcome(
            latest_checkpoint,
            reference_checkpoint,
        ) is Degraded,
        (elapsed matches Some(millis) && millis <= 0) ==> tendermint_outcome_over(
            transactions,
            elapsed,
        ) == Outcome::Degraded(Degradation::NoElapsedTime),
        height_indexed_outcome(latest_block, reference_block) matches Outcome::Rate(rate)
            ==> rate.elapsed > 0,
        checkpoint_outcome(latest_checkpoint, reference_checkpoint) matches Outcome::Rate(rate)
            ==> rate.elapsed > 0,
        tendermint_outcome_over(transactions, elapsed) matches Outcome::Rate(rate) ==> rate.elapsed
            > 0,
        forall|reason: Degradation| #[trigger] Outcome::Degraded(reason).shown() is None,
{
}

/// The checkpoint at a sequence number of a chain that runs at a constant
/// rate: every checkpoint adds `per_checkpoint` transactions to the
/// network-wide total and comes `spacing` milliseconds after the one before.
pub open spec fn steady_checkpoint(
    first_total: nat,
    per_checkpoint: nat,
    first_stamp: nat,
    spacing: nat,
    sequence: nat,
) -> CheckpointView {
    CheckpointView {
        sequence_number: decimal_digits(sequence),
        timestamp_ms: decimal_digits(first_stamp + spacing * sequence),
        network_total_transactions: decimal_digits(first_total + per_checkpoint * sequence),
    }
}

/// On a chain that runs at a constant rate, the estimate from two
/// checkpoints ten apart does not depend on where in the chain the two were
/// taken. Where time passes between checkpoints, it is always the growth of
/// the total over ten checkpoints, divided by the time that ten checkpoints
/// take.
pub proof fn lemma_checkpoint_rate_ignores_position(
    first_total: nat,
    per_checkpoint: nat,
    first_stamp: nat,
    spacing: nat,
    here: nat,
    there: nat,
)
    requires
        here >= 10,
        there >= 10,
        first_total + per_checkpoint * here <= u64::MAX,
        first_total + per_checkpoint * there <= u64::MAX,
        first_stamp + spacing * here <= u64::MAX,
        first_stamp + spacing * there <= u64::MAX,
    ensures
        checkpoint_outcome(
            steady_checkpoint(first_total, per_checkpoint, first_stamp, spacing, here),
            steady_checkpoint(
                first_total,
                per_checkpoint,
                first_stamp,
                spacing,
                (here - 10) as nat,
            ),
        ) == checkpoint_outcome(
            steady_checkpoint(first_total, per_checkpoint, first_stamp, spacing, there),
            steady_checkpoint(
                first_total,
                per_checkpoint,
                first_stamp,
                spacing,
                (there - 10) as nat,
            ),
        ),
        spacing > 0 ==> checkpoint_outcome(
            steady_checkpoint(first_total, per_checkpoint, first_stamp, spacing, here),
            steady_checkpoint(
                first_total,
                per_checkpoint,
                first_stamp,
                spacing,
                (here - 10) as nat,
            ),
        ) == Outcome::Rate(
            Rate {
                transactions: 10 * per_checkpoint,
                elapsed: 10 * spacing,
                unit: TimeUnit::Milliseconds,
            },
        ),
{
    lemma_steady_window(first_total, per_checkpoint, first_stamp, spacing, here);
    lemma_steady_window(first_total, per_checkpoint, first_stamp, spacing, there);
}

/// The estimate from the checkpoint at a sequence number and the one ten
/// before it, on a chain that runs at a constant rate.
proof fn lemma_steady_window(
    first_total: nat,
    per_checkpoint: nat,
    first_stamp: nat,
    spacing: nat,
    sequence: nat,
)
    requires
        sequence >= 10,
        first_total + per_checkpoint * sequence <= u64::MAX,
        first_stamp + spacing * sequence <= u64::MAX,
    ensures
        checkpoint_outcome(
            steady_checkpoint(first_total, per_checkpoint, first_stamp, spacing, sequence),
            steady_checkpoint(
                first_total,
                per_checkpoint,
                first_stamp,
                spacing,
                (sequence - 10) as nat,
            ),
        ) == (if spacing > 0 {
            Outcome::Rate(
                Rate {
                    transactions: 10 * per_checkpoint,
                    elapsed: 10 * spacing,
                    unit: TimeUnit::Milliseconds,
                },
            )
        } else {
            Outcome::Degraded(Degradation::NoElapsedTime)
        }),
{
    let earlier = (sequence - 10) as nat;
    assert(per_checkpoint * sequence == per_checkpoint * earlier + 10 * per_checkpoint)
        by (nonlinear_arith)
        requires
            sequence == earlier + 10,
    ;
    assert(spacing * sequence == spacing * earlier + 10 * spacing) by (nonlinear_arith)
        requires
            sequence == earlier + 10,
    ;
    lemma_decimal_round_trip(first_total + per_checkpoint * sequence);
    lemma_decimal_round_trip(first_total + per_checkpoint * earlier);
    lemma_decimal_round_trip(first_stamp + spacing * sequence);
    lemma_decimal_round_trip(first_stamp + spacing * earlier);
}

/// An estimator never asks for more than three units: whatever the replies
/// are, it has given its estimate after the third, and from then on it
/// stays finished.
pub proof fn lemma_estimator_finishes(
    family: Family,
    first: ReplyView,
    second: ReplyView,
    third: ReplyView,
    later: ReplyView,
)
    ensures
        ({
            let begun = opening(family).0;
            let one = advance_of(begun, first);
            let two = advance_of(one.0, second);
            let three = advance_of(two.0, third);
            &&& three.0 == EstimatorView::Finished
            &&& one.1 is Done ==> one.0 == EstimatorView::Finished
            &&& two.1 is Done ==> two.0 == EstimatorView::Finished
            &&& three.1 is Done || two.1 is Done || one.1 is Done
        }),
        advance_of(EstimatorView::Finished, later) == stopped(Degradation::Unavailable),
{
}

} // verus!
