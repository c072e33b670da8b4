//! The records of the layer-2 request: what the protocol directory reports,
//! and the snapshots of the allowed layer-2 protocols chosen from it.
//!
//! This request stands alone: it shares nothing with the cycle for the
//! layer-1 chains, and neither waits for the other.

use crate::error::Error;
use crate::explorer::{explorer_key, explorer_key_of, explorer_url_of, get_explorer_url};
use crate::text::str_equals;
use vstd::prelude::*;

verus! {

/// One entry of the protocol directory.
#[derive(Debug, Clone, PartialEq)]
pub struct ProtocolRecord<N> {
    pub name: String,
    pub symbol: String,
    /// Total value locked, in US dollars.
    pub tvl: N,
    /// The chain that the protocol settles on.
    pub chain: String,
}

/// The mathematical content of a [`ProtocolRecord`].
pub struct ProtocolRecordView<N> {
    pub name: Seq<char>,
    pub symbol: Seq<char>,
    pub tvl: N,
    pub chain: Seq<char>,
}

impl<N> View for ProtocolRecord<N> {
    type V = ProtocolRecordView<N>;

    open spec fn view(&self) -> ProtocolRecordView<N> {
        ProtocolRecordView {
            name: self.name@,
            symbol: self.symbol@,
            tvl: self.tvl,
            chain: self.chain@,
        }
    }
}

/// The normalized view of one layer-2 protocol.
#[derive(Debug, Clone, PartialEq)]
pub struct L2Snapshot<N> {
    pub name: String,
    pub symbol: String,
    pub tvl: Option<N>,
    /// Empty where the protocol is not in the explorer directory.
    pub explorer_url: String,
}

/// The mathematical content of an [`L2Snapshot`].
pub struct L2SnapshotView<N> {
    pub name: Seq<char>,
    pub symbol: Seq<char>,
    pub tvl: Option<N>,
    pub explorer_url: Seq<char>,
}

impl<N> View for L2Snapshot<N> {
    type V = L2SnapshotView<N>;

    open spec fn view(&self) -> L2SnapshotView<N> {
        L2SnapshotView {
            name: self.name@,
            symbol: self.symbol@,
            tvl: self.tvl,
            explorer_url: self.explorer_url@,
        }
    }
}

/// The mathematical content of a list of directory entries.
pub open spec fn protocol_views<N>(records: Seq<ProtocolRecord<N>>) -> Seq<ProtocolRecordView<N>> {
    records.map_values(|record: ProtocolRecord<N>| record@)
}

/// The mathematical content of a list of layer-2 snapshots.
pub open spec fn l2_views<N>(snapshots: Seq<L2Snapshot<N>>) -> Seq<L2SnapshotView<N>> {
    snapshots.map_values(|snapshot: L2Snapshot<N>| snapshot@)
}

/// Whether a name is one of the allowed layer-2 protocols.
pub open spec fn is_l2_name(name: Seq<char>) -> bool {
    ||| name == "Arbitrum"@
    ||| name == "Optimism"@
    ||| name == "zkSync Era"@
    ||| name == "Base"@
}

/// Whether a directory entry is an allowed layer-2 protocol: its name is on
/// the list, and its chain is Ethereum.
pub open spec fn is_allowed_l2<N>(record: ProtocolRecordView<N>) -> bool {
    is_l2_name(record.name) && record.chain == "Ethereum"@
}

/// The snapshot of a directory entry: name, symbol and locked value as
/// reported, and the explorer address found under the name's directory key.
pub open spec fn l2_snapshot_of<N>(record: ProtocolRecordView<N>) -> L2SnapshotView<N> {
    L2SnapshotView {
        name: record.name,
        symbol: record.symbol,
        tvl: Some(record.tvl),
        explorer_url: explorer_url_of(explorer_key_of(record.name)),
    }
}

/// The snapshots of the allowed layer-2 protocols in a directory: one per
/// allowed entry, in the directory's order.
pub open spec fn l2_snapshots_of<N>(records: Seq<ProtocolRecordView<N>>) -> Seq<L2SnapshotView<N>> {
    records.filter(|record: ProtocolRecordView<N>| is_allowed_l2(record)).map_values(
        |record: ProtocolRecordView<N>| l2_snapshot_of(record),
    )
}

/// Tells whether a directory entry is an allowed layer-2 protocol.
pub fn allows_l2<N>(record: &ProtocolRecord<N>) -> (allowed: bool)
    ensures
        allowed == is_allowed_l2(record@),
{
    let name = record.name.as_str();
    let listed = str_equals(name, "Arbitrum") || str_equals(name, "Optimism") || str_equals(
        name,
        "zkSync Era",
    ) || str_equals(name, "Base");
    listed && str_equals(record.chain.as_str(), "Ethereum")
}

/// Builds the snapshot of a directory entry.
pub fn l2_snapshot<N: Copy>(record: &ProtocolRecord<N>) -> (snapshot: L2Snapshot<N>)
    ensures
        snapshot@ == l2_snapshot_of(record@),
{
    let key = explorer_key(record.name.as_str());
    L2Snapshot {
        name: record.name.clone(),
        symbol: record.symbol.clone(),
        tvl: Some(record.tvl),
        explorer_url: get_explorer_url(key.as_str()),
    }
}

/// Chooses the allowed layer-2 protocols from a directory and builds their
/// snapshots.
pub fn l2_snapshots<N: Copy>(records: &Vec<ProtocolRecord<N>>) -> (snapshots: Vec<L2Snapshot<N>>)
    ensures
        l2_views(snapshots@) == l2_snapshots_of(protocol_views(records@)),
{
    let ghost all = protocol_views(records@);
    let ghost allowed = |record: ProtocolRecordView<N>| is_allowed_l2(record);
    let ghost snap = |record: ProtocolRecordView<N>| l2_snapshot_of(record);
    let mut snapshots: Vec<L2Snapshot<N>> = Vec::new();
    let mut i: usize = 0;
    proof {
        reveal(Seq::filter);
    }
    while i < records.len()
        invariant
            0 <= i <= records@.len(),
            all == protocol_views(records@),
            allowed == |record: ProtocolRecordView<N>| is_allowed_l2(record),
            snap == |record: ProtocolRecordView<N>| l2_snapshot_of(record),
            l2_views(snapshots@) == all.take(i as int).filter(allowed).map_values(snap),
        decreases records@.len() - i,
    {
        let record = &records[i];
        proof {
            assert(all.take(i + 1).drop_last() =~= all.take(i as int));
            reveal(Seq::filter);
        }
        if allows_l2(record) {
            let ghost before = l2_views(snapshots@);
            snapshots.push(l2_snapshot(record));
            proof {
                assert(all.take(i + 1).filter(allowed) == all.take(i as int).filter(allowed).push(
                    record@,
                ));
                assert(l2_views(snapshots@) =~= before.push(l2_snapshot_of(record@)));
            }
        }
        i += 1;
    }
    proof {
        assert(all.take(i as int) =~= all);
    }
    snapshots
}

/// The mathematical content of what the protocol directory gave, where
/// nothing stands for a call that failed or a body of unexpected shape.
pub open spec fn directory_view<N>(directory: Option<Vec<ProtocolRecord<N>>>) -> Option<
    Seq<ProtocolRecordView<N>>,
> {
    match directory {
        Some(records) => Some(protocol_views(records@)),
        None => None,
    }
}

/// The mathematical content of an answer to the layer-2 request.
pub open spec fn l2_response_view<N>(response: Result<Vec<L2Snapshot<N>>, Error>) -> Result<
    Seq<L2SnapshotView<N>>,
    Error,
> {
    match response {
        Ok(snapshots) => Ok(l2_views(snapshots@)),
        Err(error) => Err(error),
    }
}

/// The answer to the layer-2 request for what the protocol directory gave:
/// the snapshots chosen from the directory, or the one failure where the
/// directory could not be had.
pub open spec fn l2_response_of<N>(directory: Option<Seq<ProtocolRecordView<N>>>) -> Result<
    Seq<L2SnapshotView<N>>,
    Error,
> {
    match directory {
        Some(records) => Ok(l2_snapshots_of(records)),
        None => Err(Error::ApiRequestFailed),
    }
}

/// Answers the layer-2 request from what the protocol directory gave. A
/// directory that could not be had fails the whole request.
pub fn l2_response<N: Copy>(directory: Option<Vec<ProtocolRecord<N>>>) -> (response: Result<
    Vec<L2Snapshot<N>>,
    Error,
>)
    ensures
        l2_response_view(response) == l2_response_of(directory_view(directory)),
        response is Err <==> directory is None,
{
    match directory {
        Some(records) => Ok(l2_snapshots(&records)),
        None => Err(Error::ApiRequestFailed),
    }
}

} // verus!
