//! The ring-buffer transaction assembler: turns a candidate client record
//! and a fetched ring snapshot into the exact cell-level plan of a
//! create/update transaction. The plan is deterministic data; fee balancing
//! and wire encoding are the unverified transport's business.

use vstd::prelude::*;
use vstd::string::StringExecFns;

use crate::codec::{client_bytes, encode_client, encode_client_info, info_bytes, parse_client,
    CLIENT_CELL_SIZE};
use crate::errors::Error;
use crate::types::{Client, ClientInfo, ClientModel, OutPoint, UpdateCells};

verus! {

/// The same client record carrying another ring-slot id.
pub open spec fn retagged(c: ClientModel, id: u8) -> ClientModel {
    ClientModel { id, ..c }
}

/// Cell-level plan of a ledger transaction: the live cells it consumes, the
/// data of the cells it creates, and the proof payload witnessing the
/// transition. Well-formed and deterministic, but unsigned and not yet
/// fee-balanced.
pub struct TxPlan {
    pub inputs: Vec<OutPoint>,
    pub outputs_data: Vec<Vec<u8>>,
    pub proof_update: Vec<u8>,
}

/// Plans the update transaction for a ring-buffer family: spends the
/// `{oldest, latest, info}` cells of the fetched snapshot and creates the
/// new client cell — re-tagged with the oldest slot's id, since the ring
/// always overwrites the slot furthest behind — plus the bumped metadata
/// cell whose `last_id` names the slot just rewritten.
///
/// Fails exactly when the oldest cell's data does not parse as a client
/// record (the on-chain family does not match the configured layout).
pub fn plan_update_transaction(
    cells: &UpdateCells,
    new_client: &Client,
    minimal_updates_count: u8,
    proof_update: Vec<u8>,
) -> (r: Result<TxPlan, Error>)
    ensures
        r is Ok <==> cells.oldest.output_data@.len() == CLIENT_CELL_SIZE,
        r matches Ok(plan) ==> {
            let oldest_id = cells.oldest.output_data@[0];
            &&& plan.inputs@.len() == 3
            &&& plan.inputs@[0]@ == cells.oldest.out_point@
            &&& plan.inputs@[1]@ == cells.latest.out_point@
            &&& plan.inputs@[2]@ == cells.info.out_point@
            &&& plan.outputs_data@.len() == 2
            &&& plan.outputs_data@[0]@ == client_bytes(retagged(new_client@, oldest_id))
            &&& plan.outputs_data@[1]@ == info_bytes(
                ClientInfo { last_id: oldest_id, minimal_updates_count },
            )
            &&& plan.proof_update@ == proof_update@
        },
        r matches Err(e) ==> e is Configuration,
{
    let oldest = match parse_client(&cells.oldest.output_data) {
        Some(c) => c,
        None => {
            return Err(Error::Configuration {
                msg: String::from_str(
                    "oldest ring cell does not hold a client record of the configured layout",
                ),
            });
        },
    };
    let replacement = Client {
        id: oldest.id,
        minimal_slot: new_client.minimal_slot,
        maximal_slot: new_client.maximal_slot,
        tip_valid_header_root: crate::types::clone_bytes(&new_client.tip_valid_header_root),
        headers_mmr_root: crate::types::clone_bytes(&new_client.headers_mmr_root),
    };
    let bumped_info = ClientInfo { last_id: oldest.id, minimal_updates_count };

    let mut inputs: Vec<OutPoint> = Vec::new();
    inputs.push(OutPoint {
        tx_hash: crate::types::clone_bytes(&cells.oldest.out_point.tx_hash),
        index: cells.oldest.out_point.index,
    });
    inputs.push(OutPoint {
        tx_hash: crate::types::clone_bytes(&cells.latest.out_point.tx_hash),
        index: cells.latest.out_point.index,
    });
    inputs.push(OutPoint {
        tx_hash: crate::types::clone_bytes(&cells.info.out_point.tx_hash),
        index: cells.info.out_point.index,
    });

    let mut outputs_data: Vec<Vec<u8>> = Vec::new();
    outputs_data.push(encode_client(&replacement));
    outputs_data.push(encode_client_info(&bumped_info));

    proof {
        assert(replacement@ == retagged(new_client@, cells.oldest.output_data@[0]));
    }
    Ok(TxPlan { inputs, outputs_data, proof_update })
}

/// Plans the one-time bootstrap transaction of a ring-buffer family:
/// `cells_count - 1` client cells all seeded from the one verified record
/// (ids `0 .. cells_count - 1`), plus the metadata cell naming slot `0` as
/// the last written. The transaction mints the family's type id, so it
/// consumes no family cells; fee inputs are chosen by the transport.
pub fn plan_create_transaction(
    seed: &Client,
    cells_count: u8,
    minimal_updates_count: u8,
    proof_update: Vec<u8>,
) -> (plan: TxPlan)
    requires
        cells_count >= 2,
    ensures
        plan.inputs@.len() == 0,
        plan.outputs_data@.len() == cells_count,
        forall|i: int| 0 <= i < cells_count - 1 ==> (#[trigger] plan.outputs_data@[i])@
            == client_bytes(retagged(seed@, i as u8)),
        plan.outputs_data@[cells_count - 1]@ == info_bytes(
            ClientInfo { last_id: 0, minimal_updates_count },
        ),
        plan.proof_update@ == proof_update@,
{
    let client_count: u8 = cells_count - 1;
    let mut outputs_data: Vec<Vec<u8>> = Vec::new();
    let mut i: u8 = 0;
    while i < client_count
        invariant
            i <= client_count,
            outputs_data@.len() == i,
            forall|j: int| 0 <= j < i ==> (#[trigger] outputs_data@[j])@ == client_bytes(
                retagged(seed@, j as u8),
            ),
        decreases client_count - i,
    {
        let c = Client {
            id: i,
            minimal_slot: seed.minimal_slot,
            maximal_slot: seed.maximal_slot,
            tip_valid_header_root: crate::types::clone_bytes(&seed.tip_valid_header_root),
            headers_mmr_root: crate::types::clone_bytes(&seed.headers_mmr_root),
        };
        outputs_data.push(encode_client(&c));
        proof {
            assert(c@ == retagged(seed@, i));
        }
        i = i + 1;
    }
    let info = ClientInfo { last_id: 0, minimal_updates_count };
    outputs_data.push(encode_client_info(&info));
    TxPlan { inputs: Vec::new(), outputs_data, proof_update }
}

} // verus!
