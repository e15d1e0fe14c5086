use ckb_multi_client::codec::{encode_client, encode_client_info};
use ckb_multi_client::driver::{
    Action, BroadcastOutcome, CkbChain, DriverConfig, VerifyOutcome, POLL_INTERVAL_SECS,
};
use ckb_multi_client::errors::Error;
use ckb_multi_client::store::ProofStore;
use ckb_multi_client::types::{
    CellData, Client, ClientInfo, ClientTypeArgs, HeaderUpdate, OutPoint, UpdateCells,
};

fn updates(from: u64, to: u64) -> Vec<HeaderUpdate> {
    (from..=to).map(|slot| HeaderUpdate { slot, data: vec![slot as u8] }).collect()
}

fn client(id: u8, min: u64, max: u64) -> Client {
    Client {
        id,
        minimal_slot: min,
        maximal_slot: max,
        tip_valid_header_root: vec![0xAA; 32],
        headers_mmr_root: vec![0xBB; 32],
    }
}

fn cell(tag: u8, data: Vec<u8>) -> CellData {
    CellData { out_point: OutPoint { tx_hash: vec![tag; 32], index: tag as u32 }, output_data: data }
}

/// A ring snapshot: oldest slot id 2 covering [10, 59], latest covering
/// [50, 99], metadata naming slot 1 with a minimum span of 10.
fn ring_snapshot() -> UpdateCells {
    UpdateCells {
        oldest: cell(1, encode_client(&client(2, 10, 59))),
        latest: cell(2, encode_client(&client(1, 50, 99))),
        info: cell(3, encode_client_info(&ClientInfo { last_id: 1, minimal_updates_count: 10 })),
    }
}

fn configured_driver() -> CkbChain {
    CkbChain::new(
        DriverConfig {
            client_type_args: ClientTypeArgs { type_id: Some(vec![7u8; 32]), cells_count: 5 },
            minimal_updates_count: 10,
        },
        ProofStore::new(),
    )
}

fn outcome() -> VerifyOutcome {
    VerifyOutcome {
        tip_valid_header_root: vec![0xCC; 32],
        headers_mmr_root: vec![0xDD; 32],
        proof_update: vec![9, 9, 9],
    }
}

/// Drives an update workflow up to the verifier result.
fn drive_to_verifier(d: &mut CkbChain, from: u64, to: u64) {
    match d.start_update(updates(from, to)) {
        Action::FetchCells { type_args } => {
            assert_eq!(type_args.len(), 33);
            assert_eq!(type_args[32], 5);
        },
        _ => panic!("expected a cell fetch"),
    }
    match d.on_cells_fetched(Some(ring_snapshot())) {
        Action::RunVerifier { updates: aligned } => {
            assert_eq!(aligned[0].slot, from.max(100));
            assert_eq!(aligned.last().unwrap().slot, to);
        },
        _ => panic!("expected a verifier run"),
    }
}

#[test]
fn update_without_type_id_is_a_configuration_error() {
    let mut d = CkbChain::new(
        DriverConfig {
            client_type_args: ClientTypeArgs { type_id: None, cells_count: 5 },
            minimal_updates_count: 10,
        },
        ProofStore::new(),
    );
    match d.start_update(updates(100, 104)) {
        Action::Finish { error: Some(Error::Configuration { .. }) } => {},
        _ => panic!("expected a configuration error"),
    }
}

#[test]
fn short_span_is_rejected_before_broadcast_and_rolled_back() {
    // 4 rotating slots + 1 metadata cell, minimum span 10; a batch over
    // [100, 104] spans 5 slots and must never reach the broadcast step.
    let mut d = configured_driver();
    drive_to_verifier(&mut d, 100, 104);
    match d.on_verify_result(Ok(outcome())) {
        Action::Finish { error: Some(Error::InsufficientUpdates { span, required }) } => {
            assert_eq!(span, 5);
            assert_eq!(required, 10);
        },
        _ => panic!("expected an insufficient-updates error"),
    }
    assert_eq!(d.store.tip_slot(), None);
}

#[test]
fn update_overwrites_exactly_the_oldest_slot() {
    // A batch over [100, 120] spans 21 slots; the assembled plan rewrites
    // the oldest slot (id 2) and bumps the metadata to name it.
    let mut d = configured_driver();
    drive_to_verifier(&mut d, 100, 120);
    let plan = match d.on_verify_result(Ok(outcome())) {
        Action::Assemble { plan } => plan,
        _ => panic!("expected an assembly"),
    };
    assert_eq!(plan.inputs.len(), 3);
    assert_eq!(plan.inputs[0].tx_hash, vec![1u8; 32]);
    assert_eq!(plan.inputs[1].tx_hash, vec![2u8; 32]);
    assert_eq!(plan.inputs[2].tx_hash, vec![3u8; 32]);
    assert_eq!(plan.outputs_data.len(), 2);
    let new_client = &plan.outputs_data[0];
    assert_eq!(new_client.len(), 81);
    assert_eq!(new_client[0], 2, "the new client cell carries the oldest slot's id");
    assert_eq!(&new_client[1..9], &[100, 0, 0, 0, 0, 0, 0, 0]);
    assert_eq!(&new_client[9..17], &[120, 0, 0, 0, 0, 0, 0, 0]);
    assert_eq!(plan.outputs_data[1], vec![2, 10], "metadata names the rewritten slot");
    assert_eq!(plan.proof_update, vec![9, 9, 9]);
    assert_eq!(d.store.tip_slot(), Some(120));
}

#[test]
fn duplicate_rejection_attaches_pool_diagnostics_and_rolls_back() {
    let mut d = configured_driver();
    drive_to_verifier(&mut d, 100, 120);
    match d.on_verify_result(Ok(outcome())) {
        Action::Assemble { .. } => {},
        _ => panic!("expected an assembly"),
    }
    assert!(matches!(d.on_assembled(Ok(None)), Action::Sign));
    assert!(matches!(d.on_signed(Ok(())), Action::Broadcast));
    let transport = "rpc error: PoolRejectedDuplicatedTransaction tx already in pool".to_string();
    match d.on_broadcast(BroadcastOutcome::Rejected {
        msg: transport.clone(),
        tx_json: "{\"inputs\":3}".to_string(),
    }) {
        Action::FetchPoolDiagnostics => {},
        _ => panic!("expected a pool diagnostics query"),
    }
    match d.on_pool_diagnostics("pool: 3 pending, 1 proposed".to_string()) {
        Action::Finish { error: Some(Error::Submission { msg }) } => {
            assert!(msg.contains(&transport));
            assert!(msg.contains("pool: 3 pending, 1 proposed"));
            assert!(msg.contains("== transaction for debugging is below =="));
            assert!(msg.contains("{\"inputs\":3}"));
        },
        _ => panic!("expected a submission error"),
    }
    assert_eq!(d.store.tip_slot(), None, "the store is back at the pre-verify tip");
}

#[test]
fn plain_rejection_rolls_back_with_the_transaction_attached() {
    let mut d = configured_driver();
    drive_to_verifier(&mut d, 100, 120);
    d.on_verify_result(Ok(outcome()));
    d.on_assembled(Ok(None));
    d.on_signed(Ok(()));
    match d.on_broadcast(BroadcastOutcome::Rejected {
        msg: "rpc error: insufficient fee".to_string(),
        tx_json: "{}".to_string(),
    }) {
        Action::Finish { error: Some(Error::Submission { msg }) } => {
            assert!(msg.contains("insufficient fee"));
            assert!(msg.contains("== transaction for debugging is below =="));
        },
        _ => panic!("expected a submission error"),
    }
    assert_eq!(d.store.tip_slot(), None);
}

#[test]
fn signing_failure_rolls_back() {
    let mut d = configured_driver();
    drive_to_verifier(&mut d, 100, 120);
    d.on_verify_result(Ok(outcome()));
    d.on_assembled(Ok(None));
    match d.on_signed(Err("key not found".to_string())) {
        Action::Finish { error: Some(Error::KeyAccess { .. }) } => {},
        _ => panic!("expected a key error"),
    }
    assert_eq!(d.store.tip_slot(), None);
}

#[test]
fn confirmation_deadline_times_out_and_rolls_back() {
    let mut d = configured_driver();
    drive_to_verifier(&mut d, 100, 120);
    d.on_verify_result(Ok(outcome()));
    d.on_assembled(Ok(None));
    d.on_signed(Ok(()));
    match d.on_broadcast(BroadcastOutcome::Accepted) {
        Action::Poll { delay_secs } => assert_eq!(delay_secs, POLL_INTERVAL_SECS),
        _ => panic!("expected the first poll"),
    }
    // 3-second polls against a 60-second deadline: 19 inconclusive polls
    // keep waiting, the 20th exhausts the deadline.
    for _ in 0..19 {
        match d.on_poll(false) {
            Action::Poll { delay_secs } => assert_eq!(delay_secs, POLL_INTERVAL_SECS),
            _ => panic!("expected to keep polling"),
        }
    }
    match d.on_poll(false) {
        Action::Finish { error: Some(Error::Timeout { waited_secs }) } => {
            assert_eq!(waited_secs, 60);
        },
        _ => panic!("expected a timeout"),
    }
    assert_eq!(d.store.tip_slot(), None);
}

#[test]
fn committed_update_keeps_the_appended_records() {
    let mut d = configured_driver();
    drive_to_verifier(&mut d, 100, 120);
    d.on_verify_result(Ok(outcome()));
    d.on_assembled(Ok(None));
    d.on_signed(Ok(()));
    d.on_broadcast(BroadcastOutcome::Accepted);
    assert!(matches!(d.on_poll(false), Action::Poll { .. }));
    match d.on_poll(true) {
        Action::Finish { error: None } => {},
        _ => panic!("expected success"),
    }
    assert_eq!(d.store.base_slot(), Some(100));
    assert_eq!(d.store.tip_slot(), Some(120));
}

#[test]
fn create_against_existing_family_reports_already_exists() {
    let mut d = configured_driver();
    match d.start_create(updates(100, 120)) {
        Action::FetchCells { .. } => {},
        _ => panic!("expected a probe"),
    }
    match d.on_cells_fetched(Some(ring_snapshot())) {
        Action::Finish { error: Some(Error::AlreadyExists { minimal_slot }) } => {
            assert_eq!(minimal_slot, 50, "the latest record's base slot is reported");
        },
        _ => panic!("expected the already-exists signal"),
    }
    assert_eq!(d.store.tip_slot(), None);
}

#[test]
fn create_probe_without_cells_is_a_configuration_error() {
    let mut d = configured_driver();
    d.start_create(updates(100, 120));
    match d.on_cells_fetched(None) {
        Action::Finish { error: Some(Error::Configuration { .. }) } => {},
        _ => panic!("expected a configuration error"),
    }
}

#[test]
fn bootstrap_mints_the_family_and_persists_the_type_id() {
    let mut d = CkbChain::new(
        DriverConfig {
            client_type_args: ClientTypeArgs { type_id: None, cells_count: 5 },
            minimal_updates_count: 3,
        },
        ProofStore::new(),
    );
    let plan = match d.start_create(updates(10, 13)) {
        Action::RunVerifier { updates: aligned } => {
            assert_eq!(aligned.len(), 4);
            match d.on_verify_result(Ok(outcome())) {
                Action::Assemble { plan } => plan,
                _ => panic!("expected an assembly"),
            }
        },
        _ => panic!("expected a verifier run"),
    };
    assert_eq!(plan.inputs.len(), 0);
    assert_eq!(plan.outputs_data.len(), 5, "4 rotating client cells plus the metadata cell");
    for (i, data) in plan.outputs_data.iter().take(4).enumerate() {
        assert_eq!(data[0], i as u8);
        assert_eq!(&data[1..9], &[10, 0, 0, 0, 0, 0, 0, 0]);
        assert_eq!(&data[9..17], &[13, 0, 0, 0, 0, 0, 0, 0]);
    }
    assert_eq!(plan.outputs_data[4], vec![0, 3]);
    assert!(matches!(d.on_assembled(Ok(Some(vec![9u8; 32]))), Action::Sign));
    assert!(matches!(d.on_signed(Ok(())), Action::Broadcast));
    assert!(matches!(d.on_broadcast(BroadcastOutcome::Accepted), Action::Poll { .. }));
    match d.on_poll(true) {
        Action::Finish { error: None } => {},
        _ => panic!("expected success"),
    }
    assert_eq!(d.config.client_type_args.type_id, Some(vec![9u8; 32]));
    assert_eq!(d.store.tip_slot(), Some(13));
}

#[test]
fn verifier_failure_leaves_the_store_untouched() {
    let mut d = configured_driver();
    drive_to_verifier(&mut d, 100, 120);
    match d.on_verify_result(Err("bad signature aggregation".to_string())) {
        Action::Finish { error: Some(Error::Verification { msg }) } => {
            assert!(msg.contains("bad signature aggregation"));
        },
        _ => panic!("expected a verification error"),
    }
    assert_eq!(d.store.tip_slot(), None);
}

#[test]
fn misaligned_update_batch_fails_fast() {
    let mut d = configured_driver();
    d.start_update(updates(102, 120));
    // the batch starts past the on-chain frontier at slot 99: a gap
    match d.on_cells_fetched(Some(ring_snapshot())) {
        Action::Finish { error: Some(Error::Alignment { .. }) } => {},
        _ => panic!("expected an alignment error"),
    }
    assert_eq!(d.store.tip_slot(), None);
}
