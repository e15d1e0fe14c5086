use ckb_multi_client::client_state::{
    AnyClientState, AnyUpgradeOptions, AxonClientState, CkbClientState, ClientType,
    EthClientState, Height, IdentifiedAnyClientState, TimeSpan, TmClientState, TmUpgradeOptions,
    TrustThreshold,
};
use ckb_multi_client::driver::{
    bootstrap_preflight, classify_network, compose_rejection_text, is_duplicate_rejection,
    CkbChain, DriverConfig,
};
use ckb_multi_client::errors::Error;
use ckb_multi_client::render::{dec_u64, render_status_log, sort_clients_by_id};
use ckb_multi_client::store::ProofStore;
use ckb_multi_client::types::{Client, ClientInfo, ClientTypeArgs, Network};

fn tm_state() -> TmClientState {
    TmClientState {
        chain_id: "test-chain-7".to_string(),
        latest_height: Height { revision_number: 1, revision_height: 500 },
        frozen_height: None,
        trust_threshold: TrustThreshold { numerator: 2, denominator: 3 },
        max_clock_drift: TimeSpan { secs: 5, nanos: 0 },
        trusting_period: TimeSpan { secs: 30, nanos: 0 },
    }
}

fn client(id: u8, min: u64, max: u64) -> Client {
    Client {
        id,
        minimal_slot: min,
        maximal_slot: max,
        tip_valid_header_root: vec![0; 32],
        headers_mmr_root: vec![0; 32],
    }
}

#[test]
fn dispatch_reads_the_tendermint_fields() {
    let s = AnyClientState::Tendermint(tm_state());
    assert_eq!(s.latest_height(), Height { revision_number: 1, revision_height: 500 });
    assert_eq!(s.frozen_height(), None);
    assert_eq!(s.trust_threshold(), Some(TrustThreshold { numerator: 2, denominator: 3 }));
    assert_eq!(s.max_clock_drift(), TimeSpan { secs: 5, nanos: 0 });
    assert_eq!(s.client_type(), ClientType::Tendermint);
    assert_eq!(s.chain_id().as_str(), "test-chain-7");
}

#[test]
fn refresh_period_is_two_thirds_of_the_trusting_period() {
    let s = AnyClientState::Tendermint(tm_state());
    assert_eq!(s.refresh_period(), Some(TimeSpan { secs: 20, nanos: 0 }));
    let eth = AnyClientState::Eth(EthClientState {
        chain_id: "eth".to_string(),
        latest_height: Height { revision_number: 0, revision_height: 9 },
    });
    assert_eq!(eth.refresh_period(), None);
}

#[test]
fn dispatch_defaults_for_cell_based_kinds() {
    let ckb = AnyClientState::Ckb(CkbClientState {
        chain_id: "ckb".to_string(),
        latest_height: Height { revision_number: 0, revision_height: 1 },
    });
    assert_eq!(ckb.frozen_height(), None);
    assert_eq!(ckb.trust_threshold(), None);
    assert_eq!(ckb.max_clock_drift(), TimeSpan { secs: 0, nanos: 0 });
    assert_eq!(ckb.client_type(), ClientType::Ckb);
    assert!(!ckb.expired(TimeSpan { secs: 1_000_000, nanos: 0 }));

    let axon = AnyClientState::Axon(AxonClientState {
        chain_id: "axon".to_string(),
        latest_height: Height { revision_number: 0, revision_height: 2 },
    });
    assert_eq!(axon.trust_threshold(), Some(TrustThreshold { numerator: 1, denominator: 2 }));
    assert_eq!(axon.client_type(), ClientType::Axon);
    assert!(!axon.expired(TimeSpan { secs: 1, nanos: 0 }));
}

#[test]
fn tendermint_expiry_follows_the_trusting_period() {
    let s = AnyClientState::Tendermint(tm_state());
    assert!(!s.expired(TimeSpan { secs: 30, nanos: 0 }));
    assert!(s.expired(TimeSpan { secs: 30, nanos: 1 }));
    assert!(s.expired(TimeSpan { secs: 31, nanos: 0 }));
}

#[test]
fn downcasts_report_mismatches() {
    let s = AnyClientState::Tendermint(tm_state());
    assert!(s.as_tendermint().is_ok());
    match s.as_eth() {
        Err(m) => {
            assert_eq!(m.expected, ClientType::Eth);
            assert_eq!(m.actual, ClientType::Tendermint);
        },
        Ok(_) => panic!("expected a mismatch"),
    }
    assert!(s.as_ckb().is_err());
    assert!(s.as_axon().is_err());
}

#[test]
fn conversions_wrap_the_right_variant() {
    let any: AnyClientState = tm_state().into();
    assert_eq!(any.client_type(), ClientType::Tendermint);
    let identified = IdentifiedAnyClientState::new("07-tendermint-0".to_string(), any);
    assert_eq!(identified.client_id.as_str(), "07-tendermint-0");
    let opts = AnyUpgradeOptions::Tendermint(TmUpgradeOptions {
        new_unbonding_period: TimeSpan { secs: 10, nanos: 0 },
    });
    assert!(opts.as_tm_upgrade_options().is_some());
}

#[test]
fn network_classification() {
    assert_eq!(classify_network(&"ckb".to_string()), Network::Mainnet);
    assert_eq!(classify_network(&"ckb_testnet".to_string()), Network::Testnet);
    assert_eq!(classify_network(&"ckb_dev".to_string()), Network::Dev);
}

#[test]
fn network_and_address_caches_fill_once() {
    let mut d = CkbChain::new(
        DriverConfig {
            client_type_args: ClientTypeArgs { type_id: None, cells_count: 2 },
            minimal_updates_count: 1,
        },
        ProofStore::new(),
    );
    assert_eq!(d.network(), None);
    assert_eq!(d.fill_network(&"ckb_testnet".to_string()), Network::Testnet);
    assert_eq!(d.network(), Some(Network::Testnet));
    assert!(d.tx_assembler_address().is_none());
    d.fill_tx_assembler_address("ckt1qexampleaddress".to_string());
    assert_eq!(d.tx_assembler_address().map(|s| s.as_str()), Some("ckt1qexampleaddress"));
}

#[test]
fn bootstrap_preflight_demands_both_scripts() {
    assert!(bootstrap_preflight(true, true).is_ok());
    assert!(matches!(bootstrap_preflight(false, true), Err(Error::Configuration { .. })));
    assert!(matches!(bootstrap_preflight(true, false), Err(Error::Configuration { .. })));
}

#[test]
fn duplicate_marker_detection() {
    assert!(is_duplicate_rejection(
        &"rpc: PoolRejectedDuplicatedTransaction(0x12)".to_string()
    ));
    assert!(!is_duplicate_rejection(&"rpc: insufficient fee".to_string()));
    assert!(!is_duplicate_rejection(&"".to_string()));
}

#[test]
fn rejection_text_is_exactly_composed() {
    let text = compose_rejection_text(
        &"boom".to_string(),
        &"pool empty".to_string(),
        &"{\"tx\":0}".to_string(),
    );
    assert_eq!(
        text,
        "boom\npool empty\n== transaction for debugging is below ==\n{\"tx\":0}\n"
    );
}

#[test]
fn error_messages_carry_context() {
    let e = Error::InsufficientUpdates { span: 5, required: 10 };
    assert_eq!(e.message(), "not enough updates to update multi-client: 5 < 10");
    let e = Error::AlreadyExists { minimal_slot: 4200 };
    assert_eq!(e.message(), "multi-client family already exists at slot 4200");
    let e = Error::Timeout { waited_secs: 60 };
    assert_eq!(e.message(), "transaction not committed after 60 s");
    let e = Error::Alignment { msg: "gap at slot 7".to_string() };
    assert_eq!(e.message(), "alignment error: gap at slot 7");
}

#[test]
fn decimal_rendering() {
    assert_eq!(dec_u64(0).as_str(), "0");
    assert_eq!(dec_u64(7).as_str(), "7");
    assert_eq!(dec_u64(12345).as_str(), "12345");
    assert_eq!(dec_u64(u64::MAX).as_str(), "18446744073709551615");
}

#[test]
fn clients_sort_by_ring_slot_id() {
    let sorted = sort_clients_by_id(vec![client(2, 10, 20), client(0, 5, 9), client(1, 7, 9)]);
    let ids: Vec<u8> = sorted.iter().map(|c| c.id).collect();
    assert_eq!(ids, vec![0, 1, 2]);
}

#[test]
fn status_log_rendering() {
    let onchain = Some((
        vec![client(2, 10, 20), client(0, 5, 9)],
        ClientInfo { last_id: 2, minimal_updates_count: 10 },
    ));
    let text = render_status_log(onchain, Some(1), Some(4));
    assert_eq!(
        text,
        "on-chain status:\nclient#0 [5, 9]\nclient#2 [10, 20]\ninfo: last#2, minimal updates count: 10\nnative status: [1, 4]"
    );
    let bare = render_status_log(None, None, None);
    assert_eq!(bare, "on-chain status: NONE, native status: NONE");
}
