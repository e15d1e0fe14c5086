use ckb_multi_client::align::align_updates;
use ckb_multi_client::codec::{
    encode_client, encode_client_info, encode_client_type_args, parse_client, parse_client_info,
};
use ckb_multi_client::store::ProofStore;
use ckb_multi_client::types::{Client, ClientInfo, ClientTypeArgs, HeaderUpdate};

fn updates(from: u64, to: u64) -> Vec<HeaderUpdate> {
    (from..=to).map(|slot| HeaderUpdate { slot, data: vec![slot as u8] }).collect()
}

fn client(id: u8, min: u64, max: u64) -> Client {
    Client {
        id,
        minimal_slot: min,
        maximal_slot: max,
        tip_valid_header_root: vec![0xAA; 32],
        headers_mmr_root: vec![0xBB; 32],
    }
}

#[test]
fn store_append_extends_window() {
    let mut store = ProofStore::new();
    assert_eq!(store.base_slot(), None);
    assert_eq!(store.tip_slot(), None);
    store.append_batch(updates(5, 9));
    assert_eq!(store.base_slot(), Some(5));
    assert_eq!(store.tip_slot(), Some(9));
    assert_eq!(store.len(), 5);
    store.append_batch(updates(10, 12));
    assert_eq!(store.tip_slot(), Some(12));
    assert_eq!(store.len(), 8);
}

#[test]
fn rollback_to_tip_is_idempotent() {
    let mut store = ProofStore::new();
    store.append_batch(updates(5, 9));
    store.rollback_to(Some(9));
    assert_eq!(store.base_slot(), Some(5));
    assert_eq!(store.tip_slot(), Some(9));
    assert_eq!(store.len(), 5);

    let mut empty = ProofStore::new();
    empty.rollback_to(None);
    assert_eq!(empty.len(), 0);
    assert_eq!(empty.tip_slot(), None);
}

#[test]
fn rollback_discards_suffix() {
    let mut store = ProofStore::new();
    store.append_batch(updates(5, 12));
    store.rollback_to(Some(7));
    assert_eq!(store.base_slot(), Some(5));
    assert_eq!(store.tip_slot(), Some(7));
    store.rollback_to(Some(2));
    assert_eq!(store.len(), 0);
    store.append_batch(updates(100, 100));
    store.rollback_to(None);
    assert_eq!(store.tip_slot(), None);
}

#[test]
fn client_codec_round_trip() {
    let c = client(3, 100, 120);
    let data = encode_client(&c);
    assert_eq!(data.len(), 81);
    assert_eq!(data[0], 3);
    assert_eq!(&data[1..9], &[100, 0, 0, 0, 0, 0, 0, 0]);
    assert_eq!(&data[9..17], &[120, 0, 0, 0, 0, 0, 0, 0]);
    let back = parse_client(&data).expect("parses");
    assert_eq!(back.id, 3);
    assert_eq!(back.minimal_slot, 100);
    assert_eq!(back.maximal_slot, 120);
    assert_eq!(back.tip_valid_header_root, vec![0xAA; 32]);
    assert_eq!(back.headers_mmr_root, vec![0xBB; 32]);
}

#[test]
fn client_codec_large_slots() {
    let c = client(0, 0x0102_0304_0506_0708, 0xFFFF_FFFF_FFFF_FFFF);
    let data = encode_client(&c);
    assert_eq!(&data[1..9], &[8, 7, 6, 5, 4, 3, 2, 1]);
    assert_eq!(&data[9..17], &[0xFF; 8]);
    let back = parse_client(&data).expect("parses");
    assert_eq!(back.minimal_slot, 0x0102_0304_0506_0708);
    assert_eq!(back.maximal_slot, u64::MAX);
}

#[test]
fn client_codec_rejects_wrong_size() {
    assert!(parse_client(&vec![0u8; 80]).is_none());
    assert!(parse_client(&vec![0u8; 82]).is_none());
    assert!(parse_client(&Vec::new()).is_none());
}

#[test]
fn info_codec_round_trip() {
    let info = ClientInfo { last_id: 2, minimal_updates_count: 10 };
    let data = encode_client_info(&info);
    assert_eq!(data, vec![2, 10]);
    let back = parse_client_info(&data).expect("parses");
    assert_eq!(back.last_id, 2);
    assert_eq!(back.minimal_updates_count, 10);
    assert!(parse_client_info(&vec![1u8, 2, 3]).is_none());
}

#[test]
fn type_args_encoding() {
    let args = ClientTypeArgs { type_id: Some(vec![7u8; 32]), cells_count: 5 };
    let data = encode_client_type_args(&args).expect("has type id");
    assert_eq!(data.len(), 33);
    assert_eq!(data[32], 5);
    let bare = ClientTypeArgs { type_id: None, cells_count: 5 };
    assert!(encode_client_type_args(&bare).is_none());
}

#[test]
fn align_drops_covered_prefix() {
    let mut batch = updates(95, 110);
    let onchain = client(0, 50, 99);
    let r = align_updates(&mut batch, Some(&onchain), None);
    assert!(r.is_ok());
    assert_eq!(batch.len(), 11);
    assert_eq!(batch[0].slot, 100);
    assert_eq!(batch[10].slot, 110);
}

#[test]
fn align_rejects_gap() {
    let mut batch = updates(101, 110);
    let onchain = client(0, 50, 99);
    let r = align_updates(&mut batch, Some(&onchain), None);
    assert!(r.is_err());
    // the batch is left as it was
    assert_eq!(batch.len(), 10);
    assert_eq!(batch[0].slot, 101);
}

#[test]
fn align_rejects_fully_covered_batch() {
    let mut batch = updates(60, 80);
    let onchain = client(0, 50, 99);
    assert!(align_updates(&mut batch, Some(&onchain), None).is_err());
}

#[test]
fn align_rejects_non_contiguous_batch() {
    let mut batch = updates(100, 104);
    batch.push(HeaderUpdate { slot: 107, data: vec![] });
    assert!(align_updates(&mut batch, None, Some(99)).is_err());
}

#[test]
fn align_rejects_an_empty_batch() {
    let mut batch: Vec<HeaderUpdate> = Vec::new();
    assert!(align_updates(&mut batch, None, None).is_err());
    assert!(align_updates(&mut batch, None, Some(7)).is_err());
}

#[test]
fn align_uses_store_tip_as_frontier() {
    let mut batch = updates(95, 110);
    let r = align_updates(&mut batch, None, Some(104));
    assert!(r.is_ok());
    assert_eq!(batch[0].slot, 105);
}
