//! Byte layout of the on-chain cells the driver reads and writes: client
//! records, the metadata cell and the family's type-script arguments. All
//! fields sit at fixed offsets; integers are little-endian.

use vstd::prelude::*;

use crate::types::{Client, ClientInfo, ClientModel, ClientTypeArgs};

verus! {

/// Total size of an encoded client record: one id byte, two 8-byte slots,
/// two 32-byte roots.
pub const CLIENT_CELL_SIZE: usize = 81;

/// Total size of an encoded metadata cell.
pub const INFO_CELL_SIZE: usize = 2;

/// Little-endian bytes of a 64-bit integer.
pub open spec fn u64_le_bytes(n: u64) -> Seq<u8> {
    seq![
        n as u8,
        (n >> 8u64) as u8,
        (n >> 16u64) as u8,
        (n >> 24u64) as u8,
        (n >> 32u64) as u8,
        (n >> 40u64) as u8,
        (n >> 48u64) as u8,
        (n >> 56u64) as u8,
    ]
}

/// The 64-bit integer read from eight little-endian bytes.
pub open spec fn u64_from_le(bs: Seq<u8>) -> u64
    recommends
        bs.len() == 8,
{
    ((bs[0] as u64) | ((bs[1] as u64) << 8u64) | ((bs[2] as u64) << 16u64) | ((bs[3] as u64)
        << 24u64) | ((bs[4] as u64) << 32u64) | ((bs[5] as u64) << 40u64) | ((bs[6] as u64)
        << 48u64) | ((bs[7] as u64) << 56u64)) as u64
}

/// Any eight bytes are the little-endian bytes of the integer they encode.
pub proof fn lemma_u64_le_bytes_of(bs: Seq<u8>)
    requires
        bs.len() == 8,
    ensures
        u64_le_bytes(u64_from_le(bs)) == bs,
{
    let b0 = bs[0];
    let b1 = bs[1];
    let b2 = bs[2];
    let b3 = bs[3];
    let b4 = bs[4];
    let b5 = bs[5];
    let b6 = bs[6];
    let b7 = bs[7];
    let n: u64 = u64_from_le(bs);
    assert(n == ((b0 as u64) | ((b1 as u64) << 8u64) | ((b2 as u64) << 16u64) | ((b3 as u64)
        << 24u64) | ((b4 as u64) << 32u64) | ((b5 as u64) << 40u64) | ((b6 as u64) << 48u64) | ((
    b7 as u64) << 56u64)) as u64);
    assert({
        let m = ((b0 as u64) | ((b1 as u64) << 8u64) | ((b2 as u64) << 16u64) | ((b3 as u64)
            << 24u64) | ((b4 as u64) << 32u64) | ((b5 as u64) << 40u64) | ((b6 as u64) << 48u64)
            | ((b7 as u64) << 56u64)) as u64;
        m as u8 == b0 && (m >> 8u64) as u8 == b1 && (m >> 16u64) as u8 == b2 && (m >> 24u64) as u8
            == b3 && (m >> 32u64) as u8 == b4 && (m >> 40u64) as u8 == b5 && (m >> 48u64) as u8
            == b6 && (m >> 56u64) as u8 == b7
    }) by (bit_vector);
    assert(u64_le_bytes(n) =~= bs);
}

/// The client record read from well-sized cell data.
pub open spec fn parsed_client(data: Seq<u8>) -> ClientModel
    recommends
        data.len() == CLIENT_CELL_SIZE,
{
    ClientModel {
        id: data[0],
        minimal_slot: u64_from_le(data.subrange(1, 9)),
        maximal_slot: u64_from_le(data.subrange(9, 17)),
        tip_valid_header_root: data.subrange(17, 49),
        headers_mmr_root: data.subrange(49, 81),
    }
}

/// Encoded form of a client record.
pub open spec fn client_bytes(c: ClientModel) -> Seq<u8> {
    seq![c.id] + u64_le_bytes(c.minimal_slot) + u64_le_bytes(c.maximal_slot)
        + c.tip_valid_header_root + c.headers_mmr_root
}

/// Encoded form of the metadata cell.
pub open spec fn info_bytes(info: ClientInfo) -> Seq<u8> {
    seq![info.last_id, info.minimal_updates_count]
}

/// Encoded form of the family's type-script arguments.
pub open spec fn type_args_bytes(type_id: Seq<u8>, cells_count: u8) -> Seq<u8> {
    type_id + seq![cells_count]
}

/// Appends the bytes of `src` to `out`.
pub fn append_bytes(out: &mut Vec<u8>, src: &Vec<u8>)
    ensures
        final(out)@ == old(out)@ + src@,
{
    let mut i: usize = 0;
    while i < src.len()
        invariant
            i <= src.len(),
            out@ == old(out)@ + src@.take(i as int),
        decreases src.len() - i,
    {
        out.push(src[i]);
        proof {
            assert(old(out)@ + src@.take(i as int + 1) =~= (old(out)@ + src@.take(i as int)).push(
                src@[i as int]));
        }
        i = i + 1;
    }
    proof {
        assert(old(out)@ + src@.take(src@.len() as int) =~= old(out)@ + src@);
    }
}

/// Appends the little-endian bytes of `n` to `out`.
pub fn append_u64_le(out: &mut Vec<u8>, n: u64)
    ensures
        final(out)@ == old(out)@ + u64_le_bytes(n),
{
    out.push(n as u8);
    out.push((n >> 8u64) as u8);
    out.push((n >> 16u64) as u8);
    out.push((n >> 24u64) as u8);
    out.push((n >> 32u64) as u8);
    out.push((n >> 40u64) as u8);
    out.push((n >> 48u64) as u8);
    out.push((n >> 56u64) as u8);
    proof {
        assert(out@ =~= old(out)@ + u64_le_bytes(n));
    }
}

/// Reads the 64-bit little-endian integer at offset `off`.
pub fn read_u64_le(data: &Vec<u8>, off: usize) -> (n: u64)
    requires
        off + 8 <= data@.len(),
    ensures
        n == u64_from_le(data@.subrange(off as int, off as int + 8)),
{
    let _len = data.len();
    let n: u64 = (data[off] as u64) | ((data[off + 1] as u64) << 8u64) | ((data[off + 2] as u64)
        << 16u64) | ((data[off + 3] as u64) << 24u64) | ((data[off + 4] as u64) << 32u64) | ((
    data[off + 5] as u64) << 40u64) | ((data[off + 6] as u64) << 48u64) | ((data[off + 7] as u64)
        << 56u64);
    proof {
        let bs = data@.subrange(off as int, off as int + 8);
        assert(bs[0] == data@[off as int]);
        assert(bs[1] == data@[off as int + 1]);
        assert(bs[2] == data@[off as int + 2]);
        assert(bs[3] == data@[off as int + 3]);
        assert(bs[4] == data@[off as int + 4]);
        assert(bs[5] == data@[off as int + 5]);
        assert(bs[6] == data@[off as int + 6]);
        assert(bs[7] == data@[off as int + 7]);
    }
    n
}

/// Copies `data[from..to]` into a fresh vector.
pub fn copy_range(data: &Vec<u8>, from: usize, to: usize) -> (r: Vec<u8>)
    requires
        from <= to,
        to <= data@.len(),
    ensures
        r@ == data@.subrange(from as int, to as int),
{
    let mut r: Vec<u8> = Vec::new();
    let mut i: usize = from;
    while i < to
        invariant
            from <= i <= to,
            to <= data@.len(),
            r@ == data@.subrange(from as int, i as int),
        decreases to - i,
    {
        r.push(data[i]);
        proof {
            assert(r@ =~= data@.subrange(from as int, i as int + 1));
        }
        i = i + 1;
    }
    r
}

/// Serialises a client record into its on-chain cell data.
pub fn encode_client(c: &Client) -> (r: Vec<u8>)
    ensures
        r@ == client_bytes(c@),
{
    let mut r: Vec<u8> = Vec::new();
    r.push(c.id);
    append_u64_le(&mut r, c.minimal_slot);
    append_u64_le(&mut r, c.maximal_slot);
    append_bytes(&mut r, &c.tip_valid_header_root);
    append_bytes(&mut r, &c.headers_mmr_root);
    proof {
        assert(r@ =~= client_bytes(c@));
    }
    r
}

/// Parses on-chain cell data as a client record. Returns `None` exactly when
/// the data has the wrong size; a parsed record reproduces the data when
/// re-encoded.
pub fn parse_client(data: &Vec<u8>) -> (r: Option<Client>)
    ensures
        r is Some <==> data@.len() == CLIENT_CELL_SIZE,
        r matches Some(c) ==> {
            &&& data@ == client_bytes(c@)
            &&& c@ == parsed_client(data@)
            &&& c@.id == data@[0]
            &&& c@.minimal_slot == u64_from_le(data@.subrange(1, 9))
            &&& c@.maximal_slot == u64_from_le(data@.subrange(9, 17))
            &&& c@.tip_valid_header_root.len() == 32
            &&& c@.headers_mmr_root.len() == 32
        },
{
    if data.len() != CLIENT_CELL_SIZE {
        return None;
    }
    let id = data[0];
    let minimal_slot = read_u64_le(data, 1);
    let maximal_slot = read_u64_le(data, 9);
    let tip_valid_header_root = copy_range(data, 17, 49);
    let headers_mmr_root = copy_range(data, 49, 81);
    let c = Client { id, minimal_slot, maximal_slot, tip_valid_header_root, headers_mmr_root };
    proof {
        lemma_u64_le_bytes_of(data@.subrange(1, 9));
        lemma_u64_le_bytes_of(data@.subrange(9, 17));
        assert(client_bytes(c@) =~= data@);
    }
    Some(c)
}

/// Serialises the metadata cell.
pub fn encode_client_info(info: &ClientInfo) -> (r: Vec<u8>)
    ensures
        r@ == info_bytes(*info),
{
    let mut r: Vec<u8> = Vec::new();
    r.push(info.last_id);
    r.push(info.minimal_updates_count);
    proof {
        assert(r@ =~= info_bytes(*info));
    }
    r
}

/// Parses on-chain cell data as the metadata cell. Returns `None` exactly
/// when the data has the wrong size.
pub fn parse_client_info(data: &Vec<u8>) -> (r: Option<ClientInfo>)
    ensures
        r is Some <==> data@.len() == INFO_CELL_SIZE,
        r matches Some(info) ==> data@ == info_bytes(info) && info.last_id == data@[0]
            && info.minimal_updates_count == data@[1],
{
    if data.len() != INFO_CELL_SIZE {
        return None;
    }
    let info = ClientInfo { last_id: data[0], minimal_updates_count: data[1] };
    proof {
        assert(info_bytes(info) =~= data@);
    }
    Some(info)
}

/// Serialises the family's type-script arguments; `None` when no type id is
/// configured yet.
pub fn encode_client_type_args(args: &ClientTypeArgs) -> (r: Option<Vec<u8>>)
    ensures
        r is Some <==> args.type_id is Some,
        r matches Some(bs) ==> args.type_id matches Some(tid) && bs@ == type_args_bytes(
            tid@,
            args.cells_count,
        ),
{
    match &args.type_id {
        None => None,
        Some(tid) => {
            let mut r = crate::types::clone_bytes(tid);
            r.push(args.cells_count);
            proof {
                assert(r@ =~= type_args_bytes(tid@, args.cells_count));
            }
            Some(r)
        },
    }
}

} // verus!
