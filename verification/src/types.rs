//! Plain data model of the driver: header updates, on-chain client records,
//! ring-buffer metadata and the cells fetched from the ledger indexer.

use vstd::prelude::*;

verus! {

/// One freshly fetched source-chain header update, keyed by its slot index.
/// `data` carries the opaque header content that the cryptographic
/// verification step consumes; the driver's decisions read only `slot`.
pub struct HeaderUpdate {
    pub slot: u64,
    pub data: Vec<u8>,
}

/// Mathematical model of a header update.
pub struct HeaderRecord {
    pub slot: u64,
    pub data: Seq<u8>,
}

impl View for HeaderUpdate {
    type V = HeaderRecord;

    open spec fn view(&self) -> HeaderRecord {
        HeaderRecord { slot: self.slot, data: self.data@ }
    }
}

impl HeaderUpdate {
    /// An exact copy; written out so that the equality of the copy is proved
    /// rather than taken from a derived `Clone`.
    pub fn duplicate(&self) -> (r: Self)
        ensures
            r@ == self@,
    {
        HeaderUpdate { slot: self.slot, data: clone_bytes(&self.data) }
    }
}

/// Copies a byte vector, with the equality of the copy proved.
pub fn clone_bytes(v: &Vec<u8>) -> (r: Vec<u8>)
    ensures
        r@ == v@,
{
    let mut r: Vec<u8> = Vec::new();
    let mut i: usize = 0;
    while i < v.len()
        invariant
            i <= v.len(),
            r@ == v@.take(i as int),
        decreases v.len() - i,
    {
        r.push(v[i]);
        proof {
            assert(r@ =~= v@.take(i as int + 1));
        }
        i = i + 1;
    }
    proof {
        assert(r@ =~= v@);
    }
    r
}

/// Copies a vector of header updates, element for element.
pub fn clone_updates(v: &Vec<HeaderUpdate>) -> (r: Vec<HeaderUpdate>)
    ensures
        r@.len() == v@.len(),
        forall|i: int| 0 <= i < v@.len() ==> #[trigger] r@[i]@ == v@[i]@,
{
    let mut r: Vec<HeaderUpdate> = Vec::new();
    let mut i: usize = 0;
    while i < v.len()
        invariant
            i <= v.len(),
            r@.len() == i,
            forall|j: int| 0 <= j < i ==> #[trigger] r@[j]@ == v@[j]@,
        decreases v.len() - i,
    {
        r.push(v[i].duplicate());
        i = i + 1;
    }
    r
}

/// One on-chain client record: the inclusive range of source-chain slots this
/// ring slot attests to, plus the two commitment roots of the verification
/// payload.
pub struct Client {
    pub id: u8,
    pub minimal_slot: u64,
    pub maximal_slot: u64,
    pub tip_valid_header_root: Vec<u8>,
    pub headers_mmr_root: Vec<u8>,
}

/// Mathematical model of a client record.
pub struct ClientModel {
    pub id: u8,
    pub minimal_slot: u64,
    pub maximal_slot: u64,
    pub tip_valid_header_root: Seq<u8>,
    pub headers_mmr_root: Seq<u8>,
}

impl View for Client {
    type V = ClientModel;

    open spec fn view(&self) -> ClientModel {
        ClientModel {
            id: self.id,
            minimal_slot: self.minimal_slot,
            maximal_slot: self.maximal_slot,
            tip_valid_header_root: self.tip_valid_header_root@,
            headers_mmr_root: self.headers_mmr_root@,
        }
    }
}

impl ClientModel {
    /// A client record is well formed when its slot range is non-empty and
    /// both roots are 32-byte hashes.
    pub open spec fn wf(self) -> bool {
        &&& self.minimal_slot <= self.maximal_slot
        &&& self.tip_valid_header_root.len() == 32
        &&& self.headers_mmr_root.len() == 32
    }

    /// Number of slots the record attests to.
    pub open spec fn span(self) -> int {
        self.maximal_slot - self.minimal_slot + 1
    }
}

impl Client {
    pub open spec fn wf(&self) -> bool {
        self@.wf()
    }

    /// An exact copy with the equality of the copy proved.
    pub fn duplicate(&self) -> (r: Self)
        ensures
            r@ == self@,
    {
        Client {
            id: self.id,
            minimal_slot: self.minimal_slot,
            maximal_slot: self.maximal_slot,
            tip_valid_header_root: clone_bytes(&self.tip_valid_header_root),
            headers_mmr_root: clone_bytes(&self.headers_mmr_root),
        }
    }
}

/// The metadata cell of a ring-buffer family: the id of the slot most
/// recently written and the minimum slot span a single update must cover.
pub struct ClientInfo {
    pub last_id: u8,
    pub minimal_updates_count: u8,
}

/// Identifies one ring-buffer family: its unique 32-byte type hash (absent
/// until the family is bootstrapped) and the total number of cells
/// (`cells_count - 1` rotating client slots plus one metadata cell).
pub struct ClientTypeArgs {
    pub type_id: Option<Vec<u8>>,
    pub cells_count: u8,
}

impl ClientTypeArgs {
    pub open spec fn wf(&self) -> bool {
        &&& self.type_id matches Some(h) ==> h@.len() == 32
        &&& self.cells_count >= 2
    }
}

/// Reference to a live cell on the ledger: the hash of the transaction that
/// created it and the output index within that transaction.
pub struct OutPoint {
    pub tx_hash: Vec<u8>,
    pub index: u32,
}

impl View for OutPoint {
    type V = (Seq<u8>, u32);

    open spec fn view(&self) -> (Seq<u8>, u32) {
        (self.tx_hash@, self.index)
    }
}

/// A fetched live cell: where it sits and the data it carries.
pub struct CellData {
    pub out_point: OutPoint,
    pub output_data: Vec<u8>,
}

impl View for CellData {
    type V = ((Seq<u8>, u32), Seq<u8>);

    open spec fn view(&self) -> ((Seq<u8>, u32), Seq<u8>) {
        (self.out_point@, self.output_data@)
    }
}

/// Snapshot of the ring-buffer family as fetched from the indexer: the slot
/// currently furthest behind (next to be overwritten), the slot most recently
/// written, and the metadata cell.
pub struct UpdateCells {
    pub oldest: CellData,
    pub latest: CellData,
    pub info: CellData,
}

/// The ledger network a node belongs to, classified from the chain name the
/// node reports.
#[derive(Clone, Copy, PartialEq, Eq, Structural, Debug)]
pub enum Network {
    Mainnet,
    Testnet,
    Dev,
}

} // verus!
