//! Polymorphic per-chain client-state dispatch: a tagged union over the
//! supported chain kinds, with each read-only operation an exhaustively
//! matched function over the variants.

use vstd::prelude::*;

verus! {

/// A chain height: revision number and height within the revision.
#[derive(Clone, Copy, PartialEq, Eq, Structural, Debug)]
pub struct Height {
    pub revision_number: u64,
    pub revision_height: u64,
}

/// A span of time in seconds and subsecond nanoseconds.
#[derive(Clone, Copy, PartialEq, Eq, Structural, Debug)]
pub struct TimeSpan {
    pub secs: u64,
    pub nanos: u32,
}

impl TimeSpan {
    /// Normalised: the nanosecond part stays below one second.
    pub open spec fn wf(self) -> bool {
        self.nanos < 1_000_000_000
    }

    /// Strictly longer than `other`, compared lexicographically; for
    /// normalised spans this is the order of total duration.
    pub open spec fn spec_gt(self, other: TimeSpan) -> bool {
        self.secs > other.secs || (self.secs == other.secs && self.nanos > other.nanos)
    }
}

/// A fraction of validator power that must overlap between two states.
#[derive(Clone, Copy, PartialEq, Eq, Structural, Debug)]
pub struct TrustThreshold {
    pub numerator: u64,
    pub denominator: u64,
}

/// The supported chain kinds.
#[derive(Clone, Copy, PartialEq, Eq, Structural, Debug)]
pub enum ClientType {
    Tendermint,
    Eth,
    Ckb,
    Axon,
}

/// What a request expected against what it found.
#[derive(Clone, Copy, PartialEq, Eq, Structural, Debug)]
pub struct ClientTypeMismatch {
    pub expected: ClientType,
    pub actual: ClientType,
}

/// The fields of a Tendermint client state that the dispatch reads.
pub struct TmClientState {
    pub chain_id: String,
    pub latest_height: Height,
    pub frozen_height: Option<Height>,
    pub trust_threshold: TrustThreshold,
    pub max_clock_drift: TimeSpan,
    pub trusting_period: TimeSpan,
}

/// The fields of an Ethereum client state that the dispatch reads.
pub struct EthClientState {
    pub chain_id: String,
    pub latest_height: Height,
}

/// The fields of a CKB client state that the dispatch reads.
pub struct CkbClientState {
    pub chain_id: String,
    pub latest_height: Height,
}

/// The fields of an Axon client state that the dispatch reads.
pub struct AxonClientState {
    pub chain_id: String,
    pub latest_height: Height,
}

/// Per-chain upgrade parameters; only the Tendermint kind carries any.
pub enum AnyUpgradeOptions {
    Tendermint(TmUpgradeOptions),
}

/// Upgrade parameters of a Tendermint client.
#[derive(Clone, Copy, PartialEq, Eq, Structural, Debug)]
pub struct TmUpgradeOptions {
    pub new_unbonding_period: TimeSpan,
}

impl AnyUpgradeOptions {
    /// The Tendermint upgrade parameters, if this is the Tendermint kind.
    pub fn as_tm_upgrade_options(&self) -> (r: Option<&TmUpgradeOptions>)
        ensures
            self matches AnyUpgradeOptions::Tendermint(tm) ==> (r matches Some(p) && *p == tm),
    {
        match self {
            AnyUpgradeOptions::Tendermint(tm) => Some(tm),
        }
    }
}

/// A client state of any supported chain kind.
pub enum AnyClientState {
    Tendermint(TmClientState),
    Eth(EthClientState),
    Ckb(CkbClientState),
    Axon(AxonClientState),
}

/// Two thirds of a normalised time span, on total nanoseconds, rounded
/// down: the refresh interval derived from a trusting period.
pub open spec fn spec_two_thirds(t: TimeSpan) -> TimeSpan {
    let q = (2 * (t.secs * 1_000_000_000 + t.nanos)) / 3;
    TimeSpan { secs: (q / 1_000_000_000) as u64, nanos: (q % 1_000_000_000) as u32 }
}

/// Computes two thirds of a normalised time span.
pub fn two_thirds_of(t: &TimeSpan) -> (r: TimeSpan)
    requires
        t.wf(),
    ensures
        r == spec_two_thirds(*t),
        r.wf(),
{
    let total: u128 = (t.secs as u128) * 1_000_000_000 + (t.nanos as u128);
    proof {
        assert((t.secs as u128) * 1_000_000_000 + (t.nanos as u128) < 0x1_0000_0000_0000_0000u128
            * 0x4000_0000u128) by (nonlinear_arith)
            requires
                t.secs <= 0xFFFF_FFFF_FFFF_FFFFu64,
                t.nanos < 1_000_000_000,
        ;
    }
    let q: u128 = (2 * total) / 3;
    let secs: u64 = (q / 1_000_000_000) as u64;
    let nanos: u32 = (q % 1_000_000_000) as u32;
    proof {
        assert(q / 1_000_000_000 <= 0xFFFF_FFFF_FFFF_FFFFu128) by (nonlinear_arith)
            requires
                q <= (2 * ((0xFFFF_FFFF_FFFF_FFFFu128) * 1_000_000_000 + 999_999_999)) / 3,
        ;
    }
    TimeSpan { secs, nanos }
}

impl AnyClientState {
    /// The latest height the state attests to.
    pub open spec fn spec_latest_height(&self) -> Height {
        match self {
            AnyClientState::Tendermint(s) => s.latest_height,
            AnyClientState::Eth(s) => s.latest_height,
            AnyClientState::Ckb(s) => s.latest_height,
            AnyClientState::Axon(s) => s.latest_height,
        }
    }

    pub fn latest_height(&self) -> (h: Height)
        ensures
            h == self.spec_latest_height(),
    {
        match self {
            AnyClientState::Tendermint(s) => s.latest_height,
            AnyClientState::Eth(s) => s.latest_height,
            AnyClientState::Ckb(s) => s.latest_height,
            AnyClientState::Axon(s) => s.latest_height,
        }
    }

    /// The height at which the client was frozen for misbehaviour; only a
    /// Tendermint state carries one.
    pub fn frozen_height(&self) -> (h: Option<Height>)
        ensures
            self matches AnyClientState::Tendermint(s) ==> h == s.frozen_height,
            !(self is Tendermint) ==> h is None,
    {
        match self {
            AnyClientState::Tendermint(s) => s.frozen_height,
            AnyClientState::Eth(_) => None,
            AnyClientState::Ckb(_) => None,
            AnyClientState::Axon(_) => None,
        }
    }

    /// The trust threshold: the Tendermint state's own; one half for Axon;
    /// none for the cell-based kinds.
    pub fn trust_threshold(&self) -> (r: Option<TrustThreshold>)
        ensures
            self matches AnyClientState::Tendermint(s) ==> r == Some(s.trust_threshold),
            self is Axon ==> r == Some(TrustThreshold { numerator: 1, denominator: 2 }),
            self is Eth || self is Ckb ==> r is None,
    {
        match self {
            AnyClientState::Tendermint(s) => Some(s.trust_threshold),
            AnyClientState::Eth(_) => None,
            AnyClientState::Ckb(_) => None,
            AnyClientState::Axon(_) => Some(TrustThreshold { numerator: 1, denominator: 2 }),
        }
    }

    /// The tolerated clock drift; zero for every kind but Tendermint.
    pub fn max_clock_drift(&self) -> (d: TimeSpan)
        ensures
            self matches AnyClientState::Tendermint(s) ==> d == s.max_clock_drift,
            !(self is Tendermint) ==> d == (TimeSpan { secs: 0, nanos: 0 }),
    {
        match self {
            AnyClientState::Tendermint(s) => s.max_clock_drift,
            AnyClientState::Eth(_) => TimeSpan { secs: 0, nanos: 0 },
            AnyClientState::Ckb(_) => TimeSpan { secs: 0, nanos: 0 },
            AnyClientState::Axon(_) => TimeSpan { secs: 0, nanos: 0 },
        }
    }

    /// The kind tag of the state.
    pub fn client_type(&self) -> (t: ClientType)
        ensures
            t == (match self {
                AnyClientState::Tendermint(_) => ClientType::Tendermint,
                AnyClientState::Eth(_) => ClientType::Eth,
                AnyClientState::Ckb(_) => ClientType::Ckb,
                AnyClientState::Axon(_) => ClientType::Axon,
            }),
    {
        match self {
            AnyClientState::Tendermint(_) => ClientType::Tendermint,
            AnyClientState::Eth(_) => ClientType::Eth,
            AnyClientState::Ckb(_) => ClientType::Ckb,
            AnyClientState::Axon(_) => ClientType::Axon,
        }
    }

    /// How often the client should be refreshed: two thirds of the trusting
    /// period for Tendermint, nothing for the other kinds.
    pub fn refresh_period(&self) -> (r: Option<TimeSpan>)
        requires
            self matches AnyClientState::Tendermint(s) ==> s.trusting_period.wf(),
        ensures
            self matches AnyClientState::Tendermint(s) ==> r == Some(
                spec_two_thirds(s.trusting_period),
            ),
            !(self is Tendermint) ==> r is None,
    {
        match self {
            AnyClientState::Tendermint(s) => Some(two_thirds_of(&s.trusting_period)),
            AnyClientState::Eth(_) => None,
            AnyClientState::Ckb(_) => None,
            AnyClientState::Axon(_) => None,
        }
    }

    /// The identifier of the chain the state tracks.
    pub fn chain_id(&self) -> (id: &String)
        ensures
            id@ == (match self {
                AnyClientState::Tendermint(s) => s.chain_id@,
                AnyClientState::Eth(s) => s.chain_id@,
                AnyClientState::Ckb(s) => s.chain_id@,
                AnyClientState::Axon(s) => s.chain_id@,
            }),
    {
        match self {
            AnyClientState::Tendermint(s) => &s.chain_id,
            AnyClientState::Eth(s) => &s.chain_id,
            AnyClientState::Ckb(s) => &s.chain_id,
            AnyClientState::Axon(s) => &s.chain_id,
        }
    }

    /// Whether the client has expired after `elapsed` time since its latest
    /// header: past the trusting period for Tendermint, never for the
    /// cell-based kinds. The Ethereum kind does not define expiry.
    pub fn expired(&self, elapsed: TimeSpan) -> (e: bool)
        requires
            !(self is Eth),
        ensures
            self matches AnyClientState::Tendermint(s) ==> e == elapsed.spec_gt(
                s.trusting_period,
            ),
            self is Ckb || self is Axon ==> !e,
    {
        match self {
            AnyClientState::Tendermint(s) => {
                elapsed.secs > s.trusting_period.secs || (elapsed.secs == s.trusting_period.secs
                    && elapsed.nanos > s.trusting_period.nanos)
            },
            AnyClientState::Eth(_) => unreached(),
            AnyClientState::Ckb(_) => false,
            AnyClientState::Axon(_) => false,
        }
    }

    /// The Tendermint state inside, or the mismatch that was found.
    pub fn as_tendermint(&self) -> (r: Result<&TmClientState, ClientTypeMismatch>)
        ensures
            self matches AnyClientState::Tendermint(s) ==> (r matches Ok(p) && *p == s),
            r is Ok ==> self is Tendermint,
            !(self is Tendermint) ==> (r matches Err(m) && m.expected == ClientType::Tendermint),
    {
        match self {
            AnyClientState::Tendermint(s) => Ok(s),
            _ => Err(ClientTypeMismatch { expected: ClientType::Tendermint, actual: self.client_type() }),
        }
    }

    /// The Ethereum state inside, or the mismatch that was found.
    pub fn as_eth(&self) -> (r: Result<&EthClientState, ClientTypeMismatch>)
        ensures
            self matches AnyClientState::Eth(s) ==> (r matches Ok(p) && *p == s),
            r is Ok ==> self is Eth,
            !(self is Eth) ==> (r matches Err(m) && m.expected == ClientType::Eth),
    {
        match self {
            AnyClientState::Eth(s) => Ok(s),
            _ => Err(ClientTypeMismatch { expected: ClientType::Eth, actual: self.client_type() }),
        }
    }

    /// The CKB state inside, or the mismatch that was found.
    pub fn as_ckb(&self) -> (r: Result<&CkbClientState, ClientTypeMismatch>)
        ensures
            self matches AnyClientState::Ckb(s) ==> (r matches Ok(p) && *p == s),
            r is Ok ==> self is Ckb,
            !(self is Ckb) ==> (r matches Err(m) && m.expected == ClientType::Ckb),
    {
        match self {
            AnyClientState::Ckb(s) => Ok(s),
            _ => Err(ClientTypeMismatch { expected: ClientType::Ckb, actual: self.client_type() }),
        }
    }

    /// The Axon state inside, or the mismatch that was found.
    pub fn as_axon(&self) -> (r: Result<&AxonClientState, ClientTypeMismatch>)
        ensures
            self matches AnyClientState::Axon(s) ==> (r matches Ok(p) && *p == s),
            r is Ok ==> self is Axon,
            !(self is Axon) ==> (r matches Err(m) && m.expected == ClientType::Axon),
    {
        match self {
            AnyClientState::Axon(s) => Ok(s),
            _ => Err(ClientTypeMismatch { expected: ClientType::Axon, actual: self.client_type() }),
        }
    }
}

impl From<TmClientState> for AnyClientState {
    fn from(value: TmClientState) -> (r: AnyClientState) {
        AnyClientState::Tendermint(value)
    }
}

impl vstd::std_specs::convert::FromSpecImpl<TmClientState> for AnyClientState {
    open spec fn obeys_from_spec() -> bool {
        true
    }

    open spec fn from_spec(value: TmClientState) -> AnyClientState {
        AnyClientState::Tendermint(value)
    }
}

impl From<EthClientState> for AnyClientState {
    fn from(value: EthClientState) -> (r: AnyClientState) {
        AnyClientState::Eth(value)
    }
}

impl vstd::std_specs::convert::FromSpecImpl<EthClientState> for AnyClientState {
    open spec fn obeys_from_spec() -> bool {
        true
    }

    open spec fn from_spec(value: EthClientState) -> AnyClientState {
        AnyClientState::Eth(value)
    }
}

impl From<CkbClientState> for AnyClientState {
    fn from(value: CkbClientState) -> (r: AnyClientState) {
        AnyClientState::Ckb(value)
    }
}

impl vstd::std_specs::convert::FromSpecImpl<CkbClientState> for AnyClientState {
    open spec fn obeys_from_spec() -> bool {
        true
    }

    open spec fn from_spec(value: CkbClientState) -> AnyClientState {
        AnyClientState::Ckb(value)
    }
}

impl From<AxonClientState> for AnyClientState {
    fn from(value: AxonClientState) -> (r: AnyClientState) {
        AnyClientState::Axon(value)
    }
}

impl vstd::std_specs::convert::FromSpecImpl<AxonClientState> for AnyClientState {
    open spec fn obeys_from_spec() -> bool {
        true
    }

    open spec fn from_spec(value: AxonClientState) -> AnyClientState {
        AnyClientState::Axon(value)
    }
}

/// A client state together with the identifier it is registered under.
pub struct IdentifiedAnyClientState {
    pub client_id: String,
    pub client_state: AnyClientState,
}

impl IdentifiedAnyClientState {
    pub fn new(client_id: String, client_state: AnyClientState) -> (r: Self)
        ensures
            r.client_id == client_id,
            r.client_state == client_state,
    {
        IdentifiedAnyClientState { client_id, client_state }
    }
}

} // verus!
