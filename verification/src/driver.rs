//! The multi-client lifecycle manager: one state machine per chain driver
//! that aligns native and on-chain state, applies the verifier's outcome to
//! the local proof store, plans the ring-buffer transaction, and walks the
//! submission stages `Built -> Signed -> Broadcast -> {Confirmed | TimedOut
//! | Rejected}` with the rollback rule: a failure after the store was
//! mutated always rolls the store back to the pre-verification checkpoint
//! before the error surfaces.
//!
//! The surrounding process performs the network and key operations; it calls
//! one method per completed operation, hands in the outcome as a plain
//! value, and performs the returned [`Action`] next.

use vstd::prelude::*;
use vstd::string::StringExecFns;

use crate::align::{align_updates, aligned_rest, alignable, covered_frontier, onchain_model};
use crate::assembler::{plan_create_transaction, plan_update_transaction, retagged, TxPlan};
use crate::codec::{client_bytes, encode_client_type_args, info_bytes, parse_client,
    parse_client_info, parsed_client, type_args_bytes, CLIENT_CELL_SIZE, INFO_CELL_SIZE};
use crate::errors::Error;
use crate::store::{contiguous, continues, records_of, rolled_back, tip_of, ProofStore};
use crate::types::{clone_updates, Client, ClientInfo, ClientModel, ClientTypeArgs, HeaderRecord,
    HeaderUpdate, Network, UpdateCells};

verus! {

/// Seconds between two confirmation polls.
pub const POLL_INTERVAL_SECS: u64 = 3;

/// Seconds after which an unconfirmed broadcast counts as timed out.
pub const CONFIRMATION_DEADLINE_SECS: u64 = 60;

/// Static configuration of one chain driver.
pub struct DriverConfig {
    pub client_type_args: ClientTypeArgs,
    pub minimal_updates_count: u8,
}

/// What the cryptographic aggregation step returns on success: the two
/// commitment roots of the successor record and the opaque proof payload
/// binding it to its predecessor.
pub struct VerifyOutcome {
    pub tip_valid_header_root: Vec<u8>,
    pub headers_mmr_root: Vec<u8>,
    pub proof_update: Vec<u8>,
}

/// How a broadcast attempt ended at the ledger's submission endpoint.
pub enum BroadcastOutcome {
    /// The transaction was accepted into the pool.
    Accepted,
    /// The endpoint rejected the transaction; `msg` is the transport's
    /// message, `tx_json` a rendering of the transaction for triage.
    Rejected { msg: String, tx_json: String },
}

/// Which workflow a submission belongs to.
pub enum FlowKind {
    /// Bootstrap of a new family; holds the minted type id once the
    /// transaction is assembled.
    Create { minted_type_id: Option<Vec<u8>> },
    Update,
}

/// Where a submission attempt stands.
pub enum SubmitStage {
    Assembling,
    Signing,
    Broadcasting,
    /// Broadcast hit a duplicate-transaction condition; waiting for the
    /// best-effort pool diagnostics to attach to the error.
    DiagnosingDuplicate { transport_msg: String, tx_json: String },
    Polling { waited_secs: u64 },
}

/// The driver's workflow state between two events.
pub enum Flow {
    Idle,
    /// A create was started while a type id is already configured: probing
    /// whether the family exists on-chain.
    CreateProbe,
    /// Create path: the aligned batch awaits the verifier.
    CreateVerify { updates: Vec<HeaderUpdate> },
    /// Update path: waiting for the ring snapshot from the indexer.
    UpdateFetch { updates: Vec<HeaderUpdate> },
    /// Update path: the aligned batch awaits the verifier; the fetched ring
    /// snapshot and the on-chain update policy ride along.
    UpdateVerify { updates: Vec<HeaderUpdate>, cells: UpdateCells, required: u8 },
    /// A transaction is on its way out.
    Submitting {
        kind: FlowKind,
        checkpoint: Option<u64>,
        pre: Ghost<Seq<HeaderRecord>>,
        span: u64,
        required: u8,
        stage: SubmitStage,
    },
}

/// What the surrounding process must do next.
pub enum Action {
    /// Fetch the family's ring cells by these type-script arguments.
    FetchCells { type_args: Vec<u8> },
    /// Run the cryptographic aggregation step over this aligned batch.
    RunVerifier { updates: Vec<HeaderUpdate> },
    /// Complete this cell-level plan into a fee-balanced ledger transaction.
    Assemble { plan: TxPlan },
    /// Sign the assembled transaction with the configured key.
    Sign,
    /// Send the signed transaction with best-effort validation.
    Broadcast,
    /// Query the local transaction pool state for triage.
    FetchPoolDiagnostics,
    /// Wait this long, then report whether the transaction is committed.
    Poll { delay_secs: u64 },
    /// The workflow ended; `None` is success.
    Finish { error: Option<Error> },
}

/// A batch parked in the flow: non-empty, contiguous, and continuing the
/// store's tip, so that appending it keeps the window gap-free.
pub open spec fn pending_ok(rs: Seq<HeaderRecord>, ups: Seq<HeaderUpdate>) -> bool {
    &&& records_of(ups).len() > 0
    &&& contiguous(records_of(ups))
    &&& continues(rs, records_of(ups))
}

/// Slot span of a pending batch.
pub open spec fn span_of(ups: Seq<HeaderUpdate>) -> int {
    ups.last()@.slot - ups[0]@.slot + 1
}

/// The chain driver: configuration, the local proof store, the memoized
/// network and fee-payer values, the last seen on-chain record, and the
/// workflow state.
pub struct CkbChain {
    pub config: DriverConfig,
    pub store: ProofStore,
    pub cached_network: Option<Network>,
    pub cached_tx_assembler_address: Option<String>,
    pub cached_onchain_client: Option<Client>,
    pub flow: Flow,
}

impl CkbChain {
    /// Everything the machine relies on between two events: the store is
    /// gap-free; a parked batch still fits the store; a running submission
    /// can always be rolled back to its checkpoint and spans enough slots.
    pub open spec fn wf(&self) -> bool {
        &&& self.store.wf()
        &&& self.config.client_type_args.wf()
        &&& match self.flow {
            Flow::Idle => true,
            Flow::CreateProbe => true,
            Flow::CreateVerify { updates } => pending_ok(self.store@, updates@),
            Flow::UpdateFetch { .. } => true,
            Flow::UpdateVerify { updates, .. } => pending_ok(self.store@, updates@),
            Flow::Submitting { kind, checkpoint, pre, span, required, stage } => {
                &&& checkpoint == tip_of(pre@)
                &&& contiguous(pre@)
                &&& rolled_back(self.store@, checkpoint) == pre@
                &&& span >= required
                &&& (stage matches SubmitStage::Polling { waited_secs } ==> waited_secs
                    <= CONFIRMATION_DEADLINE_SECS)
                &&& ((stage !is Assembling && kind is Create) ==> (kind->Create_minted_type_id
                    matches Some(t) && t@.len() == 32))
            },
        }
    }

    /// Store contents a running submission would restore on failure.
    pub open spec fn submit_pre(&self) -> Seq<HeaderRecord>
        recommends
            self.flow is Submitting,
    {
        self.flow->Submitting_pre@
    }

    pub open spec fn submit_stage(&self) -> SubmitStage
        recommends
            self.flow is Submitting,
    {
        self.flow->Submitting_stage
    }

    pub open spec fn submit_span(&self) -> u64
        recommends
            self.flow is Submitting,
    {
        self.flow->Submitting_span
    }

    pub open spec fn submit_required(&self) -> u8
        recommends
            self.flow is Submitting,
    {
        self.flow->Submitting_required
    }

    /// A fresh driver around its configuration and proof store.
    pub fn new(config: DriverConfig, store: ProofStore) -> (d: Self)
        requires
            config.client_type_args.wf(),
            store.wf(),
        ensures
            d.wf(),
            d.config == config,
            d.store@ == store@,
            d.flow is Idle,
            d.cached_network is None,
            d.cached_tx_assembler_address is None,
            d.cached_onchain_client is None,
    {
        CkbChain {
            config,
            store,
            cached_network: None,
            cached_tx_assembler_address: None,
            cached_onchain_client: None,
            flow: Flow::Idle,
        }
    }

    /// Starts the update workflow on a batch of fetched header updates.
    /// Without a configured type id nothing can be updated; otherwise the
    /// ring snapshot must be fetched first.
    pub fn start_update(&mut self, updates: Vec<HeaderUpdate>) -> (a: Action)
        requires
            old(self).wf(),
            old(self).flow is Idle,
        ensures
            final(self).wf(),
            final(self).store@ == old(self).store@,
            final(self).config == old(self).config,
            old(self).config.client_type_args.type_id is None ==> (a matches Action::Finish {
                error: Some(e) } && e is Configuration && final(self).flow is Idle),
            old(self).config.client_type_args.type_id matches Some(tid) ==> {
                &&& a matches Action::FetchCells { type_args } && type_args@ == type_args_bytes(
                    tid@,
                    old(self).config.client_type_args.cells_count,
                )
                &&& final(self).flow matches Flow::UpdateFetch { updates: u } && u@ == updates@
            },
    {
        match encode_client_type_args(&self.config.client_type_args) {
            None => Action::Finish {
                error: Some(Error::Configuration {
                    msg: String::from_str("no type id in the configured client type args"),
                }),
            },
            Some(type_args) => {
                self.flow = Flow::UpdateFetch { updates };
                Action::FetchCells { type_args }
            },
        }
    }

    /// Starts the create (bootstrap) workflow. When a type id is already
    /// configured the family may already exist: the ring cells are probed
    /// first and no new family is minted. Otherwise the batch is aligned
    /// against the local store and handed to the verifier.
    pub fn start_create(&mut self, updates: Vec<HeaderUpdate>) -> (a: Action)
        requires
            old(self).wf(),
            old(self).flow is Idle,
        ensures
            final(self).wf(),
            final(self).store@ == old(self).store@,
            final(self).config == old(self).config,
            old(self).config.client_type_args.type_id matches Some(tid) ==> (final(self).flow
                is CreateProbe && (a matches Action::FetchCells { type_args } && type_args@
                == type_args_bytes(tid@, old(self).config.client_type_args.cells_count))),
            old(self).config.client_type_args.type_id is None ==> {
                let batch = records_of(updates@);
                let cov = covered_frontier(
                    onchain_model(
                        match old(self).cached_onchain_client {
                            Some(ref c) => Some(c),
                            None => None,
                        },
                    ),
                    tip_of(old(self).store@),
                );
                if alignable(batch, cov) && aligned_fits(old(self).store@, batch, cov) {
                    &&& a matches Action::RunVerifier { updates: u } && records_of(u@)
                        == aligned_rest(batch, cov)
                    &&& final(self).flow matches Flow::CreateVerify { updates: u2 }
                        && records_of(u2@) == aligned_rest(batch, cov)
                } else {
                    &&& a matches Action::Finish { error: Some(e) } && (e is Alignment)
                    &&& final(self).flow is Idle
                }
            },
    {
        if self.config.client_type_args.type_id.is_some() {
            let type_args = match encode_client_type_args(&self.config.client_type_args) {
                Some(ta) => ta,
                None => {
                    return Action::Finish {
                        error: Some(Error::Configuration {
                            msg: String::from_str("no type id in the configured client type args"),
                        }),
                    };
                },
            };
            self.flow = Flow::CreateProbe;
            return Action::FetchCells { type_args };
        }
        let mut batch = updates;
        let store_tip = self.store.tip_slot();
        let aligned = align_updates(
            &mut batch,
            match self.cached_onchain_client {
                Some(ref c) => Some(c),
                None => None,
            },
            store_tip,
        );
        if let Err(e) = aligned {
            return Action::Finish { error: Some(e) };
        }
        if !batch_continues_store(&self.store, &batch) {
            return Action::Finish {
                error: Some(Error::Alignment {
                    msg: String::from_str(
                        "local proof store is behind the on-chain frontier; resynchronize",
                    ),
                }),
            };
        }
        let for_verifier = clone_updates(&batch);
        self.flow = Flow::CreateVerify { updates: batch };
        proof {
            assert(records_of(for_verifier@) =~= records_of(
                self.flow->CreateVerify_updates@,
            ));
        }
        Action::RunVerifier { updates: for_verifier }
    }

    /// Handles the fetched ring snapshot.
    ///
    /// On the create probe: a family found on-chain ends the workflow with
    /// the specialized already-exists signal carrying the base slot of the
    /// family's latest record — no new family is ever minted over it. On the
    /// update path: the snapshot names the on-chain frontier and the
    /// family's update policy; the batch is aligned and handed to the
    /// verifier.
    pub fn on_cells_fetched(&mut self, cells: Option<UpdateCells>) -> (a: Action)
        requires
            old(self).wf(),
            old(self).flow is CreateProbe || old(self).flow is UpdateFetch,
        ensures
            final(self).wf(),
            final(self).store@ == old(self).store@,
            final(self).config == old(self).config,
            old(self).flow is CreateProbe ==> final(self).flow is Idle && (match cells {
                Some(cs) => if cs.latest.output_data@.len() == CLIENT_CELL_SIZE {
                    a matches Action::Finish { error: Some(e) } && (e matches
                    Error::AlreadyExists { minimal_slot } && minimal_slot == parsed_client(
                        cs.latest.output_data@,
                    ).minimal_slot)
                } else {
                    a matches Action::Finish { error: Some(e) } && e is Configuration
                },
                None => a matches Action::Finish { error: Some(e) } && e is Configuration,
            }),
            old(self).flow matches Flow::UpdateFetch { updates } ==> (match cells {
                None => a matches Action::Finish { error: Some(e) } && e is Configuration
                    && final(self).flow is Idle,
                Some(cs) => {
                    if cs.latest.output_data@.len() != CLIENT_CELL_SIZE
                        || cs.info.output_data@.len() != INFO_CELL_SIZE {
                        a matches Action::Finish { error: Some(e) } && e is Configuration
                            && final(self).flow is Idle
                    } else {
                        let batch = records_of(updates@);
                        let cov = covered_frontier(
                            Some(parsed_client(cs.latest.output_data@)),
                            tip_of(old(self).store@),
                        );
                        if alignable(batch, cov) && aligned_fits(old(self).store@, batch, cov) {
                            &&& a matches Action::RunVerifier { updates: u } && records_of(u@)
                                == aligned_rest(batch, cov)
                            &&& final(self).flow matches Flow::UpdateVerify {
                                updates: u2,
                                cells: cs2,
                                required,
                            } && records_of(u2@) == aligned_rest(batch, cov) && cs2 == cs
                                && required == cs.info.output_data@[1]
                        } else {
                            &&& a matches Action::Finish { error: Some(e) } && e is Alignment
                            &&& final(self).flow is Idle
                        }
                    }
                },
            }),
            old(self).flow is CreateProbe && (cells matches Some(cs)
                && cs.latest.output_data@.len() == CLIENT_CELL_SIZE) ==> (final(self).cached_onchain_client matches Some(c) && c@ == parsed_client(
                cells->0.latest.output_data@,
            )),
            old(self).flow is UpdateFetch && (cells matches Some(cs)
                && cs.latest.output_data@.len() == CLIENT_CELL_SIZE && cs.info.output_data@.len()
                == INFO_CELL_SIZE) ==> (final(self).cached_onchain_client matches Some(c) && c@
                == parsed_client(cells->0.latest.output_data@)),
    {
        let mut cur = Flow::Idle;
        core::mem::swap(&mut cur, &mut self.flow);
        match cur {
            Flow::CreateProbe => {
                match cells {
                    None => Action::Finish {
                        error: Some(Error::Configuration {
                            msg: String::from_str("no multi-client cells found for config"),
                        }),
                    },
                    Some(cs) => {
                        match parse_client(&cs.latest.output_data) {
                            Some(c) => {
                                let minimal_slot = c.minimal_slot;
                                self.cached_onchain_client = Some(c);
                                Action::Finish {
                                    error: Some(Error::AlreadyExists { minimal_slot }),
                                }
                            },
                            None => Action::Finish {
                                error: Some(Error::Configuration {
                                    msg: String::from_str(
                                        "on-chain family does not match the configured layout",
                                    ),
                                }),
                            },
                        }
                    },
                }
            },
            Flow::UpdateFetch { updates } => {
                let cs = match cells {
                    None => {
                        return Action::Finish {
                            error: Some(Error::Configuration {
                                msg: String::from_str("no multi-client cells found"),
                            }),
                        };
                    },
                    Some(cs) => cs,
                };
                let latest_client = match parse_client(&cs.latest.output_data) {
                    Some(c) => c,
                    None => {
                        return Action::Finish {
                            error: Some(Error::Configuration {
                                msg: String::from_str(
                                    "on-chain family does not match the configured layout",
                                ),
                            }),
                        };
                    },
                };
                let info = match parse_client_info(&cs.info.output_data) {
                    Some(i) => i,
                    None => {
                        return Action::Finish {
                            error: Some(Error::Configuration {
                                msg: String::from_str(
                                    "on-chain metadata cell does not match the configured layout",
                                ),
                            }),
                        };
                    },
                };
                let mut batch = updates;
                let store_tip = self.store.tip_slot();
                let aligned = align_updates(&mut batch, Some(&latest_client), store_tip);
                self.cached_onchain_client = Some(latest_client);
                if let Err(e) = aligned {
                    return Action::Finish { error: Some(e) };
                }
                if !batch_continues_store(&self.store, &batch) {
                    return Action::Finish {
                        error: Some(Error::Alignment {
                            msg: String::from_str(
                                "local proof store is behind the on-chain frontier; resynchronize",
                            ),
                        }),
                    };
                }
                let for_verifier = clone_updates(&batch);
                proof {
                    assert(records_of(for_verifier@) =~= records_of(batch@));
                }
                self.flow = Flow::UpdateVerify {
                    updates: batch,
                    cells: cs,
                    required: info.minimal_updates_count,
                };
                Action::RunVerifier { updates: for_verifier }
            },
            _ => unreached(),
        }
    }

    /// Applies the verifier's outcome.
    ///
    /// On success the verified batch is appended to the local proof store
    /// and the pre-mutation tip is kept as the rollback checkpoint that
    /// every later failure restores. The span policy is enforced here,
    /// before anything is submitted: a candidate spanning fewer slots than
    /// the family requires is rolled back at once and never assembled,
    /// signed or broadcast.
    pub fn on_verify_result(&mut self, outcome: Result<VerifyOutcome, String>) -> (a: Action)
        requires
            old(self).wf(),
            old(self).flow is CreateVerify || old(self).flow is UpdateVerify,
        ensures
            final(self).wf(),
            final(self).config == old(self).config,
            outcome is Err ==> (final(self).store@ == old(self).store@ && final(self).flow
                is Idle && (a matches Action::Finish { error: Some(e) } && e is Verification)),
            outcome is Ok && !roots_ok(outcome->Ok_0) ==> (final(self).store@ == old(self).store@ && final(self).flow is Idle && (a matches Action::Finish { error: Some(e) }
                && e is Verification)),
            outcome is Ok && roots_ok(outcome->Ok_0) && span_of(old(self).pending_updates())
                < old(self).pending_required() ==> (final(self).store@ == old(self).store@
                && final(self).flow is Idle && (a matches Action::Finish { error: Some(e) } && (e
            matches Error::InsufficientUpdates { span, required } && span == span_of(
                old(self).pending_updates(),
            ) && required == old(self).pending_required()))),
            outcome is Ok && roots_ok(outcome->Ok_0) && span_of(old(self).pending_updates())
                >= old(self).pending_required() && old(self).flow is CreateVerify ==> ({
                let o = outcome->Ok_0;
                let ups = old(self).pending_updates();
                let req = old(self).pending_required();
                let cc = old(self).config.client_type_args.cells_count;
                &&& final(self).store@ == old(self).store@ + records_of(ups)
                &&& final(self).flow matches Flow::Submitting {
                    kind: FlowKind::Create { minted_type_id: None },
                    checkpoint,
                    pre,
                    span,
                    required,
                    stage: SubmitStage::Assembling,
                } && checkpoint == tip_of(old(self).store@) && pre@ == old(self).store@ && span
                    == span_of(ups) && required == req
                &&& a matches Action::Assemble { plan } && {
                    &&& plan.inputs@.len() == 0
                    &&& plan.outputs_data@.len() == cc
                    &&& forall|i: int| 0 <= i < cc - 1 ==> (#[trigger] plan.outputs_data@[i])@
                        == client_bytes(candidate_client(ups, o, i as u8))
                    &&& plan.outputs_data@[cc - 1]@ == info_bytes(
                        ClientInfo { last_id: 0, minimal_updates_count: req },
                    )
                    &&& plan.proof_update@ == o.proof_update@
                }
            }),
            outcome is Ok && roots_ok(outcome->Ok_0) && span_of(old(self).pending_updates())
                >= old(self).pending_required() && old(self).flow is UpdateVerify
                && old(self).flow->UpdateVerify_cells.oldest.output_data@.len()
                != CLIENT_CELL_SIZE ==> (final(self).store@ == old(self).store@ && final(self).flow is Idle && (a matches Action::Finish { error: Some(e) } && e
                is Configuration)),
            outcome is Ok && roots_ok(outcome->Ok_0) && span_of(old(self).pending_updates())
                >= old(self).pending_required() && old(self).flow is UpdateVerify
                && old(self).flow->UpdateVerify_cells.oldest.output_data@.len()
                == CLIENT_CELL_SIZE ==> ({
                let o = outcome->Ok_0;
                let cells = old(self).flow->UpdateVerify_cells;
                let ups = old(self).pending_updates();
                let req = old(self).pending_required();
                let oldest_id = cells.oldest.output_data@[0];
                &&& final(self).store@ == old(self).store@ + records_of(ups)
                &&& final(self).flow matches Flow::Submitting {
                    kind: FlowKind::Update,
                    checkpoint,
                    pre,
                    span,
                    required,
                    stage: SubmitStage::Assembling,
                } && checkpoint == tip_of(old(self).store@) && pre@ == old(self).store@ && span
                    == span_of(ups) && required == req
                &&& a matches Action::Assemble { plan } && {
                    &&& plan.inputs@.len() == 3
                    &&& plan.inputs@[0]@ == cells.oldest.out_point@
                    &&& plan.inputs@[1]@ == cells.latest.out_point@
                    &&& plan.inputs@[2]@ == cells.info.out_point@
                    &&& plan.outputs_data@.len() == 2
                    &&& plan.outputs_data@[0]@ == client_bytes(
                        candidate_client(ups, o, oldest_id),
                    )
                    &&& plan.outputs_data@[1]@ == info_bytes(
                        ClientInfo { last_id: oldest_id, minimal_updates_count: req },
                    )
                    &&& plan.proof_update@ == o.proof_update@
                }
            }),
    {
        let mut cur = Flow::Idle;
        core::mem::swap(&mut cur, &mut self.flow);
        let o = match outcome {
            Err(msg) => {
                return Action::Finish { error: Some(Error::Verification { msg }) };
            },
            Ok(o) => o,
        };
        if !(o.tip_valid_header_root.len() == 32 && o.headers_mmr_root.len() == 32) {
            return Action::Finish {
                error: Some(Error::Verification {
                    msg: String::from_str("verifier returned malformed commitment roots"),
                }),
            };
        }
        match cur {
            Flow::CreateVerify { updates } => {
                let ghost pre = self.store@;
                let ghost ups0 = updates@;
                let ghost o0 = o;
                let ghost recs = records_of(updates@);
                let n = updates.len();
                let first = updates[0].slot;
                let last = updates[n - 1].slot;
                proof {
                    assert(recs[n - 1] == updates@[n - 1]@);
                    assert(recs[0] == updates@[0]@);
                    assert(last == first + (n - 1));
                }
                let span: u64 = last - first + 1;
                let required = self.config.minimal_updates_count;
                let checkpoint = self.store.tip_slot();
                self.store.append_batch(updates);
                if span < required as u64 {
                    self.store.rollback_to(checkpoint);
                    proof {
                        crate::store::law_rollback_restores(pre, recs);
                    }
                    return Action::Finish {
                        error: Some(Error::InsufficientUpdates { span, required }),
                    };
                }
                let seed = Client {
                    id: 0,
                    minimal_slot: first,
                    maximal_slot: last,
                    tip_valid_header_root: o.tip_valid_header_root,
                    headers_mmr_root: o.headers_mmr_root,
                };
                let plan = plan_create_transaction(
                    &seed,
                    self.config.client_type_args.cells_count,
                    required,
                    o.proof_update,
                );
                self.flow = Flow::Submitting {
                    kind: FlowKind::Create { minted_type_id: None },
                    checkpoint,
                    pre: Ghost(pre),
                    span,
                    required,
                    stage: SubmitStage::Assembling,
                };
                proof {
                    crate::store::law_rollback_restores(pre, recs);
                    assert(recs[0] == ups0[0]@);
                    assert(recs[ups0.len() - 1] == ups0.last()@);
                    assert forall|i: int| 0 <= i < self.config.client_type_args.cells_count
                        - 1 implies (#[trigger] retagged(seed@, i as u8)) == candidate_client(
                        ups0,
                        o0,
                        i as u8,
                    ) by {}
                }
                Action::Assemble { plan }
            },
            Flow::UpdateVerify { updates, cells, required } => {
                let ghost pre = self.store@;
                let ghost ups0 = updates@;
                let ghost o0 = o;
                let ghost recs = records_of(updates@);
                let n = updates.len();
                let first = updates[0].slot;
                let last = updates[n - 1].slot;
                proof {
                    assert(recs[n - 1] == updates@[n - 1]@);
                    assert(recs[0] == updates@[0]@);
                    assert(last == first + (n - 1));
                }
                let span: u64 = last - first + 1;
                let checkpoint = self.store.tip_slot();
                self.store.append_batch(updates);
                if span < required as u64 {
                    self.store.rollback_to(checkpoint);
                    proof {
                        crate::store::law_rollback_restores(pre, recs);
                    }
                    return Action::Finish {
                        error: Some(Error::InsufficientUpdates { span, required }),
                    };
                }
                let candidate = Client {
                    id: 0,
                    minimal_slot: first,
                    maximal_slot: last,
                    tip_valid_header_root: o.tip_valid_header_root,
                    headers_mmr_root: o.headers_mmr_root,
                };
                match plan_update_transaction(&cells, &candidate, required, o.proof_update) {
                    Err(e) => {
                        self.store.rollback_to(checkpoint);
                        proof {
                            crate::store::law_rollback_restores(pre, recs);
                        }
                        Action::Finish { error: Some(e) }
                    },
                    Ok(plan) => {
                        self.flow = Flow::Submitting {
                            kind: FlowKind::Update,
                            checkpoint,
                            pre: Ghost(pre),
                            span,
                            required,
                            stage: SubmitStage::Assembling,
                        };
                        proof {
                            crate::store::law_rollback_restores(pre, recs);
                            assert(recs[0] == ups0[0]@);
                            assert(recs[ups0.len() - 1] == ups0.last()@);
                            assert(retagged(candidate@, cells.oldest.output_data@[0])
                                == candidate_client(ups0, o0, cells.oldest.output_data@[0]));
                        }
                        Action::Assemble { plan }
                    },
                }
            },
            _ => unreached(),
        }
    }

    /// The batch parked for verification.
    pub open spec fn pending_updates(&self) -> Seq<HeaderUpdate>
        recommends
            self.flow is CreateVerify || self.flow is UpdateVerify,
    {
        match self.flow {
            Flow::CreateVerify { updates } => updates@,
            Flow::UpdateVerify { updates, .. } => updates@,
            _ => Seq::empty(),
        }
    }

    /// The span the pending batch must reach: the configured policy at
    /// bootstrap, the on-chain policy for an update.
    pub open spec fn pending_required(&self) -> u8
        recommends
            self.flow is CreateVerify || self.flow is UpdateVerify,
    {
        match self.flow {
            Flow::CreateVerify { .. } => self.config.minimal_updates_count,
            Flow::UpdateVerify { required, .. } => required,
            _ => 0,
        }
    }

    /// Which workflow the running submission belongs to.
    pub open spec fn submit_kind(&self) -> FlowKind
        recommends
            self.flow is Submitting,
    {
        self.flow->Submitting_kind
    }

    /// The type id minted for a bootstrap, once assembled.
    pub open spec fn submit_minted(&self) -> Option<Vec<u8>>
        recommends
            self.flow is Submitting,
            self.submit_kind() is Create,
    {
        self.submit_kind()->Create_minted_type_id
    }

    /// Rolls the store back to the submission's checkpoint, leaves the
    /// workflow, and surfaces the error: the rule every terminal submission
    /// failure follows.
    fn fail_submission(&mut self, err: Error) -> (a: Action)
        requires
            old(self).wf(),
            old(self).flow is Submitting,
        ensures
            final(self).wf(),
            final(self).store@ == old(self).submit_pre(),
            final(self).flow is Idle,
            final(self).config == old(self).config,
            a matches Action::Finish { error: Some(e) } && e == err,
    {
        let mut cur = Flow::Idle;
        core::mem::swap(&mut cur, &mut self.flow);
        match cur {
            Flow::Submitting { checkpoint, .. } => {
                self.store.rollback_to(checkpoint);
                Action::Finish { error: Some(err) }
            },
            _ => unreached(),
        }
    }

    /// Handles the transport's attempt to complete the planned transaction.
    /// A bootstrap expects the minted 32-byte type id back; any failure
    /// rolls the store back to the checkpoint.
    pub fn on_assembled(&mut self, outcome: Result<Option<Vec<u8>>, String>) -> (a: Action)
        requires
            old(self).wf(),
            old(self).flow is Submitting,
            old(self).submit_stage() is Assembling,
        ensures
            final(self).wf(),
            final(self).config == old(self).config,
            outcome is Err ==> (final(self).store@ == old(self).submit_pre() && final(self).flow
                is Idle && (a matches Action::Finish { error: Some(e) } && e is Submission)),
            outcome is Ok && old(self).submit_kind() is Update ==> (final(self).store@ == old(self).store@ && a is Sign && final(self).flow is Submitting && final(self).submit_stage()
                is Signing && final(self).submit_kind() is Update && final(self).submit_pre()
                == old(self).submit_pre() && final(self).submit_span() == old(self).submit_span()
                && final(self).submit_required() == old(self).submit_required()),
            outcome is Ok && old(self).submit_kind() is Create && outcome->Ok_0 is Some
                && outcome->Ok_0->Some_0@.len() == 32 ==> (final(self).store@ == old(self).store@
                && a is Sign && final(self).flow is Submitting && final(self).submit_stage()
                is Signing && final(self).submit_kind() is Create && (final(self).submit_minted()
                matches Some(t2) && t2@ == outcome->Ok_0->Some_0@) && final(self).submit_pre()
                == old(self).submit_pre() && final(self).submit_span() == old(self).submit_span()
                && final(self).submit_required() == old(self).submit_required()),
            outcome is Ok && old(self).submit_kind() is Create && !(outcome->Ok_0 is Some
                && outcome->Ok_0->Some_0@.len() == 32) ==> (final(self).store@ == old(self).submit_pre() && final(self).flow is Idle && (a matches Action::Finish {
                error: Some(e) } && e is Submission)),
    {
        let minted = match outcome {
            Err(msg) => {
                return self.fail_submission(Error::Submission { msg });
            },
            Ok(m) => m,
        };
        let mut cur = Flow::Idle;
        core::mem::swap(&mut cur, &mut self.flow);
        match cur {
            Flow::Submitting { kind, checkpoint, pre, span, required, stage: _ } => {
                match kind {
                    FlowKind::Update => {
                        self.flow = Flow::Submitting {
                            kind: FlowKind::Update,
                            checkpoint,
                            pre,
                            span,
                            required,
                            stage: SubmitStage::Signing,
                        };
                        Action::Sign
                    },
                    FlowKind::Create { minted_type_id: _ } => {
                        let tid = match minted {
                            Some(t) => t,
                            None => {
                                self.flow = Flow::Submitting {
                                    kind: FlowKind::Create { minted_type_id: None },
                                    checkpoint,
                                    pre,
                                    span,
                                    required,
                                    stage: SubmitStage::Assembling,
                                };
                                return self.fail_submission(Error::Submission {
                                    msg: String::from_str(
                                        "transport returned no type id for the new family",
                                    ),
                                });
                            },
                        };
                        if tid.len() != 32 {
                            self.flow = Flow::Submitting {
                                kind: FlowKind::Create { minted_type_id: None },
                                checkpoint,
                                pre,
                                span,
                                required,
                                stage: SubmitStage::Assembling,
                            };
                            return self.fail_submission(Error::Submission {
                                msg: String::from_str(
                                    "transport returned a malformed type id for the new family",
                                ),
                            });
                        }
                        self.flow = Flow::Submitting {
                            kind: FlowKind::Create { minted_type_id: Some(tid) },
                            checkpoint,
                            pre,
                            span,
                            required,
                            stage: SubmitStage::Signing,
                        };
                        Action::Sign
                    },
                }
            },
            _ => unreached(),
        }
    }

    /// Handles the signing result. A signing failure is fatal to the
    /// attempt: the store is rolled back and a key error surfaces.
    pub fn on_signed(&mut self, outcome: Result<(), String>) -> (a: Action)
        requires
            old(self).wf(),
            old(self).flow is Submitting,
            old(self).submit_stage() is Signing,
        ensures
            final(self).wf(),
            final(self).config == old(self).config,
            outcome is Err ==> (final(self).store@ == old(self).submit_pre() && final(self).flow
                is Idle && (a matches Action::Finish { error: Some(e) } && e is KeyAccess)),
            outcome is Ok ==> (final(self).store@ == old(self).store@ && a is Broadcast && final(self).flow is Submitting && final(self).submit_stage() is Broadcasting && final(self).submit_kind() == old(self).submit_kind() && final(self).submit_pre() == old(self).submit_pre() && final(self).submit_span() == old(self).submit_span() && final(self).submit_required() == old(self).submit_required()),
    {
        if let Err(msg) = outcome {
            return self.fail_submission(Error::KeyAccess { msg });
        }
        let mut cur = Flow::Idle;
        core::mem::swap(&mut cur, &mut self.flow);
        match cur {
            Flow::Submitting { kind, checkpoint, pre, span, required, stage: _ } => {
                self.flow = Flow::Submitting {
                    kind,
                    checkpoint,
                    pre,
                    span,
                    required,
                    stage: SubmitStage::Broadcasting,
                };
                Action::Broadcast
            },
            _ => unreached(),
        }
    }

    /// Handles the broadcast result. Acceptance starts the confirmation
    /// polls. A rejection with a duplicate-transaction condition first asks
    /// for the pool diagnostics; any other rejection rolls back at once,
    /// with the transaction rendering attached to the error.
    pub fn on_broadcast(&mut self, outcome: BroadcastOutcome) -> (a: Action)
        requires
            old(self).wf(),
            old(self).flow is Submitting,
            old(self).submit_stage() is Broadcasting,
        ensures
            final(self).wf(),
            final(self).config == old(self).config,
            outcome is Accepted ==> (final(self).store@ == old(self).store@ && (a matches
            Action::Poll { delay_secs } && delay_secs == POLL_INTERVAL_SECS) && final(self).flow
                is Submitting && (final(self).submit_stage() matches SubmitStage::Polling {
                waited_secs } && waited_secs == 0) && final(self).submit_kind() == old(self).submit_kind() && final(self).submit_pre() == old(self).submit_pre() && final(self).submit_span() == old(self).submit_span() && final(self).submit_required() == old(self).submit_required()),
            outcome is Rejected && is_duplicate_spec(outcome->Rejected_msg@) ==> (final(self).store@ == old(self).store@ && a is FetchPoolDiagnostics && final(self).flow
                is Submitting && (final(self).submit_stage() matches
            SubmitStage::DiagnosingDuplicate { transport_msg, tx_json: j } && transport_msg@
                == outcome->Rejected_msg@ && j@ == outcome->Rejected_tx_json@) && final(self).submit_pre() == old(self).submit_pre()),
            outcome is Rejected && !is_duplicate_spec(outcome->Rejected_msg@) ==> (final(self).store@ == old(self).submit_pre() && final(self).flow is Idle && (a matches
            Action::Finish { error: Some(e) } && (e matches Error::Submission { msg: m } && m@
                == rejection_text(
                outcome->Rejected_msg@,
                Seq::<char>::empty(),
                outcome->Rejected_tx_json@,
            )))),
    {
        match outcome {
            BroadcastOutcome::Accepted => {
                let mut cur = Flow::Idle;
                core::mem::swap(&mut cur, &mut self.flow);
                match cur {
                    Flow::Submitting { kind, checkpoint, pre, span, required, stage: _ } => {
                        self.flow = Flow::Submitting {
                            kind,
                            checkpoint,
                            pre,
                            span,
                            required,
                            stage: SubmitStage::Polling { waited_secs: 0 },
                        };
                        Action::Poll { delay_secs: POLL_INTERVAL_SECS }
                    },
                    _ => unreached(),
                }
            },
            BroadcastOutcome::Rejected { msg, tx_json } => {
                if is_duplicate_rejection(&msg) {
                    let mut cur = Flow::Idle;
                    core::mem::swap(&mut cur, &mut self.flow);
                    match cur {
                        Flow::Submitting { kind, checkpoint, pre, span, required, stage: _ } => {
                            self.flow = Flow::Submitting {
                                kind,
                                checkpoint,
                                pre,
                                span,
                                required,
                                stage: SubmitStage::DiagnosingDuplicate {
                                    transport_msg: msg,
                                    tx_json,
                                },
                            };
                            Action::FetchPoolDiagnostics
                        },
                        _ => unreached(),
                    }
                } else {
                    let empty = String::new();
                    let text = compose_rejection_text(&msg, &empty, &tx_json);
                    self.fail_submission(Error::Submission { msg: text })
                }
            },
        }
    }

    /// Attaches the best-effort pool diagnostics to the duplicate rejection,
    /// rolls the store back and surfaces the submission error. The outcome
    /// does not change — the broadcast still failed — but the combined text
    /// lets an operator triage the conflict.
    pub fn on_pool_diagnostics(&mut self, pool_log: String) -> (a: Action)
        requires
            old(self).wf(),
            old(self).flow is Submitting,
            old(self).submit_stage() is DiagnosingDuplicate,
        ensures
            final(self).wf(),
            final(self).config == old(self).config,
            final(self).store@ == old(self).submit_pre(),
            final(self).flow is Idle,
            a matches Action::Finish { error: Some(e) } && (e matches Error::Submission { msg }
                && msg@ == rejection_text(
                old(self).submit_stage()->DiagnosingDuplicate_transport_msg@,
                pool_log@,
                old(self).submit_stage()->DiagnosingDuplicate_tx_json@,
            )),
    {
        let mut cur = Flow::Idle;
        core::mem::swap(&mut cur, &mut self.flow);
        match cur {
            Flow::Submitting { kind, checkpoint, pre, span, required, stage } => {
                match stage {
                    SubmitStage::DiagnosingDuplicate { transport_msg, tx_json } => {
                        let text = compose_rejection_text(&transport_msg, &pool_log, &tx_json);
                        self.flow = Flow::Submitting {
                            kind,
                            checkpoint,
                            pre,
                            span,
                            required,
                            stage: SubmitStage::Broadcasting,
                        };
                        self.fail_submission(Error::Submission { msg: text })
                    },
                    _ => unreached(),
                }
            },
            _ => unreached(),
        }
    }

    /// Handles one confirmation poll. A committed transaction ends the
    /// workflow in success — for a bootstrap the minted type id is written
    /// back into the configuration. Otherwise the wait grows by the poll
    /// interval until the deadline is exhausted, which rolls the store back
    /// and surfaces a timeout; the transaction may still land later, and
    /// recovery is left to the caller.
    pub fn on_poll(&mut self, committed: bool) -> (a: Action)
        requires
            old(self).wf(),
            old(self).flow is Submitting,
            old(self).submit_stage() is Polling,
        ensures
            final(self).wf(),
            committed ==> (final(self).store@ == old(self).store@ && final(self).flow is Idle
                && (a matches Action::Finish { error } && error is None)),
            committed && old(self).submit_kind() is Update ==> final(self).config == old(self).config,
            committed && old(self).submit_kind() is Create ==> (final(self).config.client_type_args.type_id matches Some(t) && Some(t) == old(self).submit_minted() && final(self).config.client_type_args.cells_count == old(self).config.client_type_args.cells_count && final(self).config.minimal_updates_count
                == old(self).config.minimal_updates_count),
            !committed ==> final(self).config == old(self).config,
            !committed && old(self).submit_stage()->Polling_waited_secs + POLL_INTERVAL_SECS
                < CONFIRMATION_DEADLINE_SECS ==> (final(self).store@ == old(self).store@ && (a
                matches Action::Poll { delay_secs } && delay_secs == POLL_INTERVAL_SECS) && final(self).flow is Submitting && (final(self).submit_stage() matches SubmitStage::Polling {
                waited_secs } && waited_secs == old(self).submit_stage()->Polling_waited_secs
                + POLL_INTERVAL_SECS) && final(self).submit_pre() == old(self).submit_pre()),
            !committed && old(self).submit_stage()->Polling_waited_secs + POLL_INTERVAL_SECS
                >= CONFIRMATION_DEADLINE_SECS ==> (final(self).store@ == old(self).submit_pre()
                && final(self).flow is Idle && (a matches Action::Finish { error: Some(e) } && e
                is Timeout)),
    {
        let mut cur = Flow::Idle;
        core::mem::swap(&mut cur, &mut self.flow);
        match cur {
            Flow::Submitting { kind, checkpoint, pre, span, required, stage } => {
                let waited = match stage {
                    SubmitStage::Polling { waited_secs } => waited_secs,
                    _ => unreached(),
                };
                if committed {
                    if let FlowKind::Create { minted_type_id: Some(tid) } = kind {
                        self.config.client_type_args.type_id = Some(tid);
                    }
                    return Action::Finish { error: None };
                }
                let waited_now = waited + POLL_INTERVAL_SECS;
                if waited_now >= CONFIRMATION_DEADLINE_SECS {
                    self.flow = Flow::Submitting {
                        kind,
                        checkpoint,
                        pre,
                        span,
                        required,
                        stage: SubmitStage::Polling { waited_secs: waited },
                    };
                    return self.fail_submission(Error::Timeout { waited_secs: waited_now });
                }
                self.flow = Flow::Submitting {
                    kind,
                    checkpoint,
                    pre,
                    span,
                    required,
                    stage: SubmitStage::Polling { waited_secs: waited_now },
                };
                Action::Poll { delay_secs: POLL_INTERVAL_SECS }
            },
            _ => unreached(),
        }
    }
}

impl CkbChain {
    /// Fast path of the memoized network identity: the cached value, if the
    /// identity was resolved before.
    pub fn network(&self) -> (n: Option<Network>)
        ensures
            n == self.cached_network,
    {
        self.cached_network
    }

    /// Fill path of the network cache, taken on a miss with the chain name
    /// the node reported. Racing fills are harmless: the classification is a
    /// function of the name alone.
    pub fn fill_network(&mut self, chain_name: &String) -> (n: Network)
        requires
            old(self).wf(),
        ensures
            final(self).wf(),
            n == spec_classify_network(chain_name@),
            final(self).cached_network == Some(n),
            final(self).store@ == old(self).store@,
            final(self).config == old(self).config,
            final(self).flow == old(self).flow,
    {
        let n = classify_network(chain_name);
        self.cached_network = Some(n);
        n
    }

    /// Fast path of the memoized fee-payer address.
    pub fn tx_assembler_address(&self) -> (a: Option<&String>)
        ensures
            a is Some <==> self.cached_tx_assembler_address is Some,
            a matches Some(s) ==> s@ == self.cached_tx_assembler_address->0@,
    {
        self.cached_tx_assembler_address.as_ref()
    }

    /// Fill path of the address cache, taken on a miss with the address the
    /// key store derived from the signing key for the resolved network.
    pub fn fill_tx_assembler_address(&mut self, address: String)
        requires
            old(self).wf(),
        ensures
            final(self).wf(),
            final(self).cached_tx_assembler_address matches Some(s) && s@ == address@,
            final(self).store@ == old(self).store@,
            final(self).config == old(self).config,
            final(self).flow == old(self).flow,
    {
        self.cached_tx_assembler_address = Some(address);
    }
}

/// Classification of the ledger network from the chain name a node reports.
pub open spec fn spec_classify_network(name: Seq<char>) -> Network {
    if name == "ckb"@ {
        Network::Mainnet
    } else if name == "ckb_testnet"@ {
        Network::Testnet
    } else {
        Network::Dev
    }
}

/// Classifies the chain name a node reports.
pub fn classify_network(chain_name: &String) -> (n: Network)
    ensures
        n == spec_classify_network(chain_name@),
{
    let mainnet = String::from_str("ckb");
    let testnet = String::from_str("ckb_testnet");
    if *chain_name == mainnet {
        Network::Mainnet
    } else if *chain_name == testnet {
        Network::Testnet
    } else {
        Network::Dev
    }
}

/// The decision of the bootstrap checks: both the light-client contract and
/// its lock script must be found deployed on-chain before a driver comes up.
pub fn bootstrap_preflight(contract_cell_found: bool, lock_cell_found: bool) -> (r: Result<
    (),
    Error,
>)
    ensures
        r is Ok <==> contract_cell_found && lock_cell_found,
        r matches Err(e) ==> e is Configuration,
{
    if !contract_cell_found {
        return Err(Error::Configuration {
            msg: String::from_str("invalid `lightclient_contract_typeargs` option"),
        });
    }
    if !lock_cell_found {
        return Err(Error::Configuration {
            msg: String::from_str("invalid `lightclient_lock_typeargs` config"),
        });
    }
    Ok(())
}

/// Rollback consistency, as an invariant of the machine: while a submission
/// is in flight, rolling the store back to the recorded checkpoint restores
/// exactly the records held before the verify call, and that checkpoint is
/// the pre-verification tip. Every failing submission step does exactly
/// that, so the store's tip after any such failure equals its tip before
/// the verify call.
pub proof fn law_rollback_consistency(d: CkbChain)
    requires
        d.wf(),
        d.flow is Submitting,
    ensures
        rolled_back(d.store@, d.flow->Submitting_checkpoint) == d.submit_pre(),
        tip_of(d.submit_pre()) == d.flow->Submitting_checkpoint,
{
}

/// Minimal span enforcement, as an invariant of the machine: whenever a
/// submission is in flight — assembling, signing, broadcasting or polling —
/// the candidate's slot span meets the family's policy. Together with the
/// step contracts this says the broadcast step is never reached by a
/// candidate below the minimum: such a batch is rolled back during
/// verification handling.
pub proof fn law_minimal_span_enforced(d: CkbChain)
    requires
        d.wf(),
        d.flow is Submitting,
    ensures
        d.submit_span() >= d.submit_required(),
{
}

/// The verifier returned roots of the right size.
pub open spec fn roots_ok(o: VerifyOutcome) -> bool {
    &&& o.tip_valid_header_root@.len() == 32
    &&& o.headers_mmr_root@.len() == 32
}

/// The successor client record derived from a verified batch: it attests to
/// exactly the batch's slot range and carries the verifier's roots.
pub open spec fn candidate_client(ups: Seq<HeaderUpdate>, o: VerifyOutcome, id: u8) -> ClientModel {
    ClientModel {
        id,
        minimal_slot: ups[0]@.slot,
        maximal_slot: ups.last()@.slot,
        tip_valid_header_root: o.tip_valid_header_root@,
        headers_mmr_root: o.headers_mmr_root@,
    }
}

/// A byte sequence occurs somewhere inside another.
pub open spec fn has_subrange(hay: Seq<u8>, needle: Seq<u8>) -> bool {
    exists|i: int|
        0 <= i && i + needle.len() <= hay.len() && (#[trigger] hay.subrange(
            i,
            i + needle.len(),
        )) == needle
}

/// Whether `needle` matches `hay` at position `at`.
fn matches_at(hay: &[u8], needle: &[u8], at: usize) -> (b: bool)
    requires
        at + needle@.len() <= hay@.len(),
    ensures
        b == (hay@.subrange(at as int, at as int + needle@.len()) == needle@),
{
    let n = needle.len();
    let hl = hay.len();
    let mut j: usize = 0;
    while j < n
        invariant
            j <= n,
            at + n <= hay@.len(),
            hl == hay@.len(),
            n == needle@.len(),
            forall|k: int| 0 <= k < j ==> hay@[at + k] == needle@[k],
        decreases n - j,
    {
        if hay[at + j] != needle[j] {
            proof {
                assert(hay@.subrange(at as int, at as int + needle@.len())[j as int]
                    != needle@[j as int]);
            }
            return false;
        }
        j = j + 1;
    }
    proof {
        assert(hay@.subrange(at as int, at as int + needle@.len()) =~= needle@);
    }
    true
}

/// Byte-level search for `needle` inside `hay`.
fn contains_subrange(hay: &[u8], needle: &[u8]) -> (b: bool)
    ensures
        b == has_subrange(hay@, needle@),
{
    let n = needle.len();
    let h = hay.len();
    if n > h {
        return false;
    }
    if n == 0 {
        proof {
            assert(hay@.subrange(0, 0 + needle@.len() as int) =~= needle@);
        }
        return true;
    }
    let limit = h - n;
    let mut i: usize = 0;
    while i <= limit
        invariant
            i <= limit + 1,
            limit == hay@.len() - needle@.len(),
            n == needle@.len(),
            1 <= n,
            h == hay@.len(),
            forall|p: int| 0 <= p < i ==> (#[trigger] hay@.subrange(p, p + needle@.len()))
                != needle@,
        decreases limit + 1 - i,
    {
        if matches_at(hay, needle, i) {
            proof {
                assert(has_subrange(hay@, needle@)) by {
                    assert(hay@.subrange(i as int, i as int + needle@.len()) == needle@);
                }
            }
            return true;
        }
        i = i + 1;
    }
    proof {
        assert(!has_subrange(hay@, needle@)) by {
            if has_subrange(hay@, needle@) {
                let p = choose|p: int|
                    0 <= p && p + needle@.len() <= hay@.len() && (#[trigger] hay@.subrange(
                        p,
                        p + needle@.len(),
                    )) == needle@;
                assert(p < i);
            }
        }
    }
    false
}

/// The transport condition that marks a duplicate-transaction rejection of
/// the ledger's pool.
pub open spec fn duplicate_mark() -> Seq<char> {
    "PoolRejectedDuplicatedTransaction"@
}

/// A rejection message reports a duplicate transaction when the pool's
/// duplicate marker occurs in it.
pub open spec fn is_duplicate_spec(msg: Seq<char>) -> bool {
    has_subrange(vstd::utf8::encode_utf8(msg), vstd::utf8::encode_utf8(duplicate_mark()))
}

/// Diagnoses a duplicate-transaction rejection from the transport message.
pub fn is_duplicate_rejection(msg: &String) -> (b: bool)
    ensures
        b == is_duplicate_spec(msg@),
{
    contains_subrange(msg.as_str().as_bytes(), "PoolRejectedDuplicatedTransaction".as_bytes())
}

/// The combined text of a rejected broadcast: the transport's message, the
/// pool diagnostics (empty when none were gathered), and a rendering of the
/// transaction for triage.
pub open spec fn rejection_text(transport: Seq<char>, pool: Seq<char>, tx_json: Seq<char>) -> Seq<
    char,
> {
    transport + "\n"@ + pool + "\n== transaction for debugging is below ==\n"@ + tx_json + "\n"@
}

/// Builds the combined rejection text.
pub fn compose_rejection_text(transport: &String, pool: &String, tx_json: &String) -> (r: String)
    ensures
        r@ == rejection_text(transport@, pool@, tx_json@),
{
    let mut r = transport.clone();
    r.append("\n");
    r.append(pool.as_str());
    r.append("\n== transaction for debugging is below ==\n");
    r.append(tx_json.as_str());
    r.append("\n");
    r
}

/// The aligned rest also continues the local store's tip (the store is not
/// behind the on-chain frontier).
pub open spec fn aligned_fits(rs: Seq<HeaderRecord>, batch: Seq<HeaderRecord>, cov: Option<
    u64,
>) -> bool {
    continues(rs, aligned_rest(batch, cov))
}

/// Checks at run time that a non-empty aligned batch continues the store.
fn batch_continues_store(store: &ProofStore, batch: &Vec<HeaderUpdate>) -> (b: bool)
    requires
        batch@.len() > 0,
        contiguous(records_of(batch@)),
    ensures
        b == continues(store@, records_of(batch@)),
{
    let first = batch[0].slot;
    match store.tip_slot() {
        None => true,
        Some(t) => first > t && first - t == 1,
    }
}

} // verus!
