//! Attesting to Ethereum events.
//!
//! Each event becomes at most one claim. Where the chain asks for the bridge's
//! token balances, an event whose block has no balances on record yet is left
//! out, to be claimed by a later run. The claims of all five kinds of event
//! are then put in nonce order and cut to the size of one transaction.

use crate::batch::{
    assemble, distinct_nonces, into_messages, is_first_repeated_nonce, is_ordered_batch,
    lemma_first_repeated_nonce_unique, lemma_ordered_batch_unique, messages_of, ordered_batch,
    repeats_earlier_nonce, MAX_ORACLE_MESSAGES,
};
use crate::coin::{Coin, CoinView};
use crate::copy::copy_vec;
use crate::eth::Erc20Token;
use crate::events::{
    bridge_events, BridgeEventView, Erc20DeployedEvent, EthereumEvent, LogicCallExecutedEvent,
    SendToCosmosEvent, TransactionBatchExecutedEvent, ValsetUpdatedEvent,
};
use crate::msgs::{
    msg_views, ClaimMsg, ClaimMsgView, GravityMsg, GravityMsgView, Submission, SubmissionView,
    TIMEOUT_SECS,
};
use std::collections::HashMap;
use vstd::prelude::*;

verus! {

broadcast use vstd::std_specs::hash::group_hash_axioms;

/// Why no claims could be prepared.
#[derive(Clone, Copy, Debug, PartialEq, Eq)]
pub enum ClaimError {
    /// The chain asks for the bridge's balances, and none at all were obtained.
    NoBalancesObtained,
    /// Two events carry this nonce: the source of the events is faulty.
    DuplicateNonce(u64),
}

/// The balances on record, as a map from block height, if there is a record.
pub open spec fn snapshot_view(snapshot: Option<HashMap<u64, Vec<Erc20Token>>>) -> Option<
    Map<u64, Vec<Erc20Token>>,
> {
    match snapshot {
        Some(by_height) => Some(by_height@),
        None => None,
    }
}

/// The balances that a claim for an event at `height` is to carry: none
/// where no record is asked for, those of the height where the record has
/// them, and no answer where it lacks the height.
pub open spec fn balances_for(snapshot: Option<Map<u64, Vec<Erc20Token>>>, height: u64) -> Option<
    Seq<Erc20Token>,
> {
    match snapshot {
        None => Some(Seq::empty()),
        Some(by_height) => if by_height.contains_key(height) {
            Some(by_height[height]@)
        } else {
            None
        },
    }
}

/// The claim for one event with its nonce, or nothing where the event has to wait.
pub open spec fn claim_for(
    snapshot: Option<Map<u64, Vec<Erc20Token>>>,
    event: BridgeEventView,
    orchestrator: Seq<char>,
) -> Option<(u64, GravityMsgView)> {
    match balances_for(snapshot, event.block_height()) {
        Some(bridge_balances) => Some(
            (
                event.event_nonce(),
                GravityMsgView::Claim(ClaimMsgView { orchestrator, event, bridge_balances }),
            ),
        ),
        None => None,
    }
}

/// The claims for `events`, in the order of the events, without those that have to wait.
pub open spec fn claim_candidates(
    snapshot: Option<Map<u64, Vec<Erc20Token>>>,
    events: Seq<BridgeEventView>,
    orchestrator: Seq<char>,
) -> Seq<(u64, GravityMsgView)>
    decreases events.len(),
{
    if events.len() == 0 {
        Seq::empty()
    } else {
        let earlier = claim_candidates(snapshot, events.drop_last(), orchestrator);
        match claim_for(snapshot, events.last(), orchestrator) {
            Some(claim) => earlier.push(claim),
            None => earlier,
        }
    }
}

/// What each candidate of a list holds.
pub open spec fn candidate_views(candidates: Seq<(u64, GravityMsg)>) -> Seq<(u64, GravityMsgView)> {
    candidates.map_values(|c: (u64, GravityMsg)| (c.0, c.1@))
}

/// The claims for the events of all five kinds: deposits first, then
/// withdrawals, deployments, logic calls and validator set updates.
pub open spec fn all_claim_candidates(
    snapshot: Option<Map<u64, Vec<Erc20Token>>>,
    deposits: Seq<SendToCosmosEvent>,
    withdraws: Seq<TransactionBatchExecutedEvent>,
    erc20_deploys: Seq<Erc20DeployedEvent>,
    logic_calls: Seq<LogicCallExecutedEvent>,
    valsets: Seq<ValsetUpdatedEvent>,
    orchestrator: Seq<char>,
) -> Seq<(u64, GravityMsgView)> {
    claim_candidates(snapshot, bridge_events(deposits), orchestrator) + claim_candidates(
        snapshot,
        bridge_events(withdraws),
        orchestrator,
    ) + claim_candidates(snapshot, bridge_events(erc20_deploys), orchestrator) + claim_candidates(
        snapshot,
        bridge_events(logic_calls),
        orchestrator,
    ) + claim_candidates(snapshot, bridge_events(valsets), orchestrator)
}

/// Balances are asked for and the record holds none, for no block at all.
pub open spec fn balances_missing(
    must_monitor_erc20s: bool,
    snapshot: Option<Map<u64, Vec<Erc20Token>>>,
) -> bool {
    must_monitor_erc20s && match snapshot {
        None => true,
        Some(by_height) => by_height.dom().is_empty(),
    }
}

/// The event nonce of a claim.
pub open spec fn claim_nonce(msg: GravityMsgView) -> u64 {
    match msg {
        GravityMsgView::Claim(claim) => claim.event.event_nonce(),
        _ => 0,
    }
}

/// All the messages are claims, and their event nonces grow strictly from
/// each message to every later one. In particular no nonce occurs twice.
pub open spec fn claims_in_nonce_order(msgs: Seq<GravityMsgView>) -> bool {
    &&& forall|i: int| 0 <= i < msgs.len() ==> (#[trigger] msgs[i]) is Claim
    &&& forall|i: int, j: int|
        0 <= i < j < msgs.len() ==> claim_nonce(#[trigger] msgs[i]) < claim_nonce(
            #[trigger] msgs[j],
        )
}

/// What a run over `candidates` may end with: the one outcome that
/// `send_ethereum_claims` promises.
pub open spec fn is_claims_outcome(
    outcome: Result<Option<SubmissionView>, ClaimError>,
    must_monitor_erc20s: bool,
    snapshot: Option<Map<u64, Vec<Erc20Token>>>,
    candidates: Seq<(u64, GravityMsgView)>,
    fee: CoinView,
) -> bool {
    match outcome {
        Err(ClaimError::NoBalancesObtained) => balances_missing(must_monitor_erc20s, snapshot),
        Err(ClaimError::DuplicateNonce(nonce)) => {
            &&& !balances_missing(must_monitor_erc20s, snapshot)
            &&& !distinct_nonces(candidates)
            &&& is_first_repeated_nonce(candidates, nonce)
        },
        Ok(None) => {
            &&& !balances_missing(must_monitor_erc20s, snapshot)
            &&& candidates.len() == 0
        },
        Ok(Some(submission)) => {
            &&& !balances_missing(must_monitor_erc20s, snapshot)
            &&& candidates.len() > 0
            &&& distinct_nonces(candidates)
            &&& is_ordered_batch(
                candidates,
                ordered_batch(candidates, MAX_ORACLE_MESSAGES as nat),
                MAX_ORACLE_MESSAGES as nat,
            )
            &&& submission == (SubmissionView {
                messages: messages_of(ordered_batch(candidates, MAX_ORACLE_MESSAGES as nat)),
                memo: None,
                fees: seq![fee],
                timeout_secs: TIMEOUT_SECS,
            })
        },
    }
}

/// What the outcome of a run holds.
pub open spec fn outcome_view(result: Result<Option<Submission>, ClaimError>) -> Result<
    Option<SubmissionView>,
    ClaimError,
> {
    match result {
        Ok(Some(submission)) => Ok(Some(submission@)),
        Ok(None) => Ok(None),
        Err(e) => Err(e),
    }
}

/// Two runs over the same candidates, with the same record of balances and
/// the same fee, end alike: with the same messages in the same order, or
/// with the same failure.
pub proof fn lemma_runs_agree(
    first: Result<Option<SubmissionView>, ClaimError>,
    second: Result<Option<SubmissionView>, ClaimError>,
    must_monitor_erc20s: bool,
    snapshot: Option<Map<u64, Vec<Erc20Token>>>,
    candidates: Seq<(u64, GravityMsgView)>,
    fee: CoinView,
)
    requires
        is_claims_outcome(first, must_monitor_erc20s, snapshot, candidates, fee),
        is_claims_outcome(second, must_monitor_erc20s, snapshot, candidates, fee),
    ensures
        first == second,
{
    match (first, second) {
        (Err(ClaimError::DuplicateNonce(a)), Err(ClaimError::DuplicateNonce(b))) => {
            lemma_first_repeated_nonce_unique(candidates, a, b);
        },
        _ => {},
    }
}

/// Without events there is nothing to submit: unless balances are asked for
/// and missing, which fails the run whatever the events, a run over no events
/// ends with `Ok(None)`, neither with an empty transaction nor with a failure.
pub proof fn lemma_no_events_nothing_to_submit(
    outcome: Result<Option<SubmissionView>, ClaimError>,
    must_monitor_erc20s: bool,
    snapshot: Option<Map<u64, Vec<Erc20Token>>>,
    orchestrator: Seq<char>,
    fee: CoinView,
)
    requires
        !balances_missing(must_monitor_erc20s, snapshot),
        is_claims_outcome(
            outcome,
            must_monitor_erc20s,
            snapshot,
            all_claim_candidates(
                snapshot,
                Seq::empty(),
                Seq::empty(),
                Seq::empty(),
                Seq::empty(),
                Seq::empty(),
                orchestrator,
            ),
            fee,
        ),
    ensures
        outcome == Ok::<Option<SubmissionView>, ClaimError>(None),
{
    assert(bridge_events(Seq::<SendToCosmosEvent>::empty()).len() == 0);
    assert(bridge_events(Seq::<TransactionBatchExecutedEvent>::empty()).len() == 0);
    assert(bridge_events(Seq::<Erc20DeployedEvent>::empty()).len() == 0);
    assert(bridge_events(Seq::<LogicCallExecutedEvent>::empty()).len() == 0);
    assert(bridge_events(Seq::<ValsetUpdatedEvent>::empty()).len() == 0);
}

/// Two candidates with one nonce fail the run with `DuplicateNonce`, unless
/// it has failed before for want of balances.
pub proof fn lemma_collision_is_a_violation(
    outcome: Result<Option<SubmissionView>, ClaimError>,
    must_monitor_erc20s: bool,
    snapshot: Option<Map<u64, Vec<Erc20Token>>>,
    candidates: Seq<(u64, GravityMsgView)>,
    fee: CoinView,
    i: int,
    j: int,
)
    requires
        !balances_missing(must_monitor_erc20s, snapshot),
        is_claims_outcome(outcome, must_monitor_erc20s, snapshot, candidates, fee),
        0 <= i < j < candidates.len(),
        candidates[i].0 == candidates[j].0,
    ensures
        outcome matches Err(ClaimError::DuplicateNonce(_)),
{
}

/// The claims for `events` are those of the events that need not wait, and
/// each carries the nonce of its event.
pub proof fn lemma_claims_are_for_events_on_record(
    snapshot: Option<Map<u64, Vec<Erc20Token>>>,
    events: Seq<BridgeEventView>,
    orchestrator: Seq<char>,
)
    ensures
        forall|x: (u64, GravityMsgView)|
            claim_candidates(snapshot, events, orchestrator).contains(x) <==> exists|i: int|
                0 <= i < events.len() && claim_for(snapshot, #[trigger] events[i], orchestrator)
                    == Some(x),
        forall|i: int|
            0 <= i < claim_candidates(snapshot, events, orchestrator).len() ==> {
                let c = #[trigger] claim_candidates(snapshot, events, orchestrator)[i];
                c.1 is Claim && claim_nonce(c.1) == c.0
            },
    decreases events.len(),
{
    let all = claim_candidates(snapshot, events, orchestrator);
    if events.len() > 0 {
        let earlier_events = events.drop_last();
        let earlier = claim_candidates(snapshot, earlier_events, orchestrator);
        lemma_claims_are_for_events_on_record(snapshot, earlier_events, orchestrator);
        let last = claim_for(snapshot, events.last(), orchestrator);
        assert forall|x: (u64, GravityMsgView)| all.contains(x) <==> exists|i: int|
            0 <= i < events.len() && claim_for(snapshot, #[trigger] events[i], orchestrator)
                == Some(x) by {
            if all.contains(x) {
                let k = choose|k: int| 0 <= k < all.len() && all[k] == x;
                if k < earlier.len() {
                    assert(earlier[k] == x);
                    assert(earlier.contains(x));
                    let i = choose|i: int|
                        0 <= i < earlier_events.len() && claim_for(
                            snapshot,
                            #[trigger] earlier_events[i],
                            orchestrator,
                        ) == Some(x);
                    assert(events[i] == earlier_events[i]);
                } else {
                    assert(last == Some(x));
                    assert(events[events.len() - 1] == events.last());
                }
            }
            if exists|i: int|
                0 <= i < events.len() && claim_for(snapshot, #[trigger] events[i], orchestrator)
                    == Some(x) {
                let i = choose|i: int|
                    0 <= i < events.len() && claim_for(
                        snapshot,
                        #[trigger] events[i],
                        orchestrator,
                    ) == Some(x);
                if i < events.len() - 1 {
                    assert(earlier_events[i] == events[i]);
                    assert(earlier.contains(x));
                    let k = choose|k: int| 0 <= k < earlier.len() && earlier[k] == x;
                    assert(all[k] == x);
                } else {
                    assert(all[all.len() - 1] == x);
                }
            }
        }
    }
}

/// An event whose block is not on record is left out, and that does not stop
/// the events that are on record from being claimed.
pub proof fn lemma_skip_not_fail(
    snapshot: Option<Map<u64, Vec<Erc20Token>>>,
    events: Seq<BridgeEventView>,
    orchestrator: Seq<char>,
    skipped: int,
    kept: int,
)
    requires
        0 <= skipped < events.len(),
        0 <= kept < events.len(),
        balances_for(snapshot, events[skipped].block_height()) is None,
        balances_for(snapshot, events[kept].block_height()) is Some,
    ensures
        claim_for(snapshot, events[kept], orchestrator) is Some,
        claim_candidates(snapshot, events, orchestrator).contains(
            claim_for(snapshot, events[kept], orchestrator)->0,
        ),
        forall|i: int|
            0 <= i < claim_candidates(snapshot, events, orchestrator).len() ==> {
                let c = #[trigger] claim_candidates(snapshot, events, orchestrator)[i];
                c.1 is Claim && c.1->Claim_0.event != events[skipped]
            },
{
    lemma_claims_are_for_events_on_record(snapshot, events, orchestrator);
    let all = claim_candidates(snapshot, events, orchestrator);
    assert forall|i: int| 0 <= i < all.len() implies {
        let c = #[trigger] all[i];
        c.1 is Claim && c.1->Claim_0.event != events[skipped]
    } by {
        assert(all.contains(all[i]));
        let e = choose|e: int|
            0 <= e < events.len() && claim_for(snapshot, #[trigger] events[e], orchestrator)
                == Some(all[i]);
    }
}

/// The messages of a batch of claims are in nonce order.
pub proof fn lemma_batch_of_claims_in_nonce_order(
    candidates: Seq<(u64, GravityMsgView)>,
    batch: Seq<(u64, GravityMsgView)>,
    cap: nat,
)
    requires
        is_ordered_batch(candidates, batch, cap),
        forall|i: int|
            0 <= i < candidates.len() ==> (#[trigger] candidates[i]).1 is Claim && claim_nonce(
                candidates[i].1,
            ) == candidates[i].0,
    ensures
        claims_in_nonce_order(messages_of(batch)),
{
    let msgs = messages_of(batch);
    assert forall|i: int| 0 <= i < msgs.len() implies (#[trigger] msgs[i]) is Claim && claim_nonce(
        msgs[i],
    ) == batch[i].0 by {
        assert(candidates.contains(batch[i]));
        let k = choose|k: int| 0 <= k < candidates.len() && candidates[k] == batch[i];
    }
    assert forall|i: int, j: int| 0 <= i < j < msgs.len() implies claim_nonce(#[trigger] msgs[i])
        < claim_nonce(#[trigger] msgs[j]) by {
        assert(batch[i].0 < batch[j].0);
    }
}

/// Every candidate of a run is a claim that carries its own nonce.
pub proof fn lemma_all_candidates_are_claims(
    snapshot: Option<Map<u64, Vec<Erc20Token>>>,
    deposits: Seq<SendToCosmosEvent>,
    withdraws: Seq<TransactionBatchExecutedEvent>,
    erc20_deploys: Seq<Erc20DeployedEvent>,
    logic_calls: Seq<LogicCallExecutedEvent>,
    valsets: Seq<ValsetUpdatedEvent>,
    orchestrator: Seq<char>,
)
    ensures
        forall|i: int|
            0 <= i < all_claim_candidates(
                snapshot,
                deposits,
                withdraws,
                erc20_deploys,
                logic_calls,
                valsets,
                orchestrator,
            ).len() ==> {
                let c = #[trigger] all_claim_candidates(
                    snapshot,
                    deposits,
                    withdraws,
                    erc20_deploys,
                    logic_calls,
                    valsets,
                    orchestrator,
                )[i];
                c.1 is Claim && claim_nonce(c.1) == c.0
            },
{
    lemma_claims_are_for_events_on_record(snapshot, bridge_events(deposits), orchestrator);
    lemma_claims_are_for_events_on_record(snapshot, bridge_events(withdraws), orchestrator);
    lemma_claims_are_for_events_on_record(snapshot, bridge_events(erc20_deploys), orchestrator);
    lemma_claims_are_for_events_on_record(snapshot, bridge_events(logic_calls), orchestrator);
    lemma_claims_are_for_events_on_record(snapshot, bridge_events(valsets), orchestrator);
}

/// A batch of candidates holds, message for message, the batch of what the candidates hold.
pub proof fn lemma_batch_of_views(
    candidates: Seq<(u64, GravityMsg)>,
    batch: Seq<(u64, GravityMsg)>,
    cap: nat,
)
    requires
        is_ordered_batch(candidates, batch, cap),
    ensures
        is_ordered_batch(candidate_views(candidates), candidate_views(batch), cap),
        candidate_views(batch) == ordered_batch(candidate_views(candidates), cap),
{
    let cv = candidate_views(candidates);
    let bv = candidate_views(batch);
    assert forall|i: int| 0 <= i < bv.len() implies cv.contains(#[trigger] bv[i]) by {
        assert(candidates.contains(batch[i]));
        let j = choose|j: int| 0 <= j < candidates.len() && candidates[j] == batch[i];
        assert(cv[j] == bv[i]);
    }
    assert forall|x: (u64, GravityMsgView), i: int|
        #![trigger cv.contains(x), bv[i]]
        cv.contains(x) && !bv.contains(x) && 0 <= i < bv.len() implies bv[i].0 < x.0 by {
        let j = choose|j: int| 0 <= j < cv.len() && cv[j] == x;
        assert(candidates.contains(candidates[j]));
        if batch.contains(candidates[j]) {
            let k = choose|k: int| 0 <= k < batch.len() && batch[k] == candidates[j];
            assert(bv[k] == x);
        }
        assert(batch[i].0 < candidates[j].0);
    }
    assert forall|i: int, j: int| 0 <= i < j < bv.len() implies (#[trigger] bv[i]).0 < (
    #[trigger] bv[j]).0 by {
        assert(batch[i].0 < batch[j].0);
    }
    lemma_ordered_batch_unique(cv, bv, ordered_batch(cv, cap), cap);
}

/// Candidates repeat a nonce exactly where what they hold does, and at the same place.
pub proof fn lemma_nonces_of_views(candidates: Seq<(u64, GravityMsg)>)
    ensures
        distinct_nonces(candidates) == distinct_nonces(candidate_views(candidates)),
        forall|nonce: u64|
            is_first_repeated_nonce(candidates, nonce) ==> is_first_repeated_nonce(
                candidate_views(candidates),
                nonce,
            ),
{
    let cv = candidate_views(candidates);
    assert forall|j: int| 0 <= j < candidates.len() implies (repeats_earlier_nonce(candidates, j)
        == repeats_earlier_nonce(cv, j)) by {
        if repeats_earlier_nonce(candidates, j) {
            let i = choose|i: int| 0 <= i < j && (#[trigger] candidates[i]).0 == candidates[j].0;
            assert(cv[i].0 == cv[j].0);
        }
        if repeats_earlier_nonce(cv, j) {
            let i = choose|i: int| 0 <= i < j && (#[trigger] cv[i]).0 == cv[j].0;
            assert(candidates[i].0 == candidates[j].0);
        }
    }
    if distinct_nonces(candidates) {
        assert forall|i: int, j: int| 0 <= i < j < cv.len() implies (#[trigger] cv[i]).0 != (
        #[trigger] cv[j]).0 by {
            assert(candidates[i].0 != candidates[j].0);
        }
    }
    if distinct_nonces(cv) {
        assert forall|i: int, j: int| 0 <= i < j < candidates.len() implies (
        #[trigger] candidates[i]).0 != (#[trigger] candidates[j]).0 by {
            assert(cv[i].0 != cv[j].0);
        }
    }
    assert forall|nonce: u64| is_first_repeated_nonce(candidates, nonce) implies is_first_repeated_nonce(
        cv,
        nonce,
    ) by {
        let j = choose|j: int|
            0 <= j < candidates.len() && candidates[j].0 == nonce && #[trigger] repeats_earlier_nonce(
                candidates,
                j,
            ) && forall|k: int| 0 <= k < j ==> !#[trigger] repeats_earlier_nonce(candidates, k);
        assert(cv[j].0 == nonce);
        assert(repeats_earlier_nonce(cv, j));
        assert forall|k: int| 0 <= k < j implies !#[trigger] repeats_earlier_nonce(cv, k) by {
            assert(!repeats_earlier_nonce(candidates, k));
        }
    }
}

/// Prepares the claims by which `orchestrator` attests to `events`, each with
/// the nonce of its event.
///
/// Without a record of balances every event gets a claim with no balances.
/// With one, an event gets the balances recorded for its block, and an event
/// whose block is not on record gets no claim.
pub fn create_claim_msgs<E: EthereumEvent>(
    eth_balances_by_block_height: &Option<HashMap<u64, Vec<Erc20Token>>>,
    events: Vec<E>,
    orchestrator: &String,
) -> (msgs: Vec<(u64, GravityMsg)>)
    ensures
        candidate_views(msgs@) == claim_candidates(
            snapshot_view(*eth_balances_by_block_height),
            bridge_events(events@),
            orchestrator@,
        ),
{
    let ghost all = events@;
    let ghost snapshot = snapshot_view(*eth_balances_by_block_height);
    let mut msgs: Vec<(u64, GravityMsg)> = Vec::new();
    for event in it: events.into_iter()
        invariant
            it.seq() == all,
            snapshot == snapshot_view(*eth_balances_by_block_height),
            candidate_views(msgs@) == claim_candidates(
                snapshot,
                bridge_events(all.take(it.index() as int)),
                orchestrator@,
            ),
    {
        let ghost k = it.index() as int;
        let ghost before = candidate_views(msgs@);
        let event = event.into_bridge_event();
        proof {
            let grown = bridge_events(all.take(k + 1));
            assert(grown.drop_last() =~= bridge_events(all.take(k)));
            assert(grown.last() == event@);
        }
        let eth_balances: Option<Vec<Erc20Token>> = match eth_balances_by_block_height {
            None => Some(Vec::new()),
            Some(by_height) => {
                let height = event.get_block_height();
                match by_height.get(&height) {
                    Some(balances) => Some(copy_vec(balances)),
                    None => None,
                }
            },
        };
        assert(match eth_balances {
            Some(b) => balances_for(snapshot, event@.block_height()) == Some(b@),
            None => balances_for(snapshot, event@.block_height()) is None,
        });
        match eth_balances {
            Some(bridge_balances) => {
                let nonce = event.get_event_nonce();
                let claim = ClaimMsg { orchestrator: orchestrator.clone(), event, bridge_balances };
                msgs.push((nonce, GravityMsg::Claim(claim)));
                assert(candidate_views(msgs@) =~= before.push((nonce, GravityMsg::Claim(claim)@)));
            },
            None => {},
        }
    }
    assert(all.take(all.len() as int) =~= all);
    msgs
}

/// Prepares the transaction by which `orchestrator` attests to the given
/// events: the claims of all of them in ascending order of event nonce, the
/// `MAX_ORACLE_MESSAGES` lowest where there are more.
///
/// `must_monitor_erc20s` says whether the chain asks for the bridge's balances
/// with each claim, and `eth_balances_by_block_height` is the record of them,
/// if one was made. Events whose block is not on record are left out. Where
/// that leaves no claim, or there was no event, the answer is `Ok(None)`:
/// there is nothing to submit.
pub fn send_ethereum_claims(
    orchestrator: &String,
    must_monitor_erc20s: bool,
    eth_balances_by_block_height: Option<HashMap<u64, Vec<Erc20Token>>>,
    deposits: Vec<SendToCosmosEvent>,
    withdraws: Vec<TransactionBatchExecutedEvent>,
    erc20_deploys: Vec<Erc20DeployedEvent>,
    logic_calls: Vec<LogicCallExecutedEvent>,
    valsets: Vec<ValsetUpdatedEvent>,
    fee: Coin,
) -> (result: Result<Option<Submission>, ClaimError>)
    ensures
        is_claims_outcome(
            outcome_view(result),
            must_monitor_erc20s,
            snapshot_view(eth_balances_by_block_height),
            all_claim_candidates(
                snapshot_view(eth_balances_by_block_height),
                deposits@,
                withdraws@,
                erc20_deploys@,
                logic_calls@,
                valsets@,
                orchestrator@,
            ),
            fee@,
        ),
        result matches Ok(Some(submission)) ==> claims_in_nonce_order(submission@.messages),
{
    let ghost snapshot = snapshot_view(eth_balances_by_block_height);
    let missing = must_monitor_erc20s && match &eth_balances_by_block_height {
        None => true,
        Some(by_height) => by_height.is_empty(),
    };
    if missing {
        return Err(ClaimError::NoBalancesObtained);
    }
    let mut candidates = create_claim_msgs(&eth_balances_by_block_height, deposits, orchestrator);
    let mut withdraw_msgs = create_claim_msgs(&eth_balances_by_block_height, withdraws, orchestrator);
    let mut deploy_msgs = create_claim_msgs(
        &eth_balances_by_block_height,
        erc20_deploys,
        orchestrator,
    );
    let mut logic_msgs = create_claim_msgs(&eth_balances_by_block_height, logic_calls, orchestrator);
    let mut valset_msgs = create_claim_msgs(&eth_balances_by_block_height, valsets, orchestrator);
    let ghost parts = (
        candidates@,
        withdraw_msgs@,
        deploy_msgs@,
        logic_msgs@,
        valset_msgs@,
    );
    candidates.append(&mut withdraw_msgs);
    candidates.append(&mut deploy_msgs);
    candidates.append(&mut logic_msgs);
    candidates.append(&mut valset_msgs);
    let ghost wanted = all_claim_candidates(
        snapshot,
        deposits@,
        withdraws@,
        erc20_deploys@,
        logic_calls@,
        valsets@,
        orchestrator@,
    );
    proof {
        assert(candidates@ == parts.0 + parts.1 + parts.2 + parts.3 + parts.4);
        assert(candidate_views(candidates@) =~= candidate_views(parts.0) + candidate_views(parts.1)
            + candidate_views(parts.2) + candidate_views(parts.3) + candidate_views(parts.4));
        assert(candidate_views(candidates@) == wanted);
        lemma_nonces_of_views(candidates@);
    }
    if candidates.len() == 0 {
        return Ok(None);
    }
    let ghost found = candidates@;
    match assemble(candidates) {
        Err(nonce) => Err(ClaimError::DuplicateNonce(nonce)),
        Ok(batch) => {
            proof {
                lemma_batch_of_views(found, batch@, MAX_ORACLE_MESSAGES as nat);
            }
            let ghost ordered = batch@;
            let messages = into_messages(batch);
            let mut fees: Vec<Coin> = Vec::new();
            fees.push(fee);
            let submission = Submission { messages, memo: None, fees, timeout_secs: TIMEOUT_SECS };
            proof {
                assert(msg_views(messages@) =~= messages_of(candidate_views(ordered)));
                assert(crate::coin::coin_views(fees@) =~= seq![fee@]);
                lemma_all_candidates_are_claims(
                    snapshot,
                    deposits@,
                    withdraws@,
                    erc20_deploys@,
                    logic_calls@,
                    valsets@,
                    orchestrator@,
                );
                lemma_batch_of_claims_in_nonce_order(
                    wanted,
                    candidate_views(ordered),
                    MAX_ORACLE_MESSAGES as nat,
                );
            }
            Ok(Some(submission))
        },
    }
}

} // verus!
