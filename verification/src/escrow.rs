//! Release of the escrow of an event.
//!
//! An event's escrow is released in one of two ways. Without a signer set,
//! the organizer releases it alone, after the event was completed. With a
//! signer set, the signers release it together: each gives an approval, and
//! once as many approvals are in as the threshold asks for, the escrow can be
//! distributed; the organizer alone can then no longer release it.

use vstd::prelude::*;
use crate::address::Address;
use crate::env::{approval_set, Env, State};
use crate::error::LumentixError;
use crate::events::{logged, publish, Notification};
use crate::market::LumentixContract;
use crate::storage;
use crate::types::{EscrowApproval, EscrowConfig, EventStatus};
use crate::validation;

verus! {

broadcast use vstd::std_specs::hash::group_hash_axioms;

/// On which error `release_escrow` is refused.
pub open spec fn release_escrow_check(s: State, organizer: Address, event_id: u64) -> Option<
    LumentixError,
> {
    if !s.initialized {
        Some(LumentixError::NotInitialized)
    } else if !s.events.contains_key(event_id) {
        Some(LumentixError::EventNotFound)
    } else if s.events[event_id].organizer@ != organizer@ {
        Some(LumentixError::Unauthorized)
    } else if s.escrow_configs.contains_key(event_id) {
        Some(LumentixError::Unauthorized)
    } else if s.events[event_id].status != EventStatus::Completed {
        Some(LumentixError::InvalidStatusTransition)
    } else if s.escrow_of(event_id) == 0 {
        Some(LumentixError::EscrowAlreadyReleased)
    } else {
        None
    }
}

/// The state after the escrow of event `event_id` was released.
pub open spec fn escrow_released(s: State, event_id: u64) -> State {
    State { escrow: s.escrow.insert(event_id, 0), ..s }
}

/// Whether `signer` is one of `signers`.
pub open spec fn is_signer(signers: Seq<Address>, signer: Seq<char>) -> bool {
    exists|i: int| 0 <= i < signers.len() && (#[trigger] signers[i])@ == signer
}

/// How many of `signers` have approved the release for event `event_id`. A
/// signer who is listed twice counts twice.
pub open spec fn count_approvals(
    signers: Seq<Address>,
    approvals: Set<(u64, Seq<char>)>,
    event_id: u64,
) -> nat
    decreases signers.len(),
{
    if signers.len() == 0 {
        0
    } else {
        count_approvals(signers.drop_last(), approvals, event_id) + if approvals.contains(
            (event_id, signers.last()@),
        ) {
            1nat
        } else {
            0nat
        }
    }
}

/// Where no approval is in for the event, none is counted.
pub proof fn lemma_count_approvals_none(
    signers: Seq<Address>,
    approvals: Set<(u64, Seq<char>)>,
    event_id: u64,
)
    requires
        forall|signer: Seq<char>| !approvals.contains((event_id, signer)),
    ensures
        count_approvals(signers, approvals, event_id) == 0,
    decreases signers.len(),
{
    if signers.len() > 0 {
        lemma_count_approvals_none(signers.drop_last(), approvals, event_id);
    }
}

/// On which error `set_escrow_signers` is refused.
pub open spec fn set_escrow_signers_check(s: State, signers: Seq<Address>, threshold: u32)
    -> Option<LumentixError> {
    if !s.initialized {
        Some(LumentixError::NotInitialized)
    } else if threshold == 0 || threshold > signers.len() {
        Some(LumentixError::InvalidAmount)
    } else {
        None
    }
}

/// The state after `set_escrow_signers`.
pub open spec fn set_escrow_signers_next(s: State, config: EscrowConfig) -> State {
    State { escrow_configs: s.escrow_configs.insert(config.event_id, config), ..s }
}

/// On which error `approve_release` is refused.
pub open spec fn approve_release_check(s: State, event_id: u64, signer: Address) -> Option<
    LumentixError,
> {
    if !s.initialized {
        Some(LumentixError::NotInitialized)
    } else if !s.escrow_configs.contains_key(event_id) {
        Some(LumentixError::Unauthorized)
    } else if !is_signer(s.escrow_configs[event_id].signers@, signer@) {
        Some(LumentixError::Unauthorized)
    } else {
        None
    }
}

/// The state after `approve_release`.
pub open spec fn approve_release_next(s: State, event_id: u64, signer: Address) -> State {
    State { approvals: s.approvals.insert((event_id, signer@)), ..s }
}

/// On which error `revoke_approval` is refused.
pub open spec fn revoke_approval_check(s: State) -> Option<LumentixError> {
    if !s.initialized {
        Some(LumentixError::NotInitialized)
    } else {
        None
    }
}

/// The state after `revoke_approval`.
pub open spec fn revoke_approval_next(s: State, event_id: u64, signer: Address) -> State {
    State { approvals: s.approvals.remove((event_id, signer@)), ..s }
}

/// How many approvals are in for event `event_id`, counted over its signers.
pub open spec fn approvals_in(s: State, event_id: u64) -> nat {
    count_approvals(s.escrow_configs[event_id].signers@, s.approvals, event_id)
}

/// On which error `distribute_escrow` is refused.
pub open spec fn distribute_escrow_check(s: State, event_id: u64) -> Option<LumentixError> {
    if !s.initialized {
        Some(LumentixError::NotInitialized)
    } else if !s.escrow_configs.contains_key(event_id) {
        Some(LumentixError::Unauthorized)
    } else if approvals_in(s, event_id) < s.escrow_configs[event_id].threshold {
        Some(LumentixError::Unauthorized)
    } else {
        None
    }
}

/// The approvals that are left when those for event `event_id` are cleared.
pub open spec fn approvals_without_event(approvals: Set<(u64, Seq<char>)>, event_id: u64) -> Set<
    (u64, Seq<char>),
> {
    Set::new(|p: (u64, Seq<char>)| approvals.contains(p) && p.0 != event_id)
}

/// The state after `distribute_escrow`: the escrow of the event is empty, the
/// approvals for it are cleared, and the release is logged.
pub open spec fn distribute_escrow_next(s: State, event_id: u64, destination: Address) -> State {
    logged(
        State {
            approvals: approvals_without_event(s.approvals, event_id),
            escrow: s.escrow.insert(event_id, 0),
            ..s
        },
        Notification::EscrowDistributed { event_id, destination, amount: s.escrow_of(event_id) },
    )
}

/// Whether `signer` is one of `signers`.
fn signers_contain(signers: &Vec<Address>, signer: &Address) -> (b: bool)
    ensures
        b == is_signer(signers@, signer@),
{
    let mut i: usize = 0;
    while i < signers.len()
        invariant
            i <= signers@.len(),
            forall|j: int| 0 <= j < i ==> (#[trigger] signers@[j])@ != signer@,
        decreases signers@.len() - i,
    {
        if signers[i] == *signer {
            return true;
        }
        i += 1;
    }
    false
}

/// Whether `approvals` holds the approval of `signer` for event `event_id`.
fn has_approval(approvals: &Vec<EscrowApproval>, event_id: u64, signer: &Address) -> (b: bool)
    ensures
        b == approval_set(approvals@).contains((event_id, signer@)),
{
    let mut i: usize = 0;
    while i < approvals.len()
        invariant
            i <= approvals@.len(),
            forall|j: int|
                0 <= j < i ==> !((#[trigger] approvals@[j]).event_id == event_id
                    && approvals@[j].signer@ == signer@),
        decreases approvals@.len() - i,
    {
        if approvals[i].event_id == event_id && approvals[i].signer == *signer {
            return true;
        }
        i += 1;
    }
    false
}

/// The approvals of `approvals` but those of `signer` for event `event_id`,
/// or, where `signer` is `None`, but all those for event `event_id`.
fn approvals_but(approvals: &Vec<EscrowApproval>, event_id: u64, signer: Option<&Address>) -> (kept:
    Vec<EscrowApproval>)
    ensures
        signer matches Some(a) ==> approval_set(kept@) == approval_set(approvals@).remove(
            (event_id, a@),
        ),
        signer is None ==> approval_set(kept@) == approvals_without_event(
            approval_set(approvals@),
            event_id,
        ),
{
    let ghost dropped = |p: (u64, Seq<char>)|
        p.0 == event_id && (signer matches Some(a) ==> a@ == p.1);
    let mut kept: Vec<EscrowApproval> = Vec::new();
    let mut i: usize = 0;
    while i < approvals.len()
        invariant
            i <= approvals@.len(),
            dropped == |p: (u64, Seq<char>)|
                p.0 == event_id && (signer matches Some(a) ==> a@ == p.1),
            forall|k: int|
                0 <= k < kept@.len() ==> !dropped(
                    ((#[trigger] kept@[k]).event_id, kept@[k].signer@),
                ) && approval_set(approvals@).contains((kept@[k].event_id, kept@[k].signer@)),
            forall|j: int|
                0 <= j < i && !dropped(((#[trigger] approvals@[j]).event_id, approvals@[j].signer@))
                    ==> approval_set(kept@).contains(
                    (approvals@[j].event_id, approvals@[j].signer@),
                ),
        decreases approvals@.len() - i,
    {
        let approval = &approvals[i];
        let drop = approval.event_id == event_id && match signer {
            Some(a) => approval.signer == *a,
            None => true,
        };
        let ghost before = kept@;
        if !drop {
            kept.push(
                EscrowApproval { event_id: approval.event_id, signer: approval.signer.clone() },
            );
        }
        proof {
            assert(drop == dropped((approvals@[i as int].event_id, approvals@[i as int].signer@)));
            assert forall|k: int| 0 <= k < kept@.len() implies !dropped(
                ((#[trigger] kept@[k]).event_id, kept@[k].signer@),
            ) && approval_set(approvals@).contains((kept@[k].event_id, kept@[k].signer@)) by {
                if k < before.len() {
                    assert(kept@[k] == before[k]);
                } else {
                    assert(kept@[k].event_id == approvals@[i as int].event_id);
                    assert(kept@[k].signer@ == approvals@[i as int].signer@);
                }
            }
            assert forall|j: int|
                0 <= j < i + 1 && !dropped(
                    ((#[trigger] approvals@[j]).event_id, approvals@[j].signer@),
                ) implies approval_set(kept@).contains(
                (approvals@[j].event_id, approvals@[j].signer@),
            ) by {
                if j < i {
                    let p = (approvals@[j].event_id, approvals@[j].signer@);
                    assert(approval_set(before).contains(p));
                    let k = choose|k: int|
                        0 <= k < before.len() && (#[trigger] before[k]).event_id == p.0
                            && before[k].signer@ == p.1;
                    assert(kept@[k] == before[k]);
                } else {
                    let k = kept@.len() - 1;
                    assert(kept@[k].event_id == approvals@[j].event_id);
                    assert(kept@[k].signer@ == approvals@[j].signer@);
                }
            }
        }
        i += 1;
    }
    proof {
        let got = approval_set(kept@);
        let all = approval_set(approvals@);
        assert forall|p: (u64, Seq<char>)| got.contains(p) <==> (all.contains(p) && !dropped(
            p,
        )) by {
            if got.contains(p) {
                let k = choose|k: int|
                    0 <= k < kept@.len() && (#[trigger] kept@[k]).event_id == p.0
                        && kept@[k].signer@ == p.1;
                assert(!dropped((kept@[k].event_id, kept@[k].signer@)));
            }
            if all.contains(p) && !dropped(p) {
                let j = choose|j: int|
                    0 <= j < approvals@.len() && (#[trigger] approvals@[j]).event_id == p.0
                        && approvals@[j].signer@ == p.1;
                assert(!dropped((approvals@[j].event_id, approvals@[j].signer@)));
            }
        }
        match signer {
            Some(a) => {
                assert(got =~= all.remove((event_id, a@)));
            },
            None => {
                assert(got =~= approvals_without_event(all, event_id));
            },
        }
    }
    kept
}

/// How many of `signers` have an approval for event `event_id` in
/// `approvals`.
fn count_signed(signers: &Vec<Address>, approvals: &Vec<EscrowApproval>, event_id: u64) -> (n:
    usize)
    ensures
        n == count_approvals(signers@, approval_set(approvals@), event_id),
{
    let mut n: usize = 0;
    let mut i: usize = 0;
    while i < signers.len()
        invariant
            i <= signers@.len(),
            n == count_approvals(signers@.take(i as int), approval_set(approvals@), event_id),
            n <= i,
        decreases signers@.len() - i,
    {
        proof {
            assert(signers@.take(i + 1).drop_last() =~= signers@.take(i as int));
            assert(signers@.take(i + 1).last() == signers@[i as int]);
        }
        if has_approval(approvals, event_id, &signers[i]) {
            n += 1;
        }
        i += 1;
    }
    proof {
        assert(signers@.take(signers@.len() as int) =~= signers@);
    }
    n
}

impl LumentixContract {
    /// Releases the escrow of the completed event `event_id` to its
    /// organizer, and returns the amount released. An escrow that holds
    /// nothing counts as released already.
    pub fn release_escrow(env: &mut Env, organizer: Address, event_id: u64) -> (r: Result<
        i128,
        LumentixError,
    >)
        requires
            old(env).wf(),
        ensures
            final(env).wf(),
            match release_escrow_check(old(env)@, organizer, event_id) {
                Some(e) => r == Err::<i128, LumentixError>(e) && final(env)@ == old(env)@,
                None => r == Ok::<i128, LumentixError>(old(env)@.escrow_of(event_id))
                    && final(env)@ == escrow_released(old(env)@, event_id),
            },
    {
        organizer.require_auth();
        if !storage::is_initialized(env) {
            return Err(LumentixError::NotInitialized);
        }
        validation::validate_address(&organizer)?;
        let event = storage::get_event(env, event_id)?;
        if event.organizer != organizer {
            return Err(LumentixError::Unauthorized);
        }
        if env.escrow_configs.contains_key(&event_id) {
            return Err(LumentixError::Unauthorized);
        }
        if event.status != EventStatus::Completed {
            return Err(LumentixError::InvalidStatusTransition);
        }
        let escrow_amount: i128 = storage::get_escrow(env, event_id)?;
        if escrow_amount == 0 {
            return Err(LumentixError::EscrowAlreadyReleased);
        }
        storage::clear_escrow(env, event_id);
        Ok(escrow_amount)
    }

    /// Puts the escrow of event `event_id` under `signers`, of whom
    /// `threshold` have to approve a release. A signer set already there is
    /// replaced.
    pub fn set_escrow_signers(
        env: &mut Env,
        event_id: u64,
        signers: Vec<Address>,
        threshold: u32,
    ) -> (r: Result<(), LumentixError>)
        requires
            old(env).wf(),
        ensures
            final(env).wf(),
            match set_escrow_signers_check(old(env)@, signers@, threshold) {
                Some(e) => r == Err::<(), LumentixError>(e) && final(env)@ == old(env)@,
                None => r is Ok && final(env)@ == set_escrow_signers_next(
                    old(env)@,
                    EscrowConfig { event_id, signers, threshold },
                ),
            },
    {
        if !storage::is_initialized(env) {
            return Err(LumentixError::NotInitialized);
        }
        if threshold == 0 || threshold as usize > signers.len() {
            return Err(LumentixError::InvalidAmount);
        }
        env.escrow_configs.insert(event_id, EscrowConfig { event_id, signers, threshold });
        Ok(())
    }

    /// Records that `signer` approves the release of the escrow of event
    /// `event_id`. Only a signer of that event may approve.
    pub fn approve_release(env: &mut Env, event_id: u64, signer: Address) -> (r: Result<
        (),
        LumentixError,
    >)
        requires
            old(env).wf(),
        ensures
            final(env).wf(),
            match approve_release_check(old(env)@, event_id, signer) {
                Some(e) => r == Err::<(), LumentixError>(e) && final(env)@ == old(env)@,
                None => r is Ok && final(env)@ == approve_release_next(
                    old(env)@,
                    event_id,
                    signer,
                ),
            },
    {
        signer.require_auth();
        if !storage::is_initialized(env) {
            return Err(LumentixError::NotInitialized);
        }
        let listed = match env.escrow_configs.get(&event_id) {
            Some(config) => signers_contain(&config.signers, &signer),
            None => false,
        };
        if !listed {
            return Err(LumentixError::Unauthorized);
        }
        let ghost before = env.approvals@;
        let ghost pair = (event_id, signer@);
        if !has_approval(&env.approvals, event_id, &signer) {
            env.approvals.push(EscrowApproval { event_id, signer });
            proof {
                let after = env.approvals@;
                assert forall|p: (u64, Seq<char>)|
                    approval_set(after).contains(p) <==> (approval_set(before).contains(p) || p
                        == pair) by {
                    if approval_set(before).contains(p) {
                        let j = choose|j: int|
                            0 <= j < before.len() && (#[trigger] before[j]).event_id == p.0
                                && before[j].signer@ == p.1;
                        assert(after[j] == before[j]);
                    }
                    if approval_set(after).contains(p) && p != pair {
                        let j = choose|j: int|
                            0 <= j < after.len() && (#[trigger] after[j]).event_id == p.0
                                && after[j].signer@ == p.1;
                        assert(j < before.len());
                        assert(after[j] == before[j]);
                    }
                    if p == pair {
                        let j = after.len() - 1;
                        assert(after[j].event_id == p.0 && after[j].signer@ == p.1);
                    }
                }
                assert(approval_set(after) =~= approval_set(before).insert(pair));
            }
        } else {
            proof {
                assert(approval_set(before) =~= approval_set(before).insert(pair));
            }
        }
        Ok(())
    }

    /// Takes back the approval of `signer` for event `event_id`, if there is
    /// one.
    pub fn revoke_approval(env: &mut Env, event_id: u64, signer: Address) -> (r: Result<
        (),
        LumentixError,
    >)
        requires
            old(env).wf(),
        ensures
            final(env).wf(),
            match revoke_approval_check(old(env)@) {
                Some(e) => r == Err::<(), LumentixError>(e) && final(env)@ == old(env)@,
                None => r is Ok && final(env)@ == revoke_approval_next(
                    old(env)@,
                    event_id,
                    signer,
                ),
            },
    {
        signer.require_auth();
        if !storage::is_initialized(env) {
            return Err(LumentixError::NotInitialized);
        }
        let kept = approvals_but(&env.approvals, event_id, Some(&signer));
        env.approvals = kept;
        Ok(())
    }

    /// Releases the escrow of event `event_id` to `destination`, if as many of
    /// its signers have approved as its threshold asks for, and returns the
    /// amount released. The approvals are used up by this.
    pub fn distribute_escrow(env: &mut Env, event_id: u64, destination: Address) -> (r: Result<
        i128,
        LumentixError,
    >)
        requires
            old(env).wf(),
        ensures
            final(env).wf(),
            match distribute_escrow_check(old(env)@, event_id) {
                Some(e) => r == Err::<i128, LumentixError>(e) && final(env)@ == old(env)@,
                None => r == Ok::<i128, LumentixError>(old(env)@.escrow_of(event_id))
                    && final(env)@ == distribute_escrow_next(old(env)@, event_id, destination),
            },
    {
        if !storage::is_initialized(env) {
            return Err(LumentixError::NotInitialized);
        }
        let enough = match env.escrow_configs.get(&event_id) {
            Some(config) => count_signed(&config.signers, &env.approvals, event_id)
                >= config.threshold as usize,
            None => false,
        };
        if !enough {
            return Err(LumentixError::Unauthorized);
        }
        let amount: i128 = storage::get_escrow(env, event_id)?;
        let kept = approvals_but(&env.approvals, event_id, None);
        env.approvals = kept;
        storage::clear_escrow(env, event_id);
        publish(env, Notification::EscrowDistributed { event_id, destination, amount });
        Ok(amount)
    }
}

} // verus!
