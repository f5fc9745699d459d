//! Multisig governance: each Dao holds a councillor set, an approval
//! threshold, and at most one in-flight proposal of one of three kinds.
//! Councillors also administer the Dao's streams directly where no proposal
//! is needed (opening and reactivating a stream).

use vstd::prelude::*;

use crate::accrual::{
    can_fund_full, projected_streamed, reconcile_outcome, reconcile_pre, reconciled,
    update_stream_state,
};
use crate::errors::ErrorCode;
use crate::state::{
    dao_wf, stream_wf, Address, Dao, ProposalType, Stream, MAX_CONNECTIONS_PER_STREAM,
    MAX_DECIMALS, MAX_NUM_COUNCILLORS, MAX_NUM_VERIFIED_CREATOR_ADDRESSES, MAX_STREAM_RATE,
};

verus! {

/// Whether `a` belongs to the Dao's authorized signer set.
pub open spec fn is_councillor(d: Dao, a: Address) -> bool {
    d.councillors@.contains(a)
}

/// How many councillors have approved the in-flight proposal.
pub open spec fn count_approvals(s: Seq<bool>) -> int
    decreases s.len(),
{
    if s.len() == 0 {
        0
    } else {
        count_approvals(s.drop_last()) + if s.last() {
            1int
        } else {
            0int
        }
    }
}

/// The proposal kind encoded by a wire tag; meaningful for tags 1 through 3.
pub open spec fn proposal_type_of(tag: u8) -> ProposalType {
    if tag == 1 {
        ProposalType::UpdateMultisig
    } else if tag == 2 {
        ProposalType::DeactivateStream
    } else {
        ProposalType::WithdrawFromStream
    }
}

/// Whether a proposed councillor list and threshold are acceptable.
pub open spec fn multisig_payload_ok(num_councillors: int, approval_threshold: u64) -> bool {
    &&& 1 <= num_councillors <= MAX_NUM_COUNCILLORS
    &&& 1 <= approval_threshold <= num_councillors
}

/// Index of the first occurrence of `needle` in `v`: the position-based
/// lookup every councillor check uses.
pub fn position_of(v: &Vec<Address>, needle: Address) -> (r: Option<usize>)
    ensures
        match r {
            Some(i) => v@.index_of_first(needle) == Some(i as int),
            None => !v@.contains(needle),
        },
{
    let n = v.len();
    let mut i: usize = 0;
    while i < n
        invariant
            n == v@.len(),
            i <= n,
            forall|j: int| 0 <= j < i ==> v@[j] != needle,
        decreases n - i,
    {
        if v[i] == needle {
            proof {
                v@.index_of_first_ensures(needle);
                assert(v@.contains(needle)) by {
                    assert(v@[i as int] == needle);
                }
                match v@.index_of_first(needle) {
                    Some(fi) => {
                        assert(fi == i as int);
                    },
                    None => {
                        assert(false);
                    },
                }
            }
            return Some(i);
        }
        i = i + 1;
    }
    proof {
        v@.index_of_first_ensures(needle);
    }
    None
}

/// Counts the set entries of the proposal signer vector.
fn count_signers(signers: &Vec<bool>) -> (n: u64)
    ensures
        n == count_approvals(signers@),
        n <= signers@.len(),
{
    let mut n: u64 = 0;
    let mut i: usize = 0;
    while i < signers.len()
        invariant
            i <= signers@.len(),
            n <= i,
            n == count_approvals(signers@.subrange(0, i as int)),
        decreases signers@.len() - i,
    {
        if signers[i] {
            n = n + 1;
        }
        i = i + 1;
        proof {
            let prefix = signers@.subrange(0, i as int);
            assert(prefix.drop_last() =~= signers@.subrange(0, i - 1));
            assert(prefix.last() == signers@[i - 1]);
        }
    }
    proof {
        assert(signers@.subrange(0, signers@.len() as int) =~= signers@);
    }
    n
}

/// Copies an address list element for element.
fn copied_addresses(v: &Vec<Address>) -> (r: Vec<Address>)
    ensures
        r@ == v@,
{
    let mut r: Vec<Address> = Vec::new();
    let mut i: usize = 0;
    while i < v.len()
        invariant
            i <= v@.len(),
            r@ == v@.subrange(0, i as int),
        decreases v@.len() - i,
    {
        r.push(v[i]);
        i = i + 1;
        proof {
            assert(r@ =~= v@.subrange(0, i as int));
        }
    }
    proof {
        assert(v@.subrange(0, v@.len() as int) =~= v@);
    }
    r
}

/// Builds a signer vector of length `n` that is all false except, when
/// `approver` names an index below `n`, at that index.
fn fresh_signers(n: usize, approver: Option<usize>) -> (r: Vec<bool>)
    ensures
        r@.len() == n,
        forall|j: int| 0 <= j < n ==> r@[j] == (approver == Some(j as usize)),
{
    let mut r: Vec<bool> = Vec::new();
    let mut i: usize = 0;
    while i < n
        invariant
            i <= n,
            r@.len() == i,
            forall|j: int| 0 <= j < i ==> r@[j] == (approver == Some(j as usize)),
        decreases n - i,
    {
        let flag = match approver {
            Some(a) => i == a,
            None => false,
        };
        r.push(flag);
        i = i + 1;
    }
    r
}

/// Creates a Dao from a councillor list and approval threshold.
///
/// Rejects an empty or oversized councillor list, then a threshold that is
/// zero or exceeds the list; otherwise returns the Dao with no proposal in
/// flight and an all-false signer vector.
pub fn initialize_dao(councillors: Vec<Address>, approval_threshold: u64) -> (r: Result<
    Dao,
    ErrorCode,
>)
    ensures
        (councillors@.len() > MAX_NUM_COUNCILLORS || councillors@.len() < 1) <==> r == Err::<
            Dao,
            ErrorCode,
        >(ErrorCode::TooManyManagers),
        (1 <= councillors@.len() <= MAX_NUM_COUNCILLORS && !(1 <= approval_threshold
            <= councillors@.len())) <==> r == Err::<Dao, ErrorCode>(
            ErrorCode::InvalidApprovalThreshold,
        ),
        r is Ok ==> {
            let d = r->Ok_0;
            &&& dao_wf(d)
            &&& d.councillors == councillors
            &&& d.approval_threshold == approval_threshold
            &&& d.proposal_signers@.len() == councillors@.len()
            &&& forall|j: int| 0 <= j < d.proposal_signers@.len() ==> !d.proposal_signers@[j]
            &&& !d.proposal_is_active
            &&& d.proposal_type == ProposalType::DeactivateStream
            &&& d.proposed_councillors@.len() == 0
            &&& d.proposed_approval_threshold == 0
            &&& d.proposed_deactivation_stream == 0
            &&& d.proposed_withdrawal_amount == 0
            &&& d.proposed_withdrawal_receiver_owner == 0
            &&& d.proposed_withdrawal_stream == 0
            &&& d.num_streams == 0
        },
        r is Ok <==> (1 <= councillors@.len() <= MAX_NUM_COUNCILLORS && 1 <= approval_threshold
            <= councillors@.len()),
{
    if councillors.len() > MAX_NUM_COUNCILLORS || councillors.len() < 1 {
        return Err(ErrorCode::TooManyManagers);
    }
    if approval_threshold > councillors.len() as u64 || approval_threshold < 1 {
        return Err(ErrorCode::InvalidApprovalThreshold);
    }
    let num = councillors.len();
    let signers = fresh_signers(num, None);
    Ok(
        Dao {
            councillors,
            approval_threshold,
            proposal_signers: signers,
            proposal_is_active: false,
            proposal_type: ProposalType::DeactivateStream,
            proposed_councillors: Vec::new(),
            proposed_approval_threshold: 0,
            proposed_deactivation_stream: 0,
            proposed_withdrawal_amount: 0,
            proposed_withdrawal_receiver_owner: 0,
            proposed_withdrawal_stream: 0,
            num_streams: 0,
        },
    )
}

/// Opens a proposal of the kind encoded by `proposal_type_int`, staging the
/// payload fields that belong to that kind and resetting the signer vector
/// to all-false except the proposer. Overwrites any prior proposal.
pub fn propose_dao_command(
    dao: &mut Dao,
    signer: Address,
    proposal_type_int: u8,
    proposed_councillors: Vec<Address>,
    proposed_approval_threshold: u64,
    proposed_deactivation_stream: Address,
    proposed_withdraw_amount: u64,
    proposed_withdrawal_receiver_owner: Address,
    proposed_withdrawal_stream: Address,
) -> (r: Result<(), ErrorCode>)
    requires
        dao_wf(*old(dao)),
    ensures
        dao_wf(*final(dao)),
        r is Err ==> *final(dao) == *old(dao),
        !(1 <= proposal_type_int <= 3) <==> r == Err::<(), ErrorCode>(ErrorCode::InvalidProposalType),
        (1 <= proposal_type_int <= 3 && !is_councillor(*old(dao), signer)) <==> r == Err::<
            (),
            ErrorCode,
        >(ErrorCode::InvalidCouncillor),
        (1 <= proposal_type_int <= 3 && is_councillor(*old(dao), signer) && proposal_type_of(
            proposal_type_int,
        ) == ProposalType::UpdateMultisig && !(1 <= proposed_councillors@.len()
            <= MAX_NUM_COUNCILLORS)) <==> r == Err::<(), ErrorCode>(ErrorCode::TooManyManagers),
        (1 <= proposal_type_int <= 3 && is_councillor(*old(dao), signer) && proposal_type_of(
            proposal_type_int,
        ) == ProposalType::UpdateMultisig && 1 <= proposed_councillors@.len()
            <= MAX_NUM_COUNCILLORS && !(1 <= proposed_approval_threshold
            <= proposed_councillors@.len())) <==> r == Err::<(), ErrorCode>(
            ErrorCode::InvalidApprovalThreshold,
        ),
        r is Ok ==> {
            &&& final(dao).councillors == old(dao).councillors
            &&& final(dao).approval_threshold == old(dao).approval_threshold
            &&& final(dao).num_streams == old(dao).num_streams
            &&& final(dao).proposal_is_active
            &&& final(dao).proposal_type == proposal_type_of(proposal_type_int)
            &&& final(dao).proposal_signers@.len() == old(dao).councillors@.len()
            &&& forall|j: int|
                0 <= j < final(dao).proposal_signers@.len() ==> final(dao).proposal_signers@[j] == (
                old(dao).councillors@.index_of_first(signer) == Some(j))
        },
        r is Ok && proposal_type_of(proposal_type_int) == ProposalType::UpdateMultisig ==> {
            &&& final(dao).proposed_councillors == proposed_councillors
            &&& final(dao).proposed_approval_threshold == proposed_approval_threshold
            &&& final(dao).proposed_deactivation_stream == old(dao).proposed_deactivation_stream
            &&& final(dao).proposed_withdrawal_amount == old(dao).proposed_withdrawal_amount
            &&& final(dao).proposed_withdrawal_receiver_owner == old(
                dao,
            ).proposed_withdrawal_receiver_owner
            &&& final(dao).proposed_withdrawal_stream == old(dao).proposed_withdrawal_stream
        },
        r is Ok && proposal_type_of(proposal_type_int) == ProposalType::DeactivateStream ==> {
            &&& final(dao).proposed_deactivation_stream == proposed_deactivation_stream
            &&& final(dao).proposed_councillors == old(dao).proposed_councillors
            &&& final(dao).proposed_approval_threshold == old(dao).proposed_approval_threshold
            &&& final(dao).proposed_withdrawal_amount == old(dao).proposed_withdrawal_amount
            &&& final(dao).proposed_withdrawal_receiver_owner == old(
                dao,
            ).proposed_withdrawal_receiver_owner
            &&& final(dao).proposed_withdrawal_stream == old(dao).proposed_withdrawal_stream
        },
        r is Ok && proposal_type_of(proposal_type_int) == ProposalType::WithdrawFromStream ==> {
            &&& final(dao).proposed_withdrawal_amount == proposed_withdraw_amount
            &&& final(dao).proposed_withdrawal_receiver_owner
                == proposed_withdrawal_receiver_owner
            &&& final(dao).proposed_withdrawal_stream == proposed_withdrawal_stream
            &&& final(dao).proposed_councillors == old(dao).proposed_councillors
            &&& final(dao).proposed_approval_threshold == old(dao).proposed_approval_threshold
            &&& final(dao).proposed_deactivation_stream == old(dao).proposed_deactivation_stream
        },
        r is Ok <==> (1 <= proposal_type_int <= 3 && is_councillor(*old(dao), signer) && (
        proposal_type_of(proposal_type_int) == ProposalType::UpdateMultisig ==> multisig_payload_ok(
            proposed_councillors@.len() as int,
            proposed_approval_threshold,
        ))),
{
    if proposal_type_int < 1 || proposal_type_int > 3 {
        return Err(ErrorCode::InvalidProposalType);
    }
    let councillor_index = match position_of(&dao.councillors, signer) {
        Some(i) => i,
        None => {
            return Err(ErrorCode::InvalidCouncillor);
        },
    };
    proof {
        dao.councillors@.index_of_first_ensures(signer);
    }
    if proposal_type_int == 1 {
        if proposed_councillors.len() > MAX_NUM_COUNCILLORS || proposed_councillors.len() < 1 {
            return Err(ErrorCode::TooManyManagers);
        }
        if proposed_approval_threshold > proposed_councillors.len() as u64
            || proposed_approval_threshold < 1 {
            return Err(ErrorCode::InvalidApprovalThreshold);
        }
        dao.proposed_councillors = proposed_councillors;
        dao.proposed_approval_threshold = proposed_approval_threshold;
        dao.proposal_type = ProposalType::UpdateMultisig;
    } else if proposal_type_int == 2 {
        dao.proposed_deactivation_stream = proposed_deactivation_stream;
        dao.proposal_type = ProposalType::DeactivateStream;
    } else {
        dao.proposed_withdrawal_amount = proposed_withdraw_amount;
        dao.proposed_withdrawal_receiver_owner = proposed_withdrawal_receiver_owner;
        dao.proposed_withdrawal_stream = proposed_withdrawal_stream;
        dao.proposal_type = ProposalType::WithdrawFromStream;
    }
    let num = dao.councillors.len();
    dao.proposal_signers = fresh_signers(num, Some(councillor_index));
    dao.proposal_is_active = true;
    Ok(())
}

/// Records the caller's approval of the in-flight proposal. Approving twice
/// has no additional effect.
pub fn approve_dao_command(dao: &mut Dao, signer: Address) -> (r: Result<(), ErrorCode>)
    requires
        dao_wf(*old(dao)),
    ensures
        dao_wf(*final(dao)),
        r is Err ==> *final(dao) == *old(dao),
        !old(dao).proposal_is_active <==> r == Err::<(), ErrorCode>(ErrorCode::ProposalNotActive),
        (old(dao).proposal_is_active && !is_councillor(*old(dao), signer)) <==> r == Err::<
            (),
            ErrorCode,
        >(ErrorCode::InvalidCouncillor),
        r is Ok <==> (old(dao).proposal_is_active && is_councillor(*old(dao), signer)),
        r is Ok ==> {
            let idx = old(dao).councillors@.index_of_first(signer)->Some_0;
            &&& final(dao).proposal_signers@ == old(dao).proposal_signers@.update(idx, true)
            &&& *final(dao) == (Dao {
                proposal_signers: final(dao).proposal_signers,
                ..*old(dao)
            })
        },
{
    if !dao.proposal_is_active {
        return Err(ErrorCode::ProposalNotActive);
    }
    let councillor_index = match position_of(&dao.councillors, signer) {
        Some(i) => i,
        None => {
            return Err(ErrorCode::InvalidCouncillor);
        },
    };
    proof {
        dao.councillors@.index_of_first_ensures(signer);
    }
    dao.proposal_signers[councillor_index] = true;
    Ok(())
}

/// Checks everything an execute handler needs before applying a proposal:
/// the caller is a councillor, a proposal is in flight, and enough signers
/// have approved it.
pub fn validate_proposal_approval(dao: &Dao, signer_pubkey: Address) -> (r: Result<(), ErrorCode>)
    requires
        dao_wf(*dao),
    ensures
        !is_councillor(*dao, signer_pubkey) <==> r == Err::<(), ErrorCode>(
            ErrorCode::InvalidCouncillor,
        ),
        (is_councillor(*dao, signer_pubkey) && !dao.proposal_is_active) <==> r == Err::<
            (),
            ErrorCode,
        >(ErrorCode::ProposalNotActive),
        (is_councillor(*dao, signer_pubkey) && dao.proposal_is_active && count_approvals(
            dao.proposal_signers@,
        ) < dao.approval_threshold) <==> r == Err::<(), ErrorCode>(
            ErrorCode::NotEnoughSignersApproved,
        ),
        r is Ok <==> (is_councillor(*dao, signer_pubkey) && dao.proposal_is_active
            && count_approvals(dao.proposal_signers@) >= dao.approval_threshold),
{
    match position_of(&dao.councillors, signer_pubkey) {
        Some(_) => {
            proof {
                dao.councillors@.index_of_first_ensures(signer_pubkey);
            }
        },
        None => {
            return Err(ErrorCode::InvalidCouncillor);
        },
    }
    if !dao.proposal_is_active {
        return Err(ErrorCode::ProposalNotActive);
    }
    let num_signers = count_signers(&dao.proposal_signers);
    if num_signers < dao.approval_threshold {
        return Err(ErrorCode::NotEnoughSignersApproved);
    }
    Ok(())
}

/// Applies a fully approved `UpdateMultisig` proposal: swaps in the staged
/// councillor list and threshold, resets the signer vector to the new
/// length, and closes the proposal.
pub fn execute_update_dao_multisig(dao: &mut Dao, signer: Address) -> (r: Result<(), ErrorCode>)
    requires
        dao_wf(*old(dao)),
    ensures
        dao_wf(*final(dao)),
        r is Err ==> *final(dao) == *old(dao),
        !is_councillor(*old(dao), signer) <==> r == Err::<(), ErrorCode>(
            ErrorCode::InvalidCouncillor,
        ),
        (is_councillor(*old(dao), signer) && !old(dao).proposal_is_active) <==> r == Err::<
            (),
            ErrorCode,
        >(ErrorCode::ProposalNotActive),
        (is_councillor(*old(dao), signer) && old(dao).proposal_is_active && count_approvals(
            old(dao).proposal_signers@,
        ) < old(dao).approval_threshold) <==> r == Err::<(), ErrorCode>(
            ErrorCode::NotEnoughSignersApproved,
        ),
        (is_councillor(*old(dao), signer) && old(dao).proposal_is_active && count_approvals(
            old(dao).proposal_signers@,
        ) >= old(dao).approval_threshold && old(dao).proposal_type != ProposalType::UpdateMultisig)
            <==> r == Err::<(), ErrorCode>(ErrorCode::MismatchProposalType),
        r is Ok <==> (is_councillor(*old(dao), signer) && old(dao).proposal_is_active
            && count_approvals(old(dao).proposal_signers@) >= old(dao).approval_threshold && old(
            dao,
        ).proposal_type == ProposalType::UpdateMultisig),
        r is Ok ==> {
            &&& final(dao).councillors@ == old(dao).proposed_councillors@
            &&& final(dao).approval_threshold == old(dao).proposed_approval_threshold
            &&& final(dao).proposal_signers@.len() == old(dao).proposed_councillors@.len()
            &&& forall|j: int|
                0 <= j < final(dao).proposal_signers@.len() ==> !final(dao).proposal_signers@[j]
            &&& !final(dao).proposal_is_active
            &&& final(dao).proposal_type == old(dao).proposal_type
            &&& final(dao).proposed_councillors == old(dao).proposed_councillors
            &&& final(dao).proposed_approval_threshold == old(dao).proposed_approval_threshold
            &&& final(dao).proposed_deactivation_stream == old(dao).proposed_deactivation_stream
            &&& final(dao).proposed_withdrawal_amount == old(dao).proposed_withdrawal_amount
            &&& final(dao).proposed_withdrawal_receiver_owner == old(
                dao,
            ).proposed_withdrawal_receiver_owner
            &&& final(dao).proposed_withdrawal_stream == old(dao).proposed_withdrawal_stream
            &&& final(dao).num_streams == old(dao).num_streams
        },
{
    match validate_proposal_approval(dao, signer) {
        Ok(_) => {},
        Err(e) => {
            return Err(e);
        },
    }
    match dao.proposal_type {
        ProposalType::UpdateMultisig => {},
        _ => {
            return Err(ErrorCode::MismatchProposalType);
        },
    }
    dao.councillors = copied_addresses(&dao.proposed_councillors);
    dao.approval_threshold = dao.proposed_approval_threshold;
    let num = dao.councillors.len();
    dao.proposal_signers = fresh_signers(num, None);
    dao.proposal_is_active = false;
    Ok(())
}

/// Applies a fully approved `DeactivateStream` proposal: the passed stream
/// must be the staged target, its books are brought current, it freezes,
/// and the proposal closes.
pub fn execute_deactivate_stream(
    dao: &mut Dao,
    stream: &mut Stream,
    stream_address: Address,
    current_pool_balance: u64,
    current_timestamp: u64,
    signer: Address,
) -> (r: Result<(), ErrorCode>)
    requires
        dao_wf(*old(dao)),
        reconcile_pre(*old(stream), current_pool_balance, current_timestamp),
    ensures
        dao_wf(*final(dao)),
        stream_wf(*final(stream)),
        r is Err ==> *final(dao) == *old(dao) && *final(stream) == *old(stream),
        !is_councillor(*old(dao), signer) <==> r == Err::<(), ErrorCode>(
            ErrorCode::InvalidCouncillor,
        ),
        (is_councillor(*old(dao), signer) && !old(dao).proposal_is_active) <==> r == Err::<
            (),
            ErrorCode,
        >(ErrorCode::ProposalNotActive),
        (is_councillor(*old(dao), signer) && old(dao).proposal_is_active && count_approvals(
            old(dao).proposal_signers@,
        ) < old(dao).approval_threshold) <==> r == Err::<(), ErrorCode>(
            ErrorCode::NotEnoughSignersApproved,
        ),
        (is_councillor(*old(dao), signer) && old(dao).proposal_is_active && count_approvals(
            old(dao).proposal_signers@,
        ) >= old(dao).approval_threshold && old(dao).proposal_type
            != ProposalType::DeactivateStream) <==> r == Err::<(), ErrorCode>(
            ErrorCode::MismatchProposalType,
        ),
        (is_councillor(*old(dao), signer) && old(dao).proposal_is_active && count_approvals(
            old(dao).proposal_signers@,
        ) >= old(dao).approval_threshold && old(dao).proposal_type
            == ProposalType::DeactivateStream && old(dao).proposed_deactivation_stream
            != stream_address) <==> r == Err::<(), ErrorCode>(ErrorCode::StreamMismatch),
        r is Ok <==> (is_councillor(*old(dao), signer) && old(dao).proposal_is_active
            && count_approvals(old(dao).proposal_signers@) >= old(dao).approval_threshold && old(
            dao,
        ).proposal_type == ProposalType::DeactivateStream && old(
            dao,
        ).proposed_deactivation_stream == stream_address),
        r is Ok ==> *final(stream) == (Stream {
            is_active: false,
            ..reconciled(*old(stream), current_pool_balance, current_timestamp, false)
        }),
        r is Ok ==> *final(dao) == (Dao { proposal_is_active: false, ..*old(dao) }),
{
    match validate_proposal_approval(dao, signer) {
        Ok(_) => {},
        Err(e) => {
            return Err(e);
        },
    }
    match dao.proposal_type {
        ProposalType::DeactivateStream => {},
        _ => {
            return Err(ErrorCode::MismatchProposalType);
        },
    }
    // Only the staged target may be deactivated.
    if dao.proposed_deactivation_stream != stream_address {
        return Err(ErrorCode::StreamMismatch);
    }
    let _ = update_stream_state(stream, current_pool_balance, current_timestamp, false);
    stream.is_active = false;
    dao.proposal_is_active = false;
    Ok(())
}

/// Applies a fully approved `WithdrawFromStream` proposal: brings the
/// stream's books current, checks the receiver, stream and amount against
/// the staged payload, closes the proposal, and returns the amount the
/// ledger must move from the pool to the receiver under the Dao's derived
/// authority.
///
/// Every rejection leaves both records untouched, so a failing check after
/// accrual still aborts the whole operation.
pub fn execute_withdraw_from_stream(
    dao: &mut Dao,
    stream: &mut Stream,
    receiver_token_account_owner: Address,
    stream_address: Address,
    current_pool_balance: u64,
    current_timestamp: u64,
    signer: Address,
) -> (r: Result<u64, ErrorCode>)
    requires
        dao_wf(*old(dao)),
        reconcile_pre(*old(stream), current_pool_balance, current_timestamp),
    ensures
        dao_wf(*final(dao)),
        stream_wf(*final(stream)),
        r is Err ==> *final(dao) == *old(dao) && *final(stream) == *old(stream),
        !is_councillor(*old(dao), signer) <==> r == Err::<u64, ErrorCode>(
            ErrorCode::InvalidCouncillor,
        ),
        (is_councillor(*old(dao), signer) && !old(dao).proposal_is_active) <==> r == Err::<
            u64,
            ErrorCode,
        >(ErrorCode::ProposalNotActive),
        (is_councillor(*old(dao), signer) && old(dao).proposal_is_active && count_approvals(
            old(dao).proposal_signers@,
        ) < old(dao).approval_threshold) <==> r == Err::<u64, ErrorCode>(
            ErrorCode::NotEnoughSignersApproved,
        ),
        (is_councillor(*old(dao), signer) && old(dao).proposal_is_active && count_approvals(
            old(dao).proposal_signers@,
        ) >= old(dao).approval_threshold && old(dao).proposal_type
            != ProposalType::WithdrawFromStream) <==> r == Err::<u64, ErrorCode>(
            ErrorCode::MismatchProposalType,
        ),
        ({
            let approved = is_councillor(*old(dao), signer) && old(dao).proposal_is_active
                && count_approvals(old(dao).proposal_signers@) >= old(dao).approval_threshold && old(
                dao,
            ).proposal_type == ProposalType::WithdrawFromStream;
            let s1 = reconciled(*old(stream), current_pool_balance, current_timestamp, false);
            let available = current_pool_balance - (s1.total_streamed - s1.total_claimed);
            &&& (approved && receiver_token_account_owner != old(
                dao,
            ).proposed_withdrawal_receiver_owner) <==> r == Err::<u64, ErrorCode>(
                ErrorCode::InvalidProposedReceiverOwner,
            )
            &&& (approved && receiver_token_account_owner == old(
                dao,
            ).proposed_withdrawal_receiver_owner && old(dao).proposed_withdrawal_stream
                != stream_address) <==> r == Err::<u64, ErrorCode>(ErrorCode::StreamMismatch)
            &&& (approved && receiver_token_account_owner == old(
                dao,
            ).proposed_withdrawal_receiver_owner && old(dao).proposed_withdrawal_stream
                == stream_address && old(dao).proposed_withdrawal_amount > available) <==> r
                == Err::<u64, ErrorCode>(ErrorCode::InsufficientFunds)
            &&& r is Ok <==> (approved && receiver_token_account_owner == old(
                dao,
            ).proposed_withdrawal_receiver_owner && old(dao).proposed_withdrawal_stream
                == stream_address && old(dao).proposed_withdrawal_amount <= available)
            &&& r is Ok ==> {
                &&& r->Ok_0 == old(dao).proposed_withdrawal_amount
                &&& *final(stream) == s1
                &&& *final(dao) == (Dao { proposal_is_active: false, ..*old(dao) })
            }
        }),
{
    match validate_proposal_approval(dao, signer) {
        Ok(_) => {},
        Err(e) => {
            return Err(e);
        },
    }
    match dao.proposal_type {
        ProposalType::WithdrawFromStream => {},
        _ => {
            return Err(ErrorCode::MismatchProposalType);
        },
    }
    // Plan the accrual first and commit nothing until every check passed.
    let (new_total_streamed, new_last_update, still_active) = if stream.is_active {
        reconcile_outcome(stream, current_pool_balance, current_timestamp)
    } else {
        (stream.total_streamed, stream.last_update_timestamp, false)
    };
    if receiver_token_account_owner != dao.proposed_withdrawal_receiver_owner {
        return Err(ErrorCode::InvalidProposedReceiverOwner);
    }
    if dao.proposed_withdrawal_stream != stream_address {
        return Err(ErrorCode::StreamMismatch);
    }
    let unclaimed_amount = new_total_streamed - stream.total_claimed;
    let available_amount = current_pool_balance - unclaimed_amount;
    let proposed_withdrawal_amount = dao.proposed_withdrawal_amount;
    if proposed_withdrawal_amount > available_amount {
        return Err(ErrorCode::InsufficientFunds);
    }
    stream.total_streamed = new_total_streamed;
    stream.last_update_timestamp = new_last_update;
    stream.is_active = still_active;
    dao.proposal_is_active = false;
    Ok(proposed_withdrawal_amount)
}

/// Creates a stream for the Dao: only a councillor may open one, the
/// creator list, mint decimals and rate must sit inside the protocol
/// limits, and the new stream starts active with zeroed books at `now`.
pub fn initialize_stream(
    dao: &Dao,
    signer: Address,
    verified_creator_addresses: Vec<Address>,
    stream_rate: u64,
    is_simulation: bool,
    dao_address: Address,
    token_mint_address: Address,
    token_pool_address: Address,
    token_mint_decimals: u8,
    now: u64,
) -> (r: Result<Stream, ErrorCode>)
    requires
        dao_wf(*dao),
    ensures
        verified_creator_addresses@.len() > MAX_NUM_VERIFIED_CREATOR_ADDRESSES <==> r == Err::<
            Stream,
            ErrorCode,
        >(ErrorCode::TooManyVerifiedCreatorAddresses),
        (verified_creator_addresses@.len() <= MAX_NUM_VERIFIED_CREATOR_ADDRESSES && !is_councillor(
            *dao,
            signer,
        )) <==> r == Err::<Stream, ErrorCode>(ErrorCode::InvalidCouncillor),
        (verified_creator_addresses@.len() <= MAX_NUM_VERIFIED_CREATOR_ADDRESSES && is_councillor(
            *dao,
            signer,
        ) && token_mint_decimals > MAX_DECIMALS) <==> r == Err::<Stream, ErrorCode>(
            ErrorCode::MaxSupportedDecimalsExceeded,
        ),
        (verified_creator_addresses@.len() <= MAX_NUM_VERIFIED_CREATOR_ADDRESSES && is_councillor(
            *dao,
            signer,
        ) && token_mint_decimals <= MAX_DECIMALS && stream_rate > MAX_STREAM_RATE) <==> r == Err::<
            Stream,
            ErrorCode,
        >(ErrorCode::MaxSupportedStreamRateExceeded),
        r is Ok <==> (verified_creator_addresses@.len() <= MAX_NUM_VERIFIED_CREATOR_ADDRESSES
            && is_councillor(*dao, signer) && token_mint_decimals <= MAX_DECIMALS && stream_rate
            <= MAX_STREAM_RATE),
        r is Ok ==> {
            let s = r->Ok_0;
            &&& stream_wf(s)
            &&& s.dao_address == dao_address
            &&& s.token_mint_address == token_mint_address
            &&& s.token_pool_address == token_pool_address
            &&& s.verified_creator_addresses == verified_creator_addresses
            &&& s.stream_rate == stream_rate
            &&& s.is_simulation == is_simulation
            &&& s.is_active
            &&& s.num_connections == 0
            &&& s.total_streamed == 0
            &&& s.total_claimed == 0
            &&& s.last_update_timestamp == now
        },
{
    if verified_creator_addresses.len() > MAX_NUM_VERIFIED_CREATOR_ADDRESSES {
        return Err(ErrorCode::TooManyVerifiedCreatorAddresses);
    }
    match position_of(&dao.councillors, signer) {
        Some(_) => {
            proof {
                dao.councillors@.index_of_first_ensures(signer);
            }
        },
        None => {
            return Err(ErrorCode::InvalidCouncillor);
        },
    }
    if token_mint_decimals > MAX_DECIMALS {
        return Err(ErrorCode::MaxSupportedDecimalsExceeded);
    }
    if stream_rate > MAX_STREAM_RATE {
        return Err(ErrorCode::MaxSupportedStreamRateExceeded);
    }
    Ok(
        Stream {
            dao_address,
            token_mint_address,
            token_pool_address,
            verified_creator_addresses,
            stream_rate,
            is_simulation,
            is_active: true,
            num_connections: 0,
            total_streamed: 0,
            total_claimed: 0,
            last_update_timestamp: now,
        },
    )
}

/// Reactivates a frozen stream, provided a councillor asks for it and the
/// pool's surplus now covers the full emission the stream would have made
/// while frozen; the books then catch up to `now` in full.
pub fn reactivate_stream(
    dao: &Dao,
    stream: &mut Stream,
    current_pool_balance: u64,
    current_timestamp: u64,
    signer: Address,
) -> (r: Result<(), ErrorCode>)
    requires
        dao_wf(*dao),
        reconcile_pre(*old(stream), current_pool_balance, current_timestamp),
        !old(stream).is_active,
    ensures
        stream_wf(*final(stream)),
        r is Err ==> *final(stream) == *old(stream),
        !is_councillor(*dao, signer) <==> r == Err::<(), ErrorCode>(ErrorCode::InvalidCouncillor),
        (is_councillor(*dao, signer) && !can_fund_full(
            *old(stream),
            current_pool_balance,
            current_timestamp,
        )) <==> r == Err::<(), ErrorCode>(ErrorCode::InsufficientFunds),
        r is Ok <==> (is_councillor(*dao, signer) && can_fund_full(
            *old(stream),
            current_pool_balance,
            current_timestamp,
        )),
        r is Ok ==> *final(stream) == (Stream {
            total_streamed: projected_streamed(*old(stream), current_timestamp) as u64,
            last_update_timestamp: current_timestamp,
            is_active: true,
            ..*old(stream)
        }),
{
    match position_of(&dao.councillors, signer) {
        Some(_) => {
            proof {
                dao.councillors@.index_of_first_ensures(signer);
            }
        },
        None => {
            return Err(ErrorCode::InvalidCouncillor);
        },
    }
    let ghost elapsed: int = current_timestamp - stream.last_update_timestamp;
    let ghost rate: int = stream.stream_rate as int;
    let ghost conns: int = stream.num_connections as int;
    proof {
        assert(elapsed * rate <= u64::MAX * (MAX_STREAM_RATE as int)) by (nonlinear_arith)
            requires
                0 <= elapsed <= u64::MAX,
                0 <= rate <= MAX_STREAM_RATE,
        ;
        assert((elapsed * rate) * conns <= (u64::MAX * (MAX_STREAM_RATE as int)) * (
        MAX_CONNECTIONS_PER_STREAM as int)) by (nonlinear_arith)
            requires
                0 <= elapsed * rate <= u64::MAX * (MAX_STREAM_RATE as int),
                0 <= conns <= MAX_CONNECTIONS_PER_STREAM,
        ;
        assert((elapsed * rate) * conns == elapsed * (rate * conns)) by (nonlinear_arith);
        assert(0 <= (elapsed * rate) * conns) by (nonlinear_arith)
            requires
                0 <= elapsed,
                0 <= rate,
                0 <= conns,
        ;
    }
    let seconds_since_last_update: u64 = current_timestamp - stream.last_update_timestamp;
    let recently_streamed: u128 = (seconds_since_last_update as u128 * stream.stream_rate as u128)
        * stream.num_connections as u128;
    let total_unclaimed: u64 = stream.total_streamed - stream.total_claimed;
    let current_pool_surplus: u64 = current_pool_balance - total_unclaimed;
    if recently_streamed > current_pool_surplus as u128 {
        return Err(ErrorCode::InsufficientFunds);
    }
    stream.total_streamed = stream.total_streamed + recently_streamed as u64;
    stream.last_update_timestamp = current_timestamp;
    stream.is_active = true;
    Ok(())
}

} // verus!
