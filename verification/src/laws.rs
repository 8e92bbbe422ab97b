//! What holds of the contract as a whole.
//!
//! [`Operation`] names every entry point that changes the state, with its
//! arguments; [`refusal`] and [`apply`] put the `*_check` and `*_next`
//! functions of the entry points under one roof. The laws below are stated
//! over them, so each holds of every call of every entry point.

use vstd::prelude::*;
use crate::address::Address;
use crate::admin::{add_organizer_next, admin_check, admin_initialize_check, set_admin_next};
use crate::env::State;
use crate::error::LumentixError;
use crate::escrow::{
    approvals_in,
    approve_release_check,
    approve_release_next,
    count_approvals,
    distribute_escrow_check,
    distribute_escrow_next,
    escrow_released,
    is_signer,
    lemma_count_approvals_none,
    release_escrow_check,
    revoke_approval_check,
    revoke_approval_next,
    set_escrow_signers_check,
    set_escrow_signers_next,
};
use crate::fees::{lemma_fee_bounds, platform_fee};
use crate::entrance::{
    add_validator_next,
    authorized_validator,
    init_event_next,
    issued_ticket,
    mark_ticket_used_check,
    mark_ticket_used_next,
    remove_validator_next,
    ticket_stored,
    transfer_ticket_check,
    transfer_ticket_next,
    validate_ticket_check,
    validate_ticket_next,
    validator_change_check,
};
use crate::market::{
    create_event_check,
    create_event_next,
    initialize_check,
    initialize_next,
    is_party,
    lookup,
    new_event,
    transition_allowed,
    update_event_status_check,
    update_event_status_next,
};
use crate::models::Symbol;
use crate::platform::{
    set_platform_fee_check,
    set_platform_fee_next,
    withdraw_platform_fees_check,
    withdraw_platform_fees_next,
};
use crate::tickets::{
    new_ticket,
    purchase_ticket_check,
    purchase_ticket_next,
    purchase_within_limits,
    refund_ticket_check,
    refund_ticket_next,
    use_ticket_check,
    use_ticket_next,
};
use crate::types::{EscrowConfig, Event, EventStatus, Ticket};

verus! {

/// A call of an entry point that may change the state.
pub enum Operation {
    Initialize { admin: Address },
    AdminInitialize { admin: Address },
    CreateEvent {
        organizer: Address,
        name: String,
        description: String,
        location: String,
        start_time: u64,
        end_time: u64,
        ticket_price: i128,
        max_tickets: u32,
    },
    UpdateEventStatus { event_id: u64, new_status: EventStatus, caller: Address },
    CancelEvent { organizer: Address, event_id: u64 },
    CompleteEvent { organizer: Address, event_id: u64 },
    PurchaseTicket { buyer: Address, event_id: u64, payment_amount: i128 },
    UseTicket { ticket_id: u64, validator: Address },
    RefundTicket { ticket_id: u64, buyer: Address },
    ReleaseEscrow { organizer: Address, event_id: u64 },
    SetEscrowSigners { event_id: u64, signers: Vec<Address>, threshold: u32 },
    ApproveRelease { event_id: u64, signer: Address },
    RevokeApproval { event_id: u64, signer: Address },
    DistributeEscrow { event_id: u64, destination: Address },
    SetPlatformFee { admin: Address, fee_bps: u32 },
    WithdrawPlatformFees { admin: Address },
    SetAdmin { new_admin: Address },
    AddOrganizer { organizer: Address },
    InitEvent { event: Symbol, organizer: Address },
    AddValidator { event: Symbol, validator: Address },
    RemoveValidator { event: Symbol, validator: Address },
    IssueTicket { ticket: Symbol, event: Symbol, owner: Address },
    TransferTicket { ticket: Symbol, from: Address, to: Address },
    MarkTicketUsed { ticket: Symbol },
    ValidateTicket { ticket: Symbol, validator: Address },
    SetLedgerTimestamp { now: u64 },
}

/// On which error the call `op` is refused in state `s`; `None` where it goes
/// through.
pub open spec fn refusal(s: State, op: Operation) -> Option<LumentixError> {
    match op {
        Operation::Initialize { admin } => initialize_check(s),
        Operation::AdminInitialize { admin } => admin_initialize_check(s),
        Operation::CreateEvent {
            organizer,
            name,
            description,
            location,
            start_time,
            end_time,
            ticket_price,
            max_tickets,
        } => create_event_check(s, name, start_time, end_time, ticket_price, max_tickets),
        Operation::UpdateEventStatus { event_id, new_status, caller } => update_event_status_check(
            s,
            event_id,
            new_status,
            caller,
        ),
        Operation::CancelEvent { organizer, event_id } => update_event_status_check(
            s,
            event_id,
            EventStatus::Cancelled,
            organizer,
        ),
        Operation::CompleteEvent { organizer, event_id } => update_event_status_check(
            s,
            event_id,
            EventStatus::Completed,
            organizer,
        ),
        Operation::PurchaseTicket { buyer, event_id, payment_amount } => purchase_ticket_check(
            s,
            event_id,
            payment_amount,
        ),
        Operation::UseTicket { ticket_id, validator } => use_ticket_check(s, ticket_id, validator),
        Operation::RefundTicket { ticket_id, buyer } => refund_ticket_check(s, ticket_id, buyer),
        Operation::ReleaseEscrow { organizer, event_id } => release_escrow_check(
            s,
            organizer,
            event_id,
        ),
        Operation::SetEscrowSigners { event_id, signers, threshold } => set_escrow_signers_check(
            s,
            signers@,
            threshold,
        ),
        Operation::ApproveRelease { event_id, signer } => approve_release_check(
            s,
            event_id,
            signer,
        ),
        Operation::RevokeApproval { event_id, signer } => revoke_approval_check(s),
        Operation::DistributeEscrow { event_id, destination } => distribute_escrow_check(
            s,
            event_id,
        ),
        Operation::SetPlatformFee { admin, fee_bps } => set_platform_fee_check(s, admin, fee_bps),
        Operation::WithdrawPlatformFees { admin } => withdraw_platform_fees_check(s, admin),
        Operation::SetAdmin { new_admin } => admin_check(s),
        Operation::AddOrganizer { organizer } => admin_check(s),
        Operation::InitEvent { event, organizer } => None,
        Operation::AddValidator { event, validator } => validator_change_check(s, event),
        Operation::RemoveValidator { event, validator } => validator_change_check(s, event),
        Operation::IssueTicket { ticket, event, owner } => None,
        Operation::TransferTicket { ticket, from, to } => transfer_ticket_check(s, ticket, from),
        Operation::MarkTicketUsed { ticket } => mark_ticket_used_check(s, ticket),
        Operation::ValidateTicket { ticket, validator } => validate_ticket_check(
            s,
            ticket,
            validator,
        ),
        Operation::SetLedgerTimestamp { now } => None,
    }
}

/// The state after the call `op` went through in state `s`.
pub open spec fn effect(s: State, op: Operation) -> State {
    match op {
        Operation::Initialize { admin } => initialize_next(s, admin),
        Operation::AdminInitialize { admin } => initialize_next(s, admin),
        Operation::CreateEvent {
            organizer,
            name,
            description,
            location,
            start_time,
            end_time,
            ticket_price,
            max_tickets,
        } => create_event_next(
            s,
            new_event(
                s,
                organizer,
                name,
                description,
                location,
                start_time,
                end_time,
                ticket_price,
                max_tickets,
            ),
        ),
        Operation::UpdateEventStatus { event_id, new_status, caller } => update_event_status_next(
            s,
            event_id,
            new_status,
        ),
        Operation::CancelEvent { organizer, event_id } => update_event_status_next(
            s,
            event_id,
            EventStatus::Cancelled,
        ),
        Operation::CompleteEvent { organizer, event_id } => update_event_status_next(
            s,
            event_id,
            EventStatus::Completed,
        ),
        Operation::PurchaseTicket { buyer, event_id, payment_amount } => purchase_ticket_next(
            s,
            buyer,
            event_id,
            payment_amount,
        ),
        Operation::UseTicket { ticket_id, validator } => use_ticket_next(s, ticket_id, validator),
        Operation::RefundTicket { ticket_id, buyer } => refund_ticket_next(s, ticket_id),
        Operation::ReleaseEscrow { organizer, event_id } => escrow_released(s, event_id),
        Operation::SetEscrowSigners { event_id, signers, threshold } => set_escrow_signers_next(
            s,
            EscrowConfig { event_id, signers, threshold },
        ),
        Operation::ApproveRelease { event_id, signer } => approve_release_next(s, event_id, signer),
        Operation::RevokeApproval { event_id, signer } => revoke_approval_next(s, event_id, signer),
        Operation::DistributeEscrow { event_id, destination } => distribute_escrow_next(
            s,
            event_id,
            destination,
        ),
        Operation::SetPlatformFee { admin, fee_bps } => set_platform_fee_next(s, fee_bps),
        Operation::WithdrawPlatformFees { admin } => withdraw_platform_fees_next(s, admin),
        Operation::SetAdmin { new_admin } => set_admin_next(s, new_admin),
        Operation::AddOrganizer { organizer } => add_organizer_next(s, organizer),
        Operation::InitEvent { event, organizer } => init_event_next(s, event, organizer),
        Operation::AddValidator { event, validator } => add_validator_next(s, event, validator),
        Operation::RemoveValidator { event, validator } => remove_validator_next(
            s,
            event,
            validator,
        ),
        Operation::IssueTicket { ticket, event, owner } => ticket_stored(
            s,
            ticket,
            issued_ticket(ticket, event, owner),
        ),
        Operation::TransferTicket { ticket, from, to } => transfer_ticket_next(
            s,
            ticket,
            from,
            to,
        ),
        Operation::MarkTicketUsed { ticket } => mark_ticket_used_next(s, ticket),
        Operation::ValidateTicket { ticket, validator } => validate_ticket_next(
            s,
            ticket,
            validator,
        ),
        Operation::SetLedgerTimestamp { now } => State { now, ..s },
    }
}

/// The state after the call `op` in state `s`: a call that is refused leaves
/// the state as it is.
pub open spec fn apply(s: State, op: Operation) -> State {
    if refusal(s, op) is None {
        effect(s, op)
    } else {
        s
    }
}

/// Whether the counters and balances of `s` can take the call `op`: what the
/// entry points ask of their callers besides a well-formed state.
pub open spec fn within_limits(s: State, op: Operation) -> bool {
    match op {
        Operation::CreateEvent { .. } => refusal(s, op) is None ==> s.next_event_id < u64::MAX,
        Operation::PurchaseTicket { buyer, event_id, payment_amount } => purchase_within_limits(
            s,
            event_id,
            payment_amount,
        ),
        _ => true,
    }
}

/// Every call leaves a well-formed state well formed.
pub proof fn law_well_formed_forever(s: State, op: Operation)
    requires
        s.wf(),
        within_limits(s, op),
    ensures
        apply(s, op).wf(),
{
    match op {
        Operation::PurchaseTicket { buyer, event_id, payment_amount } => {
            if refusal(s, op) is None {
                lemma_fee_bounds(payment_amount as int, s.platform_fee_bps as int);
            }
        },
        _ => {},
    }
}

/// A call that is refused changes nothing: whoever is turned away, for a
/// wrong identity or for any other reason, leaves no trace in the state.
pub proof fn law_refused_call_changes_nothing(s: State, op: Operation)
    requires
        refusal(s, op) is Some,
    ensures
        apply(s, op) == s,
{
}

/// Events are never removed and keep their id, and no call lowers the number
/// of tickets that an event has sold, nor lets it pass the event's capacity.
pub proof fn law_tickets_sold_only_grows(s: State, op: Operation, event_id: u64)
    requires
        s.wf(),
        within_limits(s, op),
        s.events.contains_key(event_id),
    ensures
        apply(s, op).events.contains_key(event_id),
        apply(s, op).events[event_id].tickets_sold >= s.events[event_id].tickets_sold,
        apply(s, op).events[event_id].tickets_sold <= apply(s, op).events[event_id].max_tickets,
        apply(s, op).events[event_id].max_tickets == s.events[event_id].max_tickets,
{
    law_well_formed_forever(s, op);
}

/// A purchase for an event on sale that has sold all its tickets is refused
/// as sold out.
pub proof fn law_sold_out_purchase_refused(s: State, event_id: u64, payment_amount: i128)
    requires
        s.initialized,
        payment_amount > 0,
        s.events.contains_key(event_id),
        s.events[event_id].status == EventStatus::Published,
        s.events[event_id].tickets_sold >= s.events[event_id].max_tickets,
    ensures
        purchase_ticket_check(s, event_id, payment_amount) == Some(LumentixError::EventSoldOut),
{
}

/// Tickets are never removed, and a ticket that was checked in stays checked
/// in, and one that was refunded stays refunded, whatever is called.
pub proof fn law_used_ticket_stays_used(s: State, op: Operation, ticket_id: u64)
    requires
        s.wf(),
        within_limits(s, op),
        s.tickets.contains_key(ticket_id),
    ensures
        apply(s, op).tickets.contains_key(ticket_id),
        s.tickets[ticket_id].used ==> apply(s, op).tickets[ticket_id].used,
        s.tickets[ticket_id].refunded ==> apply(s, op).tickets[ticket_id].refunded,
        apply(s, op).tickets[ticket_id].event_id == s.tickets[ticket_id].event_id,
        apply(s, op).tickets[ticket_id].owner == s.tickets[ticket_id].owner,
{
}

/// A ticket that was checked in is not refunded: its owner is told that it
/// was used, and anyone else that the refund is not theirs to ask for.
pub proof fn law_used_ticket_not_refunded(s: State, ticket_id: u64, buyer: Address)
    requires
        s.initialized,
        s.tickets.contains_key(ticket_id),
        s.tickets[ticket_id].used,
    ensures
        s.tickets[ticket_id].owner@ == buyer@ ==> refund_ticket_check(s, ticket_id, buyer) == Some(
            LumentixError::TicketAlreadyUsed,
        ),
        s.tickets[ticket_id].owner@ != buyer@ ==> refund_ticket_check(s, ticket_id, buyer) == Some(
            LumentixError::Unauthorized,
        ),
{
}

/// The table of status changes has three entries and no others: a draft is
/// published, a published event is cancelled, and a published event is
/// completed once it has ended. Completed and cancelled events stay as they
/// are.
pub proof fn law_status_table(from: EventStatus, to: EventStatus, now: u64, end_time: u64)
    ensures
        transition_allowed(from, to, now, end_time) <==> {
            ||| from == EventStatus::Draft && to == EventStatus::Published
            ||| from == EventStatus::Published && to == EventStatus::Cancelled
            ||| from == EventStatus::Published && to == EventStatus::Completed && now >= end_time
        },
        from == EventStatus::Completed || from == EventStatus::Cancelled ==> !transition_allowed(
            from,
            to,
            now,
            end_time,
        ),
{
}

/// A change of status goes through exactly when the contract is initialized,
/// the event exists, the caller is its organizer and the table allows the
/// change; a change that the table does not allow is refused as an invalid
/// transition.
pub proof fn law_status_change(s: State, event_id: u64, new_status: EventStatus, caller: Address)
    requires
        s.initialized,
        s.events.contains_key(event_id),
        s.events[event_id].organizer@ == caller@,
    ensures
        transition_allowed(
            s.events[event_id].status,
            new_status,
            s.now,
            s.events[event_id].end_time,
        ) ==> update_event_status_check(s, event_id, new_status, caller) is None
            && update_event_status_next(s, event_id, new_status).events[event_id].status
            == new_status,
        !transition_allowed(
            s.events[event_id].status,
            new_status,
            s.now,
            s.events[event_id].end_time,
        ) ==> update_event_status_check(s, event_id, new_status, caller) == Some(
            LumentixError::InvalidStatusTransition,
        ),
{
}

/// Whatever is called, the status of an event stays as it is or changes along
/// the table of status changes.
pub proof fn law_status_follows_table(s: State, op: Operation, event_id: u64)
    requires
        s.wf(),
        within_limits(s, op),
        s.events.contains_key(event_id),
    ensures
        apply(s, op).events.contains_key(event_id),
        apply(s, op).events[event_id].status == s.events[event_id].status || transition_allowed(
            s.events[event_id].status,
            apply(s, op).events[event_id].status,
            s.now,
            s.events[event_id].end_time,
        ),
{
}

/// An event that was created is read back as it was stored, under the id
/// that `create_event` returned, and no event that was there before is
/// touched.
pub proof fn law_created_event_is_read_back(s: State, event: Event, other: u64)
    requires
        s.wf(),
        s.initialized,
        s.events.contains_key(other),
    ensures
        lookup(
            create_event_next(s, event),
            create_event_next(s, event).events,
            s.next_event_id,
            LumentixError::EventNotFound,
        ) == Ok::<Event, LumentixError>(event),
        create_event_next(s, event).events[other] == s.events[other],
{
}

/// A ticket that was bought is read back under the id that `purchase_ticket`
/// returned: it belongs to the buyer and is neither used nor refunded.
pub proof fn law_purchased_ticket_is_read_back(
    s: State,
    buyer: Address,
    event_id: u64,
    payment_amount: i128,
)
    requires
        s.wf(),
        purchase_ticket_check(s, event_id, payment_amount) is None,
    ensures
        ({
            let next = purchase_ticket_next(s, buyer, event_id, payment_amount);
            let read = lookup(next, next.tickets, s.next_ticket_id, LumentixError::TicketNotFound);
            &&& read == Ok::<Ticket, LumentixError>(new_ticket(s, buyer, event_id))
            &&& read->Ok_0.owner == buyer
            &&& read->Ok_0.event_id == event_id
            &&& !read->Ok_0.used
            &&& !read->Ok_0.refunded
        }),
{
}

/// Every unit of a payment is accounted for: the platform's share, rounded
/// down, goes to the platform balance, and the rest to the escrow of the
/// event. Nothing else changes either balance.
pub proof fn law_payment_is_split_exactly(
    s: State,
    buyer: Address,
    event_id: u64,
    payment_amount: i128,
)
    requires
        s.wf(),
        purchase_ticket_check(s, event_id, payment_amount) is None,
        purchase_within_limits(s, event_id, payment_amount),
    ensures
        ({
            let next = purchase_ticket_next(s, buyer, event_id, payment_amount);
            let fee = platform_fee(payment_amount as int, s.platform_fee_bps as int);
            &&& 0 <= fee <= payment_amount
            &&& next.platform_balance == s.platform_balance + fee
            &&& next.escrow_of(event_id) == s.escrow_of(event_id) + payment_amount - fee
            &&& s.platform_fee_bps == 0 ==> next.platform_balance == s.platform_balance
            &&& forall|other: u64| other != event_id ==> next.escrow_of(other) == s.escrow_of(other)
        }),
{
    lemma_fee_bounds(payment_amount as int, s.platform_fee_bps as int);
}

/// No more approvals are counted than there are signers, so a threshold above
/// their number could never be met.
pub proof fn law_approvals_bounded_by_signers(
    signers: Seq<Address>,
    approvals: Set<(u64, Seq<char>)>,
    event_id: u64,
)
    ensures
        count_approvals(signers, approvals, event_id) <= signers.len(),
    decreases signers.len(),
{
    if signers.len() > 0 {
        law_approvals_bounded_by_signers(signers.drop_last(), approvals, event_id);
    }
}

/// With a signer set in place, the escrow is distributed exactly when as
/// many signers have approved as the threshold asks for.
pub proof fn law_distribution_needs_threshold(s: State, event_id: u64)
    requires
        s.initialized,
        s.escrow_configs.contains_key(event_id),
    ensures
        distribute_escrow_check(s, event_id) is None <==> approvals_in(s, event_id)
            >= s.escrow_configs[event_id].threshold,
        distribute_escrow_check(s, event_id) is Some ==> distribute_escrow_check(s, event_id)
            == Some(LumentixError::Unauthorized),
{
}

/// A distribution uses the approvals up: right after it, no approval is in for
/// the event, and a second distribution is refused until the signers approve
/// anew.
pub proof fn law_distribution_clears_approvals(s: State, event_id: u64, destination: Address)
    requires
        s.wf(),
        distribute_escrow_check(s, event_id) is None,
    ensures
        ({
            let next = distribute_escrow_next(s, event_id, destination);
            &&& forall|signer: Seq<char>| !next.approvals.contains((event_id, signer))
            &&& approvals_in(next, event_id) == 0
            &&& distribute_escrow_check(next, event_id) == Some(LumentixError::Unauthorized)
        }),
{
    let next = distribute_escrow_next(s, event_id, destination);
    lemma_count_approvals_none(next.escrow_configs[event_id].signers@, next.approvals, event_id);
}

/// Who is not the organizer of an event can neither change its status nor
/// release its escrow.
pub proof fn law_only_the_organizer(
    s: State,
    event_id: u64,
    new_status: EventStatus,
    caller: Address,
)
    requires
        s.initialized,
        s.events.contains_key(event_id),
        s.events[event_id].organizer@ != caller@,
    ensures
        update_event_status_check(s, event_id, new_status, caller) == Some(
            LumentixError::Unauthorized,
        ),
        release_escrow_check(s, caller, event_id) == Some(LumentixError::Unauthorized),
{
}

/// Who is not the organizer of a ticket's event cannot check the ticket in,
/// and who is not the owner of a ticket cannot have it refunded.
pub proof fn law_only_organizer_and_owner(s: State, ticket_id: u64, caller: Address)
    requires
        s.wf(),
        s.initialized,
        s.tickets.contains_key(ticket_id),
    ensures
        !s.tickets[ticket_id].used && !s.tickets[ticket_id].refunded
            && s.events[s.tickets[ticket_id].event_id].organizer@ != caller@ ==> use_ticket_check(
            s,
            ticket_id,
            caller,
        ) == Some(LumentixError::Unauthorized),
        s.events[s.tickets[ticket_id].event_id].organizer@ != caller@ ==> use_ticket_check(
            s,
            ticket_id,
            caller,
        ) is Some,
        s.tickets[ticket_id].owner@ != caller@ ==> refund_ticket_check(s, ticket_id, caller)
            == Some(LumentixError::Unauthorized),
{
}

/// Who is not the admin can neither set the platform fee nor withdraw the
/// collected fees.
pub proof fn law_only_the_admin(s: State, caller: Address, fee_bps: u32)
    requires
        s.initialized,
        !is_party(s.admin, caller),
    ensures
        set_platform_fee_check(s, caller, fee_bps) == Some(LumentixError::Unauthorized),
        withdraw_platform_fees_check(s, caller) == Some(LumentixError::Unauthorized),
{
}

/// Who is not a signer of an event cannot approve the release of its escrow.
pub proof fn law_only_signers_approve(s: State, event_id: u64, caller: Address)
    requires
        s.initialized,
        !(s.escrow_configs.contains_key(event_id) && is_signer(
            s.escrow_configs[event_id].signers@,
            caller@,
        )),
    ensures
        approve_release_check(s, event_id, caller) == Some(LumentixError::Unauthorized),
{
}

/// At the entrance, who is not the owner of a ticket cannot hand it on, and who
/// is neither the organizer nor a validator of its event cannot check it in.
pub proof fn law_only_owner_and_validators(s: State, ticket_id: Symbol, caller: Address)
    requires
        s.entrance_tickets.contains_key(ticket_id@),
    ensures
        s.entrance_tickets[ticket_id@].owner@ != caller@ ==> transfer_ticket_check(
            s,
            ticket_id,
            caller,
        ) == Some(LumentixError::Unauthorized),
        !s.entrance_tickets[ticket_id@].is_used && !authorized_validator(
            s,
            s.entrance_tickets[ticket_id@].event_id,
            caller,
        ) ==> validate_ticket_check(s, ticket_id, caller) == Some(LumentixError::Unauthorized),
        !authorized_validator(s, s.entrance_tickets[ticket_id@].event_id, caller)
            ==> validate_ticket_check(s, ticket_id, caller) is Some,
{
}

/// At the entrance, a ticket that was checked in stays checked in and keeps its
/// owner, unless a new ticket is issued under its name.
pub proof fn law_entrance_ticket_stays_used(s: State, op: Operation, ticket_id: Symbol)
    requires
        s.entrance_tickets.contains_key(ticket_id@),
        s.entrance_tickets[ticket_id@].is_used,
        !(op matches Operation::IssueTicket { ticket: issued, .. } && issued@ == ticket_id@),
    ensures
        apply(s, op).entrance_tickets.contains_key(ticket_id@),
        apply(s, op).entrance_tickets[ticket_id@] == s.entrance_tickets[ticket_id@],
{
}

/// Cancelling and completing an event are changes of its status, and nothing
/// else: they are refused and go through on the same calls, and leave the
/// same state, as `update_event_status` with the status they stand for.
pub proof fn law_cancel_and_complete_are_status_changes(s: State, organizer: Address, event_id: u64)
    ensures
        refusal(s, Operation::CancelEvent { organizer, event_id }) == refusal(
            s,
            Operation::UpdateEventStatus {
                event_id,
                new_status: EventStatus::Cancelled,
                caller: organizer,
            },
        ),
        apply(s, Operation::CancelEvent { organizer, event_id }) == apply(
            s,
            Operation::UpdateEventStatus {
                event_id,
                new_status: EventStatus::Cancelled,
                caller: organizer,
            },
        ),
        refusal(s, Operation::CompleteEvent { organizer, event_id }) == refusal(
            s,
            Operation::UpdateEventStatus {
                event_id,
                new_status: EventStatus::Completed,
                caller: organizer,
            },
        ),
        apply(s, Operation::CompleteEvent { organizer, event_id }) == apply(
            s,
            Operation::UpdateEventStatus {
                event_id,
                new_status: EventStatus::Completed,
                caller: organizer,
            },
        ),
{
}

/// An initialized contract stays initialized, and its admin stays in office
/// until the admin role is handed on with `set_admin`.
pub proof fn law_admin_stays_in_office(s: State, op: Operation)
    requires
        s.initialized,
        !(op is SetAdmin),
    ensures
        apply(s, op).initialized,
        apply(s, op).admin == s.admin,
{
}

/// No balance is touched but by the calls that are there to move money: the
/// platform balance by a purchase and a withdrawal, the escrow of an event by
/// a purchase, a refund, a release and a distribution.
pub proof fn law_balances_move_with_money_only(s: State, op: Operation, event_id: u64)
    requires
        !(op is PurchaseTicket),
    ensures
        !(op is WithdrawPlatformFees) ==> apply(s, op).platform_balance == s.platform_balance,
        !(op is RefundTicket || op is ReleaseEscrow || op is DistributeEscrow) ==> apply(
            s,
            op,
        ).escrow_of(event_id) == s.escrow_of(event_id),
{
}

/// What is done once is not done again: a ticket is checked in once and
/// refunded once, and an escrow is released once.
pub proof fn law_once_only(s: State, ticket_id: u64, event_id: u64, caller: Address)
    requires
        s.wf(),
    ensures
        use_ticket_check(s, ticket_id, caller) is None ==> use_ticket_check(
            use_ticket_next(s, ticket_id, caller),
            ticket_id,
            caller,
        ) == Some(LumentixError::TicketAlreadyUsed),
        refund_ticket_check(s, ticket_id, caller) is None ==> refund_ticket_check(
            refund_ticket_next(s, ticket_id),
            ticket_id,
            caller,
        ) == Some(LumentixError::RefundNotAllowed),
        release_escrow_check(s, caller, event_id) is None ==> release_escrow_check(
            escrow_released(s, event_id),
            caller,
            event_id,
        ) == Some(LumentixError::EscrowAlreadyReleased),
{
}

/// The notification log only grows: what was logged stays logged, in place.
pub proof fn law_log_only_grows(s: State, op: Operation)
    ensures
        s.log.is_prefix_of(apply(s, op).log),
        apply(s, op).log.len() <= s.log.len() + 1,
{
}

/// Ids are handed out once: the next ids never go down, and a call that
/// stores a new event or ticket moves the next id past it.
pub proof fn law_ids_only_grow(s: State, op: Operation)
    requires
        s.wf(),
        within_limits(s, op),
    ensures
        apply(s, op).next_event_id >= s.next_event_id,
        apply(s, op).next_ticket_id >= s.next_ticket_id,
        !s.events.contains_key(s.next_event_id),
        !s.tickets.contains_key(s.next_ticket_id),
{
}

} // verus!
