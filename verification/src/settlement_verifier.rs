//! The settlement verifier: it takes the bridge's delivery confirmations for
//! intents that the executor started, and refunds an intent whose settlement
//! has timed out.

use crate::address::{Address, MessageId};
use crate::mapping::{read_slot, Mapping, Slot};
use crate::word::U256;
use vstd::prelude::*;

verus! {

/// The timeout period that a verifier starts with, in time units.
pub const DEFAULT_TIMEOUT_PERIOD: u64 = 1800;

/// Where the settlement of an intent stands. An identifier that was never
/// tracked reads as `Pending`.
#[derive(Clone, Copy, Debug, PartialEq, Eq, Structural)]
pub enum SettlementStatus {
    /// No delivery was confirmed or given up under this identifier.
    Pending,
    /// The bridge has confirmed the delivery.
    Confirmed,
    /// The settlement has timed out.
    Failed,
    /// The user is to have the amount back.
    Refunded,
}

impl SettlementStatus {
    /// The number under which the status is stored: 0 to 3 in the order of
    /// the variants.
    pub open spec fn spec_code(&self) -> u8 {
        match self {
            SettlementStatus::Pending => 0,
            SettlementStatus::Confirmed => 1,
            SettlementStatus::Failed => 2,
            SettlementStatus::Refunded => 3,
        }
    }

    /// The number under which the status is stored.
    #[verifier::when_used_as_spec(spec_code)]
    pub fn code(&self) -> (r: u8)
        ensures
            r == self.spec_code(),
    {
        match self {
            SettlementStatus::Pending => 0,
            SettlementStatus::Confirmed => 1,
            SettlementStatus::Failed => 2,
            SettlementStatus::Refunded => 3,
        }
    }

    /// The status stored under `code`, if there is one.
    pub fn from_code(code: u8) -> (r: Option<SettlementStatus>)
        ensures
            r matches Some(status) ==> status.code() == code,
            r is None <==> code > 3,
    {
        if code == 0 {
            Some(SettlementStatus::Pending)
        } else if code == 1 {
            Some(SettlementStatus::Confirmed)
        } else if code == 2 {
            Some(SettlementStatus::Failed)
        } else if code == 3 {
            Some(SettlementStatus::Refunded)
        } else {
            None
        }
    }
}

impl Slot for SettlementStatus {
    open spec fn unset() -> SettlementStatus {
        SettlementStatus::Pending
    }

    fn unset_value() -> (r: SettlementStatus) {
        SettlementStatus::Pending
    }
}

/// Why the verifier refused a call.
#[derive(Clone, Copy, Debug, PartialEq, Eq, Structural)]
pub enum SettlementVerifierError {
    /// The caller may not make this call, or the verifier was set up with a
    /// null principal.
    Unauthorized,
    /// The message identifier is not valid. No call of the verifier returns
    /// this error.
    InvalidMessageId,
    /// The intent identifier is zero.
    InvalidIntentId,
    /// The settlement has timed out. No call of the verifier returns this
    /// error: a timeout is handled, not reported.
    SettlementTimeout,
    /// The settlement is no longer pending.
    AlreadyProcessed,
    /// The refund could not be made. No call of the verifier returns this
    /// error.
    RefundFailed,
}

/// A notification of the verifier.
#[derive(Clone, Debug, PartialEq, Eq)]
pub enum SettlementEvent {
    /// The bridge has confirmed a delivery with the message `message_id`.
    SettlementConfirmed { intent_id: U256, message_id: MessageId, timestamp: U256 },
    /// A settlement has timed out; there is no message to name.
    SettlementFailed { intent_id: U256, message_id: MessageId, reason: String },
    /// The refund of `amount` of `token` to `user` has begun.
    RefundInitiated { intent_id: U256, user: Address, token: Address, amount: U256 },
}

/// The verifier as a mathematical value.
#[verifier::ext_equal]
pub struct SettlementState {
    pub owner: Address,
    pub route_executor: Address,
    pub ccip_router: Address,
    /// The statuses that were written, by intent identifier.
    pub settlements: Map<U256, SettlementStatus>,
    /// The times at which tracking began, by intent identifier.
    pub timestamps: Map<U256, U256>,
    pub timeout_period: U256,
    /// Every notification so far, oldest first.
    pub events: Seq<SettlementEvent>,
}

impl SettlementState {
    /// The settlement status of `intent_id`; `Pending` where none was
    /// written.
    pub open spec fn status_of(self, intent_id: U256) -> SettlementStatus {
        read_slot(self.settlements, intent_id)
    }

    /// The time at which the settlement of `intent_id` began to be tracked;
    /// 0 where it never was.
    pub open spec fn timestamp_of(self, intent_id: U256) -> U256 {
        read_slot(self.timestamps, intent_id)
    }

    /// Whether the settlement of `intent_id` has timed out at time `now`:
    /// it is tracked, and more than the timeout period has passed since.
    pub open spec fn timed_out(self, now: u64, intent_id: U256) -> bool {
        self.timestamp_of(intent_id)@ != 0 && now > self.timestamp_of(intent_id)@
            + self.timeout_period@
    }

    /// Whether `caller` is the owner or the executor.
    pub open spec fn authorizes(self, caller: Address) -> bool {
        caller == self.owner || caller == self.route_executor
    }

    /// The verifier after `init`, and what the call returns. A null executor
    /// or router is refused.
    pub open spec fn init(
        self,
        caller: Address,
        route_executor_address: Address,
        ccip_router_address: Address,
    ) -> (SettlementState, Result<(), SettlementVerifierError>) {
        if route_executor_address.is_null() || ccip_router_address.is_null() {
            (self, Err(SettlementVerifierError::Unauthorized))
        } else {
            (
                SettlementState {
                    owner: caller,
                    route_executor: route_executor_address,
                    ccip_router: ccip_router_address,
                    timeout_period: U256::from_u64(DEFAULT_TIMEOUT_PERIOD),
                    ..self
                },
                Ok(()),
            )
        }
    }

    /// The verifier with `intent_id` marked as confirmed.
    pub open spec fn confirmed(self, intent_id: U256) -> SettlementState {
        SettlementState {
            settlements: self.settlements.insert(intent_id, SettlementStatus::Confirmed),
            ..self
        }
    }

    /// The verifier after `confirm_settlement`, and what the call returns.
    pub open spec fn confirm_settlement(self, intent_id: U256) -> (
        SettlementState,
        Result<(), SettlementVerifierError>,
    ) {
        if intent_id@ == 0 {
            (self, Err(SettlementVerifierError::InvalidIntentId))
        } else {
            (self.confirmed(intent_id), Ok(()))
        }
    }

    /// Why a delivery cannot be verified, if it cannot: the first of a caller
    /// that is not the bridge router, an intent identifier of zero, and a
    /// settlement that is no longer pending.
    pub open spec fn delivery_rejection(self, caller: Address, intent_id: U256) -> Option<
        SettlementVerifierError,
    > {
        if caller != self.ccip_router {
            Some(SettlementVerifierError::Unauthorized)
        } else if intent_id@ == 0 {
            Some(SettlementVerifierError::InvalidIntentId)
        } else if self.status_of(intent_id) != SettlementStatus::Pending {
            Some(SettlementVerifierError::AlreadyProcessed)
        } else {
            None
        }
    }

    /// The verifier after `verify_ccip_message`, and what the call returns.
    /// A delivery that is accepted is stamped with the time and confirmed.
    pub open spec fn verify_ccip_message(
        self,
        caller: Address,
        now: u64,
        message_id: MessageId,
        intent_id: U256,
    ) -> (SettlementState, Result<bool, SettlementVerifierError>) {
        match self.delivery_rejection(caller, intent_id) {
            Some(error) => (self, Err(error)),
            None => (
                SettlementState {
                    timestamps: self.timestamps.insert(intent_id, U256::from_u64(now)),
                    events: self.events.push(
                        SettlementEvent::SettlementConfirmed {
                            intent_id,
                            message_id,
                            timestamp: U256::from_u64(now),
                        },
                    ),
                    ..self.confirmed(intent_id)
                },
                Ok(true),
            ),
        }
    }

    /// The verifier with `intent_id` marked as failed for `reason`.
    pub open spec fn failed(self, intent_id: U256, reason: String) -> SettlementState {
        SettlementState {
            settlements: self.settlements.insert(intent_id, SettlementStatus::Failed),
            events: self.events.push(
                SettlementEvent::SettlementFailed {
                    intent_id,
                    message_id: MessageId::zero(),
                    reason,
                },
            ),
            ..self
        }
    }

    /// The verifier with `intent_id` marked as refunded.
    pub open spec fn refunded(
        self,
        intent_id: U256,
        user: Address,
        token: Address,
        amount: U256,
    ) -> SettlementState {
        SettlementState {
            settlements: self.settlements.insert(intent_id, SettlementStatus::Refunded),
            events: self.events.push(
                SettlementEvent::RefundInitiated { intent_id, user, token, amount },
            ),
            ..self
        }
    }

    /// The verifier after `handle_failure`, and what the call returns. Only
    /// a settlement that has timed out is failed and refunded; before that
    /// the call succeeds and changes nothing.
    pub open spec fn handle_failure(
        self,
        caller: Address,
        now: u64,
        intent_id: U256,
        user: Address,
        token: Address,
        amount: U256,
        reason: String,
    ) -> (SettlementState, Result<(), SettlementVerifierError>) {
        if !self.authorizes(caller) {
            (self, Err(SettlementVerifierError::Unauthorized))
        } else if intent_id@ == 0 {
            (self, Err(SettlementVerifierError::InvalidIntentId))
        } else if self.timed_out(now, intent_id) {
            (self.failed(intent_id, reason).refunded(intent_id, user, token, amount), Ok(()))
        } else {
            (self, Ok(()))
        }
    }

    /// The verifier after `set_timeout_period`, and what the call returns.
    /// Only the owner may set the period; every period is accepted.
    pub open spec fn set_timeout_period(self, caller: Address, new_timeout: U256) -> (
        SettlementState,
        Result<(), SettlementVerifierError>,
    ) {
        if caller != self.owner {
            (self, Err(SettlementVerifierError::Unauthorized))
        } else {
            (SettlementState { timeout_period: new_timeout, ..self }, Ok(()))
        }
    }
}

/// The settlement verifier.
pub struct SettlementVerifier {
    /// The principal that may set the timeout period.
    pub owner: Address,
    /// The executor, which may report failures.
    pub route_executor: Address,
    /// The bridge router, which alone may confirm deliveries.
    pub ccip_router: Address,
    /// The settlement status of each intent.
    pub settlements: Mapping<U256, SettlementStatus>,
    /// The time at which the settlement of each intent began to be tracked;
    /// 0 for one that is not tracked.
    pub settlement_timestamps: Mapping<U256, U256>,
    /// How long a tracked settlement may take.
    pub timeout_period: U256,
    /// Every notification so far, oldest first.
    pub events: Vec<SettlementEvent>,
}

impl View for SettlementVerifier {
    type V = SettlementState;

    open spec fn view(&self) -> SettlementState {
        SettlementState {
            owner: self.owner,
            route_executor: self.route_executor,
            ccip_router: self.ccip_router,
            settlements: self.settlements@,
            timestamps: self.settlement_timestamps@,
            timeout_period: self.timeout_period,
            events: self.events@,
        }
    }
}

impl SettlementVerifier {
    /// A verifier as it is deployed: no owner, nothing tracked, a timeout
    /// period of zero.
    pub fn new() -> (r: Self)
        ensures
            r@.owner.is_null(),
            r@.route_executor.is_null(),
            r@.ccip_router.is_null(),
            r@.settlements == Map::<U256, SettlementStatus>::empty(),
            r@.timestamps == Map::<U256, U256>::empty(),
            r@.timeout_period == U256::zero(),
            r@.events == Seq::<SettlementEvent>::empty(),
    {
        SettlementVerifier {
            owner: Address::zero(),
            route_executor: Address::zero(),
            ccip_router: Address::zero(),
            settlements: Mapping::new(),
            settlement_timestamps: Mapping::new(),
            timeout_period: U256::zero(),
            events: Vec::new(),
        }
    }

    /// Makes `caller` the owner, records the executor and the bridge router,
    /// and sets the timeout period to its default.
    pub fn init(
        &mut self,
        caller: Address,
        route_executor_address: Address,
        ccip_router_address: Address,
    ) -> (r: Result<(), SettlementVerifierError>)
        ensures
            (final(self)@, r) == old(self)@.init(
                caller,
                route_executor_address,
                ccip_router_address,
            ),
    {
        if route_executor_address.is_zero() || ccip_router_address.is_zero() {
            return Err(SettlementVerifierError::Unauthorized);
        }
        self.owner = caller;
        self.route_executor = route_executor_address;
        self.ccip_router = ccip_router_address;
        self.timeout_period = U256::from_u64(DEFAULT_TIMEOUT_PERIOD);
        Ok(())
    }

    /// Takes the bridge's confirmation, at time `now`, that the message
    /// `message_id` delivered the intent `intent_id`. Only the bridge router
    /// may call, and only while the settlement is pending.
    pub fn verify_ccip_message(
        &mut self,
        caller: Address,
        now: u64,
        message_id: MessageId,
        intent_id: U256,
    ) -> (r: Result<bool, SettlementVerifierError>)
        ensures
            (final(self)@, r) == old(self)@.verify_ccip_message(caller, now, message_id, intent_id),
    {
        self.only_ccip_router(&caller)?;
        if intent_id.is_zero() {
            return Err(SettlementVerifierError::InvalidIntentId);
        }
        let current_status = self.get_settlement_status(intent_id);
        if current_status != SettlementStatus::Pending {
            return Err(SettlementVerifierError::AlreadyProcessed);
        }
        self.settlement_timestamps.insert(intent_id, U256::from_u64(now));
        self.confirm_settlement(intent_id)?;
        self.events.push(
            SettlementEvent::SettlementConfirmed {
                intent_id,
                message_id,
                timestamp: U256::from_u64(now),
            },
        );
        Ok(true)
    }

    /// Marks the settlement of `intent_id` as confirmed, whatever it was
    /// before.
    pub fn confirm_settlement(&mut self, intent_id: U256) -> (r: Result<
        (),
        SettlementVerifierError,
    >)
        ensures
            (final(self)@, r) == old(self)@.confirm_settlement(intent_id),
    {
        if intent_id.is_zero() {
            return Err(SettlementVerifierError::InvalidIntentId);
        }
        self.settlements.insert(intent_id, SettlementStatus::Confirmed);
        Ok(())
    }

    /// Takes the report, at time `now`, that the transfer of `intent_id`
    /// failed. Only the owner and the executor may report. Where the
    /// settlement has timed out it is marked as failed and then refunded;
    /// before that the call succeeds and changes nothing.
    pub fn handle_failure(
        &mut self,
        caller: Address,
        now: u64,
        intent_id: U256,
        user: Address,
        token: Address,
        amount: U256,
        reason: String,
    ) -> (r: Result<(), SettlementVerifierError>)
        ensures
            (final(self)@, r) == old(self)@.handle_failure(
                caller,
                now,
                intent_id,
                user,
                token,
                amount,
                reason,
            ),
    {
        self.only_authorized(&caller)?;
        if intent_id.is_zero() {
            return Err(SettlementVerifierError::InvalidIntentId);
        }
        if self.has_settlement_timed_out(now, intent_id) {
            self.settlements.insert(intent_id, SettlementStatus::Failed);
            self.events.push(
                SettlementEvent::SettlementFailed {
                    intent_id,
                    message_id: MessageId::zero(),
                    reason,
                },
            );
            self.initiate_refund(intent_id, user, token, amount)?;
        }
        Ok(())
    }

    /// The settlement status of `intent_id`; `Pending` where none was
    /// written.
    pub fn get_settlement_status(&self, intent_id: U256) -> (r: SettlementStatus)
        ensures
            r == self@.status_of(intent_id),
    {
        self.settlements.get(&intent_id)
    }

    /// The time at which the settlement of `intent_id` began to be tracked;
    /// 0 where it never was.
    pub fn get_settlement_timestamp(&self, intent_id: U256) -> (r: U256)
        ensures
            r == self@.timestamp_of(intent_id),
    {
        self.settlement_timestamps.get(&intent_id)
    }

    /// Whether the settlement of `intent_id` has timed out at time `now`.
    pub fn has_settlement_timed_out(&self, now: u64, intent_id: U256) -> (r: bool)
        ensures
            r == self@.timed_out(now, intent_id),
    {
        let settlement_time = self.settlement_timestamps.get(&intent_id);
        if settlement_time.is_zero() {
            return false;
        }
        match settlement_time.checked_add(self.timeout_period) {
            Some(deadline) => U256::from_u64(now).gt(&deadline),
            None => false,
        }
    }

    /// Sets the timeout period; only the owner may.
    pub fn set_timeout_period(&mut self, caller: Address, new_timeout: U256) -> (r: Result<
        (),
        SettlementVerifierError,
    >)
        ensures
            (final(self)@, r) == old(self)@.set_timeout_period(caller, new_timeout),
    {
        self.only_owner(&caller)?;
        self.timeout_period = new_timeout;
        Ok(())
    }

    /// The owner.
    pub fn owner(&self) -> (r: Address)
        ensures
            r == self@.owner,
    {
        self.owner
    }

    /// Marks the settlement of `intent_id` as refunded and notifies of the
    /// refund of `amount` of `token` to `user`.
    pub fn initiate_refund(
        &mut self,
        intent_id: U256,
        user: Address,
        token: Address,
        amount: U256,
    ) -> (r: Result<(), SettlementVerifierError>)
        ensures
            r is Ok,
            final(self)@ == old(self)@.refunded(intent_id, user, token, amount),
    {
        self.settlements.insert(intent_id, SettlementStatus::Refunded);
        self.events.push(SettlementEvent::RefundInitiated { intent_id, user, token, amount });
        Ok(())
    }

    /// Refuses every caller but the owner.
    fn only_owner(&self, caller: &Address) -> (r: Result<(), SettlementVerifierError>)
        ensures
            r == (if *caller == self@.owner {
                Ok::<(), SettlementVerifierError>(())
            } else {
                Err(SettlementVerifierError::Unauthorized)
            }),
    {
        if !caller.same(&self.owner) {
            return Err(SettlementVerifierError::Unauthorized);
        }
        Ok(())
    }

    /// Refuses every caller but the bridge router.
    fn only_ccip_router(&self, caller: &Address) -> (r: Result<(), SettlementVerifierError>)
        ensures
            r == (if *caller == self@.ccip_router {
                Ok::<(), SettlementVerifierError>(())
            } else {
                Err(SettlementVerifierError::Unauthorized)
            }),
    {
        if !caller.same(&self.ccip_router) {
            return Err(SettlementVerifierError::Unauthorized);
        }
        Ok(())
    }

    /// Refuses every caller but the owner and the executor.
    fn only_authorized(&self, caller: &Address) -> (r: Result<(), SettlementVerifierError>)
        ensures
            r == (if self@.authorizes(*caller) {
                Ok::<(), SettlementVerifierError>(())
            } else {
                Err(SettlementVerifierError::Unauthorized)
            }),
    {
        if !caller.same(&self.owner) && !caller.same(&self.route_executor) {
            return Err(SettlementVerifierError::Unauthorized);
        }
        Ok(())
    }
}

/// A verifier cannot be initialised with a null executor or a null bridge
/// router: the call fails with `Unauthorized` and changes nothing.
pub proof fn lemma_null_dependency_is_refused(
    s: SettlementState,
    caller: Address,
    route_executor_address: Address,
    ccip_router_address: Address,
)
    requires
        route_executor_address.is_null() || ccip_router_address.is_null(),
    ensures
        s.init(caller, route_executor_address, ccip_router_address) == (
            s,
            Err::<(), SettlementVerifierError>(SettlementVerifierError::Unauthorized),
        ),
{
}

/// A delivery is verified at most once. After a call of
/// `verify_ccip_message` that succeeded, every further call for the same
/// intent fails and changes nothing; from the bridge router it fails with
/// `AlreadyProcessed`.
pub proof fn lemma_delivery_is_verified_once(
    s: SettlementState,
    intent_id: U256,
    first_caller: Address,
    first_now: u64,
    first_message: MessageId,
    second_caller: Address,
    second_now: u64,
    second_message: MessageId,
)
    requires
        s.verify_ccip_message(first_caller, first_now, first_message, intent_id).1 is Ok,
    ensures
        ({
            let confirmed = s.verify_ccip_message(
                first_caller,
                first_now,
                first_message,
                intent_id,
            ).0;
            let (after, result) = confirmed.verify_ccip_message(
                second_caller,
                second_now,
                second_message,
                intent_id,
            );
            &&& confirmed.status_of(intent_id) == SettlementStatus::Confirmed
            &&& after == confirmed
            &&& result is Err
            &&& second_caller == s.ccip_router ==> result == Err::<bool, SettlementVerifierError>(
                SettlementVerifierError::AlreadyProcessed,
            )
        }),
{
}

/// The timeout boundary. For a settlement tracked since the time T under a
/// timeout period P, a failure reported by the owner or the executor at a
/// time up to T + P changes nothing, and one reported later marks the
/// settlement as failed and then as refunded, with one notification of each.
/// Both calls succeed.
pub proof fn lemma_timeout_boundary(
    s: SettlementState,
    caller: Address,
    now: u64,
    intent_id: U256,
    user: Address,
    token: Address,
    amount: U256,
    reason: String,
)
    requires
        s.authorizes(caller),
        intent_id@ != 0,
        s.timestamp_of(intent_id)@ != 0,
    ensures
        ({
            let deadline = s.timestamp_of(intent_id)@ + s.timeout_period@;
            let (after, result) = s.handle_failure(
                caller,
                now,
                intent_id,
                user,
                token,
                amount,
                reason,
            );
            &&& result is Ok
            &&& now <= deadline ==> after == s
            &&& now > deadline ==> {
                &&& after == s.failed(intent_id, reason).refunded(intent_id, user, token, amount)
                &&& s.failed(intent_id, reason).status_of(intent_id) == SettlementStatus::Failed
                &&& after.status_of(intent_id) == SettlementStatus::Refunded
                &&& after.events == s.events.push(
                    SettlementEvent::SettlementFailed {
                        intent_id,
                        message_id: MessageId::zero(),
                        reason,
                    },
                ).push(SettlementEvent::RefundInitiated { intent_id, user, token, amount })
            }
        }),
{
}

/// A settlement that is not tracked never times out: whenever a failure is
/// reported for it, nothing changes.
pub proof fn lemma_untracked_never_times_out(
    s: SettlementState,
    caller: Address,
    now: u64,
    intent_id: U256,
    user: Address,
    token: Address,
    amount: U256,
    reason: String,
)
    requires
        s.timestamp_of(intent_id)@ == 0,
    ensures
        !s.timed_out(now, intent_id),
        s.handle_failure(caller, now, intent_id, user, token, amount, reason).0 == s,
{
}

} // verus!
