//! The route executor: owner of the intent lifecycle. A route is begun under
//! a pause switch and a reentrancy lock, handed to a swap service and a
//! bridge service, and completed or abandoned on their answers.

use crate::address::Address;
use crate::mapping::{read_slot, Mapping, Slot};
use crate::word::{lemma_successor, word_modulus, U256};
use vstd::prelude::*;

verus! {

/// Where an intent stands. An identifier that was never used reads as
/// `Pending`.
#[derive(Clone, Copy, Debug, PartialEq, Eq, Structural)]
pub enum IntentStatus {
    /// Nothing has happened under this identifier.
    Pending,
    /// A route has begun under this identifier and has not completed.
    Executing,
    /// The route was handed to the bridge.
    Completed,
    /// The route was given up. No call of the executor writes this status.
    Failed,
}

impl IntentStatus {
    /// The number under which the status is stored: 0 to 3 in the order of
    /// the variants.
    pub open spec fn spec_code(&self) -> u8 {
        match self {
            IntentStatus::Pending => 0,
            IntentStatus::Executing => 1,
            IntentStatus::Completed => 2,
            IntentStatus::Failed => 3,
        }
    }

    /// The number under which the status is stored.
    #[verifier::when_used_as_spec(spec_code)]
    pub fn code(&self) -> (r: u8)
        ensures
            r == self.spec_code(),
    {
        match self {
            IntentStatus::Pending => 0,
            IntentStatus::Executing => 1,
            IntentStatus::Completed => 2,
            IntentStatus::Failed => 3,
        }
    }

    /// The status stored under `code`, if there is one.
    pub fn from_code(code: u8) -> (r: Option<IntentStatus>)
        ensures
            r matches Some(status) ==> status.code() == code,
            r is None <==> code > 3,
    {
        if code == 0 {
            Some(IntentStatus::Pending)
        } else if code == 1 {
            Some(IntentStatus::Executing)
        } else if code == 2 {
            Some(IntentStatus::Completed)
        } else if code == 3 {
            Some(IntentStatus::Failed)
        } else {
            None
        }
    }
}

impl Slot for IntentStatus {
    open spec fn unset() -> IntentStatus {
        IntentStatus::Pending
    }

    fn unset_value() -> (r: IntentStatus) {
        IntentStatus::Pending
    }
}

/// Why the executor refused a call.
#[derive(Clone, Copy, Debug, PartialEq, Eq, Structural)]
pub enum RouteExecutorError {
    /// The caller is not the owner.
    Unauthorized,
    /// A principal is null.
    InvalidAddress,
    /// The amount is zero.
    InvalidAmount,
    /// The validator turned the intent down. No call of the executor returns
    /// this error: the executor makes its own checks.
    ValidationFailed,
    /// The swap service failed.
    SwapFailed,
    /// The bridge service failed.
    BridgeFailed,
    /// The executor is paused.
    ContractPaused,
    /// A route is already in flight.
    ReentrancyGuard,
}

/// A notification of the executor.
#[derive(Clone, Copy, Debug, PartialEq, Eq)]
pub enum ExecutorEvent {
    /// A route has completed.
    IntentExecuted { intent_id: U256, user: Address, timestamp: U256 },
    /// The swap of a route has given `amount_out` for `amount_in`.
    SwapExecuted {
        intent_id: U256,
        token_in: Address,
        token_out: Address,
        amount_in: U256,
        amount_out: U256,
    },
    /// The bridge has taken over `amount` for the recipient.
    BridgeInitiated {
        intent_id: U256,
        token: Address,
        amount: U256,
        destination_chain: U256,
        recipient: Address,
    },
    /// The owner has paused the executor.
    Paused { by: Address },
    /// The owner has lifted the pause.
    Unpaused { by: Address },
}

/// What a caller asks of the executor: to move `amount` of `token_in` to
/// `recipient` on `destination_chain`.
#[derive(Clone, Copy, Debug, PartialEq, Eq)]
pub struct RouteRequest {
    pub caller: Address,
    pub token_in: Address,
    pub amount: U256,
    pub destination_chain: U256,
    pub recipient: Address,
}

impl RouteRequest {
    /// The request as an intent under the identifier `id`.
    pub open spec fn intent(self, id: U256) -> Intent {
        Intent {
            id,
            user: self.caller,
            token: self.token_in,
            amount: self.amount,
            destination_chain: self.destination_chain,
            recipient: self.recipient,
        }
    }
}

/// A route in flight: what the user asked for, under the identifier that the
/// route will have once it completes.
#[derive(Clone, Copy, Debug, PartialEq, Eq)]
pub struct Intent {
    pub id: U256,
    pub user: Address,
    pub token: Address,
    pub amount: U256,
    pub destination_chain: U256,
    pub recipient: Address,
}

/// The executor as a mathematical value.
#[verifier::ext_equal]
pub struct ExecutorState {
    pub owner: Address,
    pub validator: Address,
    pub ccip_router: Address,
    /// The identifier of the last route that completed; 0 before the first.
    pub intent_counter: U256,
    /// The statuses that were written, by intent identifier.
    pub statuses: Map<U256, IntentStatus>,
    pub paused: bool,
    pub locked: bool,
    /// Every notification so far, oldest first.
    pub events: Seq<ExecutorEvent>,
}

impl ExecutorState {
    /// The status of `intent_id`; `Pending` where none was written.
    pub open spec fn status_of(self, intent_id: U256) -> IntentStatus {
        read_slot(self.statuses, intent_id)
    }

    /// The identifier that the next route gets: one more than the counter.
    pub open spec fn next_intent_id(self) -> U256 {
        self.intent_counter.successor()
    }

    /// Whether the counter bounds the intents: every status that was written
    /// is that of a completed route whose identifier lies between 1 and the
    /// counter, and no route is in flight.
    pub open spec fn settled(self) -> bool {
        &&& !self.locked
        &&& forall|id: U256| #[trigger]
            self.statuses.contains_key(id) ==> 1 <= id@ <= self.intent_counter@
                && self.statuses[id] == IntentStatus::Completed
    }

    /// The executor with `event` added to its notifications.
    pub open spec fn emit(self, event: ExecutorEvent) -> ExecutorState {
        ExecutorState { events: self.events.push(event), ..self }
    }

    /// The executor after `init`, and what the call returns. A null validator
    /// or router is refused.
    pub open spec fn init(
        self,
        caller: Address,
        validator_address: Address,
        ccip_router_address: Address,
    ) -> (ExecutorState, Result<(), RouteExecutorError>) {
        if validator_address.is_null() || ccip_router_address.is_null() {
            (self, Err(RouteExecutorError::InvalidAddress))
        } else {
            (
                ExecutorState {
                    owner: caller,
                    validator: validator_address,
                    ccip_router: ccip_router_address,
                    intent_counter: U256::zero(),
                    paused: false,
                    locked: false,
                    ..self
                },
                Ok(()),
            )
        }
    }

    /// Why a route cannot begin, if it cannot: the first of the pause switch,
    /// the reentrancy lock, a null token or recipient, and an amount of zero.
    pub open spec fn route_rejection(self, request: RouteRequest) -> Option<RouteExecutorError> {
        if self.paused {
            Some(RouteExecutorError::ContractPaused)
        } else if self.locked {
            Some(RouteExecutorError::ReentrancyGuard)
        } else if request.token_in.is_null() || request.recipient.is_null() {
            Some(RouteExecutorError::InvalidAddress)
        } else if request.amount@ == 0 {
            Some(RouteExecutorError::InvalidAmount)
        } else {
            None
        }
    }

    /// The executor after `begin_route`, and what the call returns. A route
    /// that is refused changes nothing; one that begins takes the lock and
    /// marks the next identifier as executing.
    pub open spec fn begin_route(self, request: RouteRequest) -> (
        ExecutorState,
        Result<Intent, RouteExecutorError>,
    ) {
        match self.route_rejection(request) {
            Some(error) => (self, Err(error)),
            None => {
                let id = self.next_intent_id();
                (
                    ExecutorState {
                        locked: true,
                        statuses: self.statuses.insert(id, IntentStatus::Executing),
                        ..self
                    },
                    Ok(request.intent(id)),
                )
            },
        }
    }

    /// The executor after `settle_swap`, and what the call returns. A swap
    /// that failed releases the lock and abandons the route, whose status
    /// stays as it is.
    pub open spec fn settle_swap(self, intent: Intent, outcome: Option<U256>) -> (
        ExecutorState,
        Result<U256, RouteExecutorError>,
    ) {
        match outcome {
            Some(amount_out) => (
                self.emit(
                    ExecutorEvent::SwapExecuted {
                        intent_id: intent.id,
                        token_in: intent.token,
                        token_out: intent.token,
                        amount_in: intent.amount,
                        amount_out,
                    },
                ),
                Ok(amount_out),
            ),
            None => (ExecutorState { locked: false, ..self }, Err(RouteExecutorError::SwapFailed)),
        }
    }

    /// The executor after `settle_bridge`, and what the call returns. Either
    /// way the lock is released. A transfer that the bridge accepted
    /// completes the route and advances the counter to its identifier.
    pub open spec fn settle_bridge(self, intent: Intent, amount: U256, accepted: bool, now: u64) -> (
        ExecutorState,
        Result<U256, RouteExecutorError>,
    ) {
        if accepted {
            (
                ExecutorState {
                    locked: false,
                    intent_counter: intent.id,
                    statuses: self.statuses.insert(intent.id, IntentStatus::Completed),
                    events: self.events.push(
                        ExecutorEvent::BridgeInitiated {
                            intent_id: intent.id,
                            token: intent.token,
                            amount,
                            destination_chain: intent.destination_chain,
                            recipient: intent.recipient,
                        },
                    ).push(
                        ExecutorEvent::IntentExecuted {
                            intent_id: intent.id,
                            user: intent.user,
                            timestamp: U256::from_u64(now),
                        },
                    ),
                    ..self
                },
                Ok(intent.id),
            )
        } else {
            (ExecutorState { locked: false, ..self }, Err(RouteExecutorError::BridgeFailed))
        }
    }

    /// The executor after `execute_full_route`, and what the call returns:
    /// the route is begun, swapped one for one where a swap was asked for,
    /// and bridged.
    pub open spec fn execute_full_route(
        self,
        request: RouteRequest,
        now: u64,
        swap_requested: bool,
    ) -> (ExecutorState, Result<U256, RouteExecutorError>) {
        let (begun, started) = self.begin_route(request);
        match started {
            Err(error) => (begun, Err(error)),
            Ok(intent) => {
                let swapped = if swap_requested {
                    begun.settle_swap(intent, Some(request.amount)).0
                } else {
                    begun
                };
                swapped.settle_bridge(intent, request.amount, true, now)
            },
        }
    }

    /// The executor after `pause` or `unpause`, and what the call returns.
    /// Only the owner may flip the switch.
    pub open spec fn set_paused(self, caller: Address, paused: bool) -> (
        ExecutorState,
        Result<(), RouteExecutorError>,
    ) {
        if caller != self.owner {
            (self, Err(RouteExecutorError::Unauthorized))
        } else {
            (
                ExecutorState { paused, ..self }.emit(
                    if paused {
                        ExecutorEvent::Paused { by: caller }
                    } else {
                        ExecutorEvent::Unpaused { by: caller }
                    },
                ),
                Ok(()),
            )
        }
    }
}

/// The route executor.
pub struct RouteExecutor {
    /// The principal that may pause and unpause.
    pub owner: Address,
    /// The validator that the executor was deployed with.
    pub validator: Address,
    /// The bridge router that the executor was deployed with.
    pub ccip_router: Address,
    /// The identifier of the last route that completed.
    pub intent_counter: U256,
    /// The status of each intent.
    pub intent_statuses: Mapping<U256, IntentStatus>,
    /// The circuit breaker: no route begins while it is set.
    pub paused: bool,
    /// The reentrancy lock: set while a route is in flight.
    pub locked: bool,
    /// Every notification so far, oldest first.
    pub events: Vec<ExecutorEvent>,
}

impl View for RouteExecutor {
    type V = ExecutorState;

    open spec fn view(&self) -> ExecutorState {
        ExecutorState {
            owner: self.owner,
            validator: self.validator,
            ccip_router: self.ccip_router,
            intent_counter: self.intent_counter,
            statuses: self.intent_statuses@,
            paused: self.paused,
            locked: self.locked,
            events: self.events@,
        }
    }
}

impl RouteExecutor {
    /// An executor as it is deployed: no owner, no route, no notification.
    pub fn new() -> (r: Self)
        ensures
            r@.owner.is_null(),
            r@.validator.is_null(),
            r@.ccip_router.is_null(),
            r@.intent_counter == U256::zero(),
            r@.statuses == Map::<U256, IntentStatus>::empty(),
            !r@.paused,
            !r@.locked,
            r@.events == Seq::<ExecutorEvent>::empty(),
    {
        RouteExecutor {
            owner: Address::zero(),
            validator: Address::zero(),
            ccip_router: Address::zero(),
            intent_counter: U256::zero(),
            intent_statuses: Mapping::new(),
            paused: false,
            locked: false,
            events: Vec::new(),
        }
    }

    /// Makes `caller` the owner and records the validator and the bridge
    /// router; the counter and both guards start from zero.
    pub fn init(
        &mut self,
        caller: Address,
        validator_address: Address,
        ccip_router_address: Address,
    ) -> (r: Result<(), RouteExecutorError>)
        ensures
            (final(self)@, r) == old(self)@.init(caller, validator_address, ccip_router_address),
    {
        if validator_address.is_zero() || ccip_router_address.is_zero() {
            return Err(RouteExecutorError::InvalidAddress);
        }
        self.owner = caller;
        self.validator = validator_address;
        self.ccip_router = ccip_router_address;
        self.intent_counter = U256::zero();
        self.paused = false;
        self.locked = false;
        Ok(())
    }

    /// Begins a route for `caller`: checks the pause switch and the lock,
    /// takes the lock, validates the request and marks the next intent
    /// identifier as executing. The lock stays taken until the route is
    /// settled; a refused route leaves the executor as it was.
    pub fn begin_route(&mut self, request: RouteRequest) -> (r: Result<Intent, RouteExecutorError>)
        ensures
            (final(self)@, r) == old(self)@.begin_route(request),
    {
        if self.paused {
            return Err(RouteExecutorError::ContractPaused);
        }
        self.check_not_locked()?;
        self.locked = true;
        let intent_id = self.intent_counter.wrapping_add(U256::one());
        if request.token_in.is_zero() || request.recipient.is_zero() {
            self.locked = false;
            return Err(RouteExecutorError::InvalidAddress);
        }
        if request.amount.is_zero() {
            self.locked = false;
            return Err(RouteExecutorError::InvalidAmount);
        }
        self.intent_statuses.insert(intent_id, IntentStatus::Executing);
        Ok(
            Intent {
                id: intent_id,
                user: request.caller,
                token: request.token_in,
                amount: request.amount,
                destination_chain: request.destination_chain,
                recipient: request.recipient,
            },
        )
    }

    /// Takes the answer of the swap service for a route in flight: the amount
    /// that came out, or `None` where the swap failed. A failed swap releases
    /// the lock and abandons the route.
    pub fn settle_swap(&mut self, intent: &Intent, outcome: Option<U256>) -> (r: Result<
        U256,
        RouteExecutorError,
    >)
        ensures
            (final(self)@, r) == old(self)@.settle_swap(*intent, outcome),
    {
        match outcome {
            Some(amount_out) => {
                self.events.push(
                    ExecutorEvent::SwapExecuted {
                        intent_id: intent.id,
                        token_in: intent.token,
                        token_out: intent.token,
                        amount_in: intent.amount,
                        amount_out,
                    },
                );
                Ok(amount_out)
            },
            None => {
                self.locked = false;
                Err(RouteExecutorError::SwapFailed)
            },
        }
    }

    /// Takes the answer of the bridge service for a route in flight and
    /// releases the lock. Where the bridge accepted the transfer of `amount`,
    /// the route completes at time `now` and the counter advances to its
    /// identifier, which is returned.
    pub fn settle_bridge(&mut self, intent: &Intent, amount: U256, accepted: bool, now: u64) -> (r:
        Result<U256, RouteExecutorError>)
        ensures
            (final(self)@, r) == old(self)@.settle_bridge(*intent, amount, accepted, now),
    {
        if !accepted {
            self.locked = false;
            return Err(RouteExecutorError::BridgeFailed);
        }
        self.events.push(
            ExecutorEvent::BridgeInitiated {
                intent_id: intent.id,
                token: intent.token,
                amount,
                destination_chain: intent.destination_chain,
                recipient: intent.recipient,
            },
        );
        self.intent_statuses.insert(intent.id, IntentStatus::Completed);
        self.intent_counter = intent.id;
        self.events.push(
            ExecutorEvent::IntentExecuted {
                intent_id: intent.id,
                user: intent.user,
                timestamp: U256::from_u64(now),
            },
        );
        self.locked = false;
        Ok(intent.id)
    }

    /// Executes a whole route for `caller` at time `now` with services that
    /// always succeed: the swap, asked for by a non-empty `swap_data`, gives
    /// back the amount it was given. Returns the identifier of the intent.
    pub fn execute_full_route(
        &mut self,
        caller: Address,
        now: u64,
        token_in: Address,
        amount: U256,
        destination_chain: U256,
        recipient: Address,
        swap_data: &[u8],
    ) -> (r: Result<U256, RouteExecutorError>)
        ensures
            (final(self)@, r) == old(self)@.execute_full_route(
                (RouteRequest { caller, token_in, amount, destination_chain, recipient }),
                now,
                swap_data@.len() > 0,
            ),
    {
        let request = RouteRequest { caller, token_in, amount, destination_chain, recipient };
        let intent = self.begin_route(request)?;
        let final_amount = if swap_data.len() > 0 {
            self.internal_execute_swap(&intent)?
        } else {
            amount
        };
        self.internal_execute_bridge(&intent, final_amount, now)
    }

    /// The status of `intent_id`; `Pending` where the identifier was never
    /// used.
    pub fn get_intent_status(&self, intent_id: U256) -> (r: IntentStatus)
        ensures
            r == self@.status_of(intent_id),
    {
        self.intent_statuses.get(&intent_id)
    }

    /// Sets the pause switch; only the owner may.
    pub fn pause(&mut self, caller: Address) -> (r: Result<(), RouteExecutorError>)
        ensures
            (final(self)@, r) == old(self)@.set_paused(caller, true),
    {
        self.only_owner(&caller)?;
        self.paused = true;
        self.events.push(ExecutorEvent::Paused { by: caller });
        Ok(())
    }

    /// Clears the pause switch; only the owner may.
    pub fn unpause(&mut self, caller: Address) -> (r: Result<(), RouteExecutorError>)
        ensures
            (final(self)@, r) == old(self)@.set_paused(caller, false),
    {
        self.only_owner(&caller)?;
        self.paused = false;
        self.events.push(ExecutorEvent::Unpaused { by: caller });
        Ok(())
    }

    /// The owner.
    pub fn owner(&self) -> (r: Address)
        ensures
            r == self@.owner,
    {
        self.owner
    }

    /// The swap of this design: it gives back the amount it was given.
    fn internal_execute_swap(&mut self, intent: &Intent) -> (r: Result<U256, RouteExecutorError>)
        ensures
            (final(self)@, r) == old(self)@.settle_swap(*intent, Some(intent.amount)),
    {
        self.settle_swap(intent, Some(intent.amount))
    }

    /// The bridge of this design: it accepts every transfer.
    fn internal_execute_bridge(&mut self, intent: &Intent, amount: U256, now: u64) -> (r: Result<
        U256,
        RouteExecutorError,
    >)
        ensures
            (final(self)@, r) == old(self)@.settle_bridge(*intent, amount, true, now),
    {
        self.settle_bridge(intent, amount, true, now)
    }

    /// Refuses every caller but the owner.
    fn only_owner(&self, caller: &Address) -> (r: Result<(), RouteExecutorError>)
        ensures
            r == (if *caller == self@.owner {
                Ok::<(), RouteExecutorError>(())
            } else {
                Err(RouteExecutorError::Unauthorized)
            }),
    {
        if !caller.same(&self.owner) {
            return Err(RouteExecutorError::Unauthorized);
        }
        Ok(())
    }

    /// Refuses the call while a route is in flight.
    fn check_not_locked(&self) -> (r: Result<(), RouteExecutorError>)
        ensures
            r == (if self@.locked {
                Err::<(), RouteExecutorError>(RouteExecutorError::ReentrancyGuard)
            } else {
                Ok(())
            }),
    {
        if self.locked {
            return Err(RouteExecutorError::ReentrancyGuard);
        }
        Ok(())
    }
}

/// A route for an amount of zero never begins and changes nothing. Where the
/// executor is neither paused nor locked and neither principal is null, the
/// error is `InvalidAmount`.
pub proof fn lemma_zero_amount_is_refused(
    s: ExecutorState,
    request: RouteRequest,
    now: u64,
    swap_requested: bool,
)
    requires
        request.amount@ == 0,
    ensures
        ({
            let (after, result) = s.execute_full_route(request, now, swap_requested);
            &&& after == s
            &&& result is Err
            &&& !s.paused && !s.locked && !request.token_in.is_null()
                && !request.recipient.is_null() ==> result == Err::<U256, RouteExecutorError>(
                RouteExecutorError::InvalidAmount,
            )
        }),
{
}

/// A route with a null token or a null recipient never begins and changes
/// nothing. Where the executor is neither paused nor locked, the error is
/// `InvalidAddress`.
pub proof fn lemma_null_principal_is_refused(
    s: ExecutorState,
    request: RouteRequest,
    now: u64,
    swap_requested: bool,
)
    requires
        request.token_in.is_null() || request.recipient.is_null(),
    ensures
        ({
            let (after, result) = s.execute_full_route(request, now, swap_requested);
            &&& after == s
            &&& result is Err
            &&& !s.paused && !s.locked ==> result == Err::<U256, RouteExecutorError>(
                RouteExecutorError::InvalidAddress,
            )
        }),
{
}

/// An executor cannot be initialised with a null validator or a null bridge
/// router: the call fails with `InvalidAddress` and changes nothing.
pub proof fn lemma_null_dependency_is_refused(
    s: ExecutorState,
    caller: Address,
    validator_address: Address,
    ccip_router_address: Address,
)
    requires
        validator_address.is_null() || ccip_router_address.is_null(),
    ensures
        s.init(caller, validator_address, ccip_router_address) == (
            s,
            Err::<(), RouteExecutorError>(RouteExecutorError::InvalidAddress),
        ),
{
}

/// The first route that an initialised executor completes has the
/// identifier 1.
pub proof fn lemma_first_intent_id(
    s: ExecutorState,
    owner: Address,
    validator_address: Address,
    ccip_router_address: Address,
    request: RouteRequest,
    now: u64,
    swap_requested: bool,
)
    requires
        s.init(owner, validator_address, ccip_router_address).1 is Ok,
    ensures
        ({
            let ready = s.init(owner, validator_address, ccip_router_address).0;
            let result = ready.execute_full_route(request, now, swap_requested).1;
            result is Ok ==> result->Ok_0@ == 1
        }),
{
    lemma_successor(U256::zero());
}

/// Two routes that complete one after the other have consecutive
/// identifiers, as long as the second still fits in a word.
pub proof fn lemma_intent_ids_are_consecutive(
    s: ExecutorState,
    first_request: RouteRequest,
    first_now: u64,
    first_swap: bool,
    second_request: RouteRequest,
    second_now: u64,
    second_swap: bool,
)
    ensures
        ({
            let (middle, first) = s.execute_full_route(first_request, first_now, first_swap);
            let second = middle.execute_full_route(second_request, second_now, second_swap).1;
            first is Ok && second is Ok && first->Ok_0@ + 1 < word_modulus() ==> second->Ok_0@
                == first->Ok_0@ + 1
        }),
{
    let first = s.execute_full_route(first_request, first_now, first_swap).1;
    if first is Ok {
        lemma_successor(first->Ok_0);
    }
}

/// The counter is consumed only by success: a route that completes advances
/// it by one, as long as that fits in a word, and a route that is refused
/// leaves it as it is.
pub proof fn lemma_counter_advances_on_success(
    s: ExecutorState,
    request: RouteRequest,
    now: u64,
    swap_requested: bool,
)
    ensures
        ({
            let (after, result) = s.execute_full_route(request, now, swap_requested);
            &&& result is Err ==> after.intent_counter == s.intent_counter
            &&& result is Ok && s.intent_counter@ + 1 < word_modulus() ==> after.intent_counter@
                == s.intent_counter@ + 1
            &&& result is Ok ==> after.intent_counter == result->Ok_0
        }),
{
    lemma_successor(s.intent_counter);
}

/// Identifiers are not used again. An executor in which nothing was written
/// is settled; `execute_full_route`, `pause` and `unpause` keep a settled
/// executor settled as long as the next identifier fits in a word; and in a
/// settled executor every identifier above the counter is still pending, so
/// the next route gets one that no route had before.
pub proof fn lemma_identifiers_are_fresh(
    s: ExecutorState,
    request: RouteRequest,
    now: u64,
    swap_requested: bool,
    caller: Address,
    paused: bool,
    intent_id: U256,
)
    ensures
        !s.locked && s.statuses == Map::<U256, IntentStatus>::empty() ==> s.settled(),
        s.settled() && s.intent_counter@ + 1 < word_modulus() ==> {
            &&& s.execute_full_route(request, now, swap_requested).0.settled()
            &&& s.set_paused(caller, paused).0.settled()
            &&& s.status_of(s.next_intent_id()) == IntentStatus::Pending
        },
        s.settled() && intent_id@ > s.intent_counter@ ==> s.status_of(intent_id)
            == IntentStatus::Pending,
{
    lemma_successor(s.intent_counter);
}

/// A completed intent stays completed: neither a further route nor the
/// pause switch changes its status.
pub proof fn lemma_completed_stays_completed(
    s: ExecutorState,
    intent_id: U256,
    request: RouteRequest,
    now: u64,
    swap_requested: bool,
    caller: Address,
    paused: bool,
)
    requires
        s.status_of(intent_id) == IntentStatus::Completed,
    ensures
        s.execute_full_route(request, now, swap_requested).0.status_of(intent_id)
            == IntentStatus::Completed,
        s.set_paused(caller, paused).0.status_of(intent_id) == IntentStatus::Completed,
{
}

/// While a route is in flight, before and after its swap, a nested route is
/// refused with `ReentrancyGuard` and changes nothing.
pub proof fn lemma_nested_route_is_refused(
    s: ExecutorState,
    request: RouteRequest,
    amount_out: U256,
    nested_request: RouteRequest,
    nested_now: u64,
    nested_swap: bool,
)
    requires
        s.begin_route(request).1 is Ok,
    ensures
        ({
            let (begun, started) = s.begin_route(request);
            let swapped = begun.settle_swap(started->Ok_0, Some(amount_out)).0;
            let refused = Err::<U256, RouteExecutorError>(RouteExecutorError::ReentrancyGuard);
            &&& begun.execute_full_route(nested_request, nested_now, nested_swap) == (
                begun,
                refused,
            )
            &&& swapped.execute_full_route(nested_request, nested_now, nested_swap) == (
                swapped,
                refused,
            )
        }),
{
}

/// The lock does not outlive a route. A route in flight that is settled, by
/// a failed swap or by any answer of the bridge, leaves the executor
/// unlocked; so does every call of `execute_full_route` on an unlocked
/// executor, whatever it returns.
pub proof fn lemma_lock_is_released(
    s: ExecutorState,
    request: RouteRequest,
    now: u64,
    swap_requested: bool,
    intent: Intent,
    bridged_amount: U256,
    accepted: bool,
)
    ensures
        !s.settle_swap(intent, None).0.locked,
        !s.settle_bridge(intent, bridged_amount, accepted, now).0.locked,
        !s.locked ==> !s.execute_full_route(request, now, swap_requested).0.locked,
{
}

/// While the executor is paused, every route is refused with
/// `ContractPaused` and changes nothing.
pub proof fn lemma_paused_refuses_routes(
    s: ExecutorState,
    request: RouteRequest,
    now: u64,
    swap_requested: bool,
)
    requires
        s.paused,
    ensures
        s.execute_full_route(request, now, swap_requested) == (
            s,
            Err::<U256, RouteExecutorError>(RouteExecutorError::ContractPaused),
        ),
{
}

/// Only the owner flips the pause switch: from anyone else `pause` and
/// `unpause` fail with `Unauthorized` and change nothing. Once the owner has
/// paused, the executor is paused.
pub proof fn lemma_pause_is_owner_only(s: ExecutorState, caller: Address, paused: bool)
    ensures
        caller != s.owner ==> s.set_paused(caller, paused) == (
            s,
            Err::<(), RouteExecutorError>(RouteExecutorError::Unauthorized),
        ),
        caller == s.owner ==> s.set_paused(caller, paused).1 is Ok && s.set_paused(
            caller,
            paused,
        ).0.paused == paused,
{
}

} // verus!
