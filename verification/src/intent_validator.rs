//! The intent validator: the gatekeeper that confirms, before anything is
//! executed, that an intent names a supported chain and token and that the
//! user holds and has approved enough of the token.

use crate::address::Address;
use crate::mapping::{read_slot, Mapping};
use crate::word::U256;
use vstd::prelude::*;

verus! {

/// Why the validator refused a call.
#[derive(Clone, Copy, Debug, PartialEq, Eq, Structural)]
pub enum IntentValidatorError {
    /// The caller is not the owner.
    Unauthorized,
    /// A principal is null.
    InvalidAddress,
    /// The amount, or the chain to be added, is zero.
    InvalidAmount,
    /// The destination chain is not on the allow-list.
    UnsupportedChain,
    /// The token is not on the allow-list.
    UnsupportedToken,
    /// The user holds less than the amount.
    InsufficientBalance,
    /// The user has approved less than the amount to the spender.
    InsufficientAllowance,
}

/// A notification of the validator.
#[derive(Clone, Copy, Debug, PartialEq, Eq)]
pub enum ValidatorEvent {
    /// The owner has added a chain to the allow-list.
    ChainAdded { chain_id: U256, timestamp: U256 },
    /// The owner has added a token to the allow-list.
    TokenAdded { token: Address, timestamp: U256 },
    /// An intent has passed every check.
    IntentValidated { user: Address, token: Address, amount: U256, destination_chain: U256 },
}

/// An intent as it is put to the validator: `user` wants to move `amount` of
/// `token` to `destination_chain`, with `spender` moving it on their behalf.
#[derive(Clone, Copy, Debug, PartialEq, Eq)]
pub struct ProposedIntent {
    pub user: Address,
    pub token: Address,
    pub amount: U256,
    pub destination_chain: U256,
    pub spender: Address,
}

/// What a validation waits for, or how it ended.
#[derive(Clone, Copy, Debug, PartialEq, Eq)]
pub enum ValidationStep {
    /// The balance service is to be asked for the user's balance of the
    /// token.
    QueryBalance,
    /// The allowance service is to be asked for what the user has approved
    /// to the spender.
    QueryAllowance,
    /// Every check has passed.
    Accept,
    /// A check has failed.
    Reject(IntentValidatorError),
}

/// The validator as a mathematical value.
#[verifier::ext_equal]
pub struct ValidatorState {
    pub owner: Address,
    /// The chain identifiers that were written, each with its flag.
    pub chains: Map<U256, bool>,
    /// The tokens that were written, each with its flag.
    pub tokens: Map<Address, bool>,
    /// Every notification so far, oldest first.
    pub events: Seq<ValidatorEvent>,
}

/// Why an intent cannot be validated on what the services report, if it
/// cannot: a balance below the amount, then an allowance below it.
pub open spec fn funds_rejection(amount: U256, balance: U256, allowance: U256) -> Option<
    IntentValidatorError,
> {
    if balance@ < amount@ {
        Some(IntentValidatorError::InsufficientBalance)
    } else if allowance@ < amount@ {
        Some(IntentValidatorError::InsufficientAllowance)
    } else {
        None
    }
}

/// What `check_allowance` returns: the reported allowance, unless one of the
/// principals is null.
pub open spec fn allowance_answer(
    user: Address,
    token: Address,
    spender: Address,
    allowance: U256,
) -> Result<U256, IntentValidatorError> {
    if user.is_null() || token.is_null() || spender.is_null() {
        Err(IntentValidatorError::InvalidAddress)
    } else {
        Ok(allowance)
    }
}

impl ValidatorState {
    /// Whether `chain_id` is on the allow-list of chains.
    pub open spec fn supports_chain(self, chain_id: U256) -> bool {
        read_slot(self.chains, chain_id)
    }

    /// Whether `token` is on the allow-list of tokens.
    pub open spec fn supports_token(self, token: Address) -> bool {
        read_slot(self.tokens, token)
    }

    /// The validator with `event` added to its notifications.
    pub open spec fn emit(self, event: ValidatorEvent) -> ValidatorState {
        ValidatorState { events: self.events.push(event), ..self }
    }

    /// Why an intent cannot be validated on its own terms, if it cannot: the
    /// first of an amount of zero, a null user, token or spender, a chain
    /// that is not supported, and a token that is not supported.
    pub open spec fn request_rejection(self, intent: ProposedIntent) -> Option<
        IntentValidatorError,
    > {
        if intent.amount@ == 0 {
            Some(IntentValidatorError::InvalidAmount)
        } else if intent.user.is_null() || intent.token.is_null() || intent.spender.is_null() {
            Some(IntentValidatorError::InvalidAddress)
        } else if !self.supports_chain(intent.destination_chain) {
            Some(IntentValidatorError::UnsupportedChain)
        } else if !self.supports_token(intent.token) {
            Some(IntentValidatorError::UnsupportedToken)
        } else {
            None
        }
    }

    /// Why an intent cannot be validated, if it cannot: the first failing
    /// check of the request, or else of the funds.
    pub open spec fn validation_rejection(
        self,
        intent: ProposedIntent,
        balance: U256,
        allowance: U256,
    ) -> Option<IntentValidatorError> {
        match self.request_rejection(intent) {
            Some(error) => Some(error),
            None => funds_rejection(intent.amount, balance, allowance),
        }
    }

    /// What `validation_step` returns: a rejection as soon as a check fails
    /// on what is known, the next question while something is unknown, and
    /// acceptance once everything is known and passes.
    pub open spec fn validation_step(
        self,
        intent: ProposedIntent,
        balance: Option<U256>,
        allowance: Option<U256>,
    ) -> ValidationStep {
        match self.request_rejection(intent) {
            Some(error) => ValidationStep::Reject(error),
            None => match balance {
                None => ValidationStep::QueryBalance,
                Some(held) => if held@ < intent.amount@ {
                    ValidationStep::Reject(IntentValidatorError::InsufficientBalance)
                } else {
                    match allowance {
                        None => ValidationStep::QueryAllowance,
                        Some(approved) => if approved@ < intent.amount@ {
                            ValidationStep::Reject(IntentValidatorError::InsufficientAllowance)
                        } else {
                            ValidationStep::Accept
                        },
                    }
                },
            },
        }
    }

    /// The validator after `validate_intent`, and what the call returns. An
    /// intent that passes adds one notification; nothing else ever changes.
    pub open spec fn validate_intent(
        self,
        intent: ProposedIntent,
        balance: U256,
        allowance: U256,
    ) -> (ValidatorState, Result<bool, IntentValidatorError>) {
        match self.validation_rejection(intent, balance, allowance) {
            Some(error) => (self, Err(error)),
            None => (
                self.emit(
                    ValidatorEvent::IntentValidated {
                        user: intent.user,
                        token: intent.token,
                        amount: intent.amount,
                        destination_chain: intent.destination_chain,
                    },
                ),
                Ok(true),
            ),
        }
    }

    /// The validator after `init`, and what the call returns.
    pub open spec fn init(self, caller: Address) -> (
        ValidatorState,
        Result<(), IntentValidatorError>,
    ) {
        (ValidatorState { owner: caller, ..self }, Ok(()))
    }

    /// The validator after `add_supported_chain`, and what the call returns.
    /// Only the owner may add a chain, and not the chain 0.
    pub open spec fn add_supported_chain(self, caller: Address, now: u64, chain_id: U256) -> (
        ValidatorState,
        Result<(), IntentValidatorError>,
    ) {
        if caller != self.owner {
            (self, Err(IntentValidatorError::Unauthorized))
        } else if chain_id@ == 0 {
            (self, Err(IntentValidatorError::InvalidAmount))
        } else {
            (
                ValidatorState { chains: self.chains.insert(chain_id, true), ..self }.emit(
                    ValidatorEvent::ChainAdded { chain_id, timestamp: U256::from_u64(now) },
                ),
                Ok(()),
            )
        }
    }

    /// The validator after `add_supported_token`, and what the call returns.
    /// Only the owner may add a token, and not the null principal.
    pub open spec fn add_supported_token(self, caller: Address, now: u64, token: Address) -> (
        ValidatorState,
        Result<(), IntentValidatorError>,
    ) {
        if caller != self.owner {
            (self, Err(IntentValidatorError::Unauthorized))
        } else if token.is_null() {
            (self, Err(IntentValidatorError::InvalidAddress))
        } else {
            (
                ValidatorState { tokens: self.tokens.insert(token, true), ..self }.emit(
                    ValidatorEvent::TokenAdded { token, timestamp: U256::from_u64(now) },
                ),
                Ok(()),
            )
        }
    }
}

/// The intent validator.
pub struct IntentValidator {
    /// The principal that may extend the allow-lists.
    pub owner: Address,
    /// The allow-list of destination chains.
    pub supported_chains: Mapping<U256, bool>,
    /// The allow-list of tokens.
    pub supported_tokens: Mapping<Address, bool>,
    /// Every notification so far, oldest first.
    pub events: Vec<ValidatorEvent>,
}

impl View for IntentValidator {
    type V = ValidatorState;

    open spec fn view(&self) -> ValidatorState {
        ValidatorState {
            owner: self.owner,
            chains: self.supported_chains@,
            tokens: self.supported_tokens@,
            events: self.events@,
        }
    }
}

impl IntentValidator {
    /// A validator as it is deployed: no owner, empty allow-lists.
    pub fn new() -> (r: Self)
        ensures
            r@.owner.is_null(),
            r@.chains == Map::<U256, bool>::empty(),
            r@.tokens == Map::<Address, bool>::empty(),
            r@.events == Seq::<ValidatorEvent>::empty(),
    {
        IntentValidator {
            owner: Address::zero(),
            supported_chains: Mapping::new(),
            supported_tokens: Mapping::new(),
            events: Vec::new(),
        }
    }

    /// Makes `caller` the owner.
    pub fn init(&mut self, caller: Address) -> (r: Result<(), IntentValidatorError>)
        ensures
            (final(self)@, r) == old(self)@.init(caller),
    {
        self.owner = caller;
        Ok(())
    }

    /// Says what a validation needs next, given what the balance service and
    /// the allowance service have reported so far: a service is to be asked
    /// only once every earlier check has passed.
    pub fn validation_step(
        &self,
        intent: ProposedIntent,
        balance: Option<U256>,
        allowance: Option<U256>,
    ) -> (r: ValidationStep)
        ensures
            r == self@.validation_step(intent, balance, allowance),
    {
        if let Err(error) = self.check_request(&intent) {
            return ValidationStep::Reject(error);
        }
        let amount = intent.amount;
        let held = match balance {
            Some(held) => held,
            None => {
                return ValidationStep::QueryBalance;
            },
        };
        if held.lt(&amount) {
            return ValidationStep::Reject(IntentValidatorError::InsufficientBalance);
        }
        let approved = match allowance {
            Some(approved) => approved,
            None => {
                return ValidationStep::QueryAllowance;
            },
        };
        if approved.lt(&amount) {
            return ValidationStep::Reject(IntentValidatorError::InsufficientAllowance);
        }
        ValidationStep::Accept
    }

    /// Validates an intent of `user` to move `amount` of `token` to
    /// `destination_chain` through `spender`, where the balance service
    /// reports `balance` for the user and the allowance service reports
    /// `allowance` from the user to the spender. The checks are made in a
    /// fixed order and the first that fails gives the error.
    pub fn validate_intent(
        &mut self,
        user: Address,
        token: Address,
        amount: U256,
        destination_chain: U256,
        spender: Address,
        balance: U256,
        allowance: U256,
    ) -> (r: Result<bool, IntentValidatorError>)
        ensures
            (final(self)@, r) == old(self)@.validate_intent(
                (ProposedIntent { user, token, amount, destination_chain, spender }),
                balance,
                allowance,
            ),
    {
        let intent = ProposedIntent { user, token, amount, destination_chain, spender };
        self.check_request(&intent)?;
        if balance.lt(&amount) {
            return Err(IntentValidatorError::InsufficientBalance);
        }
        if allowance.lt(&amount) {
            return Err(IntentValidatorError::InsufficientAllowance);
        }
        self.events.push(ValidatorEvent::IntentValidated { user, token, amount, destination_chain });
        Ok(true)
    }

    /// Hands on what the allowance service reports from `user` to `spender`
    /// for `token`, unless one of the three is the null principal.
    pub fn check_allowance(
        &self,
        user: Address,
        token: Address,
        spender: Address,
        allowance: U256,
    ) -> (r: Result<U256, IntentValidatorError>)
        ensures
            r == allowance_answer(user, token, spender, allowance),
    {
        if user.is_zero() || token.is_zero() || spender.is_zero() {
            return Err(IntentValidatorError::InvalidAddress);
        }
        Ok(allowance)
    }

    /// Puts `chain_id` on the allow-list of chains; only the owner may.
    pub fn add_supported_chain(&mut self, caller: Address, now: u64, chain_id: U256) -> (r: Result<
        (),
        IntentValidatorError,
    >)
        ensures
            (final(self)@, r) == old(self)@.add_supported_chain(caller, now, chain_id),
    {
        self.only_owner(&caller)?;
        if chain_id.is_zero() {
            return Err(IntentValidatorError::InvalidAmount);
        }
        self.supported_chains.insert(chain_id, true);
        self.events.push(ValidatorEvent::ChainAdded { chain_id, timestamp: U256::from_u64(now) });
        Ok(())
    }

    /// Puts `token` on the allow-list of tokens; only the owner may.
    pub fn add_supported_token(&mut self, caller: Address, now: u64, token: Address) -> (r: Result<
        (),
        IntentValidatorError,
    >)
        ensures
            (final(self)@, r) == old(self)@.add_supported_token(caller, now, token),
    {
        self.only_owner(&caller)?;
        if token.is_zero() {
            return Err(IntentValidatorError::InvalidAddress);
        }
        self.supported_tokens.insert(token, true);
        self.events.push(ValidatorEvent::TokenAdded { token, timestamp: U256::from_u64(now) });
        Ok(())
    }

    /// Whether `chain_id` is on the allow-list of chains.
    pub fn is_chain_supported(&self, chain_id: U256) -> (r: bool)
        ensures
            r == self@.supports_chain(chain_id),
    {
        self.supported_chains.get(&chain_id)
    }

    /// Whether `token` is on the allow-list of tokens.
    pub fn is_token_supported(&self, token: Address) -> (r: bool)
        ensures
            r == self@.supports_token(token),
    {
        self.supported_tokens.get(&token)
    }

    /// The owner.
    pub fn owner(&self) -> (r: Address)
        ensures
            r == self@.owner,
    {
        self.owner
    }

    /// The checks that need no service, in their order.
    fn check_request(&self, intent: &ProposedIntent) -> (r: Result<(), IntentValidatorError>)
        ensures
            r == (match self@.request_rejection(*intent) {
                Some(error) => Err::<(), IntentValidatorError>(error),
                None => Ok(()),
            }),
    {
        if intent.amount.is_zero() {
            return Err(IntentValidatorError::InvalidAmount);
        }
        if intent.user.is_zero() || intent.token.is_zero() || intent.spender.is_zero() {
            return Err(IntentValidatorError::InvalidAddress);
        }
        if !self.is_chain_supported(intent.destination_chain) {
            return Err(IntentValidatorError::UnsupportedChain);
        }
        if !self.is_token_supported(intent.token) {
            return Err(IntentValidatorError::UnsupportedToken);
        }
        Ok(())
    }

    /// Refuses every caller but the owner.
    fn only_owner(&self, caller: &Address) -> (r: Result<(), IntentValidatorError>)
        ensures
            r == (if *caller == self@.owner {
                Ok::<(), IntentValidatorError>(())
            } else {
                Err(IntentValidatorError::Unauthorized)
            }),
    {
        if !caller.same(&self.owner) {
            return Err(IntentValidatorError::Unauthorized);
        }
        Ok(())
    }
}

/// An intent for an amount of zero is never validated: the call fails with
/// `InvalidAmount`, whatever else it holds, and changes nothing.
pub proof fn lemma_zero_amount_is_refused(
    s: ValidatorState,
    intent: ProposedIntent,
    balance: U256,
    allowance: U256,
)
    requires
        intent.amount@ == 0,
    ensures
        s.validate_intent(intent, balance, allowance) == (
            s,
            Err::<bool, IntentValidatorError>(IntentValidatorError::InvalidAmount),
        ),
{
}

/// An intent with a null user, token or spender is never validated and
/// changes nothing; for an amount other than zero the error is
/// `InvalidAddress`. No allowance is handed on for a null principal.
pub proof fn lemma_null_principal_is_refused(
    s: ValidatorState,
    intent: ProposedIntent,
    balance: U256,
    allowance: U256,
)
    requires
        intent.user.is_null() || intent.token.is_null() || intent.spender.is_null(),
    ensures
        ({
            let (after, result) = s.validate_intent(intent, balance, allowance);
            &&& after == s
            &&& result is Err
            &&& intent.amount@ != 0 ==> result == Err::<bool, IntentValidatorError>(
                IntentValidatorError::InvalidAddress,
            )
        }),
        allowance_answer(intent.user, intent.token, intent.spender, allowance) == Err::<
            U256,
            IntentValidatorError,
        >(IntentValidatorError::InvalidAddress),
{
}

/// The null principal is never added as a token, and the chain 0 never as a
/// chain: the call fails and changes nothing. From the owner the error is
/// `InvalidAddress` for the token and `InvalidAmount` for the chain.
pub proof fn lemma_null_entry_is_refused(
    s: ValidatorState,
    caller: Address,
    now: u64,
    token: Address,
    chain_id: U256,
)
    requires
        token.is_null(),
        chain_id@ == 0,
    ensures
        s.add_supported_token(caller, now, token).0 == s,
        s.add_supported_token(caller, now, token).1 is Err,
        caller == s.owner ==> s.add_supported_token(caller, now, token).1 == Err::<
            (),
            IntentValidatorError,
        >(IntentValidatorError::InvalidAddress),
        s.add_supported_chain(caller, now, chain_id).0 == s,
        s.add_supported_chain(caller, now, chain_id).1 is Err,
        caller == s.owner ==> s.add_supported_chain(caller, now, chain_id).1 == Err::<
            (),
            IntentValidatorError,
        >(IntentValidatorError::InvalidAmount),
{
}

/// Adding to an allow-list is idempotent. Once the owner has added a chain
/// or a token, it is supported; adding it again succeeds, and it is
/// supported still.
pub proof fn lemma_adding_twice(
    s: ValidatorState,
    caller: Address,
    chain_id: U256,
    token: Address,
    first_now: u64,
    second_now: u64,
)
    ensures
        ({
            let (once, first) = s.add_supported_chain(caller, first_now, chain_id);
            let (twice, second) = once.add_supported_chain(caller, second_now, chain_id);
            first is Ok ==> once.supports_chain(chain_id) && second is Ok && twice.supports_chain(
                chain_id,
            )
        }),
        ({
            let (once, first) = s.add_supported_token(caller, first_now, token);
            let (twice, second) = once.add_supported_token(caller, second_now, token);
            first is Ok ==> once.supports_token(token) && second is Ok && twice.supports_token(
                token,
            )
        }),
{
}

/// The allow-lists only grow: a chain or a token that is supported stays
/// supported through every call.
pub proof fn lemma_support_is_kept(
    s: ValidatorState,
    chain_id: U256,
    token: Address,
    caller: Address,
    now: u64,
    added_chain: U256,
    added_token: Address,
    intent: ProposedIntent,
    balance: U256,
    allowance: U256,
)
    requires
        s.supports_chain(chain_id),
        s.supports_token(token),
    ensures
        s.add_supported_chain(caller, now, added_chain).0.supports_chain(chain_id),
        s.add_supported_chain(caller, now, added_chain).0.supports_token(token),
        s.add_supported_token(caller, now, added_token).0.supports_chain(chain_id),
        s.add_supported_token(caller, now, added_token).0.supports_token(token),
        s.validate_intent(intent, balance, allowance).0.supports_chain(chain_id),
        s.validate_intent(intent, balance, allowance).0.supports_token(token),
        s.init(caller).0.supports_chain(chain_id),
        s.init(caller).0.supports_token(token),
{
}

/// Once both services have answered, `validation_step` and
/// `validate_intent` agree: the step accepts where the call succeeds, and
/// rejects with the error that the call returns.
pub proof fn lemma_step_agrees_with_validation(
    s: ValidatorState,
    intent: ProposedIntent,
    balance: U256,
    allowance: U256,
)
    ensures
        match s.validate_intent(intent, balance, allowance).1 {
            Ok(valid) => valid && s.validation_step(intent, Some(balance), Some(allowance))
                == ValidationStep::Accept,
            Err(error) => s.validation_step(intent, Some(balance), Some(allowance))
                == ValidationStep::Reject(error),
        },
{
}

} // verus!
