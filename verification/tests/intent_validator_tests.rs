use swoosh_contracts::address::Address;
use swoosh_contracts::intent_validator::{
    IntentValidator, IntentValidatorError, ProposedIntent, ValidationStep, ValidatorEvent,
};
use swoosh_contracts::word::U256;

// Helper function to create test addresses
fn test_address(n: u8) -> Address {
    Address::from_bytes([n; 20])
}

const OWNER: u8 = 9;

// A validator owned by `OWNER` that supports chain 42161 and token 2.
fn ready_validator() -> IntentValidator {
    let mut validator = IntentValidator::new();
    validator.init(test_address(OWNER)).unwrap();
    validator.add_supported_chain(test_address(OWNER), 100, U256::from_u64(42161)).unwrap();
    validator.add_supported_token(test_address(OWNER), 101, test_address(2)).unwrap();
    validator
}

#[test]
fn test_add_supported_chain() {
    // Test adding a valid chain ID
    let chain_id = U256::from_u64(42161); // Arbitrum
    assert_ne!(chain_id, U256::zero(), "Chain ID should not be zero");

    let mut validator = IntentValidator::new();
    validator.init(test_address(OWNER)).unwrap();
    assert!(!validator.is_chain_supported(chain_id));
    assert_eq!(validator.add_supported_chain(test_address(OWNER), 7, chain_id), Ok(()));
    assert!(validator.is_chain_supported(chain_id));
    assert_eq!(
        validator.events,
        vec![ValidatorEvent::ChainAdded { chain_id, timestamp: U256::from_u64(7) }]
    );
}

#[test]
fn test_add_supported_token() {
    // Test adding a valid token address
    let token = test_address(1);
    assert_ne!(token, Address::zero(), "Token address should not be zero");

    let mut validator = IntentValidator::new();
    validator.init(test_address(OWNER)).unwrap();
    assert!(!validator.is_token_supported(token));
    assert_eq!(validator.add_supported_token(test_address(OWNER), 8, token), Ok(()));
    assert!(validator.is_token_supported(token));
    assert_eq!(
        validator.events,
        vec![ValidatorEvent::TokenAdded { token, timestamp: U256::from_u64(8) }]
    );
}

#[test]
fn test_validate_intent_zero_amount() {
    // Test that zero amount is rejected
    let amount = U256::zero();
    assert_eq!(amount, U256::zero(), "Zero amount should be detected");

    let mut validator = ready_validator();
    let events_before = validator.events.len();
    let result = validator.validate_intent(
        test_address(1),
        test_address(2),
        amount,
        U256::from_u64(42161),
        test_address(3),
        U256::from_u64(1000),
        U256::from_u64(1000),
    );
    assert_eq!(result, Err(IntentValidatorError::InvalidAmount));
    assert_eq!(validator.events.len(), events_before);
}

#[test]
fn test_validate_intent_zero_address() {
    // Test that zero addresses are rejected
    let user = Address::zero();
    let token = test_address(1);
    let spender = test_address(2);

    assert_eq!(user, Address::zero(), "Zero user address should be detected");
    assert_ne!(token, Address::zero(), "Valid token address");
    assert_ne!(spender, Address::zero(), "Valid spender address");

    let mut validator = ready_validator();
    let result = validator.validate_intent(
        user,
        token,
        U256::from_u64(1000),
        U256::from_u64(42161),
        spender,
        U256::from_u64(1000),
        U256::from_u64(1000),
    );
    assert_eq!(result, Err(IntentValidatorError::InvalidAddress));
}

#[test]
fn test_validate_intent_valid_params() {
    // Test with all valid parameters
    let user = test_address(1);
    let token = test_address(2);
    let spender = test_address(3);
    let amount = U256::from_u64(1000);
    let destination_chain = U256::from_u64(42161);

    assert_ne!(user, Address::zero(), "Valid user address");
    assert_ne!(token, Address::zero(), "Valid token address");
    assert_ne!(spender, Address::zero(), "Valid spender address");
    assert!(amount.gt(&U256::zero()), "Valid amount");
    assert!(destination_chain.gt(&U256::zero()), "Valid chain ID");

    let mut validator = ready_validator();
    let events_before = validator.events.len();
    let result = validator.validate_intent(
        user,
        token,
        amount,
        destination_chain,
        spender,
        U256::from_u64(1000),
        U256::from_u64(1000),
    );
    assert_eq!(result, Ok(true));
    assert_eq!(validator.events.len(), events_before + 1);
    assert_eq!(
        validator.events.last(),
        Some(&ValidatorEvent::IntentValidated { user, token, amount, destination_chain })
    );
}

#[test]
fn test_check_allowance_zero_addresses() {
    // Test that zero addresses are rejected in allowance check
    let user = Address::zero();
    let token = test_address(1);
    let spender = test_address(2);

    assert_eq!(user, Address::zero(), "Zero address should be detected");

    let validator = ready_validator();
    let reported = U256::from_u64(55);
    assert_eq!(
        validator.check_allowance(user, token, spender, reported),
        Err(IntentValidatorError::InvalidAddress)
    );
    assert_eq!(
        validator.check_allowance(token, user, spender, reported),
        Err(IntentValidatorError::InvalidAddress)
    );
    assert_eq!(
        validator.check_allowance(token, spender, user, reported),
        Err(IntentValidatorError::InvalidAddress)
    );
}

#[test]
fn test_check_allowance_valid() {
    // Test with valid addresses
    let user = test_address(1);
    let token = test_address(2);
    let spender = test_address(3);

    assert_ne!(user, Address::zero(), "Valid user address");
    assert_ne!(token, Address::zero(), "Valid token address");
    assert_ne!(spender, Address::zero(), "Valid spender address");

    let validator = ready_validator();
    assert_eq!(
        validator.check_allowance(user, token, spender, U256::from_u64(55)),
        Ok(U256::from_u64(55))
    );
}

#[test]
fn test_chain_id_validation() {
    // Test various chain IDs
    let arbitrum = U256::from_u64(42161);
    let base = U256::from_u64(8453);
    let optimism = U256::from_u64(10);
    let invalid = U256::zero();

    assert!(arbitrum.gt(&U256::zero()), "Arbitrum chain ID valid");
    assert!(base.gt(&U256::zero()), "Base chain ID valid");
    assert!(optimism.gt(&U256::zero()), "Optimism chain ID valid");
    assert_eq!(invalid, U256::zero(), "Invalid chain ID");

    let owner = test_address(OWNER);
    let mut validator = IntentValidator::new();
    validator.init(owner).unwrap();
    assert_eq!(validator.add_supported_chain(owner, 1, arbitrum), Ok(()));
    assert_eq!(validator.add_supported_chain(owner, 2, base), Ok(()));
    assert_eq!(validator.add_supported_chain(owner, 3, optimism), Ok(()));
    assert_eq!(
        validator.add_supported_chain(owner, 4, invalid),
        Err(IntentValidatorError::InvalidAmount)
    );
    assert!(validator.is_chain_supported(arbitrum));
    assert!(validator.is_chain_supported(base));
    assert!(validator.is_chain_supported(optimism));
    assert!(!validator.is_chain_supported(invalid));
    assert_eq!(validator.events.len(), 3);
}

#[test]
fn test_token_address_validation() {
    // Test token address validation
    let valid_token = test_address(1);
    let zero_token = Address::zero();

    assert_ne!(valid_token, Address::zero(), "Valid token address");
    assert_eq!(zero_token, Address::zero(), "Zero token address");

    let owner = test_address(OWNER);
    let mut validator = IntentValidator::new();
    validator.init(owner).unwrap();
    assert_eq!(validator.add_supported_token(owner, 1, valid_token), Ok(()));
    assert_eq!(
        validator.add_supported_token(owner, 2, zero_token),
        Err(IntentValidatorError::InvalidAddress)
    );
    assert!(validator.is_token_supported(valid_token));
    assert!(!validator.is_token_supported(zero_token));
}

#[test]
fn test_amount_boundaries() {
    // Test amount edge cases
    let zero = U256::zero();
    let one = U256::from_u64(1);
    let large = U256::max_value();

    assert_eq!(zero, U256::zero(), "Zero amount");
    assert!(one.gt(&U256::zero()), "Minimum valid amount");
    assert!(large.gt(&U256::zero()), "Maximum amount");

    let user = test_address(1);
    let token = test_address(2);
    let spender = test_address(3);
    let chain = U256::from_u64(42161);
    let mut validator = ready_validator();
    assert_eq!(
        validator.validate_intent(user, token, zero, chain, spender, large, large),
        Err(IntentValidatorError::InvalidAmount)
    );
    assert_eq!(validator.validate_intent(user, token, one, chain, spender, one, one), Ok(true));
    assert_eq!(
        validator.validate_intent(user, token, large, chain, spender, large, large),
        Ok(true)
    );
    assert_eq!(
        validator.validate_intent(user, token, large, chain, spender, one, large),
        Err(IntentValidatorError::InsufficientBalance)
    );
    assert_eq!(
        validator.validate_intent(user, token, large, chain, spender, large, one),
        Err(IntentValidatorError::InsufficientAllowance)
    );
}

#[test]
fn validate_reports_the_first_failing_check() {
    let user = test_address(1);
    let token = test_address(2);
    let spender = test_address(3);
    let chain = U256::from_u64(42161);
    let amount = U256::from_u64(1000);
    let short = U256::from_u64(999);
    let mut validator = ready_validator();
    let null = Address::zero();

    // Everything is wrong at once: the amount is looked at first.
    assert_eq!(
        validator.validate_intent(null, null, U256::zero(), U256::from_u64(5), null, short, short),
        Err(IntentValidatorError::InvalidAmount)
    );
    // Then the principals, each of the three.
    assert_eq!(
        validator.validate_intent(null, token, amount, U256::from_u64(5), spender, short, short),
        Err(IntentValidatorError::InvalidAddress)
    );
    assert_eq!(
        validator.validate_intent(user, null, amount, chain, spender, amount, amount),
        Err(IntentValidatorError::InvalidAddress)
    );
    assert_eq!(
        validator.validate_intent(user, token, amount, chain, null, amount, amount),
        Err(IntentValidatorError::InvalidAddress)
    );
    // Then the chain, before the token.
    assert_eq!(
        validator.validate_intent(user, test_address(4), amount, U256::from_u64(5), spender, short, short),
        Err(IntentValidatorError::UnsupportedChain)
    );
    assert_eq!(
        validator.validate_intent(user, test_address(4), amount, chain, spender, short, short),
        Err(IntentValidatorError::UnsupportedToken)
    );
    // Then the balance, before the allowance.
    assert_eq!(
        validator.validate_intent(user, token, amount, chain, spender, short, short),
        Err(IntentValidatorError::InsufficientBalance)
    );
    assert_eq!(
        validator.validate_intent(user, token, amount, chain, spender, amount, short),
        Err(IntentValidatorError::InsufficientAllowance)
    );
    // No failed validation has notified anyone.
    assert_eq!(validator.events.len(), 2);
}

#[test]
fn validation_scenario_emits_one_notification() {
    let owner = test_address(OWNER);
    let user = test_address(1);
    let token_a = test_address(0xA);
    let spender = test_address(3);
    let mut validator = IntentValidator::new();
    validator.init(owner).unwrap();
    validator.add_supported_chain(owner, 1, U256::from_u64(42161)).unwrap();
    validator.add_supported_token(owner, 2, token_a).unwrap();
    validator.events.clear();

    let result = validator.validate_intent(
        user,
        token_a,
        U256::from_u64(1000),
        U256::from_u64(42161),
        spender,
        U256::from_u64(1000),
        U256::from_u64(1000),
    );
    assert_eq!(result, Ok(true));
    assert_eq!(
        validator.events,
        vec![ValidatorEvent::IntentValidated {
            user,
            token: token_a,
            amount: U256::from_u64(1000),
            destination_chain: U256::from_u64(42161),
        }]
    );
    // A dry run can be repeated: the lists and the owner are untouched.
    assert_eq!(validator.owner(), owner);
    assert!(validator.is_chain_supported(U256::from_u64(42161)));
    assert!(validator.is_token_supported(token_a));
}

#[test]
fn validation_step_asks_for_one_answer_at_a_time() {
    let intent = ProposedIntent {
        user: test_address(1),
        token: test_address(2),
        amount: U256::from_u64(1000),
        destination_chain: U256::from_u64(42161),
        spender: test_address(3),
    };
    let enough = Some(U256::from_u64(1000));
    let short = Some(U256::from_u64(999));
    let validator = ready_validator();

    assert_eq!(validator.validation_step(intent, None, None), ValidationStep::QueryBalance);
    assert_eq!(validator.validation_step(intent, enough, None), ValidationStep::QueryAllowance);
    assert_eq!(validator.validation_step(intent, enough, enough), ValidationStep::Accept);
    assert_eq!(
        validator.validation_step(intent, short, None),
        ValidationStep::Reject(IntentValidatorError::InsufficientBalance)
    );
    assert_eq!(
        validator.validation_step(intent, enough, short),
        ValidationStep::Reject(IntentValidatorError::InsufficientAllowance)
    );
    // No service is asked about a request that is refused on its own terms.
    assert_eq!(
        validator.validation_step(ProposedIntent { amount: U256::zero(), ..intent }, None, None),
        ValidationStep::Reject(IntentValidatorError::InvalidAmount)
    );
    assert_eq!(
        validator.validation_step(ProposedIntent { user: Address::zero(), ..intent }, None, None),
        ValidationStep::Reject(IntentValidatorError::InvalidAddress)
    );
    assert_eq!(
        validator.validation_step(
            ProposedIntent { destination_chain: U256::from_u64(1), ..intent },
            None,
            None
        ),
        ValidationStep::Reject(IntentValidatorError::UnsupportedChain)
    );
    assert_eq!(
        validator.validation_step(ProposedIntent { token: test_address(7), ..intent }, None, None),
        ValidationStep::Reject(IntentValidatorError::UnsupportedToken)
    );
}

#[test]
fn adding_twice_is_idempotent() {
    let owner = test_address(OWNER);
    let chain = U256::from_u64(8453);
    let token = test_address(5);
    let mut validator = IntentValidator::new();
    validator.init(owner).unwrap();

    assert_eq!(validator.add_supported_chain(owner, 1, chain), Ok(()));
    assert!(validator.is_chain_supported(chain));
    assert_eq!(validator.add_supported_chain(owner, 2, chain), Ok(()));
    assert!(validator.is_chain_supported(chain));

    assert_eq!(validator.add_supported_token(owner, 3, token), Ok(()));
    assert!(validator.is_token_supported(token));
    assert_eq!(validator.add_supported_token(owner, 4, token), Ok(()));
    assert!(validator.is_token_supported(token));

    // Each call notifies, the second one too.
    assert_eq!(validator.events.len(), 4);
}

#[test]
fn only_the_owner_extends_the_allow_lists() {
    let owner = test_address(OWNER);
    let stranger = test_address(8);
    let mut validator = IntentValidator::new();
    validator.init(owner).unwrap();
    assert_eq!(validator.owner(), owner);

    assert_eq!(
        validator.add_supported_chain(stranger, 1, U256::from_u64(10)),
        Err(IntentValidatorError::Unauthorized)
    );
    assert_eq!(
        validator.add_supported_token(stranger, 1, test_address(1)),
        Err(IntentValidatorError::Unauthorized)
    );
    // The caller is looked at before the input.
    assert_eq!(
        validator.add_supported_chain(stranger, 1, U256::zero()),
        Err(IntentValidatorError::Unauthorized)
    );
    assert_eq!(
        validator.add_supported_token(stranger, 1, Address::zero()),
        Err(IntentValidatorError::Unauthorized)
    );
    assert!(!validator.is_chain_supported(U256::from_u64(10)));
    assert!(!validator.is_token_supported(test_address(1)));
    assert!(validator.events.is_empty());
}
