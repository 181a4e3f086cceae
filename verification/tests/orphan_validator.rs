use consensus_core::blocks::{
    AggregateBody, Block, BlockHeader, ConsensusConstants, TransactionInput, TransactionKernel,
    TransactionOutput,
};
use consensus_core::simple_rules::SimpleRuleSet;
use consensus_core::validation::{OrphanBlockValidator, ValidationError};

fn constants() -> ConsensusConstants {
    ConsensusConstants {
        max_block_weight: 8,
        // Types 0 and 2 are permitted.
        permitted_output_types: 0b101,
    }
}

fn good_block() -> Block {
    Block {
        header: BlockHeader { height: 10 },
        body: AggregateBody {
            inputs: vec![TransactionInput { maturity: 3 }, TransactionInput { maturity: 10 }],
            outputs: vec![
                TransactionOutput { output_type: 0 },
                TransactionOutput { output_type: 2 },
            ],
            kernels: vec![TransactionKernel { lock_height: 10 }],
        },
    }
}

#[test]
fn valid_block_passes() {
    let validator = OrphanBlockValidator::new(SimpleRuleSet::permissive(constants()), false, ());
    assert_eq!(validator.validate(&good_block()), Ok(()));
}

#[test]
fn genesis_block_is_rejected_whatever_else_holds() {
    let validator = OrphanBlockValidator::new(SimpleRuleSet::permissive(constants()), false, ());
    let mut block = good_block();
    block.header.height = 0;
    assert_eq!(
        validator.validate(&block),
        Err(ValidationError::ValidatingGenesis)
    );

    // Even a block that would fail every other check reports the genesis
    // guard first.
    let mut rules = SimpleRuleSet::permissive(constants());
    rules.versions_valid = false;
    rules.balance_valid = false;
    let validator = OrphanBlockValidator::new(rules, false, ());
    assert_eq!(
        validator.validate(&block),
        Err(ValidationError::ValidatingGenesis)
    );
}

#[test]
fn weight_violation_reported_before_balance_violation() {
    // The block violates both the weight limit and the accounting balance;
    // the pipeline reports the weight error, the earlier step.
    let mut rules = SimpleRuleSet::permissive(ConsensusConstants {
        max_block_weight: 1,
        permitted_output_types: 0b101,
    });
    rules.balance_valid = false;
    let validator = OrphanBlockValidator::new(rules, false, ());
    assert_eq!(
        validator.validate(&good_block()),
        Err(ValidationError::BlockTooLarge)
    );
}

#[test]
fn validate_is_deterministic_and_mutates_nothing() {
    let mut rules = SimpleRuleSet::permissive(constants());
    rules.range_proofs_valid = false;
    let validator = OrphanBlockValidator::new(rules, false, ());
    let block = good_block();
    let first = validator.validate(&block);
    let second = validator.validate(&block);
    assert_eq!(first, second);
    assert_eq!(first, Err(ValidationError::AccountingError));
}

#[test]
fn bypass_flag_skips_only_range_proof_verification() {
    // Balance closes, range proofs are invalid.
    let mut rules = SimpleRuleSet::permissive(constants());
    rules.range_proofs_valid = false;

    let bypassing = OrphanBlockValidator::new(rules, true, ());
    assert_eq!(bypassing.validate(&good_block()), Ok(()));

    let strict = OrphanBlockValidator::new(rules, false, ());
    assert_eq!(
        strict.validate(&good_block()),
        Err(ValidationError::AccountingError)
    );

    // With a broken balance the flag does not help.
    rules.balance_valid = false;
    let bypassing = OrphanBlockValidator::new(rules, true, ());
    assert_eq!(
        bypassing.validate(&good_block()),
        Err(ValidationError::AccountingError)
    );
}

#[test]
fn version_violation_is_reported() {
    let mut rules = SimpleRuleSet::permissive(constants());
    rules.versions_valid = false;
    let validator = OrphanBlockValidator::new(rules, false, ());
    assert_eq!(
        validator.validate(&good_block()),
        Err(ValidationError::InvalidVersion)
    );
}

#[test]
fn sorting_violation_is_reported() {
    let mut rules = SimpleRuleSet::permissive(constants());
    rules.sorting_valid = false;
    let validator = OrphanBlockValidator::new(rules, false, ());
    assert_eq!(
        validator.validate(&good_block()),
        Err(ValidationError::UnsortedOrDuplicateItems)
    );
}

#[test]
fn disallowed_output_type_is_reported() {
    let validator = OrphanBlockValidator::new(SimpleRuleSet::permissive(constants()), false, ());
    let mut block = good_block();
    // Type 1 is not in the allow-list.
    block.body.outputs[1] = TransactionOutput { output_type: 1 };
    assert_eq!(
        validator.validate(&block),
        Err(ValidationError::OutputTypeNotPermitted)
    );

    // A discriminant beyond the mask's width is never permitted.
    block.body.outputs[1] = TransactionOutput { output_type: 64 };
    assert_eq!(
        validator.validate(&block),
        Err(ValidationError::OutputTypeNotPermitted)
    );
}

#[test]
fn output_type_checked_before_registration_for_each_output() {
    // For each output, the permitted-type check runs before the
    // validator-node registration check.
    let mut rules = SimpleRuleSet::permissive(constants());
    rules.vn_registrations_valid = false;
    let validator = OrphanBlockValidator::new(rules, false, ());

    let mut block = good_block();
    block.body.outputs[0] = TransactionOutput { output_type: 1 };
    assert_eq!(
        validator.validate(&block),
        Err(ValidationError::OutputTypeNotPermitted)
    );

    assert_eq!(
        validator.validate(&good_block()),
        Err(ValidationError::InvalidValidatorNodeRegistration)
    );
}

#[test]
fn burned_total_violation_is_reported() {
    let mut rules = SimpleRuleSet::permissive(constants());
    rules.total_burned_valid = false;
    let validator = OrphanBlockValidator::new(rules, false, ());
    assert_eq!(
        validator.validate(&good_block()),
        Err(ValidationError::InvalidTotalBurned)
    );
}

#[test]
fn immature_input_is_reported() {
    let validator = OrphanBlockValidator::new(SimpleRuleSet::permissive(constants()), false, ());
    let mut block = good_block();
    block.body.inputs[1] = TransactionInput { maturity: 11 };
    assert_eq!(
        validator.validate(&block),
        Err(ValidationError::ImmatureInput)
    );
}

#[test]
fn locked_kernel_is_reported() {
    let validator = OrphanBlockValidator::new(SimpleRuleSet::permissive(constants()), false, ());
    let mut block = good_block();
    block.body.kernels[0] = TransactionKernel { lock_height: 11 };
    assert_eq!(
        validator.validate(&block),
        Err(ValidationError::InvalidKernelLockHeight)
    );
}

#[test]
fn output_features_violation_is_reported() {
    let mut rules = SimpleRuleSet::permissive(constants());
    rules.output_features_valid = false;
    let validator = OrphanBlockValidator::new(rules, false, ());
    assert_eq!(
        validator.validate(&good_block()),
        Err(ValidationError::InvalidOutputFeatures)
    );
}

#[test]
fn coinbase_violation_is_reported() {
    let mut rules = SimpleRuleSet::permissive(constants());
    rules.coinbase_valid = false;
    let validator = OrphanBlockValidator::new(rules, false, ());
    assert_eq!(
        validator.validate(&good_block()),
        Err(ValidationError::InvalidCoinbase)
    );
}
