//! The orphan block validator: a fail-fast, totally ordered pipeline of
//! stateless checks over a candidate block.
//!
//! The individual rule implementations are collaborators supplied by the
//! surrounding code through [`ConsensusRuleSet`]; this module fixes their
//! signatures, the order in which they run, and the short-circuit
//! composition, and proves that `validate` returns exactly the error of the
//! first failing step.

use vstd::prelude::*;

use crate::blocks::{AggregateBody, Block, ConsensusConstants, TransactionInput, TransactionKernel,
    TransactionOutput};

verus! {

/// One variant per violated rule: the genesis guard, then one for each
/// pipeline step.
#[derive(Clone, Copy, Debug, PartialEq, Eq, Structural)]
pub enum ValidationError {
    /// The candidate has height `0`: genesis is pre-trusted and never
    /// subject to this pipeline.
    ValidatingGenesis,
    /// A versioned substructure of the body is not permitted in this epoch.
    InvalidVersion,
    /// The computed weight of the body exceeds the epoch's maximum.
    BlockTooLarge,
    /// Inputs, outputs or kernels are out of canonical order or duplicated.
    UnsortedOrDuplicateItems,
    /// An output's declared type is not in the epoch's allow-list.
    OutputTypeNotPermitted,
    /// A validator-node registration output violates the epoch's rules.
    InvalidValidatorNodeRegistration,
    /// The aggregate burned-value accounting is inconsistent.
    InvalidTotalBurned,
    /// An input is spent before its maturity height.
    ImmatureInput,
    /// A kernel's lock height lies above the candidate height.
    InvalidKernelLockHeight,
    /// An output's feature flags are inconsistent with the rule set.
    InvalidOutputFeatures,
    /// The coinbase output is missing, duplicated or wrongly valued.
    InvalidCoinbase,
    /// The balance equation does not close, or a range proof fails.
    AccountingError,
}

/// `Ok(())` when a check passes, the check's own error when it fails.
pub open spec fn step_result(ok: bool, e: ValidationError) -> Result<(), ValidationError> {
    if ok {
        Ok(())
    } else {
        Err(e)
    }
}

/// The collaborator bundle the validator orchestrates: per-height constants
/// and the eleven rule checks. `F` is the caller's crypto verification
/// factory, an opaque capability bundle handed through to the checks that
/// verify commitments and range proofs.
///
/// Each check is a pure function of its arguments; the `spec` functions are
/// each implementation's own statement of when its check passes, and every
/// executable check must return exactly the result those statements dictate.
pub trait ConsensusRuleSet<F>: Sized {
    /// The constants governing the epoch that contains `height`; total over
    /// every height.
    spec fn constants_spec(&self, height: u64) -> ConsensusConstants;

    /// When every versioned substructure of the body is permitted.
    spec fn versions_ok(&self, body: AggregateBody, constants: ConsensusConstants) -> bool;

    /// When the computed weight of the block body is within the limit.
    spec fn weight_ok(&self, block: Block, constants: ConsensusConstants) -> bool;

    /// When inputs, outputs and kernels are canonically sorted and free of
    /// duplicates.
    spec fn sorting_ok(&self, body: AggregateBody) -> bool;

    /// When one output's declared type is in the epoch's allow-list.
    spec fn output_type_ok(&self, constants: ConsensusConstants, output: TransactionOutput) -> bool;

    /// When one output's validator-node registration payload, if any,
    /// satisfies the epoch's rules.
    spec fn vn_registration_ok(
        &self,
        constants: ConsensusConstants,
        output: TransactionOutput,
    ) -> bool;

    /// When the aggregate burned-value accounting is consistent.
    spec fn total_burned_ok(&self, body: AggregateBody) -> bool;

    /// When every input has reached its maturity at `height`.
    spec fn maturity_ok(&self, height: u64, inputs: Seq<TransactionInput>) -> bool;

    /// When every kernel's lock height is at most `height`.
    spec fn kernel_locks_ok(&self, height: u64, kernels: Seq<TransactionKernel>) -> bool;

    /// When the outputs' feature flags are consistent with the rule set.
    spec fn output_features_ok(&self, block: Block) -> bool;

    /// When exactly one correctly valued coinbase output exists.
    spec fn coinbase_ok(&self, block: Block, factories: F) -> bool;

    /// When the block's value balance equation closes.
    spec fn balance_ok(&self, block: Block, factories: F) -> bool;

    /// When every output's range proof verifies.
    spec fn range_proofs_ok(&self, block: Block, factories: F) -> bool;

    /// Look up the constants for the epoch containing `height`; never fails.
    fn consensus_constants(&self, height: u64) -> (c: ConsensusConstants)
        ensures
            c == self.constants_spec(height),
    ;

    fn validate_versions(&self, body: &AggregateBody, constants: &ConsensusConstants) -> (r: Result<
        (),
        ValidationError,
    >)
        ensures
            r == step_result(self.versions_ok(*body, *constants), ValidationError::InvalidVersion),
    ;

    fn check_block_weight(&self, block: &Block, constants: &ConsensusConstants) -> (r: Result<
        (),
        ValidationError,
    >)
        ensures
            r == step_result(self.weight_ok(*block, *constants), ValidationError::BlockTooLarge),
    ;

    fn check_sorting_and_duplicates(&self, body: &AggregateBody) -> (r: Result<
        (),
        ValidationError,
    >)
        ensures
            r == step_result(self.sorting_ok(*body), ValidationError::UnsortedOrDuplicateItems),
    ;

    fn check_permitted_output_types(
        &self,
        constants: &ConsensusConstants,
        output: &TransactionOutput,
    ) -> (r: Result<(), ValidationError>)
        ensures
            r == step_result(
                self.output_type_ok(*constants, *output),
                ValidationError::OutputTypeNotPermitted,
            ),
    ;

    fn check_validator_node_registration_utxo(
        &self,
        constants: &ConsensusConstants,
        output: &TransactionOutput,
    ) -> (r: Result<(), ValidationError>)
        ensures
            r == step_result(
                self.vn_registration_ok(*constants, *output),
                ValidationError::InvalidValidatorNodeRegistration,
            ),
    ;

    fn check_total_burned(&self, body: &AggregateBody) -> (r: Result<(), ValidationError>)
        ensures
            r == step_result(self.total_burned_ok(*body), ValidationError::InvalidTotalBurned),
    ;

    fn check_maturity(&self, height: u64, inputs: &Vec<TransactionInput>) -> (r: Result<
        (),
        ValidationError,
    >)
        ensures
            r == step_result(self.maturity_ok(height, inputs@), ValidationError::ImmatureInput),
    ;

    fn check_kernel_lock_height(&self, height: u64, kernels: &Vec<TransactionKernel>) -> (r: Result<
        (),
        ValidationError,
    >)
        ensures
            r == step_result(
                self.kernel_locks_ok(height, kernels@),
                ValidationError::InvalidKernelLockHeight,
            ),
    ;

    fn check_output_features(&self, block: &Block) -> (r: Result<(), ValidationError>)
        ensures
            r == step_result(
                self.output_features_ok(*block),
                ValidationError::InvalidOutputFeatures,
            ),
    ;

    fn check_coinbase_output(&self, block: &Block, factories: &F) -> (r: Result<
        (),
        ValidationError,
    >)
        ensures
            r == step_result(
                self.coinbase_ok(*block, *factories),
                ValidationError::InvalidCoinbase,
            ),
    ;

    /// The balance equation must always close; the range proofs are only
    /// required to verify when `bypass_range_proof_verification` is false.
    fn check_accounting_balance(
        &self,
        block: &Block,
        bypass_range_proof_verification: bool,
        factories: &F,
    ) -> (r: Result<(), ValidationError>)
        ensures
            r == step_result(
                self.balance_ok(*block, *factories) && (bypass_range_proof_verification
                    || self.range_proofs_ok(*block, *factories)),
                ValidationError::AccountingError,
            ),
    ;
}

/// The per-output step of the pipeline from output `i` on: for every output
/// in order, the permitted-type check, then the validator-node registration
/// check; the first failure wins.
pub open spec fn spec_check_outputs_from<F, R: ConsensusRuleSet<F>>(
    rules: R,
    constants: ConsensusConstants,
    outputs: Seq<TransactionOutput>,
    i: int,
) -> Result<(), ValidationError>
    decreases outputs.len() - i,
{
    if i >= outputs.len() {
        Ok(())
    } else if !rules.output_type_ok(constants, outputs[i]) {
        Err(ValidationError::OutputTypeNotPermitted)
    } else if !rules.vn_registration_ok(constants, outputs[i]) {
        Err(ValidationError::InvalidValidatorNodeRegistration)
    } else {
        spec_check_outputs_from(rules, constants, outputs, i + 1)
    }
}

/// The whole pipeline: the genesis guard, then the ordered checks, each
/// aborting the rest on failure; `Ok(())` exactly when every step passes.
/// The result is a function of the rule set, the flag, the factories and
/// the block alone, so validation is deterministic and pure.
pub open spec fn spec_validate<F, R: ConsensusRuleSet<F>>(
    rules: R,
    bypass_range_proof_verification: bool,
    factories: F,
    block: Block,
) -> Result<(), ValidationError> {
    let height = block.header.height;
    if height == 0 {
        Err(ValidationError::ValidatingGenesis)
    } else {
        let constants = rules.constants_spec(height);
        let outputs_result = spec_check_outputs_from(rules, constants, block.body.outputs@, 0);
        if !rules.versions_ok(block.body, constants) {
            Err(ValidationError::InvalidVersion)
        } else if !rules.weight_ok(block, constants) {
            Err(ValidationError::BlockTooLarge)
        } else if !rules.sorting_ok(block.body) {
            Err(ValidationError::UnsortedOrDuplicateItems)
        } else if outputs_result is Err {
            outputs_result
        } else if !rules.total_burned_ok(block.body) {
            Err(ValidationError::InvalidTotalBurned)
        } else if !rules.maturity_ok(height, block.body.inputs@) {
            Err(ValidationError::ImmatureInput)
        } else if !rules.kernel_locks_ok(height, block.body.kernels@) {
            Err(ValidationError::InvalidKernelLockHeight)
        } else if !rules.output_features_ok(block) {
            Err(ValidationError::InvalidOutputFeatures)
        } else if !rules.coinbase_ok(block, factories) {
            Err(ValidationError::InvalidCoinbase)
        } else if !(rules.balance_ok(block, factories) && (bypass_range_proof_verification
            || rules.range_proofs_ok(block, factories))) {
            Err(ValidationError::AccountingError)
        } else {
            Ok(())
        }
    }
}

/// Tests whether a candidate block is internally consistent, without any
/// knowledge of the existing chain.
pub struct OrphanBlockValidator<R, F> {
    rules: R,
    bypass_range_proof_verification: bool,
    factories: F,
}

impl<F, R: ConsensusRuleSet<F>> OrphanBlockValidator<R, F> {
    /// The rule set this validator was constructed with.
    pub closed spec fn spec_rules(&self) -> R {
        self.rules
    }

    /// Whether this validator skips the cryptographic range-proof check.
    pub closed spec fn spec_bypass(&self) -> bool {
        self.bypass_range_proof_verification
    }

    /// The crypto verification factories this validator was constructed
    /// with.
    pub closed spec fn spec_factories(&self) -> F {
        self.factories
    }

    pub fn new(rules: R, bypass_range_proof_verification: bool, factories: F) -> (v: Self)
        ensures
            v.spec_rules() == rules,
            v.spec_bypass() == bypass_range_proof_verification,
            v.spec_factories() == factories,
    {
        Self { rules, bypass_range_proof_verification, factories }
    }

    /// Run the ordered, fail-fast pipeline over `block`: the error of the
    /// first failing step, or `Ok(())` when every step passes. The result
    /// depends on nothing but the arguments, and nothing is mutated.
    pub fn validate(&self, block: &Block) -> (r: Result<(), ValidationError>)
        ensures
            r == spec_validate(self.spec_rules(), self.spec_bypass(), self.spec_factories(), *block),
    {
        let height: u64 = block.header.height;
        if height == 0 {
            return Err(ValidationError::ValidatingGenesis);
        }
        let constants = self.rules.consensus_constants(height);

        match self.rules.validate_versions(&block.body, &constants) {
            Err(e) => { return Err(e); },
            Ok(()) => {},
        }
        match self.rules.check_block_weight(block, &constants) {
            Err(e) => { return Err(e); },
            Ok(()) => {},
        }
        match self.rules.check_sorting_and_duplicates(&block.body) {
            Err(e) => { return Err(e); },
            Ok(()) => {},
        }

        let mut i: usize = 0;
        while i < block.body.outputs.len()
            invariant
                i <= block.body.outputs@.len(),
                block.header.height != 0,
                constants == self.spec_rules().constants_spec(block.header.height),
                self.spec_rules().versions_ok(block.body, constants),
                self.spec_rules().weight_ok(*block, constants),
                self.spec_rules().sorting_ok(block.body),
                spec_check_outputs_from(self.spec_rules(), constants, block.body.outputs@, 0)
                    == spec_check_outputs_from(
                    self.spec_rules(),
                    constants,
                    block.body.outputs@,
                    i as int,
                ),
            decreases block.body.outputs@.len() - i,
        {
            let output = &block.body.outputs[i];
            match self.rules.check_permitted_output_types(&constants, output) {
                Err(e) => { return Err(e); },
                Ok(()) => {},
            }
            match self.rules.check_validator_node_registration_utxo(&constants, output) {
                Err(e) => { return Err(e); },
                Ok(()) => {},
            }
            i += 1;
        }

        match self.rules.check_total_burned(&block.body) {
            Err(e) => { return Err(e); },
            Ok(()) => {},
        }
        match self.rules.check_maturity(height, &block.body.inputs) {
            Err(e) => { return Err(e); },
            Ok(()) => {},
        }
        match self.rules.check_kernel_lock_height(height, &block.body.kernels) {
            Err(e) => { return Err(e); },
            Ok(()) => {},
        }
        match self.rules.check_output_features(block) {
            Err(e) => { return Err(e); },
            Ok(()) => {},
        }
        match self.rules.check_coinbase_output(block, &self.factories) {
            Err(e) => { return Err(e); },
            Ok(()) => {},
        }
        match self.rules.check_accounting_balance(
            block,
            self.bypass_range_proof_verification,
            &self.factories,
        ) {
            Err(e) => { return Err(e); },
            Ok(()) => {},
        }

        Ok(())
    }
}

/// Genesis guard: a candidate of height `0` is rejected with
/// `ValidatingGenesis`, whatever else holds of the block, the rule set, the
/// flag or the factories.
pub proof fn lemma_genesis_guard<F, R: ConsensusRuleSet<F>>(
    rules: R,
    bypass_range_proof_verification: bool,
    factories: F,
    block: Block,
)
    requires
        block.header.height == 0,
    ensures
        spec_validate(rules, bypass_range_proof_verification, factories, block) == Err::<
            (),
            ValidationError,
        >(ValidationError::ValidatingGenesis),
{
}

/// Determinism and purity: validation of a block is a function of the rule
/// set, the bypass flag, the factories and the block alone, so any two runs
/// over the same collaborator state and block yield the same result.
pub proof fn lemma_validate_deterministic<F, R: ConsensusRuleSet<F>>(
    rules: R,
    bypass_range_proof_verification: bool,
    factories: F,
    block: Block,
    r1: Result<(), ValidationError>,
    r2: Result<(), ValidationError>,
)
    requires
        r1 == spec_validate(rules, bypass_range_proof_verification, factories, block),
        r2 == spec_validate(rules, bypass_range_proof_verification, factories, block),
    ensures
        r1 == r2,
{
}

/// Fail-fast ordering: when the weight check fails on a non-genesis block
/// that passes the version check, the pipeline reports `BlockTooLarge`,
/// whatever any later step — the accounting balance included — would have
/// said.
pub proof fn lemma_weight_error_precedes_accounting<F, R: ConsensusRuleSet<F>>(
    rules: R,
    bypass_range_proof_verification: bool,
    factories: F,
    block: Block,
)
    requires
        block.header.height != 0,
        rules.versions_ok(block.body, rules.constants_spec(block.header.height)),
        !rules.weight_ok(block, rules.constants_spec(block.header.height)),
    ensures
        spec_validate(rules, bypass_range_proof_verification, factories, block) == Err::<
            (),
            ValidationError,
        >(ValidationError::BlockTooLarge),
{
}

/// The bypass flag skips only the range-proof half of the accounting step:
/// on a block that passes every step up to accounting and whose balance
/// closes while some range proof fails, validation succeeds with the flag
/// set and fails with `AccountingError` without it.
pub proof fn lemma_bypass_skips_only_range_proofs<F, R: ConsensusRuleSet<F>>(
    rules: R,
    factories: F,
    block: Block,
)
    requires
        block.header.height != 0,
        rules.versions_ok(block.body, rules.constants_spec(block.header.height)),
        rules.weight_ok(block, rules.constants_spec(block.header.height)),
        rules.sorting_ok(block.body),
        spec_check_outputs_from(
            rules,
            rules.constants_spec(block.header.height),
            block.body.outputs@,
            0,
        ) == Ok::<(), ValidationError>(()),
        rules.total_burned_ok(block.body),
        rules.maturity_ok(block.header.height, block.body.inputs@),
        rules.kernel_locks_ok(block.header.height, block.body.kernels@),
        rules.output_features_ok(block),
        rules.coinbase_ok(block, factories),
        rules.balance_ok(block, factories),
        !rules.range_proofs_ok(block, factories),
    ensures
        spec_validate(rules, true, factories, block) == Ok::<(), ValidationError>(()),
        spec_validate(rules, false, factories, block) == Err::<(), ValidationError>(
            ValidationError::AccountingError,
        ),
{
}

} // verus!
