//! A minimal, height-independent rule set implementing
//! [`ConsensusRuleSet`]. The arithmetic checks — block weight, permitted
//! output types, input maturity and kernel lock heights — are computed from
//! the block's plain values; the structural and cryptographic verdicts,
//! which real deployments delegate to dedicated rule implementations and a
//! crypto factory, are fixed at construction. It needs no crypto
//! capability, so its factory type is `()`.

use vstd::prelude::*;

use crate::blocks::{AggregateBody, Block, ConsensusConstants, TransactionInput, TransactionKernel,
    TransactionOutput};
use crate::validation::{ConsensusRuleSet, ValidationError};

verus! {

/// A rule set whose epoch constants are the same at every height and whose
/// non-arithmetic verdicts are fixed fields.
#[derive(Clone, Copy, Debug)]
pub struct SimpleRuleSet {
    /// The constants returned for every height.
    pub constants: ConsensusConstants,
    /// Verdict of the version check.
    pub versions_valid: bool,
    /// Verdict of the sorting-and-duplicates check.
    pub sorting_valid: bool,
    /// Verdict of the validator-node registration check, for every output.
    pub vn_registrations_valid: bool,
    /// Verdict of the burned-value accounting check.
    pub total_burned_valid: bool,
    /// Verdict of the output-features check.
    pub output_features_valid: bool,
    /// Verdict of the coinbase check.
    pub coinbase_valid: bool,
    /// Verdict of the balance half of the accounting check.
    pub balance_valid: bool,
    /// Verdict of the range-proof half of the accounting check.
    pub range_proofs_valid: bool,
}

impl SimpleRuleSet {
    /// A rule set under which every non-arithmetic check passes.
    pub fn permissive(constants: ConsensusConstants) -> (r: Self)
        ensures
            r == (SimpleRuleSet {
                constants,
                versions_valid: true,
                sorting_valid: true,
                vn_registrations_valid: true,
                total_burned_valid: true,
                output_features_valid: true,
                coinbase_valid: true,
                balance_valid: true,
                range_proofs_valid: true,
            }),
    {
        SimpleRuleSet {
            constants,
            versions_valid: true,
            sorting_valid: true,
            vn_registrations_valid: true,
            total_burned_valid: true,
            output_features_valid: true,
            coinbase_valid: true,
            balance_valid: true,
            range_proofs_valid: true,
        }
    }
}

impl ConsensusRuleSet<()> for SimpleRuleSet {
    open spec fn constants_spec(&self, height: u64) -> ConsensusConstants {
        self.constants
    }

    open spec fn versions_ok(&self, body: AggregateBody, constants: ConsensusConstants) -> bool {
        self.versions_valid
    }

    /// The weight of a body is the number of items it holds.
    open spec fn weight_ok(&self, block: Block, constants: ConsensusConstants) -> bool {
        block.body.inputs@.len() + block.body.outputs@.len() + block.body.kernels@.len()
            <= constants.max_block_weight
    }

    open spec fn sorting_ok(&self, body: AggregateBody) -> bool {
        self.sorting_valid
    }

    /// A type is permitted when its bit is set in the epoch's allow-list.
    open spec fn output_type_ok(
        &self,
        constants: ConsensusConstants,
        output: TransactionOutput,
    ) -> bool {
        output.output_type < 64 && (constants.permitted_output_types >> output.output_type) & 1
            == 1
    }

    open spec fn vn_registration_ok(
        &self,
        constants: ConsensusConstants,
        output: TransactionOutput,
    ) -> bool {
        self.vn_registrations_valid
    }

    open spec fn total_burned_ok(&self, body: AggregateBody) -> bool {
        self.total_burned_valid
    }

    open spec fn maturity_ok(&self, height: u64, inputs: Seq<TransactionInput>) -> bool {
        forall|j: int| 0 <= j < inputs.len() ==> inputs[j].maturity <= height
    }

    open spec fn kernel_locks_ok(&self, height: u64, kernels: Seq<TransactionKernel>) -> bool {
        forall|j: int| 0 <= j < kernels.len() ==> kernels[j].lock_height <= height
    }

    open spec fn output_features_ok(&self, block: Block) -> bool {
        self.output_features_valid
    }

    open spec fn coinbase_ok(&self, block: Block, factories: ()) -> bool {
        self.coinbase_valid
    }

    open spec fn balance_ok(&self, block: Block, factories: ()) -> bool {
        self.balance_valid
    }

    open spec fn range_proofs_ok(&self, block: Block, factories: ()) -> bool {
        self.range_proofs_valid
    }

    fn consensus_constants(&self, height: u64) -> (c: ConsensusConstants) {
        self.constants
    }

    fn validate_versions(&self, body: &AggregateBody, constants: &ConsensusConstants) -> (r: Result<
        (),
        ValidationError,
    >) {
        if self.versions_valid {
            Ok(())
        } else {
            Err(ValidationError::InvalidVersion)
        }
    }

    fn check_block_weight(&self, block: &Block, constants: &ConsensusConstants) -> (r: Result<
        (),
        ValidationError,
    >) {
        let weight: u128 = block.body.inputs.len() as u128 + block.body.outputs.len() as u128
            + block.body.kernels.len() as u128;
        if weight <= constants.max_block_weight as u128 {
            Ok(())
        } else {
            Err(ValidationError::BlockTooLarge)
        }
    }

    fn check_sorting_and_duplicates(&self, body: &AggregateBody) -> (r: Result<
        (),
        ValidationError,
    >) {
        if self.sorting_valid {
            Ok(())
        } else {
            Err(ValidationError::UnsortedOrDuplicateItems)
        }
    }

    fn check_permitted_output_types(
        &self,
        constants: &ConsensusConstants,
        output: &TransactionOutput,
    ) -> (r: Result<(), ValidationError>) {
        if output.output_type < 64 && (constants.permitted_output_types >> output.output_type) & 1
            == 1 {
            Ok(())
        } else {
            Err(ValidationError::OutputTypeNotPermitted)
        }
    }

    fn check_validator_node_registration_utxo(
        &self,
        constants: &ConsensusConstants,
        output: &TransactionOutput,
    ) -> (r: Result<(), ValidationError>) {
        if self.vn_registrations_valid {
            Ok(())
        } else {
            Err(ValidationError::InvalidValidatorNodeRegistration)
        }
    }

    fn check_total_burned(&self, body: &AggregateBody) -> (r: Result<(), ValidationError>) {
        if self.total_burned_valid {
            Ok(())
        } else {
            Err(ValidationError::InvalidTotalBurned)
        }
    }

    fn check_maturity(&self, height: u64, inputs: &Vec<TransactionInput>) -> (r: Result<
        (),
        ValidationError,
    >) {
        let mut i: usize = 0;
        while i < inputs.len()
            invariant
                i <= inputs@.len(),
                forall|j: int| 0 <= j < i ==> inputs@[j].maturity <= height,
            decreases inputs@.len() - i,
        {
            if inputs[i].maturity > height {
                return Err(ValidationError::ImmatureInput);
            }
            i += 1;
        }
        Ok(())
    }

    fn check_kernel_lock_height(&self, height: u64, kernels: &Vec<TransactionKernel>) -> (r: Result<
        (),
        ValidationError,
    >) {
        let mut i: usize = 0;
        while i < kernels.len()
            invariant
                i <= kernels@.len(),
                forall|j: int| 0 <= j < i ==> kernels@[j].lock_height <= height,
            decreases kernels@.len() - i,
        {
            if kernels[i].lock_height > height {
                return Err(ValidationError::InvalidKernelLockHeight);
            }
            i += 1;
        }
        Ok(())
    }

    fn check_output_features(&self, block: &Block) -> (r: Result<(), ValidationError>) {
        if self.output_features_valid {
            Ok(())
        } else {
            Err(ValidationError::InvalidOutputFeatures)
        }
    }

    fn check_coinbase_output(&self, block: &Block, factories: &()) -> (r: Result<
        (),
        ValidationError,
    >) {
        if self.coinbase_valid {
            Ok(())
        } else {
            Err(ValidationError::InvalidCoinbase)
        }
    }

    fn check_accounting_balance(
        &self,
        block: &Block,
        bypass_range_proof_verification: bool,
        factories: &(),
    ) -> (r: Result<(), ValidationError>) {
        if self.balance_valid && (bypass_range_proof_verification || self.range_proofs_valid) {
            Ok(())
        } else {
            Err(ValidationError::AccountingError)
        }
    }
}

} // verus!
