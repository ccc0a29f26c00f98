//! The kinds of block items, as the `transactions` table records them.
use vstd::prelude::*;

verus! {

/// The kind of a block item.
#[derive(Clone, Copy, Debug, PartialEq, Eq, Structural)]
pub enum DbTransactionType {
    Account,
    CredentialDeployment,
    Update,
}

/// The kind of an account transaction.
#[derive(Clone, Copy, Debug, PartialEq, Eq, Structural)]
pub enum AccountTransactionType {
    DeployModule,
    InitContract,
    Update,
    Transfer,
    AddBaker,
    RemoveBaker,
    UpdateBakerStake,
    UpdateBakerRestakeEarnings,
    UpdateBakerKeys,
    UpdateCredentialKeys,
    EncryptedAmountTransfer,
    TransferToEncrypted,
    TransferToPublic,
    TransferWithSchedule,
    UpdateCredentials,
    RegisterData,
    TransferWithMemo,
    EncryptedAmountTransferWithMemo,
    TransferWithScheduleAndMemo,
    ConfigureBaker,
    ConfigureDelegation,
}

/// The kind of a credential that an account creation deploys.
#[derive(Clone, Copy, Debug, PartialEq, Eq, Structural)]
pub enum CredentialDeploymentTransactionType {
    Initial,
    Normal,
}

/// The kind of a chain update.
#[derive(Clone, Copy, Debug, PartialEq, Eq, Structural)]
pub enum UpdateTransactionType {
    UpdateProtocol,
    UpdateElectionDifficulty,
    UpdateEuroPerEnergy,
    UpdateMicroGtuPerEuro,
    UpdateFoundationAccount,
    UpdateMintDistribution,
    UpdateTransactionFeeDistribution,
    UpdateGasRewards,
    UpdateAddAnonymityRevoker,
    UpdateAddIdentityProvider,
    UpdateRootKeys,
    UpdateLevel1Keys,
    UpdateLevel2Keys,
    UpdatePoolParameters,
    UpdateCooldownParameters,
    UpdateTimeParameters,
    UpdateGasRewardsCpv2,
    UpdateTimeoutParameters,
    UpdateMinBlockTime,
    UpdateBlockEnergyLimit,
    UpdateFinalizationCommitteeParameters,
}

/// The account transaction kinds that concern a baker.
pub open spec fn is_baker_transaction(t: AccountTransactionType) -> bool {
    ||| t == AccountTransactionType::AddBaker
    ||| t == AccountTransactionType::RemoveBaker
    ||| t == AccountTransactionType::UpdateBakerStake
    ||| t == AccountTransactionType::UpdateBakerRestakeEarnings
    ||| t == AccountTransactionType::UpdateBakerKeys
    ||| t == AccountTransactionType::ConfigureBaker
}

/// The account transaction kinds that `Baker.transactions` lists.
pub fn baker_transaction_types() -> (r: Vec<AccountTransactionType>)
    ensures
        forall|t: AccountTransactionType| r@.contains(t) <==> is_baker_transaction(t),
        r@.len() == 6,
{
    let r = vec![
        AccountTransactionType::AddBaker,
        AccountTransactionType::RemoveBaker,
        AccountTransactionType::UpdateBakerStake,
        AccountTransactionType::UpdateBakerRestakeEarnings,
        AccountTransactionType::UpdateBakerKeys,
        AccountTransactionType::ConfigureBaker,
    ];
    assert forall|t: AccountTransactionType| r@.contains(t) <==> is_baker_transaction(t) by {
        if is_baker_transaction(t) {
            if t == AccountTransactionType::AddBaker { assert(r@[0] == t); }
            if t == AccountTransactionType::RemoveBaker { assert(r@[1] == t); }
            if t == AccountTransactionType::UpdateBakerStake { assert(r@[2] == t); }
            if t == AccountTransactionType::UpdateBakerRestakeEarnings { assert(r@[3] == t); }
            if t == AccountTransactionType::UpdateBakerKeys { assert(r@[4] == t); }
            if t == AccountTransactionType::ConfigureBaker { assert(r@[5] == t); }
        }
    }
    r
}

} // verus!
