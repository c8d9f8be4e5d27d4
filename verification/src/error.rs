//! The reasons an instruction is refused.

use vstd::prelude::*;

verus! {

/// Every way an instruction can be refused.
#[derive(Clone, Copy, Debug, PartialEq, Eq, Structural)]
pub enum TicketingError {
    Unauthorized,
    InvalidFeeBps,
    InvalidMaxTicketsPerWallet,
    InvalidAuthority,
    InvalidMetadataUriLength,
    ProtocolPaused,
    InvalidOrganizerStatus,
    OrganizerSuspended,
    InvalidEventTitleLength,
    InvalidEventVenueLength,
    InvalidEventTimeWindow,
    InvalidEventCapacity,
    EventUpdateLocked,
    SalesAlreadyStarted,
    InvalidEventStatusTransition,
    InvalidTicketClassNameLength,
    InvalidTicketClassSupply,
    InvalidTicketClassSaleWindow,
    InvalidTicketClassPurchaseLimit,
    MathOverflow,
    InvalidReserveAmount,
    InsufficientRemainingSupply,
    SaleWindowNotActive,
    PurchaseLimitExceeded,
    InvalidTicketPrice,
    InvalidTicketId,
    InvalidStakeholderWallet,
    IllegalTicketStatusTransition,
    InvalidTicketStatus,
    InvalidTicketMetadataUriLength,
    ResaleDisabled,
    TransferNotAllowed,
    ListingNotActive,
    InvalidResalePrice,
    ListingExceedsMaxMarkup,
    RecipientNotWhitelisted,
    RecipientBlacklisted,
    TransferCooldownActive,
    MaxTransferCountExceeded,
    TransferLockedByEventStart,
    InvalidListingExpiry,
    ListingExpired,
    ListingNotYetExpired,
    InvalidFinancingAdvanceAmount,
    InvalidRepaymentCap,
    InvalidFinancingSchedule,
    InvalidFinancingStatus,
    FinancingTermsLocked,
    FinancingOfferNotAccepted,
    FinancingAlreadyDisbursed,
    FinancingFrozen,
    InvalidDisbursementAmount,
    DisbursementLimitExceeded,
    InvalidDisbursementReference,
    ClawbackNotAllowed,
    DisbursementAlreadyClawedBack,
    InvalidWaterfallBps,
    InvalidSettlementAmount,
    FinancingNotSettled,
    InvalidGateIdentifier,
    TicketAlreadyCheckedIn,
    ReentryNotAllowed,
    ReentryLimitExceeded,
    InvalidRefundAmount,
    RefundNotAllowed,
    InvalidRefundSource,
    TicketDisputed,
    ChargebackRequiresDispute,
    InvalidLoyaltyPoints,
    InvalidLoyaltyReason,
    InvalidLoyaltyMultiplier,
    InsufficientLoyaltyPoints,
    InvalidLoyaltyPerkCode,
    TrustSignalAlreadyRecorded,
    InvalidTrustFlagBits,
    InvalidTrustSchemaVersion,
    InvalidMultisigConfig,
    MultisigSignoffMissing,
    NoPendingConfigChange,
    TimelockNotReady,
    NoUpgradeHandoffInProgress,
    InvalidPendingUpgradeAuthority,
    UpgradeHandoffNotReady,
    EmergencyRequiresPausedProtocol,
    InvalidComplianceScope,
    InvalidComplianceListType,
    ComplianceRegistryFull,
    InvalidRole,
    InvalidRoleScope,
    InvalidRoleGrantWindow,
    RoleNotActive,
    InvalidVaultKind,
    InvalidVaultParent,
    InsufficientVaultBalance,
    AccountSizeMismatch,
    EventPaused,
    InvalidSettlementReference,
    SettlementInProgress,
    ProgramAddressNotFound,
}

} // verus!
