//! Limits, roles, vault kinds, compliance codes and layout versions of the
//! program.

use vstd::prelude::*;

verus! {

/// Highest protocol fee, in basis points, that the admin may configure.
pub const MAX_PROTOCOL_FEE_BPS: u16 = 1_000;

/// Highest per-wallet ticket cap that the admin may configure.
pub const MAX_MAX_TICKETS_PER_WALLET: u16 = 100;

/// Longest organizer metadata URI, in bytes.
pub const MAX_ORGANIZER_METADATA_URI_LEN: usize = 200;

/// Longest event title, in bytes.
pub const MAX_EVENT_TITLE_LEN: usize = 64;

/// Longest event venue, in bytes.
pub const MAX_EVENT_VENUE_LEN: usize = 128;

/// Longest ticket class name, in bytes.
pub const MAX_TICKET_CLASS_NAME_LEN: usize = 32;

/// Longest ticket metadata URI, in bytes.
pub const MAX_TICKET_METADATA_URI_LEN: usize = 200;

/// Longest gate identifier, in bytes.
pub const MAX_GATE_IDENTIFIER_LEN: usize = 32;

/// Longest loyalty perk code, in bytes.
pub const MAX_PERK_CODE_LEN: usize = 32;

/// Highest loyalty multiplier, in basis points.
pub const MAX_LOYALTY_MULTIPLIER_BPS: u16 = 50_000;

/// Neutral loyalty multiplier (one whole), in basis points.
pub const DEFAULT_LOYALTY_MULTIPLIER_BPS: u16 = 10_000;

/// Highest abuse flag word that may be raised.
pub const MAX_TRUST_FLAG_BITS: u32 = 0xffff;

/// Longest resale whitelist or blacklist.
pub const MAX_RESALE_RECIPIENT_LIST_LEN: usize = 16;

/// Longest list in a compliance registry.
pub const MAX_COMPLIANCE_REGISTRY_ENTRIES: usize = 32;

/// Operator permission to check tickets in.
pub const OPERATOR_PERMISSION_CHECKIN: u32 = 1;

/// Layout version of accounts written before versioning was introduced.
pub const SCHEMA_VERSION_V0: u16 = 0;

/// Current layout version of event accounts.
pub const EVENT_ACCOUNT_SCHEMA_VERSION: u16 = 1;

/// Current layout version of ticket accounts.
pub const TICKET_ACCOUNT_SCHEMA_VERSION: u16 = 1;

/// Current layout version of resale policies.
pub const RESALE_POLICY_SCHEMA_VERSION: u16 = 1;

/// Current layout version of loyalty ledgers.
pub const LOYALTY_LEDGER_SCHEMA_VERSION: u16 = 1;

/// Role scopes.
pub const ROLE_SCOPE_PROTOCOL: u8 = 1;
pub const ROLE_SCOPE_ORGANIZER: u8 = 2;

/// Roles.
pub const ROLE_PROTOCOL_ADMIN: u8 = 1;
pub const ROLE_ORGANIZER_ADMIN: u8 = 2;
pub const ROLE_OPERATOR: u8 = 3;
pub const ROLE_SCANNER: u8 = 4;

/// Vault kinds.
pub const VAULT_KIND_PROTOCOL: u8 = 1;
pub const VAULT_KIND_ORGANIZER: u8 = 2;
pub const VAULT_KIND_EVENT: u8 = 3;
pub const VAULT_KIND_FINANCING: u8 = 4;

/// Flows that compliance is evaluated for.
pub const COMPLIANCE_FLOW_PRIMARY_SALE: u8 = 1;
pub const COMPLIANCE_FLOW_RESALE: u8 = 2;
pub const COMPLIANCE_FLOW_FINANCING: u8 = 3;

/// Event restriction flags.
pub const COMPLIANCE_FLAG_BLOCK_PRIMARY: u32 = 1;
pub const COMPLIANCE_FLAG_BLOCK_RESALE: u32 = 2;
pub const COMPLIANCE_FLAG_BLOCK_FINANCING: u32 = 4;
pub const COMPLIANCE_FLAG_REQUIRE_ALLOWLIST: u32 = 8;
pub const COMPLIANCE_FLAG_JURISDICTION_RESTRICTED: u32 = 16;

/// Compliance decisions.
pub const COMPLIANCE_DECISION_ALLOW: u16 = 0;
pub const COMPLIANCE_DECISION_BLOCK_PRIMARY: u16 = 1;
pub const COMPLIANCE_DECISION_BLOCK_RESALE: u16 = 2;
pub const COMPLIANCE_DECISION_BLOCK_FINANCING: u16 = 3;
pub const COMPLIANCE_DECISION_DENYLISTED: u16 = 4;
pub const COMPLIANCE_DECISION_ENTITY_DENIED: u16 = 5;
pub const COMPLIANCE_DECISION_MISSING_ALLOWLIST: u16 = 6;
pub const COMPLIANCE_DECISION_JURISDICTION_RESTRICTED: u16 = 7;

/// Compliance registry scopes.
pub const COMPLIANCE_SCOPE_PROTOCOL: u8 = 1;
pub const COMPLIANCE_SCOPE_EVENT: u8 = 2;

/// Compliance registry lists.
pub const COMPLIANCE_LIST_ALLOW: u8 = 1;
pub const COMPLIANCE_LIST_DENY: u8 = 2;
pub const COMPLIANCE_LIST_ENTITY_DENY: u8 = 3;

/// Why a resale listing was closed.
pub const LISTING_CLOSE_CANCELED: u8 = 1;
pub const LISTING_CLOSE_SOLD: u8 = 2;
pub const LISTING_CLOSE_EXPIRED: u8 = 3;

} // verus!
