//! Schema migrations of the analytics store that shares this library's data
//! types: each has a name, the statement that creates its table, and the
//! statement that drops what an earlier run left behind.
use vstd::prelude::*;

verus! {

/// One schema migration.
pub trait Migration {
    /// The name under which the migration is recorded once applied.
    spec fn migration_name(&self) -> Seq<char>;

    fn name(&self) -> (r: &'static str)
        ensures
            r@ == self.migration_name(),
    ;

    fn sql(&self) -> &'static str;

    fn cleanup(&self) -> &'static str;
}

pub struct TransactionsMigration;

impl Migration for TransactionsMigration {
    open spec fn migration_name(&self) -> Seq<char> {
        "create_transactions_table"@
    }

    fn name(&self) -> &'static str {
        "create_transactions_table"
    }

    fn sql(&self) -> &'static str {
        r#"
        CREATE TABLE IF NOT EXISTS transactions (
            signature VARCHAR(88) PRIMARY KEY,
            slot BIGINT NOT NULL,
            block_time TIMESTAMP WITH TIME ZONE NOT NULL,
            fee BIGINT NOT NULL,
            status VARCHAR(20) NOT NULL,
            instructions_json JSONB NOT NULL,
            created_at TIMESTAMP WITH TIME ZONE DEFAULT CURRENT_TIMESTAMP
        )
        "#
    }

    fn cleanup(&self) -> &'static str {
        "DROP TABLE IF EXISTS transactions CASCADE"
    }
}

pub struct TokenAccountsMigration;

impl Migration for TokenAccountsMigration {
    open spec fn migration_name(&self) -> Seq<char> {
        "create_token_accounts_table"@
    }

    fn name(&self) -> &'static str {
        "create_token_accounts_table"
    }

    fn sql(&self) -> &'static str {
        r#"
        CREATE TABLE IF NOT EXISTS token_accounts (
            pubkey VARCHAR(44) PRIMARY KEY,
            mint VARCHAR(44) NOT NULL,
            owner VARCHAR(44) NOT NULL,
            amount BIGINT NOT NULL,
            updated_at TIMESTAMP WITH TIME ZONE NOT NULL,
            created_at TIMESTAMP WITH TIME ZONE DEFAULT CURRENT_TIMESTAMP
        )
        "#
    }

    fn cleanup(&self) -> &'static str {
        "DROP TABLE IF EXISTS token_accounts CASCADE"
    }
}

pub struct PriceHistoryMigration;

impl Migration for PriceHistoryMigration {
    open spec fn migration_name(&self) -> Seq<char> {
        "create_price_history_table"@
    }

    fn name(&self) -> &'static str {
        "create_price_history_table"
    }

    fn sql(&self) -> &'static str {
        r#"
        CREATE TABLE IF NOT EXISTS price_history (
            id UUID PRIMARY KEY,
            token_mint VARCHAR(44) NOT NULL,
            price_usd DOUBLE PRECISION NOT NULL,
            timestamp TIMESTAMP WITH TIME ZONE NOT NULL,
            source VARCHAR(50) NOT NULL,
            created_at TIMESTAMP WITH TIME ZONE DEFAULT CURRENT_TIMESTAMP
        )
        "#
    }

    fn cleanup(&self) -> &'static str {
        "DROP TABLE IF EXISTS price_history CASCADE"
    }
}

pub struct ProtocolInteractionsMigration;

impl Migration for ProtocolInteractionsMigration {
    open spec fn migration_name(&self) -> Seq<char> {
        "create_protocol_interactions_table"@
    }

    fn name(&self) -> &'static str {
        "create_protocol_interactions_table"
    }

    fn sql(&self) -> &'static str {
        r#"
        CREATE TABLE IF NOT EXISTS protocol_interactions (
            id UUID PRIMARY KEY,
            wallet VARCHAR(44) NOT NULL,
            protocol VARCHAR(50) NOT NULL,
            interaction_type VARCHAR(50) NOT NULL,
            amount DOUBLE PRECISION NOT NULL,
            timestamp TIMESTAMP WITH TIME ZONE NOT NULL,
            created_at TIMESTAMP WITH TIME ZONE DEFAULT CURRENT_TIMESTAMP
        )
        "#
    }

    fn cleanup(&self) -> &'static str {
        "DROP TABLE IF EXISTS protocol_interactions CASCADE"
    }
}

pub struct GovernanceVotesMigration;

impl Migration for GovernanceVotesMigration {
    open spec fn migration_name(&self) -> Seq<char> {
        "create_governance_votes_table"@
    }

    fn name(&self) -> &'static str {
        "create_governance_votes_table"
    }

    fn sql(&self) -> &'static str {
        r#"
        CREATE TABLE IF NOT EXISTS governance_votes (
            id UUID PRIMARY KEY,
            voter VARCHAR(44) NOT NULL,
            proposal_id VARCHAR(50) NOT NULL,
            vote VARCHAR(20) NOT NULL,
            timestamp TIMESTAMP WITH TIME ZONE NOT NULL,
            dao_name VARCHAR(50) NOT NULL,
            created_at TIMESTAMP WITH TIME ZONE DEFAULT CURRENT_TIMESTAMP
        )
        "#
    }

    fn cleanup(&self) -> &'static str {
        "DROP TABLE IF EXISTS governance_votes CASCADE"
    }
}

/// Any one of the schema migrations.
pub enum SchemaMigration {
    Transactions(TransactionsMigration),
    TokenAccounts(TokenAccountsMigration),
    PriceHistory(PriceHistoryMigration),
    ProtocolInteractions(ProtocolInteractionsMigration),
    GovernanceVotes(GovernanceVotesMigration),
}

impl Migration for SchemaMigration {
    open spec fn migration_name(&self) -> Seq<char> {
        match self {
            SchemaMigration::Transactions(m) => m.migration_name(),
            SchemaMigration::TokenAccounts(m) => m.migration_name(),
            SchemaMigration::PriceHistory(m) => m.migration_name(),
            SchemaMigration::ProtocolInteractions(m) => m.migration_name(),
            SchemaMigration::GovernanceVotes(m) => m.migration_name(),
        }
    }

    fn name(&self) -> &'static str {
        match self {
            SchemaMigration::Transactions(m) => m.name(),
            SchemaMigration::TokenAccounts(m) => m.name(),
            SchemaMigration::PriceHistory(m) => m.name(),
            SchemaMigration::ProtocolInteractions(m) => m.name(),
            SchemaMigration::GovernanceVotes(m) => m.name(),
        }
    }

    fn sql(&self) -> &'static str {
        match self {
            SchemaMigration::Transactions(m) => m.sql(),
            SchemaMigration::TokenAccounts(m) => m.sql(),
            SchemaMigration::PriceHistory(m) => m.sql(),
            SchemaMigration::ProtocolInteractions(m) => m.sql(),
            SchemaMigration::GovernanceVotes(m) => m.sql(),
        }
    }

    fn cleanup(&self) -> &'static str {
        match self {
            SchemaMigration::Transactions(m) => m.cleanup(),
            SchemaMigration::TokenAccounts(m) => m.cleanup(),
            SchemaMigration::PriceHistory(m) => m.cleanup(),
            SchemaMigration::ProtocolInteractions(m) => m.cleanup(),
            SchemaMigration::GovernanceVotes(m) => m.cleanup(),
        }
    }
}

/// Every migration, in the order in which they are applied.
pub fn get_migrations() -> (r: Vec<SchemaMigration>)
    ensures
        r@ == seq![
            SchemaMigration::Transactions(TransactionsMigration),
            SchemaMigration::TokenAccounts(TokenAccountsMigration),
            SchemaMigration::PriceHistory(PriceHistoryMigration),
            SchemaMigration::ProtocolInteractions(ProtocolInteractionsMigration),
            SchemaMigration::GovernanceVotes(GovernanceVotesMigration),
        ],
        r@.len() == 5,
        r@[0].migration_name() == "create_transactions_table"@,
        r@[1].migration_name() == "create_token_accounts_table"@,
        r@[2].migration_name() == "create_price_history_table"@,
        r@[3].migration_name() == "create_protocol_interactions_table"@,
        r@[4].migration_name() == "create_governance_votes_table"@,
{
    let v = vec![
        SchemaMigration::Transactions(TransactionsMigration),
        SchemaMigration::TokenAccounts(TokenAccountsMigration),
        SchemaMigration::PriceHistory(PriceHistoryMigration),
        SchemaMigration::ProtocolInteractions(ProtocolInteractionsMigration),
        SchemaMigration::GovernanceVotes(GovernanceVotesMigration),
    ];
    assert(v@ =~= seq![
        SchemaMigration::Transactions(TransactionsMigration),
        SchemaMigration::TokenAccounts(TokenAccountsMigration),
        SchemaMigration::PriceHistory(PriceHistoryMigration),
        SchemaMigration::ProtocolInteractions(ProtocolInteractionsMigration),
        SchemaMigration::GovernanceVotes(GovernanceVotesMigration),
    ]);
    v
}

} // verus!
