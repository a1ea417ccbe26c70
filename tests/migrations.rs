use solana_rpc_client::db::migrations::{get_migrations, Migration};
use solana_rpc_client::db::DatabaseConfig;

#[test]
fn migrations_in_order() {
    let names: Vec<&str> = get_migrations().iter().map(|m| m.name()).collect();
    assert_eq!(
        names,
        vec![
            "create_transactions_table",
            "create_token_accounts_table",
            "create_price_history_table",
            "create_protocol_interactions_table",
            "create_governance_votes_table",
        ]
    );
    for m in get_migrations() {
        assert!(m.sql().contains("CREATE TABLE IF NOT EXISTS"));
        assert!(m.cleanup().starts_with("DROP TABLE IF EXISTS"));
    }
}

#[test]
fn database_config_default() {
    let c = DatabaseConfig::default();
    assert_eq!(c.host, "localhost");
    assert_eq!(c.port, 5432);
    assert_eq!(c.database, "solana_analytics");
    assert_eq!(c.max_connections, 10);
}
