use vstd::prelude::*;

verus! {

/// The whole configuration, built once at start-up and handed to each component.
#[derive(Clone, Debug)]
pub struct AppConfig {
    pub server: ServerConfig,
    pub database: DatabaseConfig,
    pub payment: PaymentConfig,
    pub currency: CurrencyConfig,
    pub transfer: TransferConfig,
    pub user_service: UserServiceConfig,
    pub business_rules: BusinessRulesConfig,
}

#[derive(Clone, Debug)]
pub struct ServerConfig {
    pub host: String,
    pub port: u16,
    pub workers: usize,
    pub log_level: String,
}

#[derive(Clone, Debug)]
pub struct DatabaseConfig {
    pub dynamodb_endpoint: String,
    pub region: String,
    pub access_key_id: String,
    pub secret_access_key: String,
    pub transactions_table: String,
    pub exchange_rates_table: String,
}

#[derive(Clone, Debug)]
pub struct PaymentConfig {
    pub upi_api_endpoint: String,
    pub upi_api_key: String,
    pub upi_callback_url: String,
    pub upi_timeout_seconds: u64,
}

#[derive(Clone, Debug)]
pub struct CurrencyConfig {
    pub ad_bank_api_endpoint: String,
    pub ad_bank_api_key: String,
    pub ad_bank_client_id: String,
    pub ad_bank_timeout_seconds: u64,
}

#[derive(Clone, Debug)]
pub struct TransferConfig {
    pub wise_api_endpoint: String,
    pub wise_api_key: String,
    pub wise_profile_id: String,
    pub wise_callback_url: String,
    pub wise_timeout_seconds: u64,
}

#[derive(Clone, Debug)]
pub struct UserServiceConfig {
    pub user_service_api_endpoint: String,
    pub user_service_api_key: String,
    pub user_service_timeout_seconds: u64,
}

/// The fee policy and limits. Amounts are whole units of the source currency;
/// the fee rate is in basis points, hundredths of a percent (50 is 0.5%).
#[derive(Clone, Copy, Debug, PartialEq, Eq, Structural)]
pub struct BusinessRulesConfig {
    pub min_transaction_amount_inr: u64,
    pub max_transaction_amount_inr: u64,
    pub fee_basis_points: u64,
    pub min_fee_inr: u64,
    pub exchange_rate_cache_seconds: u64,
    pub transaction_expiry_hours: u64,
}

} // verus!
