pub mod config;
pub mod db;
pub mod decimal;
pub mod dto;
pub mod employee_errors;
pub mod employee_repo;
pub mod http;
pub mod memory_db;
pub mod models;
pub mod roster_repo;
pub mod store;

pub use db::DbError;
pub use db::DbErrorModel;
pub use decimal::Decimal;
pub use dto::Employee;
pub use dto::RecordModel;
pub use dto::RosterItem;
