//! Employee compensation records: validated names, salaries and raise
//! percentages, overflow-checked raise arithmetic, and a key-value store of
//! salary by employee name whose read-modify-write raise operation behaves as
//! one atomic step.

pub mod errors;
pub mod models;
pub mod server;
pub mod store;
