//! What holds of the library as a whole. Each law is stated over the models that the entry
//! points' own contracts speak of.
pub mod accounts;
pub mod approvals;
pub mod batches;
pub mod books;
pub mod guards;
pub mod keeping;
pub mod lasting;
pub mod listing;
pub mod numbers;
pub mod payments;
pub mod refusals;
pub mod requests;
pub mod schedules;
pub mod settlements;
pub mod showing;
pub mod standing;
pub mod terms;
pub mod upkeep;
pub mod work;
