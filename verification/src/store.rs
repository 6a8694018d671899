pub mod database;
pub mod laws;
pub mod memory;
pub mod model;

pub use database::{classify_store_failure, outcome_of_update};
pub use memory::{Subscriber, SubscriberStore};
pub use model::{ConfirmOutcome, StoreError, SubscriberStatus};
