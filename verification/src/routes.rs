pub mod health_check;
pub mod laws;
pub mod outcome;
pub mod subscriptions;
pub mod subscriptions_confirm;

pub use health_check::check_health;
pub use outcome::HttpOutcome;
pub use subscriptions::{is_valid, subscribe, FormData};
pub use subscriptions_confirm::{confirm, Parameters};
