pub mod domain;
pub mod email_client;
pub mod routes;
pub mod startup;
pub mod store;
pub mod text;
pub mod token;
