pub mod authentication;
pub mod config;
pub mod domain;
pub mod login;
pub mod mail;
pub mod newsletter;
pub mod signing;
pub mod store;
pub mod subscription_confirm;
pub mod subscriptions;
pub mod utils;
