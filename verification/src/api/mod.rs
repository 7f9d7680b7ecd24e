pub mod account_information;
pub mod asset_delivery;
pub mod assets;
pub mod auth;
pub mod auth_token_service;
pub mod avatar;
pub mod badges;
pub mod challenge;
pub mod data;
pub mod develop;
pub mod economy;
pub mod friends;
pub mod gamepasses;
pub mod games;
pub mod groups;
pub mod hba_service;
pub mod inventory;
pub mod marketplace_sales;
pub mod notifications;
pub mod platform_chat;
pub mod premium_features;
pub mod presence;
pub mod private_messages;
pub mod toolbox_service;
pub mod two_step_verification;
pub mod user_agreements;
pub mod user_blocking;
pub mod users;
