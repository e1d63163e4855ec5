pub mod account;
pub mod chat;
pub mod command;
pub mod identity;
pub mod message_id;
pub mod console;
pub mod behaviour;
pub mod ping;
pub mod numerals;
