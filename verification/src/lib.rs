pub mod text;
pub mod types;
pub mod selectors;
pub mod actions;
pub mod helpers;
pub mod plans;
pub mod ui_open_chat;
pub mod hex;
pub mod messages;
pub mod codec;
pub mod contacts;
pub mod wechat_db;
pub mod media;
pub mod router;
pub mod finder;
pub mod voice;
pub mod voice_flow;
pub mod vnc;
pub mod login_ws;
pub mod popups;
pub mod auth;
pub mod chats;
pub mod health;
pub mod keys;
pub mod aria;
pub mod states;
pub mod execution;
pub mod sessions;
pub mod media_queue;
pub mod media_meta;
pub mod media_paths;
pub mod exec;
pub mod json;
