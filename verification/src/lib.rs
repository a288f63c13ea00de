//! Verified core logic of a VKontakte messenger client: text editing helpers,
//! fuzzy search, command completion, API model mapping and the terminal
//! client's state machine.

pub mod text;
pub mod input;
pub mod models;
pub mod search;
pub mod forwards;
pub mod gui;
pub mod format;
pub mod api;
pub mod mapper;
pub mod auth;
pub mod pagination;
pub mod completion;
pub mod events;
pub mod app_state;
pub mod update_nav;
pub mod update_input;
pub mod update_command;
pub mod update_message;
pub mod update_forward;
pub mod update_events;
pub mod update_history;
pub mod update_search;
pub mod update_submit;
pub mod update;
pub mod keys;
pub mod pages;
pub mod longpoll;
pub mod upload;
pub mod screen;
pub mod requests;
pub mod core_state;
