//! Records of the API: what requests carry and what responses hold.
pub mod bot_command;
pub mod chat;
pub mod parse_mode;
pub mod reply_markup;
pub mod text;
pub mod allowed_update;
pub mod input_media;
pub mod message_content;
pub mod game;
pub mod user;
pub mod inline_query;
pub mod location;
