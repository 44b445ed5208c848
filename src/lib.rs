//! Typed requests and records for a bot messaging HTTP API.
//!
//! Every builder is plain data with a stated model; conversion into a
//! request envelope and into JSON text is verified against that model.
pub mod json;
pub mod methods;
pub mod request;
pub mod types;

pub use crate::json::{render, Decimal, JsonValue};
pub use crate::methods::send_voice::SendVoice;
pub use crate::methods::updates::{DeleteWebhook, GetUpdates, GetWebhookInfo, SetWebhook};
pub use crate::request::{Form, FormValue, InputFile, Request, RequestBody, RequestMethod};
pub use crate::types::allowed_update::AllowedUpdate;
pub use crate::types::bot_command::{BotCommand, BotCommandError, BotCommandScope};
pub use crate::types::chat::ChatId;
pub use crate::types::game::{Animation, Game, GameError, GameHighScore, PhotoSize};
pub use crate::types::inline_query::{ChosenInlineResult, InlineQuery, InlineQueryChatType};
pub use crate::types::input_media::InputMediaDocument;
pub use crate::types::location::Location;
pub use crate::types::message_content::{
    InputMessageContent, InputMessageContentContact, InputMessageContentLocation,
    InputMessageContentText, InputMessageContentVenue,
};
pub use crate::types::parse_mode::ParseMode;
pub use crate::types::reply_markup::{ForceReply, ReplyMarkup, ReplyMarkupError};
pub use crate::types::text::{Text, TextEntity, TextEntityError, TextEntityKind};
pub use crate::types::user::User;
