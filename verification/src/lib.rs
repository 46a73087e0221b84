//! Moderation pipeline for short text lessons: status workflow, command
//! tokens, flood control and sender fingerprints.

pub mod add;
pub mod clock;
pub mod command;
pub mod config;
pub mod decimal;
pub mod error;
pub mod handlers;
pub mod keyboard;
pub mod lesson;
pub mod replier;
pub mod scan;
pub mod spam_token;
pub mod status;
pub mod store;
pub mod text;

pub use add::{add_lesson, is_flood};
pub use command::{LessonReadOptions, SetLessonStatus};
pub use config::Config;
pub use error::{error_chain, Error};
pub use handlers::{callback_handler, handle_command, internal_error, message_handler};
pub use keyboard::start_keyboard;
pub use lesson::Lesson;
pub use replier::{Replier, Reply};
pub use spam_token::SpamTokenGenerator;
pub use status::{LessonStatus, LessonStatusRange};
pub use text::{Lang, Text, Translate, Translations};
