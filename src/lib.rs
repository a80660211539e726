//! Building and encoding messages for a chat webhook: embeds, message and
//! edit packets, their JSON wire form, and the requests that carry them.
pub mod color;
pub mod edit;
pub mod edit_builder;
pub mod embed;
pub mod embed_builder;
pub mod json;
pub mod message;
pub mod message_builder;
pub mod webhook;

pub use color::Color;
pub use edit::EditMessagePacket;
pub use edit_builder::EditMessageBuilder;
pub use embed::{Embed, EmbedAuthor, EmbedField, EmbedFooter, EmbedMultimedia, EmbedProvider};
pub use embed_builder::EmbedBuilder;
pub use message::MessagePacket;
pub use message_builder::MessageBuilder;
pub use webhook::{HttpMethod, WebhookBuilder, WebhookRequest};
