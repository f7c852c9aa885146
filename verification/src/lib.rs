//! Composing chat messages for a Teams incoming webhook: the card schema, its
//! JSON wire form, and the request that delivers a message.

pub mod api;
pub mod json;
pub mod schema;
pub mod style;
pub mod text_block;

pub use api::{Delivery, Method, Request, SendError, Teams};
pub use json::{Json, Member};
pub use schema::{BasicMessage, BlockType, CardAttachment, CardBlock, CardContent, Message};
pub use style::{Color, Font, FontSize, FontWeight, HorizontalAlignment, Spelling, TextBlockStyle};
pub use text_block::TextBlock;
