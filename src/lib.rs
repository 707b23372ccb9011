//! A conversation engine for a multimodal chat-completion service: the
//! message history, the encoding of images into content items, and the
//! handling of the service's replies, each stated and proved with Verus.

pub mod api;
pub mod encoder;
pub mod error;
pub mod conversation;
pub mod stream;
pub mod command;
