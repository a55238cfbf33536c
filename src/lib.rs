//! Clipboard negotiation for a windowed session: the content-type matcher and
//! the decision logic of the copy and paste roles.

pub mod copy;
pub mod mime;
pub mod paste;
