//! A diagram editor's core: one result taxonomy with derived severities,
//! validation of diagram source, the client side of an external renderer,
//! the handling of conversion requests, and a fixed set of save slots over a
//! key-value backend.

pub mod api;
pub mod gateway;
pub mod messages;
pub mod models;
pub mod render;
pub mod storage;
pub mod text;
pub mod validation;

