//! Verified core of the Parabellum web layer: token handling, request
//! validation, form assembly and the view-model rules behind the game pages.

pub mod api;
pub mod errors;
pub mod handlers;
pub mod ids;
pub mod metrics;
pub mod model;
pub mod order;
pub mod text;
pub mod text_order;
pub mod tokens;
pub mod views;
