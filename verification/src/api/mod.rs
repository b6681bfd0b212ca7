//! Rules behind the JSON API: request validation, error mapping and the
//! response models that the endpoints assemble.

pub mod actions;
pub mod buildings;
pub mod auth;
pub mod dto;
pub mod game;
pub mod helpers;
pub mod marketplace;
pub mod rally;
pub mod research;
pub mod training;
pub mod troops;
