//! Rules of the server-rendered game pages: the forms, the checks before a
//! command runs, and the session helpers.

pub mod account;
pub mod building_page;
pub mod reports;
pub mod forms;
pub mod troops;
pub mod session;
