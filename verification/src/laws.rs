//! What holds of the operations from end to end, said of what goes in and of what comes out.
pub mod approvals;
pub mod commands;
pub mod history;
pub mod requests;
pub mod session;
pub mod settings;
pub mod texts;
pub mod titles;
pub mod turn;
