pub mod command;
pub mod config;
pub mod publish;
pub mod readings;
pub mod router;
pub mod session;
pub mod text;
pub mod topic;
pub mod translate;
