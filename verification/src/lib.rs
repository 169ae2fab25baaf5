//! Local development environment management: projects served through Apache
//! virtual hosts, MariaDB and PostgreSQL administration, and the system
//! services behind them. The library decides and computes; the programs,
//! files and dialogs it names are left to its caller.

pub mod text;
pub mod paths;
pub mod vhost;
pub mod manifest;
pub mod setup;
pub mod venv;
pub mod apache;
pub mod log;
pub mod service;
pub mod database;
pub mod ui;
