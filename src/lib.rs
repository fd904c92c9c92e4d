//! Installs, upgrades and removes the CasaOS service bundle: resolving and
//! fetching its release artifacts with resumable transfers, recording every
//! installed file in a manifest so that uninstall can reverse it exactly, and
//! running scripts and bringing services up in a fixed order.

pub mod cli;
pub mod commands;
pub mod config;
pub mod download;
pub mod host;
pub mod install;
pub mod manifest;
pub mod paths;
pub mod resolver;
pub mod scripts;
pub mod services;
pub mod systemd;
pub mod text;
