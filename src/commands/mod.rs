pub mod disable;
pub mod enable;
pub mod install;
pub mod restart;
pub mod start;
pub mod status;
pub mod stop;
pub mod uninstall;
pub mod update;
