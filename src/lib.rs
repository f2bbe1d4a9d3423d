pub mod config;
pub mod container;
pub mod error;
pub mod event;
pub mod layout;
pub mod request;
pub mod window;
pub mod window_manager;
