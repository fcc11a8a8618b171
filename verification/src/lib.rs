pub mod config;
pub mod effect;
pub mod error;
pub mod inspect;
pub mod layout;
pub mod lifecycle;
pub mod probe;
pub mod reference;
pub mod registry;
pub mod runtime;
pub mod service;
pub mod text;
