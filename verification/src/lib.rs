//! Verified domain logic of an indicator-of-compromise (IoC) platform.
pub mod text;
pub mod indicator;
pub mod storage;
pub mod csirt;
pub mod digest;
pub mod net;
pub mod api;
pub mod chat;
pub mod notify;
pub mod events;
