//! A captcha service library: captcha generation, one-shot answer
//! verification against a store of issued answers, image conversion and
//! QR code generation.

pub mod text;
pub mod random;
pub mod config;
pub mod store;
pub mod memory_store;
pub mod app_state;
pub mod verify_handler;
pub mod encoding;
pub mod captcha_builder;
pub mod token;
pub mod base64_handler;
pub mod image_handler;
pub mod convert_handler;
pub mod qr_handler;
pub mod properties;
