//! Verified building blocks for a Twilio messaging adapter: credentials,
//! webhook signature checking and dispatch, and outbound payload
//! construction. Nothing here performs I/O.

pub mod client;
pub mod digest;
pub mod form;
pub mod interactive;
pub mod json;
pub mod message;
pub mod order;
pub mod payload;
pub mod payments;
pub mod presets;
pub mod sender;
pub mod signature;
pub mod sms;
pub mod text;
pub mod webhook;
pub mod whatsapp;

pub use webhook::IncomingWhatsAppMessage;
