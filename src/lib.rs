//! Data transfer objects exchanged between a batch-auction driver and the
//! solver engines, together with their wire codecs.

pub mod auction;
pub mod error;
pub mod hex;
pub mod json;
pub mod notification;
pub mod order_uid;
pub mod primitives;
pub mod solution;
pub mod uint;
pub mod values;
pub mod wire;
