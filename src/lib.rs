//! A point-to-point byte relay with an optional authenticated-encryption
//! envelope around each chunk: the frame codec, the key setup and the
//! decisions of the two relay loops.

pub mod cipher;
pub mod frame;
pub mod key;
pub mod relay;
