//! A keyword file cipher: a password seeds a ChaCha20 keystream, one
//! generator per fixed-size segment, and every byte is XORed with it.

pub mod cipher;
pub mod digest;
pub mod encryptor;
pub mod keystream;
pub mod outcome;
pub mod ui;
