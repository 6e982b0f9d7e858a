//! A credential vault client: the binary container codec, the key derivation and
//! authenticated decryption that open it, the challenge/response login against a
//! vault server, and the record model that a viewer displays.

pub mod browse;
pub mod codec;
pub mod config;
pub mod container;
pub mod crypto;
pub mod local;
pub mod record;
pub mod remote;
pub mod text;
