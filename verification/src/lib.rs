//! Recovery of a content key that a vendor keeps wrapped on one machine.
//!
//! The key is found in two stages. A buffer of bytes is laid out from facts
//! about the machine (the system volume's serial number, the CPU vendor and
//! identification bytes, the account name); a helper process unprotects the
//! stored device key with that buffer, and the 16 bytes it yields open the
//! stored licence key with AES-128 in CBC mode.
//!
//! Everything here works on plain values. Running programs and reading their
//! output is left to the caller: the functions that need it say what they want
//! run and are called again with what came back (see [`exchange`]).
//!
//! - [`codec`]: hexadecimal and base64 text.
//! - [`entropy`]: the layout of the entropy buffer.
//! - [`helper`]: the exchange with the helper, and the line it prints.
//! - [`cipher`]: opening the licence key with the unprotected device key.
//! - [`decrypt`]: the stages in their order.
//! - [`machine`], [`registry`]: gathering the facts and the stored keys.
//! - [`pattern`], [`text`]: searching and reading the text that programs print.
//! - [`options`]: the rules on what a caller may choose.
//! - [`error`]: why an extraction stopped.

pub mod cipher;
pub mod codec;
pub mod decrypt;
pub mod entropy;
pub mod error;
pub mod exchange;
pub mod helper;
pub mod machine;
pub mod options;
pub mod pattern;
pub mod registry;
pub mod text;
