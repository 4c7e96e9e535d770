//! Host-side driver for the SA430 sub-1 GHz RF spectrum analyzer.
//!
//! The instrument speaks a stop-and-wait binary protocol over a serial
//! link: the host sends one request frame and waits for two frames in
//! answer, an acknowledge frame and a response frame. This crate holds the
//! protocol and what is built on it, from the bytes up:
//!
//! - [`crc`]: the 16-bit checksum that closes every frame;
//! - [`frame`]: frames, command codes and error codes, and the frame codec;
//! - [`channel`]: the byte channel to the instrument, and the record of
//!   what goes over it;
//! - [`com`]: sending a frame, and the receiver that finds the next frame in
//!   the bytes that arrive;
//! - [`protocol`]: the command exchange, its typed results, and the chunked
//!   read of flash;
//! - [`parser`]: a cursor over bytes;
//! - [`device`]: the calibration record in flash and the device itself;
//! - [`port`], [`usb`], [`scanner`], [`monitor`]: the ports that devices
//!   are connected to, and how they are found and watched;
//! - [`cli`]: the text of the command line's reports;
//! - [`endian`], [`bytes`], [`text`], [`error`]: integers on the wire, byte
//!   buffers, numerals and padding, and the error of a call.
//!
//! Every function states what it returns and what it does to the channel.
//! What a call into the instrument does is stated over the channel's
//! record: the bytes written are those of the request, and the result is
//! what the protocol makes of the bytes read. The statements are proved,
//! but for two that are taken from the standard library's documentation:
//! what it makes of bytes that are to be text.

pub mod bytes;
pub mod channel;
pub mod cli;
pub mod com;
pub mod crc;
pub mod device;
pub mod endian;
pub mod error;
pub mod frame;
pub mod monitor;
pub mod parser;
pub mod port;
pub mod protocol;
pub mod scanner;
mod sealed;
pub mod text;
pub mod usb;
