//! Resolving a fiscal receipt into a bill.
//!
//! A receipt is identified by a query string, typed by the user or read from a
//! QR code on a photo. [`qr_decode`] picks the query string out of what was
//! read from an image; [`fns`] holds the bill model and the session that turns
//! the query string into a [`fns::Bill`] by three calls to the receipt service;
//! [`photo`] picks the photo to read where a message offers several.
//!
//! The library performs no input or output. The caller scans the image file and
//! sends the calls that the session hands out.
//!
//! What the library has from `reqwest` and `image` it gets through the trusted
//! functions of [`headers`], [`fns`] and [`qr_decode`], whose contracts Verus
//! takes on trust.

pub mod fns;
pub mod headers;
pub mod photo;
pub mod qr_decode;
