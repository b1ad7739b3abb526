//! Decoding of DualShock 4 input reports.
//!
//! A report arrives either over a direct (USB) connection or over the
//! wireless (Bluetooth) link, whose framing shifts every field by two bytes.
//! [`report::DS4Report`] binds a byte buffer to its framing and exposes one
//! verified accessor per field; [`codec`] holds the small byte-level codecs
//! the accessors share; [`discovery`] picks the controller out of a device list.

pub mod codec;
pub mod discovery;
pub mod report;
