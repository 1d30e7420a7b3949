//! Device discovery and stream-format capabilities of audio endpoints.
//!
//! A [`Device`] records what an audio backend answered for one endpoint: its
//! name, the formats it supports in each direction and its default formats,
//! each answer being either a value or the failure the backend gave. A
//! [`Devices`] value is a one-pass cursor over the endpoints a backend listed.
//! Everything here works on plain values, so every statement about a device
//! is a statement about those recorded answers.

pub mod device;
pub mod error;
pub mod format;

pub use device::{Device, Devices};
pub use error::{BackendSpecificError, DefaultFormatError, DeviceNameError, SupportedFormatsError};
pub use format::{
    Format, SampleFormat, SampleRate, SupportedFormat, SupportedFormats, SupportedInputFormats,
    SupportedOutputFormats,
};
