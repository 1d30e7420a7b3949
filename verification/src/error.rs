//! The failures with which a backend may answer a query about a device.

use vstd::prelude::*;

verus! {

/// A failure that only the backend that produced it can explain.
#[derive(Debug, PartialEq, Eq)]
pub struct BackendSpecificError {
    pub description: String,
}

/// Why a device's name could not be had.
#[derive(Debug, PartialEq, Eq)]
pub enum DeviceNameError {
    /// The backend failed in a way of its own.
    BackendSpecific { err: BackendSpecificError },
}

/// Why the formats that a device supports could not be listed.
#[derive(Debug, PartialEq, Eq)]
pub enum SupportedFormatsError {
    /// The device is gone, for example unplugged.
    DeviceNotAvailable,
    /// The backend did not understand the query, for example one about
    /// capture on a device that only plays.
    InvalidArgument,
    /// The backend failed in a way of its own.
    BackendSpecific { err: BackendSpecificError },
}

/// Why a device's default format could not be had.
#[derive(Debug, PartialEq, Eq)]
pub enum DefaultFormatError {
    /// The device is gone, for example unplugged.
    DeviceNotAvailable,
    /// The device has no stream of the direction asked for.
    StreamTypeNotSupported,
    /// The backend failed in a way of its own.
    BackendSpecific { err: BackendSpecificError },
}

impl Clone for BackendSpecificError {
    fn clone(&self) -> (r: Self)
        ensures
            r == *self,
    {
        BackendSpecificError { description: self.description.clone() }
    }
}

impl Clone for DeviceNameError {
    fn clone(&self) -> (r: Self)
        ensures
            r == *self,
    {
        match self {
            DeviceNameError::BackendSpecific { err } => DeviceNameError::BackendSpecific {
                err: err.clone(),
            },
        }
    }
}

impl Clone for SupportedFormatsError {
    fn clone(&self) -> (r: Self)
        ensures
            r == *self,
    {
        match self {
            SupportedFormatsError::DeviceNotAvailable => SupportedFormatsError::DeviceNotAvailable,
            SupportedFormatsError::InvalidArgument => SupportedFormatsError::InvalidArgument,
            SupportedFormatsError::BackendSpecific { err } => SupportedFormatsError::BackendSpecific {
                err: err.clone(),
            },
        }
    }
}

impl Clone for DefaultFormatError {
    fn clone(&self) -> (r: Self)
        ensures
            r == *self,
    {
        match self {
            DefaultFormatError::DeviceNotAvailable => DefaultFormatError::DeviceNotAvailable,
            DefaultFormatError::StreamTypeNotSupported => DefaultFormatError::StreamTypeNotSupported,
            DefaultFormatError::BackendSpecific { err } => DefaultFormatError::BackendSpecific {
                err: err.clone(),
            },
        }
    }
}

} // verus!
