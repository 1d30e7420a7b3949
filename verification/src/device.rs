//! Devices and their enumeration.
//!
//! A backend answers five queries about an endpoint: its name, the formats it
//! supports for input and for output, and its default format in each
//! direction. Each answer is a value or a failure. A [`Device`] holds the five
//! answers as they were given and hands each one back unchanged, so a failure
//! is never replaced by a made-up value.

use vstd::prelude::*;
use crate::error::{DefaultFormatError, DeviceNameError, SupportedFormatsError};
use crate::format::{
    all_have_channels, lemma_max_channels_is_maximum, max_channels, Format, SupportedFormat,
    SupportedFormats, SupportedInputFormats, SupportedOutputFormats,
};

verus! {

/// What a device is, as mathematics: the five answers of its backend.
pub struct DeviceView {
    pub name: Result<Seq<char>, DeviceNameError>,
    pub input_formats: Result<Seq<SupportedFormat>, SupportedFormatsError>,
    pub output_formats: Result<Seq<SupportedFormat>, SupportedFormatsError>,
    pub default_input_format: Result<Format, DefaultFormatError>,
    pub default_output_format: Result<Format, DefaultFormatError>,
}

/// A name answer with the name taken as its characters.
pub open spec fn name_view(answer: Result<String, DeviceNameError>) -> Result<
    Seq<char>,
    DeviceNameError,
> {
    match answer {
        Ok(name) => Ok(name@),
        Err(e) => Err(e),
    }
}

/// A formats answer with the list taken as a sequence.
pub open spec fn formats_view(
    answer: Result<Vec<SupportedFormat>, SupportedFormatsError>,
) -> Result<Seq<SupportedFormat>, SupportedFormatsError> {
    match answer {
        Ok(formats) => Ok(formats@),
        Err(e) => Err(e),
    }
}

/// The largest channel count of a formats answer: that of its formats, 0 for
/// an empty list, and the failure where the answer is one.
pub open spec fn max_channels_of(
    answer: Result<Seq<SupportedFormat>, SupportedFormatsError>,
) -> Result<nat, SupportedFormatsError> {
    match answer {
        Ok(formats) => Ok(max_channels(formats)),
        Err(e) => Err(e),
    }
}

impl DeviceView {
    /// The backend listed no format without a channel, in either direction.
    pub open spec fn lists_only_formats_with_channels(self) -> bool {
        &&& self.input_formats matches Ok(formats) ==> all_have_channels(formats)
        &&& self.output_formats matches Ok(formats) ==> all_have_channels(formats)
    }

    /// The same device with input and output exchanged.
    pub open spec fn swap_directions(self) -> DeviceView {
        DeviceView {
            name: self.name,
            input_formats: self.output_formats,
            output_formats: self.input_formats,
            default_input_format: self.default_output_format,
            default_output_format: self.default_input_format,
        }
    }

    /// What `max_supported_input_channels` returns for this device.
    pub open spec fn max_input_channels(self) -> Result<nat, SupportedFormatsError> {
        max_channels_of(self.input_formats)
    }

    /// What `max_supported_output_channels` returns for this device.
    pub open spec fn max_output_channels(self) -> Result<nat, SupportedFormatsError> {
        max_channels_of(self.output_formats)
    }
}

/// The two channel maxima are one computation applied to the two directions:
/// exchanging input and output of a device exchanges its two maxima.
pub proof fn lemma_channel_maxima_symmetric(device: DeviceView)
    ensures
        device.swap_directions().max_input_channels() == device.max_output_channels(),
        device.swap_directions().max_output_channels() == device.max_input_channels(),
        device.swap_directions().swap_directions() == device,
{
}

/// A channel maximum is the failure exactly where the formats answer is one.
/// Otherwise it bounds the channel count of every supported format, is the
/// channel count of one of them, and is 0 for a device without formats.
pub proof fn lemma_max_channels_of_answer(
    answer: Result<Seq<SupportedFormat>, SupportedFormatsError>,
)
    ensures
        answer is Err <==> max_channels_of(answer) is Err,
        answer matches Err(e) ==> max_channels_of(answer) == Err::<nat, SupportedFormatsError>(e),
        answer matches Ok(formats) ==> {
            let max = max_channels_of(answer)->Ok_0;
            &&& forall|i: int| 0 <= i < formats.len() ==> (#[trigger] formats[i]).channels <= max
            &&& formats.len() == 0 ==> max == 0
            &&& formats.len() > 0 ==> exists|i: int|
                0 <= i < formats.len() && (#[trigger] formats[i]).channels == max
        },
{
    if let Ok(formats) = answer {
        lemma_max_channels_is_maximum(formats);
    }
}

/// A device adds no format of its own: where its backend listed no format
/// without a channel, every format of every sequence it hands out has at
/// least one channel. `handed` stands for the sequence that
/// `supported_input_formats` or `supported_output_formats` returned.
pub proof fn lemma_handed_out_formats_have_channels(
    device: DeviceView,
    handed: Seq<SupportedFormat>,
)
    requires
        device.lists_only_formats_with_channels(),
        device.input_formats == Ok::<_, SupportedFormatsError>(handed) || device.output_formats
            == Ok::<_, SupportedFormatsError>(handed),
    ensures
        forall|i: int| 0 <= i < handed.len() ==> (#[trigger] handed[i]).channels >= 1,
{
}

/// A device that can be used to spawn an audio stream.
#[derive(Debug, PartialEq, Eq)]
pub struct Device {
    name: Result<String, DeviceNameError>,
    input_formats: Result<Vec<SupportedFormat>, SupportedFormatsError>,
    output_formats: Result<Vec<SupportedFormat>, SupportedFormatsError>,
    default_input_format: Result<Format, DefaultFormatError>,
    default_output_format: Result<Format, DefaultFormatError>,
}

impl View for Device {
    type V = DeviceView;

    closed spec fn view(&self) -> DeviceView {
        DeviceView {
            name: name_view(self.name),
            input_formats: formats_view(self.input_formats),
            output_formats: formats_view(self.output_formats),
            default_input_format: self.default_input_format,
            default_output_format: self.default_output_format,
        }
    }
}

/// A fresh copy of `formats`.
fn copy_formats(formats: &Vec<SupportedFormat>) -> (r: Vec<SupportedFormat>)
    ensures
        r@ == formats@,
{
    let mut copy: Vec<SupportedFormat> = Vec::new();
    let mut i: usize = 0;
    while i < formats.len()
        invariant
            i <= formats.len(),
            copy@ == formats@.take(i as int),
        decreases formats.len() - i,
    {
        copy.push(formats[i]);
        assert(copy@ =~= formats@.take(i + 1));
        i = i + 1;
    }
    assert(formats@.take(i as int) =~= formats@);
    copy
}

impl Device {
    /// Records the five answers of a backend about one endpoint, each as it
    /// was given.
    pub fn new(
        name: Result<String, DeviceNameError>,
        input_formats: Result<Vec<SupportedFormat>, SupportedFormatsError>,
        output_formats: Result<Vec<SupportedFormat>, SupportedFormatsError>,
        default_input_format: Result<Format, DefaultFormatError>,
        default_output_format: Result<Format, DefaultFormatError>,
    ) -> (device: Device)
        ensures
            device@.name == name_view(name),
            device@.input_formats == formats_view(input_formats),
            device@.output_formats == formats_view(output_formats),
            device@.default_input_format == default_input_format,
            device@.default_output_format == default_output_format,
    {
        Device { name, input_formats, output_formats, default_input_format, default_output_format }
    }

    /// The unique name associated with this device, or the failure with which
    /// the backend answered when asked for it.
    pub fn name(&self) -> (r: Result<String, DeviceNameError>)
        ensures
            name_view(r) == self@.name,
    {
        match &self.name {
            Ok(name) => Ok(name.clone()),
            Err(e) => Err(e.clone()),
        }
    }

    /// A fresh one-pass sequence of the formats supported for input streams.
    ///
    /// Fails as the backend did where the device was no longer valid (for
    /// example because it had been disconnected) or the query failed.
    pub fn supported_input_formats(&self) -> (r: Result<SupportedInputFormats, SupportedFormatsError>)
        ensures
            match r {
                Ok(formats) => self@.input_formats == Ok::<_, SupportedFormatsError>(formats@),
                Err(e) => self@.input_formats == Err::<Seq<SupportedFormat>, _>(e),
            },
    {
        match &self.input_formats {
            Ok(formats) => Ok(SupportedFormats::new(copy_formats(formats))),
            Err(e) => Err(e.clone()),
        }
    }

    /// A fresh one-pass sequence of the formats supported for output streams.
    ///
    /// Fails as the backend did where the device was no longer valid (for
    /// example because it had been disconnected) or the query failed.
    pub fn supported_output_formats(&self) -> (r: Result<
        SupportedOutputFormats,
        SupportedFormatsError,
    >)
        ensures
            match r {
                Ok(formats) => self@.output_formats == Ok::<_, SupportedFormatsError>(formats@),
                Err(e) => self@.output_formats == Err::<Seq<SupportedFormat>, _>(e),
            },
    {
        match &self.output_formats {
            Ok(formats) => Ok(SupportedFormats::new(copy_formats(formats))),
            Err(e) => Err(e.clone()),
        }
    }

    /// The default format used for input streams, or the failure with which
    /// the backend answered: no default exists, or the device is invalid.
    pub fn default_input_format(&self) -> (r: Result<Format, DefaultFormatError>)
        ensures
            r == self@.default_input_format,
    {
        match &self.default_input_format {
            Ok(format) => Ok(*format),
            Err(e) => Err(e.clone()),
        }
    }

    /// The default format used for output streams, or the failure with which
    /// the backend answered: no default exists, or the device is invalid.
    pub fn default_output_format(&self) -> (r: Result<Format, DefaultFormatError>)
        ensures
            r == self@.default_output_format,
    {
        match &self.default_output_format {
            Ok(format) => Ok(*format),
            Err(e) => Err(e.clone()),
        }
    }

    /// The maximum number of output channels of any format supported by this
    /// device: 0 where it supports no output format, and the backend's
    /// failure where its output formats could not be listed.
    pub fn max_supported_output_channels(&self) -> (r: Result<usize, SupportedFormatsError>)
        ensures
            match r {
                Ok(max) => self@.max_output_channels() == Ok::<nat, SupportedFormatsError>(
                    max as nat,
                ),
                Err(e) => self@.max_output_channels() == Err::<nat, _>(e),
            },
    {
        match self.supported_output_formats() {
            Ok(formats) => Ok(formats.max_channel_count()),
            Err(e) => Err(e),
        }
    }

    /// The maximum number of input channels of any format supported by this
    /// device: 0 where it supports no input format, and the backend's
    /// failure where its input formats could not be listed.
    pub fn max_supported_input_channels(&self) -> (r: Result<usize, SupportedFormatsError>)
        ensures
            match r {
                Ok(max) => self@.max_input_channels() == Ok::<nat, SupportedFormatsError>(
                    max as nat,
                ),
                Err(e) => self@.max_input_channels() == Err::<nat, _>(e),
            },
    {
        match self.supported_input_formats() {
            Ok(formats) => Ok(formats.max_channel_count()),
            Err(e) => Err(e),
        }
    }
}

/// An enumeration of the audio devices that a backend listed: a cursor that
/// yields each device once, in the order listed, and then stays exhausted.
/// To enumerate again, ask the backend for a new listing.
#[derive(Debug)]
pub struct Devices {
    /// The devices still to come, the next one last.
    pending: Vec<Device>,
}

impl View for Devices {
    type V = Seq<Device>;

    /// The devices still to come, the next one first.
    closed spec fn view(&self) -> Seq<Device> {
        self.pending@.reverse()
    }
}

impl Devices {
    /// An enumeration of `devices`, from the first to the last.
    pub fn new(devices: Vec<Device>) -> (r: Devices)
        ensures
            r@ == devices@,
    {
        let mut devices = devices;
        let ghost listed = devices@;
        let mut pending: Vec<Device> = Vec::new();
        while devices.len() > 0
            invariant
                devices@.len() <= listed.len(),
                devices@ == listed.take(devices@.len() as int),
                pending@.reverse() == listed.skip(devices@.len() as int),
            decreases devices.len(),
        {
            let ghost before = pending@;
            let ghost n = devices@.len();
            let device = devices.pop().unwrap();
            pending.push(device);
            assert(devices@ =~= listed.take(n - 1));
            assert(device == listed[n - 1]);
            assert(before.push(device).reverse() =~= seq![device] + before.reverse());
            assert(pending@.reverse() =~= listed.skip(n - 1));
        }
        assert(listed.skip(0) =~= listed);
        Devices { pending }
    }

    /// The next device, or `None` once every device was yielded. An
    /// enumeration of no device is exhausted from the start, and an exhausted
    /// one never yields again.
    pub fn next(&mut self) -> (r: Option<Device>)
        ensures
            old(self)@.len() == 0 ==> r.is_none() && final(self)@.len() == 0,
            old(self)@.len() > 0 ==> r == Some(old(self)@[0]) && final(self)@ == old(self)@.skip(1),
    {
        let r = self.pending.pop();
        assert(old(self)@.len() > 0 ==> self.pending@.reverse() =~= old(self).pending@.reverse().skip(
            1,
        ));
        r
    }

    /// How many devices are still to come.
    pub fn remaining(&self) -> (r: usize)
        ensures
            r == self@.len(),
    {
        self.pending.len()
    }
}

} // verus!
