//! Stream formats and the one-pass sequences in which a device reports them.

use vstd::prelude::*;

verus! {

/// How one sample is encoded.
#[derive(Clone, Copy, Debug, PartialEq, Eq, Structural)]
pub enum SampleFormat {
    /// Signed 16-bit integers.
    I16,
    /// Unsigned 16-bit integers.
    U16,
    /// 32-bit floating point numbers.
    F32,
}

/// Samples per second of one channel.
#[derive(Clone, Copy, Debug, PartialEq, Eq, Structural)]
pub struct SampleRate(pub u32);

/// One concrete stream configuration.
#[derive(Clone, Copy, Debug, PartialEq, Eq, Structural)]
pub struct Format {
    pub channels: u16,
    pub sample_rate: SampleRate,
    pub data_type: SampleFormat,
}

/// A range of stream configurations that a device supports: a channel count,
/// a sample encoding and every sample rate between the two bounds.
#[derive(Clone, Copy, Debug, PartialEq, Eq, Structural)]
pub struct SupportedFormat {
    pub channels: u16,
    pub min_sample_rate: SampleRate,
    pub max_sample_rate: SampleRate,
    pub data_type: SampleFormat,
}

/// Every format of `s` has at least one channel.
pub open spec fn all_have_channels(s: Seq<SupportedFormat>) -> bool {
    forall|i: int| 0 <= i < s.len() ==> (#[trigger] s[i]).channels >= 1
}

/// The largest channel count among the formats of `s`, and 0 for no format.
pub open spec fn max_channels(s: Seq<SupportedFormat>) -> nat
    decreases s.len(),
{
    if s.len() == 0 {
        0
    } else {
        let rest = max_channels(s.drop_last());
        if s.last().channels as nat > rest {
            s.last().channels as nat
        } else {
            rest
        }
    }
}

/// `max_channels` is what its name says: it bounds every channel count of
/// `s`, some format of `s` attains it, and for the empty sequence it is 0.
pub proof fn lemma_max_channels_is_maximum(s: Seq<SupportedFormat>)
    ensures
        forall|i: int| 0 <= i < s.len() ==> (#[trigger] s[i]).channels <= max_channels(s),
        s.len() == 0 ==> max_channels(s) == 0,
        s.len() > 0 ==> exists|i: int| 0 <= i < s.len() && (#[trigger] s[i]).channels == max_channels(s),
        max_channels(s) <= u16::MAX,
    decreases s.len(),
{
    if s.len() > 0 {
        let front = s.drop_last();
        lemma_max_channels_is_maximum(front);
        assert forall|i: int| 0 <= i < s.len() implies (#[trigger] s[i]).channels <= max_channels(
            s,
        ) by {
            if i < front.len() {
                assert(front[i] == s[i]);
            }
        }
        if s.last().channels as nat > max_channels(front) || front.len() == 0 {
            assert(s[s.len() - 1].channels == max_channels(s));
        } else {
            let k = choose|k: int| 0 <= k < front.len() && (#[trigger] front[k]).channels == max_channels(front);
            assert(s[k] == front[k]);
            assert(s[k].channels == max_channels(s));
        }
    }
}

/// The maximum seen from the front: that of a non-empty sequence is the
/// larger of its first channel count and the maximum of the rest.
pub proof fn lemma_max_channels_first(s: Seq<SupportedFormat>)
    requires
        s.len() > 0,
    ensures
        max_channels(s) == if s[0].channels as nat > max_channels(s.skip(1)) {
            s[0].channels as nat
        } else {
            max_channels(s.skip(1))
        },
    decreases s.len(),
{
    if s.len() == 1 {
        assert(s.skip(1) =~= Seq::<SupportedFormat>::empty());
        assert(s.drop_last() =~= Seq::<SupportedFormat>::empty());
    } else {
        let front = s.drop_last();
        lemma_max_channels_first(front);
        assert(s.skip(1).drop_last() =~= front.skip(1));
        assert(s.skip(1).last() == s.last());
        assert(front[0] == s[0]);
    }
}

/// The formats a device supports in one direction, as a one-pass sequence:
/// each format is handed out once, in order, and after the last one the
/// sequence stays exhausted.
pub struct SupportedFormats {
    formats: Vec<SupportedFormat>,
    /// How many of `formats` were handed out.
    taken: usize,
}

/// The formats a device supports for input streams.
pub type SupportedInputFormats = SupportedFormats;

/// The formats a device supports for output streams.
pub type SupportedOutputFormats = SupportedFormats;

impl View for SupportedFormats {
    type V = Seq<SupportedFormat>;

    /// The formats not handed out yet, next one first.
    closed spec fn view(&self) -> Seq<SupportedFormat> {
        self.formats@.skip(self.taken as int)
    }
}

impl SupportedFormats {
    #[verifier::type_invariant]
    closed spec fn in_bounds(self) -> bool {
        self.taken <= self.formats.len()
    }

    /// A sequence that hands out `formats` from the first to the last.
    pub fn new(formats: Vec<SupportedFormat>) -> (r: SupportedFormats)
        ensures
            r@ == formats@,
    {
        let r = SupportedFormats { formats, taken: 0 };
        assert(r.formats@.skip(0) =~= r.formats@);
        r
    }

    /// Hands out the next format, or `None` once all were handed out.
    pub fn next(&mut self) -> (r: Option<SupportedFormat>)
        ensures
            old(self)@.len() == 0 ==> r.is_none() && final(self)@ == old(self)@,
            old(self)@.len() > 0 ==> r == Some(old(self)@[0]) && final(self)@ == old(self)@.skip(1),
    {
        proof {
            use_type_invariant(&*self);
        }
        if self.taken < self.formats.len() {
            let f = self.formats[self.taken];
            self.taken = self.taken + 1;
            assert(self.formats@.skip(self.taken as int) =~= old(self).formats@.skip(
                old(self).taken as int,
            ).skip(1));
            Some(f)
        } else {
            None
        }
    }

    /// How many formats are still to come.
    pub fn remaining(&self) -> (r: usize)
        ensures
            r == self@.len(),
    {
        proof {
            use_type_invariant(self);
        }
        self.formats.len() - self.taken
    }

    /// Walks the sequence to its end and returns the largest channel count
    /// met on the way, or 0 where no format was left.
    pub fn max_channel_count(self) -> (r: usize)
        ensures
            r == max_channels(self@),
    {
        let mut formats = self;
        let mut best: u16 = 0;
        loop
            invariant
                max_channels(self@) == if best as nat > max_channels(formats@) {
                    best as nat
                } else {
                    max_channels(formats@)
                },
            ensures
                best == max_channels(self@),
            decreases formats@.len(),
        {
            let ghost before = formats@;
            match formats.next() {
                Some(format) => {
                    proof {
                        lemma_max_channels_first(before);
                    }
                    if format.channels > best {
                        best = format.channels;
                    }
                },
                None => {
                    break ;
                },
            }
        }
        best as usize
    }
}

} // verus!
