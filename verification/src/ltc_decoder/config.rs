//! Audio input settings: hosts by name, device names, the buffer sizes a
//! device offers and the defaults chosen among them.

use vstd::prelude::*;
use vstd::string::StringExecFns;

use crate::state::{FindWithFallback, LTCSerializedConfg};
use crate::text::str_equal;

verus! {

/// An audio host (driver family) by the name shown and stored for it.
#[derive(Clone, Copy, Debug, PartialEq, Eq, Structural)]
pub enum LTCHostId {
    CoreAudio,
    Wasapi,
    Asio,
    Alsa,
}

impl LTCHostId {
    pub open spec fn name_spec(self) -> Seq<char> {
        match self {
            LTCHostId::CoreAudio => "CoreAudio"@,
            LTCHostId::Wasapi => "WASPAPI"@,
            LTCHostId::Asio => "ASIO"@,
            LTCHostId::Alsa => "ALSA"@,
        }
    }

    /// The stored name of the host.
    pub fn as_str(self) -> (s: &'static str)
        ensures
            s@ == self.name_spec(),
    {
        match self {
            LTCHostId::CoreAudio => "CoreAudio",
            LTCHostId::Wasapi => "WASPAPI",
            LTCHostId::Asio => "ASIO",
            LTCHostId::Alsa => "ALSA",
        }
    }

    /// The host whose stored name is `value`.
    pub open spec fn parse_name(value: Seq<char>) -> Option<LTCHostId> {
        if value == LTCHostId::CoreAudio.name_spec() {
            Some(LTCHostId::CoreAudio)
        } else if value == LTCHostId::Wasapi.name_spec() {
            Some(LTCHostId::Wasapi)
        } else if value == LTCHostId::Asio.name_spec() {
            Some(LTCHostId::Asio)
        } else if value == LTCHostId::Alsa.name_spec() {
            Some(LTCHostId::Alsa)
        } else {
            None
        }
    }

    /// The host with the given stored name.
    pub fn try_from_str(value: &str) -> (r: Option<LTCHostId>)
        ensures
            r == LTCHostId::parse_name(value@),
    {
        if str_equal(value, LTCHostId::CoreAudio.as_str()) {
            Some(LTCHostId::CoreAudio)
        } else if str_equal(value, LTCHostId::Wasapi.as_str()) {
            Some(LTCHostId::Wasapi)
        } else if str_equal(value, LTCHostId::Asio.as_str()) {
            Some(LTCHostId::Asio)
        } else if str_equal(value, LTCHostId::Alsa.as_str()) {
            Some(LTCHostId::Alsa)
        } else {
            None
        }
    }
}

/// The stored name of a host reads back as that host.
pub proof fn lemma_host_name_reads_back(h: LTCHostId)
    ensures
        LTCHostId::parse_name(h.name_spec()) == Some(h),
{
    reveal_strlit("CoreAudio");
    reveal_strlit("WASPAPI");
    reveal_strlit("ASIO");
    reveal_strlit("ALSA");
    assert(LTCHostId::CoreAudio.name_spec().len() == 9);
    assert(LTCHostId::Wasapi.name_spec().len() == 7);
    assert(LTCHostId::Asio.name_spec().len() == 4);
    assert(LTCHostId::Alsa.name_spec().len() == 4);
    assert(LTCHostId::Asio.name_spec()[1] != LTCHostId::Alsa.name_spec()[1]);
}

/// The name of an audio device as stored between runs.
#[derive(Debug)]
pub struct LTCDeviceName(String);

impl LTCDeviceName {
    pub closed spec fn name_view(&self) -> Seq<char> {
        self.0@
    }

    pub fn new(name: String) -> (n: Self)
        ensures
            n.name_view() == name@,
    {
        LTCDeviceName(name)
    }

    pub fn inner(&self) -> (s: &String)
        ensures
            s@ == self.name_view(),
    {
        &self.0
    }
}

/// An audio input device as the settings see it: its name (if it has
/// one), its channel count and the buffer size range it supports (`None`
/// when unknown).
#[derive(Debug)]
pub struct LTCDevice {
    pub name: Option<String>,
    pub channels: u16,
    pub buffer_range: Option<(u32, u32)>,
}

pub struct LTCDeviceView {
    pub name: Option<Seq<char>>,
    pub channels: u16,
    pub buffer_range: Option<(u32, u32)>,
}

impl View for LTCDevice {
    type V = LTCDeviceView;

    open spec fn view(&self) -> LTCDeviceView {
        LTCDeviceView {
            name: match self.name {
                Some(n) => Some(n@),
                None => None,
            },
            channels: self.channels,
            buffer_range: self.buffer_range,
        }
    }
}

/// The buffer sizes offered: powers of two from 16 to 8192 frames.
pub open spec fn buffer_candidate(k: int) -> u32 {
    if k == 0 {
        16
    } else if k == 1 {
        32
    } else if k == 2 {
        64
    } else if k == 3 {
        128
    } else if k == 4 {
        256
    } else if k == 5 {
        512
    } else if k == 6 {
        1024
    } else if k == 7 {
        2048
    } else if k == 8 {
        4096
    } else {
        8192
    }
}

/// The first `k` candidates that lie within `[min, max]`, in order.
pub open spec fn candidates_within(k: nat, min: u32, max: u32) -> Seq<u32>
    decreases k,
{
    if k == 0 {
        Seq::empty()
    } else {
        let c = buffer_candidate(k - 1);
        candidates_within((k - 1) as nat, min, max) + if min <= c && c <= max {
            seq![c]
        } else {
            Seq::<u32>::empty()
        }
    }
}

/// The buffer sizes a device offers: its single size when its range is a
/// point, otherwise the candidates within its range; `None` for an
/// unknown range.
pub open spec fn buffer_opts_spec(range: Option<(u32, u32)>) -> Option<Seq<u32>> {
    match range {
        None => None,
        Some((min, max)) => if min == max {
            Some(seq![min])
        } else {
            Some(candidates_within(10, min, max))
        },
    }
}

/// The least of `s` above `t`, if any is above it.
pub open spec fn least_above(s: Seq<u32>, t: u32) -> Option<u32>
    decreases s.len(),
{
    if s.len() == 0 {
        None
    } else {
        let rest = least_above(s.drop_last(), t);
        let x = s.last();
        if x > t {
            match rest {
                Some(m) => if x < m {
                    Some(x)
                } else {
                    Some(m)
                },
                None => Some(x),
            }
        } else {
            rest
        }
    }
}

/// `least_above` gives a member of `s` above `t` that no other member above
/// `t` undercuts, and gives none exactly when no member is above `t`.
pub proof fn lemma_least_above(s: Seq<u32>, t: u32)
    ensures
        least_above(s, t) is None <==> forall|y: u32| s.contains(y) ==> y <= t,
        least_above(s, t) matches Some(m) ==> s.contains(m) && m > t && forall|y: u32|
            s.contains(y) && y > t ==> m <= y,
    decreases s.len(),
{
    if s.len() > 0 {
        let rest = s.drop_last();
        lemma_least_above(rest, t);
        assert(s =~= rest.push(s.last()));
        assert forall|y: u32| s.contains(y) implies rest.contains(y) || y == s.last() by {
            let i = choose|i: int| 0 <= i < s.len() && s[i] == y;
            if i < s.len() - 1 {
                assert(rest[i] == y);
            }
        }
        assert forall|y: u32| rest.contains(y) implies s.contains(y) by {
            let i = choose|i: int| 0 <= i < rest.len() && rest[i] == y;
            assert(s[i] == y);
        }
        assert(s.contains(s.last())) by {
            assert(s[s.len() - 1] == s.last());
        }
    }
}

/// The default of a list of buffer sizes: 1024 when offered, else the
/// next size above it, else the last size, else none.
pub open spec fn default_buffer_spec(buffers: Seq<u32>) -> Option<u32> {
    if buffers.contains(1024) {
        Some(1024)
    } else if least_above(buffers, 1024) is Some {
        least_above(buffers, 1024)
    } else if buffers.len() > 0 {
        Some(buffers.last())
    } else {
        None
    }
}

/// Law: a device that offers any buffer size gets a default one, and one
/// that offers none gets none. The default is a size offered: 1024 when
/// offered; otherwise, when a size above 1024 is offered, the least such;
/// otherwise the last size offered.
pub proof fn lemma_default_buffer_chosen(buffers: Seq<u32>)
    ensures
        default_buffer_spec(buffers) is Some <==> buffers.len() > 0,
        default_buffer_spec(buffers) matches Some(x) ==> buffers.contains(x),
        buffers.contains(1024) ==> default_buffer_spec(buffers) == Some(1024u32),
        default_buffer_spec(buffers) matches Some(x) ==> (x > 1024 ==> forall|y: u32|
            buffers.contains(y) && y > 1024 ==> x <= y),
        !buffers.contains(1024) && (exists|y: u32| buffers.contains(y) && y > 1024)
            ==> (default_buffer_spec(buffers) matches Some(x) && x > 1024),
        buffers.len() > 0 && (forall|y: u32| buffers.contains(y) ==> y < 1024)
            ==> default_buffer_spec(buffers) == Some(buffers[buffers.len() - 1]),
{
    lemma_least_above(buffers, 1024);
    if buffers.len() > 0 {
        assert(buffers.contains(buffers[buffers.len() - 1]));
    }
}

proof fn lemma_candidate_increasing(k: int)
    requires
        0 <= k < 9,
    ensures
        buffer_candidate(k) < buffer_candidate(k + 1),
{
}

/// The first `k` candidates within the range are increasing, lie within
/// the range, and stay below the `k`-th candidate.
proof fn lemma_candidates_within(k: nat, min: u32, max: u32)
    requires
        k <= 10,
    ensures
        forall|i: int, j: int|
            0 <= i < j < candidates_within(k, min, max).len() ==> candidates_within(k, min, max)[i]
                < candidates_within(k, min, max)[j],
        forall|i: int|
            0 <= i < candidates_within(k, min, max).len() ==> min <= #[trigger] candidates_within(
                k,
                min,
                max,
            )[i] <= max,
        k > 0 ==> forall|i: int|
            0 <= i < candidates_within(k, min, max).len() ==> #[trigger] candidates_within(
                k,
                min,
                max,
            )[i] <= buffer_candidate(k - 1),
    decreases k,
{
    if k > 0 {
        lemma_candidates_within((k - 1) as nat, min, max);
        let prev = candidates_within((k - 1) as nat, min, max);
        let c = buffer_candidate(k - 1);
        if k > 1 {
            lemma_candidate_increasing(k - 2);
            assert forall|i: int| 0 <= i < prev.len() implies prev[i] < c by {
                assert(prev[i] <= buffer_candidate(k - 2));
            }
        }
        let cur = candidates_within(k, min, max);
        assert forall|i: int| 0 <= i < prev.len() implies cur[i] == prev[i] by {}
    }
}

/// The default buffer size of a device is one it offers: 1024 when
/// offered, otherwise the least size offered above 1024, otherwise the
/// largest size offered. The sizes offered increase.
pub proof fn lemma_default_buffer_offered(range: Option<(u32, u32)>)
    ensures
        buffer_opts_spec(range) matches Some(b) ==> {
            &&& forall|i: int, j: int| 0 <= i < j < b.len() ==> b[i] < b[j]
            &&& default_buffer_spec(b) matches Some(x) ==> {
                &&& b.contains(x)
                &&& x == 1024 || (x > 1024 && forall|y: u32| b.contains(y) && y > 1024 ==> x <= y)
                    || forall|y: u32| b.contains(y) ==> y <= x && y < 1024
            }
        },
{
    if let Some((min, max)) = range {
        let b = if min == max {
            seq![min]
        } else {
            candidates_within(10, min, max)
        };
        if min != max {
            lemma_candidates_within(10, min, max);
        }
        assert(buffer_opts_spec(range) == Some(b));
        lemma_least_above(b, 1024);
        if b.len() > 0 && !b.contains(1024) && least_above(b, 1024) is None {
            assert(b.contains(b.last())) by {
                assert(b[b.len() - 1] == b.last());
            }
            assert forall|y: u32| b.contains(y) implies y <= b.last() && y < 1024 by {
                let i = choose|i: int| 0 <= i < b.len() && b[i] == y;
                if i < b.len() - 1 {
                    assert(b[i] < b[b.len() - 1]);
                }
            }
        }
    }
}

fn candidate_at(k: usize) -> (c: u32)
    requires
        k < 10,
    ensures
        c == buffer_candidate(k as int),
{
    match k {
        0 => 16,
        1 => 32,
        2 => 64,
        3 => 128,
        4 => 256,
        5 => 512,
        6 => 1024,
        7 => 2048,
        8 => 4096,
        _ => 8192,
    }
}

/// The default of a list of buffer sizes.
pub fn default_buffer(buffers: &Vec<u32>) -> (r: Option<u32>)
    ensures
        r == default_buffer_spec(buffers@),
{
    let n = buffers.len();
    let mut least: Option<u32> = None;
    let mut i: usize = 0;
    while i < n
        invariant
            n == buffers@.len(),
            i <= n,
            least == least_above(buffers@.take(i as int), 1024),
        decreases n - i,
    {
        assert(buffers@.take(i + 1).drop_last() =~= buffers@.take(i as int));
        let x = buffers[i];
        if x > 1024 {
            least = match least {
                Some(m) => if x < m {
                    Some(x)
                } else {
                    Some(m)
                },
                None => Some(x),
            };
        }
        i = i + 1;
    }
    assert(buffers@.take(n as int) =~= buffers@);
    let fallback = match least {
        Some(m) => Some(m),
        None => if n > 0 {
            Some(buffers[n - 1])
        } else {
            None
        },
    };
    buffers.find_with_fallback(1024, fallback)
}

impl LTCDevice {
    /// The buffer sizes the device offers.
    pub fn get_buffer_opts(&self) -> (r: Option<Vec<u32>>)
        ensures
            match r {
                Some(v) => buffer_opts_spec(self.buffer_range) == Some(v@),
                None => buffer_opts_spec(self.buffer_range) is None,
            },
    {
        let (min, max) = match self.buffer_range {
            None => return None,
            Some(range) => range,
        };
        let mut opts: Vec<u32> = Vec::new();
        if min == max {
            opts.push(min);
            assert(opts@ =~= seq![min]);
            return Some(opts);
        }
        let mut k: usize = 0;
        while k < 10
            invariant
                k <= 10,
                opts@ == candidates_within(k as nat, min, max),
            decreases 10 - k,
        {
            let c = candidate_at(k);
            if min <= c && c <= max {
                opts.push(c);
            }
            k = k + 1;
            assert(opts@ =~= candidates_within(k as nat, min, max));
        }
        Some(opts)
    }

    /// The default buffer size: among `opt_buffers`, or among the sizes the
    /// device offers when none are given.
    pub fn get_default_buffer_size(&self, opt_buffers: Option<&Vec<u32>>) -> (r: Option<u32>)
        ensures
            r == match opt_buffers {
                Some(b) => default_buffer_spec(b@),
                None => match buffer_opts_spec(self.buffer_range) {
                    Some(b) => default_buffer_spec(b),
                    None => None,
                },
            },
    {
        match opt_buffers {
            Some(b) => default_buffer(b),
            None => match self.get_buffer_opts() {
                Some(b) => default_buffer(&b),
                None => None,
            },
        }
    }

    /// The default input channel: channel 1 when there is at least one
    /// channel (`opt_channels`, or the device's count when not given).
    pub fn get_default_channel(&self, opt_channels: Option<usize>) -> (r: Option<usize>)
        ensures
            r == (if (match opt_channels {
                Some(c) => c as int,
                None => self.channels as int,
            }) >= 1 {
                Some(1usize)
            } else {
                None::<usize>
            }),
    {
        let channels = match opt_channels {
            Some(c) => c,
            None => self.channels as usize,
        };
        if channels >= 1 {
            Some(1)
        } else {
            None
        }
    }

    /// `target` when the device offers that buffer size, otherwise the
    /// default among its sizes; none without a target or a known range.
    pub fn match_buffer_or_default(&self, target: Option<u32>) -> (r: Option<u32>)
        ensures
            r == match (buffer_opts_spec(self.buffer_range), target) {
                (Some(b), Some(t)) => if b.contains(t) {
                    Some(t)
                } else {
                    default_buffer_spec(b)
                },
                _ => None,
            },
    {
        let buffers = match self.get_buffer_opts() {
            Some(b) => b,
            None => return None,
        };
        let t = match target {
            Some(t) => t,
            None => return None,
        };
        let fallback = default_buffer(&buffers);
        buffers.find_with_fallback(t, fallback)
    }

    /// `target` when it is one of the device's channels (1 to its count),
    /// otherwise the default channel; none without a target.
    pub fn match_input_or_default(&self, target: Option<usize>) -> (r: Option<usize>)
        ensures
            r == match target {
                Some(t) => if 1 <= t <= self.channels {
                    Some(t)
                } else if self.channels >= 1 {
                    Some(1usize)
                } else {
                    None
                },
                None => None,
            },
    {
        let channels = self.channels as usize;
        let t = match target {
            Some(t) => t,
            None => return None,
        };
        let range = 1..=channels;
        let fallback = self.get_default_channel(Some(channels));
        range.find_with_fallback(t, fallback)
    }

    /// The device's name.
    pub fn name(&self) -> (r: Option<String>)
        ensures
            match r {
                Some(s) => self@.name == Some(s@),
                None => self@.name is None,
            },
    {
        match &self.name {
            Some(n) => Some(n.clone()),
            None => None,
        }
    }

    /// A copy of the device's settings.
    pub fn copy(&self) -> (d: LTCDevice)
        ensures
            d@ == self@,
    {
        LTCDevice { name: self.name(), channels: self.channels, buffer_range: self.buffer_range }
    }
}


/// The view of an optional device.
pub open spec fn opt_device_view(d: Option<LTCDevice>) -> Option<LTCDeviceView> {
    match d {
        Some(d) => Some(d@),
        None => None,
    }
}

/// The buffer size chosen for a device with `range` from a `saved` one:
/// the saved size when offered, else the default among the offered sizes.
pub open spec fn buffer_choice(range: Option<(u32, u32)>, saved: Option<u32>) -> Option<u32> {
    match (buffer_opts_spec(range), saved) {
        (Some(b), Some(t)) => if b.contains(t) {
            Some(t)
        } else {
            default_buffer_spec(b)
        },
        _ => None,
    }
}

/// The input channel chosen for a device with `channels` channels from a
/// `saved` one: the saved channel when the device has it, else channel 1.
pub open spec fn input_choice(channels: u16, saved: Option<usize>) -> Option<usize> {
    match saved {
        Some(t) => if 1 <= t <= channels {
            Some(t)
        } else if channels >= 1 {
            Some(1usize)
        } else {
            None
        },
        None => None,
    }
}

/// The defaults of a device: channel 1 and its default buffer size.
pub open spec fn device_defaults(d: Option<LTCDeviceView>) -> (Option<usize>, Option<u32>) {
    match d {
        None => (None, None),
        Some(d) => (
            if d.channels >= 1 {
                Some(1usize)
            } else {
                None
            },
            match buffer_opts_spec(d.buffer_range) {
                Some(b) => default_buffer_spec(b),
                None => None,
            },
        ),
    }
}

/// The audio input configuration: the chosen device, the devices listed,
/// and the buffer size and input channel used with the device.
pub struct LTCConfig {
    pub ltc_device: Option<LTCDevice>,
    pub ltc_devices: Option<Vec<LTCDevice>>,
    pub buffer_size: Option<u32>,
    pub input_channel: Option<usize>,
}

impl LTCConfig {
    /// Nothing chosen and nothing listed.
    pub fn empty() -> (c: LTCConfig)
        ensures
            c.ltc_device is None,
            c.ltc_devices is None,
            c.buffer_size is None,
            c.input_channel is None,
    {
        LTCConfig { ltc_device: None, ltc_devices: None, buffer_size: None, input_channel: None }
    }

    /// The host's default input device with its default channel and buffer
    /// size, without the list of devices.
    pub fn from_host_devices_excluded(default_device: Option<LTCDevice>) -> (c: LTCConfig)
        ensures
            opt_device_view(c.ltc_device) == opt_device_view(default_device),
            c.ltc_devices is None,
            (c.input_channel, c.buffer_size) == device_defaults(opt_device_view(default_device)),
    {
        let (input_channel, buffer_size) = match &default_device {
            Some(d) => (d.get_default_channel(None), d.get_default_buffer_size(None)),
            None => (None, None),
        };
        LTCConfig { ltc_device: default_device, ltc_devices: None, buffer_size, input_channel }
    }

    /// Chooses `device`: the input channel and buffer size in use are kept
    /// when the device offers them, otherwise its defaults are taken; with
    /// no device there are none.
    pub fn select_device(&mut self, device: Option<LTCDevice>)
        ensures
            opt_device_view(final(self).ltc_device) == opt_device_view(device),
            final(self).ltc_devices == old(self).ltc_devices,
            final(self).input_channel == (match device {
                Some(d) => input_choice(d.channels, old(self).input_channel),
                None => None,
            }),
            final(self).buffer_size == (match device {
                Some(d) => buffer_choice(d.buffer_range, old(self).buffer_size),
                None => None,
            }),
    {
        match &device {
            Some(d) => {
                self.input_channel = d.match_input_or_default(self.input_channel);
                self.buffer_size = d.match_buffer_or_default(self.buffer_size);
            },
            None => {
                self.input_channel = None;
                self.buffer_size = None;
            },
        }
        self.ltc_device = device;
    }

    /// Switches to another host: its devices (`None` when they could not be
    /// listed) are listed and its default device is chosen as
    /// `select_device` chooses.
    pub fn select_host(&mut self, devices: Option<Vec<LTCDevice>>, default_device: Option<LTCDevice>)
        ensures
            final(self).ltc_devices == devices,
            opt_device_view(final(self).ltc_device) == opt_device_view(default_device),
            final(self).input_channel == (match default_device {
                Some(d) => input_choice(d.channels, old(self).input_channel),
                None => None,
            }),
            final(self).buffer_size == (match default_device {
                Some(d) => buffer_choice(d.buffer_range, old(self).buffer_size),
                None => None,
            }),
    {
        self.ltc_devices = devices;
        self.select_device(default_device);
    }

    /// Lists the host's devices afresh; when no device is chosen, its
    /// default device is chosen as `select_device` chooses. Returns whether
    /// the choice changed.
    pub fn refresh_devices(
        &mut self,
        devices: Option<Vec<LTCDevice>>,
        default_device: Option<LTCDevice>,
    ) -> (changed: bool)
        ensures
            changed == old(self).ltc_device is None,
            final(self).ltc_devices == devices,
            changed ==> {
                &&& opt_device_view(final(self).ltc_device) == opt_device_view(default_device)
                &&& final(self).input_channel == (match default_device {
                    Some(d) => input_choice(d.channels, old(self).input_channel),
                    None => None,
                })
                &&& final(self).buffer_size == (match default_device {
                    Some(d) => buffer_choice(d.buffer_range, old(self).buffer_size),
                    None => None,
                })
            },
            !changed ==> {
                &&& opt_device_view(final(self).ltc_device) == opt_device_view(old(self).ltc_device)
                &&& final(self).input_channel == old(self).input_channel
                &&& final(self).buffer_size == old(self).buffer_size
            },
    {
        self.ltc_devices = devices;
        if self.ltc_device.is_none() {
            self.select_device(default_device);
            true
        } else {
            false
        }
    }

    /// The configuration from saved settings, given the host's devices
    /// (`None` when they could not be listed) and its default device. The
    /// saved device, when listed, is used with the saved buffer size and
    /// channel where it offers them; otherwise the default device is used
    /// with its defaults, and the flag returned is set: those defaults are
    /// to be saved.
    pub fn from_serialized(
        defaults: &LTCSerializedConfg,
        devices: Option<Vec<LTCDevice>>,
        default_device: Option<LTCDevice>,
    ) -> (r: (LTCConfig, bool))
        ensures
            devices is None ==> {
                &&& r.0.ltc_device is None
                &&& r.0.ltc_devices is None
                &&& r.0.buffer_size is None
                &&& r.0.input_channel is None
                &&& !r.1
            },
            devices matches Some(ds) ==> {
                &&& r.0.ltc_devices matches Some(listed) && listed@ == ds@
                &&& match r.0.ltc_device {
                    Some(d) if !r.1 => {
                        &&& defaults.saved_name() is Some
                        &&& exists|i: int|
                            #![trigger ds@[i]]
                            0 <= i < ds@.len() && d@ == ds@[i]@ && ds@[i]@.name
                                == defaults.saved_name() && forall|j: int|
                                0 <= j < i ==> ds@[j]@.name != defaults.saved_name()
                        &&& r.0.buffer_size == buffer_choice(d.buffer_range, defaults.buffer_size)
                        &&& r.0.input_channel == input_choice(d.channels, defaults.input_channel)
                    },
                    _ => {
                        &&& r.1
                        &&& defaults.saved_name() is Some ==> forall|i: int|
                            0 <= i < ds@.len() ==> ds@[i]@.name != defaults.saved_name()
                        &&& opt_device_view(r.0.ltc_device) == opt_device_view(default_device)
                        &&& (r.0.input_channel, r.0.buffer_size) == device_defaults(
                            opt_device_view(default_device),
                        )
                    },
                }
            },
    {
        let ds = match devices {
            Some(ds) => ds,
            None => return (LTCConfig::empty(), false),
        };
        let (mut config, store) = match defaults.find_device_from(ds.as_slice()) {
            Some(d) => {
                let buffer_size = defaults.find_buffer_from(&d);
                let input_channel = defaults.find_input_from(&d);
                (
                    LTCConfig { ltc_device: Some(d), ltc_devices: None, buffer_size, input_channel },
                    false,
                )
            },
            None => (LTCConfig::from_host_devices_excluded(default_device), true),
        };
        config.ltc_devices = Some(ds);
        (config, store)
    }
}

} // verus!
