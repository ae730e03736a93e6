//! Application state that is pure data: keys of stored options, the
//! in-memory log, lookups with fallbacks, and the saved audio settings.

use std::ops::RangeInclusive;

use vstd::std_specs::range::ContainsSpec;

use vstd::prelude::*;
use vstd::string::StringExecFns;

use crate::ltc_decoder::config::{
    buffer_opts_spec, default_buffer_spec, LTCHostId, LTCDevice, LTCDeviceName, LTCDeviceView,
};
use crate::text::str_equal;

verus! {

/// A search for an item that falls back to a default.
///
/// The default is computed by the caller before the search; every default
/// used here is a pure function of the settings, so computing it early
/// changes no result.
pub trait FindWithFallback {
    type Item;

    /// Whether `item` is among the collection's items.
    spec fn holds_item(&self, item: Self::Item) -> bool;

    /// `target` when the collection holds it; otherwise `fallback`.
    fn find_with_fallback(&self, target: Self::Item, fallback: Option<Self::Item>) -> (r: Option<
        Self::Item,
    >)
        ensures
            self.holds_item(target) ==> r == Some(target),
            !self.holds_item(target) ==> r == fallback,
    ;
}

impl FindWithFallback for Vec<u32> {
    type Item = u32;

    open spec fn holds_item(&self, item: u32) -> bool {
        self@.contains(item)
    }

    fn find_with_fallback(&self, target: u32, fallback: Option<u32>) -> (r: Option<u32>) {
        let mut i: usize = 0;
        while i < self.len()
            invariant
                i <= self@.len(),
                forall|j: int| 0 <= j < i ==> self@[j] != target,
            decreases self.len() - i,
        {
            if self[i] == target {
                return Some(target);
            }
            i = i + 1;
        }
        fallback
    }
}

impl FindWithFallback for RangeInclusive<usize> {
    type Item = usize;

    open spec fn holds_item(&self, item: usize) -> bool {
        self.contains_spec(&item)
    }

    fn find_with_fallback(&self, target: usize, fallback: Option<usize>) -> (r: Option<usize>) {
        if self.contains(&target) {
            Some(target)
        } else {
            fallback
        }
    }
}

/// The options saved between runs, each under its own one-byte key.
#[derive(Clone, Copy, Debug, PartialEq, Eq, Structural)]
pub enum StoredOpts {
    Dir,
    Port,
    SampleRate,
    Fps,
    Ntsc,
    LTCDevice,
    LTCHostId,
    BufferSize,
    InputChannel,
}

impl StoredOpts {
    /// The key byte of each option.
    pub open spec fn key_spec(self) -> u8 {
        match self {
            StoredOpts::Dir => 0,
            StoredOpts::Port => 1,
            StoredOpts::SampleRate => 2,
            StoredOpts::Fps => 3,
            StoredOpts::Ntsc => 4,
            StoredOpts::LTCDevice => 5,
            StoredOpts::BufferSize => 6,
            StoredOpts::InputChannel => 7,
            StoredOpts::LTCHostId => 8,
        }
    }

    /// The key under which the option is stored.
    pub fn as_bytes(&self) -> (k: Vec<u8>)
        ensures
            k@ == seq![self.key_spec()],
    {
        let b: u8 = match self {
            StoredOpts::Dir => 0,
            StoredOpts::Port => 1,
            StoredOpts::SampleRate => 2,
            StoredOpts::Fps => 3,
            StoredOpts::Ntsc => 4,
            StoredOpts::LTCDevice => 5,
            StoredOpts::BufferSize => 6,
            StoredOpts::InputChannel => 7,
            StoredOpts::LTCHostId => 8,
        };
        let mut k = Vec::new();
        k.push(b);
        assert(k@ =~= seq![self.key_spec()]);
        k
    }
}

/// Severity of a log entry.
#[derive(Clone, Copy, Debug, PartialEq, Eq, Structural)]
pub enum LogLevel {
    Error,
    Warn,
    Info,
    Debug,
    Trace,
}

/// The messages logged so far, in order.
pub struct Logger {
    entries: Vec<(LogLevel, String)>,
}

impl Logger {
    pub closed spec fn entries_view(&self) -> Seq<(LogLevel, Seq<char>)> {
        self.entries@.map_values(|e: (LogLevel, String)| (e.0, e.1@))
    }

    /// The log as it is stored.
    pub closed spec fn log_vec(&self) -> Vec<(LogLevel, String)> {
        self.entries
    }

    /// An empty log, taking messages of every level.
    pub fn init() -> (l: Self)
        ensures
            l.entries_view() == Seq::<(LogLevel, Seq<char>)>::empty(),
    {
        let l = Logger { entries: Vec::new() };
        assert(l.entries_view() =~= Seq::<(LogLevel, Seq<char>)>::empty());
        l
    }

    /// Records a message at the end of the log.
    pub fn mut_log(&mut self, level: LogLevel, message: String)
        ensures
            final(self).entries_view() == old(self).entries_view().push((level, message@)),
    {
        let ghost prev = self.entries_view();
        self.entries.push((level, message));
        assert(self.entries_view() =~= prev.push((level, message@)));
    }

    /// What `f` makes of the log.
    pub fn get_log<F, T>(&self, f: F) -> (r: T) where F: FnOnce(&Vec<(LogLevel, String)>) -> T
        requires
            f.requires((&self.log_vec(),)),
        ensures
            f.ensures((&self.log_vec(),), r),
    {
        f(&self.entries)
    }

    /// What `f` makes of the log; always available.
    pub fn try_get_log<F, T>(&self, f: F) -> (r: Option<T>) where
        F: FnOnce(&Vec<(LogLevel, String)>) -> T,
        requires
            f.requires((&self.log_vec(),)),
        ensures
            r matches Some(v) && f.ensures((&self.log_vec(),), v),
    {
        Some(f(&self.entries))
    }

    /// The number of messages.
    pub fn len(&self) -> (n: usize)
        ensures
            n == self.entries_view().len(),
    {
        self.entries.len()
    }
}

/// The stored name of the chosen device: its name, or an empty text when
/// there is no device or it has no name, which matches no device.
pub fn stored_device_name(device: Option<&LTCDevice>) -> (r: String)
    ensures
        r@ == (match device {
            Some(d) => match d@.name {
                Some(n) => n,
                None => Seq::<char>::empty(),
            },
            None => Seq::<char>::empty(),
        }),
{
    match device {
        Some(d) => match d.name() {
            Some(n) => n,
            None => String::new(),
        },
        None => String::new(),
    }
}

/// The audio settings saved between runs.
pub struct LTCSerializedConfg {
    pub device: Option<LTCDeviceName>,
    pub host_id: Option<LTCHostId>,
    pub buffer_size: Option<u32>,
    pub input_channel: Option<usize>,
}

impl LTCSerializedConfg {
    /// The saved device name, if any.
    pub open spec fn saved_name(&self) -> Option<Seq<char>> {
        match self.device {
            Some(n) => Some(n.name_view()),
            None => None,
        }
    }

    /// The first of `devices` with the saved device name; none when no name
    /// is saved or no device has it.
    pub fn find_device_from(&self, devices: &[LTCDevice]) -> (r: Option<LTCDevice>)
        ensures
            match self.saved_name() {
                None => r is None,
                Some(name) => match r {
                    Some(d) => exists|i: int|
                        #![trigger devices@[i]]
                        0 <= i < devices@.len() && d@ == devices@[i]@ && devices@[i]@.name == Some(
                            name,
                        ) && forall|j: int| 0 <= j < i ==> devices@[j]@.name != Some(name),
                    None => forall|i: int|
                        0 <= i < devices@.len() ==> devices@[i]@.name != Some(name),
                },
            },
    {
        let name = match &self.device {
            Some(n) => n,
            None => return None,
        };
        assert(self.saved_name() == Some(name.name_view()));
        let mut i: usize = 0;
        while i < devices.len()
            invariant
                i <= devices@.len(),
                self.saved_name() == Some(name.name_view()),
                forall|j: int| 0 <= j < i ==> devices@[j]@.name != Some(name.name_view()),
            decreases devices.len() - i,
        {
            let matches = match &devices[i].name {
                Some(n) => str_equal(n.as_str(), name.inner().as_str()),
                None => false,
            };
            if matches {
                let d = devices[i].copy();
                assert(devices@[i as int]@.name == Some(name.name_view()));
                assert(d@ == devices@[i as int]@);
                let ghost k = i as int;
                assert(0 <= k < devices@.len() && d@ == devices@[k]@ && devices@[k]@.name == Some(
                    name.name_view(),
                ) && forall|j: int| 0 <= j < k ==> devices@[j]@.name != Some(name.name_view()));
                return Some(d);
            }
            i = i + 1;
        }
        None
    }

    /// The saved buffer size when `device` offers it, else its default
    /// size; none when no size is saved or the device's range is unknown.
    pub fn find_buffer_from(&self, device: &LTCDevice) -> (r: Option<u32>)
        ensures
            r == match (buffer_opts_spec(device.buffer_range), self.buffer_size) {
                (Some(b), Some(t)) => if b.contains(t) {
                    Some(t)
                } else {
                    default_buffer_spec(b)
                },
                _ => None,
            },
    {
        device.match_buffer_or_default(self.buffer_size)
    }

    /// The saved input channel when `device` has it, else channel 1 when
    /// the device has any; none when no channel is saved.
    pub fn find_input_from(&self, device: &LTCDevice) -> (r: Option<usize>)
        ensures
            r == match self.input_channel {
                Some(t) => if 1 <= t <= device.channels {
                    Some(t)
                } else if device.channels >= 1 {
                    Some(1usize)
                } else {
                    None
                },
                None => None,
            },
    {
        device.match_input_or_default(self.input_channel)
    }
}

} // verus!
