//! The audio side of timecode capture: picking one channel out of
//! interleaved samples, and the single-value slot that hands the latest
//! decoded frame from the audio callback to the server.

use vstd::prelude::*;

use crate::utils::single_val_channel::ChannelErr;

verus! {

/// A slot holding at most one value: a send replaces whatever is there, a
/// receive takes it out.
pub struct Channel<T> {
    value: Option<T>,
}

impl<T> Channel<T> {
    pub closed spec fn slot(&self) -> Option<T> {
        self.value
    }

    /// An empty slot.
    pub fn new() -> (c: Self)
        ensures
            c.slot() is None,
    {
        Channel { value: None }
    }

    /// Puts `value` in the slot, replacing any value there.
    pub fn send(&mut self, value: T)
        ensures
            final(self).slot() == Some(value),
    {
        self.value = Some(value);
    }

    /// Takes the value out of a full slot.
    pub fn recv(&mut self) -> (v: T)
        requires
            old(self).slot() is Some,
        ensures
            old(self).slot() == Some(v),
            final(self).slot() is None,
    {
        let v = self.value.take();
        v.unwrap()
    }

    /// Takes the value out of the slot; `NoVal` when it is empty.
    pub fn try_recv(&mut self) -> (r: Result<T, ChannelErr>)
        ensures
            match old(self).slot() {
                Some(v) => r == Ok::<T, ChannelErr>(v),
                None => r == Err::<T, ChannelErr>(ChannelErr::NoVal),
            },
            final(self).slot() is None,
    {
        match self.value.take() {
            Some(v) => Ok(v),
            None => Err(ChannelErr::NoVal),
        }
    }

    /// Whether the slot holds a value.
    pub fn is_full(&self) -> (b: bool)
        ensures
            b == self.slot() is Some,
    {
        self.value.is_some()
    }
}

/// Which channel of an interleaved stream carries the timecode (counted
/// from 1) and how many channels the stream interleaves.
#[derive(Clone, Copy, Debug, PartialEq, Eq, Structural)]
pub struct InputChannel {
    pub input_channel: usize,
    pub device_channels: usize,
}

/// The samples of channel index `ch` (from 0) out of a stream of frames of
/// `dc` interleaved samples; a last, short frame gives a sample only when
/// it reaches that channel.
pub open spec fn mono_spec<T>(s: Seq<T>, ch: nat, dc: nat) -> Seq<T>
    decreases s.len(),
{
    if s.len() == 0 || dc == 0 {
        Seq::empty()
    } else {
        let frame_len: nat = if dc < s.len() {
            dc
        } else {
            s.len()
        };
        (if ch < frame_len {
            seq![s[ch as int]]
        } else {
            Seq::<T>::empty()
        }) + mono_spec(s.subrange(frame_len as int, s.len() as int), ch, dc)
    }
}

/// Law: a buffer of `k` whole frames of `dc` interleaved samples, followed
/// by `r` samples of a frame cut short, gives one sample per whole frame, in
/// order (the `j`-th is the sample of channel index `ch` in frame `j`), and
/// one more from the short frame exactly when it reaches that channel.
pub proof fn lemma_mono_whole_frames<T>(s: Seq<T>, ch: nat, dc: nat, k: nat, r: nat)
    requires
        ch < dc,
        r < dc,
        s.len() == k * dc + r,
    ensures
        mono_spec(s, ch, dc).len() == k + (if ch < r {
            1int
        } else {
            0int
        }),
        forall|j: int| 0 <= j < k ==> #[trigger] mono_spec(s, ch, dc)[j] == s[j * dc + ch],
        ch < r ==> mono_spec(s, ch, dc)[k as int] == s[(k * dc + ch) as int],
    decreases k,
{
    let m = mono_spec(s, ch, dc);
    if k == 0 {
        assert(s.len() == r) by (nonlinear_arith)
            requires
                s.len() == k * dc + r,
                k == 0,
        ;
        assert(k * dc == 0) by (nonlinear_arith)
            requires
                k == 0,
        ;
        if r > 0 {
            let rest = s.subrange(s.len() as int, s.len() as int);
            assert(mono_spec(rest, ch, dc) =~= Seq::<T>::empty());
            if ch < r {
                assert(m =~= seq![s[ch as int]]);
            } else {
                assert(m =~= Seq::<T>::empty());
            }
        }
    } else {
        assert(s.len() == ((k - 1) * dc + r) + dc) by (nonlinear_arith)
            requires
                s.len() == k * dc + r,
                k >= 1,
        ;
        let rest = s.subrange(dc as int, s.len() as int);
        lemma_mono_whole_frames(rest, ch, dc, (k - 1) as nat, r);
        assert(m == seq![s[ch as int]] + mono_spec(rest, ch, dc));
        assert forall|j: int| 0 <= j < k implies #[trigger] m[j] == s[j * dc + ch] by {
            if j == 0 {
                assert(j * dc == 0) by (nonlinear_arith)
                    requires
                        j == 0,
                ;
            } else {
                let i = (j - 1) * dc + ch;
                assert(0 <= (j - 1) * dc <= (k - 2) * dc) by (nonlinear_arith)
                    requires
                        1 <= j < k,
                ;
                assert((k - 2) * dc + dc == (k - 1) * dc) by (nonlinear_arith);
                assert(dc + (j - 1) * dc == j * dc) by (nonlinear_arith);
                assert(m[j] == mono_spec(rest, ch, dc)[j - 1]);
                assert(rest[i] == s[dc + i]);
            }
        }
        if ch < r {
            let i = (k - 1) * dc + ch;
            assert(0 <= (k - 1) * dc) by (nonlinear_arith)
                requires
                    k >= 1,
            ;
            assert(dc + (k - 1) * dc == k * dc) by (nonlinear_arith);
            assert(m[k as int] == mono_spec(rest, ch, dc)[k - 1]);
            assert(rest[i] == s[dc + i]);
        }
    }
}

/// The samples of the timecode channel, in order.
pub fn parse_mono_input_from_channel<T: Copy>(input: &[T], channel: &InputChannel) -> (r: Vec<T>)
    requires
        channel.input_channel >= 1,
        channel.device_channels >= 1,
    ensures
        r@ == mono_spec(input@, (channel.input_channel - 1) as nat, channel.device_channels as nat),
{
    let n = input.len();
    let dc = channel.device_channels;
    let ch = channel.input_channel - 1;
    let mut out: Vec<T> = Vec::new();
    let mut i: usize = 0;
    assert(input@.subrange(0, n as int) =~= input@);
    while i < n
        invariant
            n == input@.len(),
            dc >= 1,
            i <= n,
            mono_spec(input@, ch as nat, dc as nat) == out@ + mono_spec(
                input@.subrange(i as int, n as int),
                ch as nat,
                dc as nat,
            ),
        decreases n - i,
    {
        let end = if dc < n - i { i + dc } else { n };
        let ghost rest = input@.subrange(i as int, n as int);
        let ghost prev = out@;
        if ch < end - i {
            out.push(input[i + ch]);
        }
        proof {
            assert(rest.subrange((end - i) as int, rest.len() as int) =~= input@.subrange(
                end as int,
                n as int,
            ));
            if ch < end - i {
                assert(rest[ch as int] == input@[i + ch]);
            }
            assert(out@ + mono_spec(input@.subrange(end as int, n as int), ch as nat, dc as nat)
                =~= prev + mono_spec(rest, ch as nat, dc as nat));
        }
        i = end;
    }
    assert(input@.subrange(n as int, n as int) =~= Seq::<T>::empty());
    assert(out@ + Seq::<T>::empty() =~= out@);
    out
}

} // verus!
