use vstd::prelude::*;

use crate::error::Error;
use crate::layout::Layout;

verus! {

/// Frame duration used when the caller gives none, in milliseconds.
pub const DEFAULT_FRAME_DURATION_MS: u32 = 50;

/// Shortest frame duration accepted, in milliseconds.
pub const MIN_FRAME_DURATION_MS: u32 = 25;

/// Number of frames that one section of a sequence spans.
pub const FRAMES_PER_SECTION: u32 = 1000;

/// The frame duration that a sequence gets from an optional override.
pub open spec fn resolved_frame_duration(frame_duration_ms: Option<u32>) -> u32 {
    match frame_duration_ms {
        Some(f) => f,
        None => DEFAULT_FRAME_DURATION_MS,
    }
}

/// Number of frames of `frame_ms` milliseconds needed to cover `duration_sec`
/// seconds of music: the ceiling of `duration_sec * 1000 / frame_ms`.
pub open spec fn frame_count(duration_sec: nat, frame_ms: nat) -> nat
    recommends
        frame_ms > 0,
{
    ((duration_sec * 1000 + frame_ms - 1) / frame_ms as int) as nat
}

/// Number of sections that `num_frames` frames span.
pub open spec fn section_count(num_frames: nat) -> nat {
    ((num_frames + FRAMES_PER_SECTION - 1) / FRAMES_PER_SECTION as int) as nat
}

/// The character of a decimal digit.
pub open spec fn digit_char(d: nat) -> char {
    if d == 0 {
        '0'
    } else if d == 1 {
        '1'
    } else if d == 2 {
        '2'
    } else if d == 3 {
        '3'
    } else if d == 4 {
        '4'
    } else if d == 5 {
        '5'
    } else if d == 6 {
        '6'
    } else if d == 7 {
        '7'
    } else if d == 8 {
        '8'
    } else {
        '9'
    }
}

/// The decimal representation of `n`, without leading zeros.
pub open spec fn decimal(n: nat) -> Seq<char>
    decreases n,
{
    if n < 10 {
        seq![digit_char(n)]
    } else {
        decimal(n / 10).push(digit_char(n % 10))
    }
}

/// The storage key of section `index` of the sequence named `name`.
pub open spec fn section_key(name: Seq<char>, index: nat) -> Seq<char> {
    name + "_section"@ + decimal(index)
}

/// The last valid frame offset of `num_frames` frames (0 when there are none).
pub open spec fn last_frame(num_frames: u32) -> u32 {
    if num_frames == 0 {
        0
    } else {
        (num_frames - 1) as u32
    }
}

/// The outcome of checking channel `chanid` at frame `offset` against a
/// layout of `num_channels` channels and a sequence of `num_frames` frames.
pub open spec fn address_check(num_channels: u32, num_frames: u32, chanid: u32, offset: u32) -> Result<
    (),
    Error,
> {
    if chanid >= num_channels {
        Err(Error::ChannelNotFound(chanid))
    } else if offset >= num_frames {
        Err(Error::OffsetOutOfBounds(offset, last_frame(num_frames)))
    } else {
        Ok(())
    }
}

/// For a channel of the layout, the first and the last frame of a sequence
/// are valid offsets, and every offset from `num_frames` on is out of
/// bounds, reported against the last frame.
pub proof fn lemma_offset_bounds(num_channels: u32, num_frames: u32, chanid: u32)
    requires
        chanid < num_channels,
        num_frames > 0,
    ensures
        address_check(num_channels, num_frames, chanid, 0) == Ok::<(), Error>(()),
        address_check(num_channels, num_frames, chanid, (num_frames - 1) as u32) == Ok::<
            (),
            Error,
        >(()),
        forall|offset: u32|
            offset >= num_frames ==> #[trigger] address_check(num_channels, num_frames, chanid, offset)
                == Err::<(), Error>(Error::OffsetOutOfBounds(offset, (num_frames - 1) as u32)),
{
}

/// The value recorded for `chanid` at frame `offset`: the first record of
/// that channel decides, and it holds a value for each frame it covers.
pub open spec fn recorded_value(records: Seq<ChannelData>, chanid: u32, offset: u32) -> Option<u16>
    decreases records.len(),
{
    if records.len() == 0 {
        None
    } else if records[0].chanid == chanid {
        if offset < records[0].values.len() {
            Some(records[0].values@[offset as int])
        } else {
            None
        }
    } else {
        recorded_value(records.drop_first(), chanid, offset)
    }
}

/// The frame count of a sequence covers its music and no frame is wasted:
/// `num_frames * f >= d * 1000`, it is the least such count, and when the
/// music is not empty the last frame starts before the music ends.
pub proof fn lemma_frame_count_covers(duration_sec: nat, frame_ms: nat)
    requires
        frame_ms >= MIN_FRAME_DURATION_MS,
    ensures
        frame_count(duration_sec, frame_ms) * frame_ms >= duration_sec * 1000,
        duration_sec > 0 ==> (frame_count(duration_sec, frame_ms) - 1) * frame_ms < duration_sec
            * 1000,
        forall|n: nat| #[trigger] (n * frame_ms) >= duration_sec * 1000 ==> n >= frame_count(duration_sec, frame_ms),
{
    let total = duration_sec * 1000;
    let n = frame_count(duration_sec, frame_ms);
    let q = (total + frame_ms - 1) / frame_ms as int;
    let r = (total + frame_ms - 1) % frame_ms as int;
    assert(total + frame_ms - 1 == q * frame_ms + r && 0 <= r < frame_ms) by (nonlinear_arith)
        requires frame_ms > 0, q == (total + frame_ms - 1) / frame_ms as int,
            r == (total + frame_ms - 1) % frame_ms as int;
    assert(q >= 0) by (nonlinear_arith)
        requires frame_ms > 0, total >= 0, q == (total + frame_ms - 1) / frame_ms as int;
    assert(n == q);
    assert(n * frame_ms >= total);
    assert(duration_sec > 0 ==> (n - 1) * frame_ms < total) by (nonlinear_arith)
        requires total + frame_ms - 1 == q * frame_ms + r, 0 <= r < frame_ms, n == q;
    assert forall|m: nat| #[trigger] (m * frame_ms) >= total implies m >= n by {
        if m < n {
            assert(m * frame_ms <= (n - 1) * frame_ms) by (nonlinear_arith)
                requires m < n, frame_ms > 0, m >= 0;
            assert(m * frame_ms < total) by (nonlinear_arith)
                requires total + frame_ms - 1 == q * frame_ms + r, 0 <= r < frame_ms, n == q,
                    m * frame_ms <= (n - 1) * frame_ms, m >= 0;
        }
    }
}

/// The channel data recorded for one channel of a sequence, one value per
/// frame offset.
#[derive(Debug, Clone)]
pub struct ChannelData {
    pub chanid: u32,
    pub values: Vec<u16>,
}

/// A timed lighting show: a grid of frames over a music track.
#[derive(Debug)]
pub struct Sequence {
    pub seqid: u32,
    pub name: String,
    pub music_file_name: String,
    pub music_duration_sec: u32,
    pub frame_duration_ms: u32,
    pub num_frames: u32,
    pub layout_id: u32,
}

/// The single-character string of digit `d`.
fn digit_str(d: u64) -> (r: &'static str)
    requires
        d < 10,
    ensures
        r@ == seq![digit_char(d as nat)],
{
    proof {
        reveal_strlit("0");
        reveal_strlit("1");
        reveal_strlit("2");
        reveal_strlit("3");
        reveal_strlit("4");
        reveal_strlit("5");
        reveal_strlit("6");
        reveal_strlit("7");
        reveal_strlit("8");
        reveal_strlit("9");
    }
    if d == 0 {
        "0"
    } else if d == 1 {
        "1"
    } else if d == 2 {
        "2"
    } else if d == 3 {
        "3"
    } else if d == 4 {
        "4"
    } else if d == 5 {
        "5"
    } else if d == 6 {
        "6"
    } else if d == 7 {
        "7"
    } else if d == 8 {
        "8"
    } else {
        "9"
    }
}

/// Appends the decimal representation of `n` to `s`.
pub(crate) fn push_decimal(s: &mut String, n: u64)
    ensures
        final(s)@ == old(s)@ + decimal(n as nat),
    decreases n,
{
    if n >= 10 {
        push_decimal(s, n / 10);
    }
    s.append(digit_str(n % 10));
    proof {
        if n >= 10 {
            assert(decimal(n as nat) == decimal((n / 10) as nat).push(digit_char((n % 10) as nat)));
        }
    }
    assert(final(s)@ =~= old(s)@ + decimal(n as nat));
}

impl Sequence {
    /// Builds a sequence over `music_duration_sec` seconds of music, with
    /// frames of `frame_duration_ms` milliseconds (50 when none is given).
    /// The id is 0 until the sequence is stored.
    pub fn new(
        admin_uid: u32,
        name: &str,
        music_file_name: &str,
        music_duration_sec: u32,
        frame_duration_ms: Option<u32>,
        layout: &Layout,
        num_channels: u32,
    ) -> (r: Result<Sequence, Error>)
        requires
            resolved_frame_duration(frame_duration_ms) >= MIN_FRAME_DURATION_MS ==> frame_count(
                music_duration_sec as nat,
                resolved_frame_duration(frame_duration_ms) as nat,
            ) <= u32::MAX,
        ensures
            r is Ok <==> resolved_frame_duration(frame_duration_ms) >= MIN_FRAME_DURATION_MS,
            r matches Err(e) ==> e == Error::InvalidFrameDuration(
                resolved_frame_duration(frame_duration_ms),
            ),
            r matches Ok(s) ==> {
                &&& s.seqid == 0
                &&& s.name@ == name@
                &&& s.music_file_name@ == music_file_name@
                &&& s.music_duration_sec == music_duration_sec
                &&& s.frame_duration_ms == resolved_frame_duration(frame_duration_ms)
                &&& s.num_frames == frame_count(
                    music_duration_sec as nat,
                    s.frame_duration_ms as nat,
                )
                &&& s.layout_id == layout.layout_id
            },
    {
        let frame_dur_ms: u32 = match frame_duration_ms {
            Some(f) => f,
            None => DEFAULT_FRAME_DURATION_MS,
        };
        if frame_dur_ms < MIN_FRAME_DURATION_MS {
            return Err(Error::InvalidFrameDuration(frame_dur_ms));
        }
        let total_ms: u64 = music_duration_sec as u64 * 1000;
        let frames: u64 = (total_ms + frame_dur_ms as u64 - 1) / frame_dur_ms as u64;
        Ok(
            Sequence {
                seqid: 0,
                name: String::from_str(name),
                music_file_name: String::from_str(music_file_name),
                music_duration_sec: music_duration_sec,
                frame_duration_ms: frame_dur_ms,
                num_frames: frames as u32,
                layout_id: layout.layout_id,
            },
        )
    }

    /// The storage key of section `index` of this sequence,
    /// `<name>_section<index>`; fails unless the section lies within the
    /// sequence's frames.
    pub fn get_section_path(&self, index: u32) -> (r: Result<String, Error>)
        ensures
            r is Ok <==> index < section_count(self.num_frames as nat),
            r matches Ok(key) ==> key@ == section_key(self.name@, index as nat),
            r matches Err(e) ==> e == Error::InvalidSequenceSection(index),
    {
        let sections: u64 = (self.num_frames as u64 + FRAMES_PER_SECTION as u64 - 1)
            / FRAMES_PER_SECTION as u64;
        if index as u64 >= sections {
            return Err(Error::InvalidSequenceSection(index));
        }
        let mut key = self.name.clone();
        key.append("_section");
        push_decimal(&mut key, index as u64);
        assert(key@ =~= section_key(self.name@, index as nat));
        Ok(key)
    }

    /// Checks that channel `chanid` of the sequence's layout exists and that
    /// frame `offset` lies in `0..=num_frames - 1`.
    pub fn check_channel_address(&self, layout: &Layout, chanid: u32, offset: u32) -> (r: Result<
        (),
        Error,
    >)
        requires
            layout.layout_id == self.layout_id,
        ensures
            r == address_check(layout.num_channels, self.num_frames, chanid, offset),
    {
        if chanid >= layout.num_channels {
            return Err(Error::ChannelNotFound(chanid));
        }
        if offset >= self.num_frames {
            let upper: u32 = if self.num_frames == 0 {
                0
            } else {
                self.num_frames - 1
            };
            return Err(Error::OffsetOutOfBounds(offset, upper));
        }
        Ok(())
    }

    /// The value recorded for channel `chanid` at frame `offset`, after the
    /// address is checked; `records` holds this sequence's channel data.
    pub fn get_channel_value(
        &self,
        layout: &Layout,
        chanid: u32,
        offset: u32,
        records: &Vec<ChannelData>,
    ) -> (r: Result<u16, Error>)
        requires
            layout.layout_id == self.layout_id,
        ensures
            r matches Ok(v) ==> chanid < layout.num_channels && offset < self.num_frames
                && recorded_value(records@, chanid, offset) == Some(v),
            chanid < layout.num_channels && offset < self.num_frames && recorded_value(
                records@,
                chanid,
                offset,
            ) is Some ==> r is Ok,
            r matches Err(e) ==> e == if chanid >= layout.num_channels {
                Error::ChannelNotFound(chanid)
            } else if offset >= self.num_frames {
                Error::OffsetOutOfBounds(offset, last_frame(self.num_frames))
            } else {
                Error::ChannelDataNotFound(self.seqid, chanid)
            },
    {
        match self.check_channel_address(layout, chanid, offset) {
            Err(e) => {
                return Err(e);
            },
            Ok(()) => {},
        }
        let mut i: usize = 0;
        assert(records@.subrange(0, records@.len() as int) =~= records@);
        while i < records.len()
            invariant
                0 <= i <= records.len(),
                chanid < layout.num_channels,
                offset < self.num_frames,
                recorded_value(records@, chanid, offset) == recorded_value(
                    records@.subrange(i as int, records@.len() as int),
                    chanid,
                    offset,
                ),
            decreases records.len() - i,
        {
            let rec = &records[i];
            let ghost rest = records@.subrange(i as int, records@.len() as int);
            assert(rest[0] == rec);
            if rec.chanid == chanid {
                if (offset as usize) < rec.values.len() {
                    return Ok(rec.values[offset as usize]);
                }
                return Err(Error::ChannelDataNotFound(self.seqid, chanid));
            }
            assert(rest.drop_first() =~= records@.subrange(i + 1, records@.len() as int));
            i = i + 1;
        }
        Err(Error::ChannelDataNotFound(self.seqid, chanid))
    }
}

} // verus!
