use vstd::prelude::*;

use crate::error::Error;

verus! {

/// A physical lighting unit and the number of channels it occupies.
#[derive(Debug, Clone, Copy, PartialEq, Eq, Structural)]
pub struct Fixture {
    pub fixid: u32,
    pub num_channels: u32,
}

/// A venue's rig: its id, its fixtures in order, and the number of channels
/// they occupy. Each fixture takes the next contiguous run of channels, so
/// channels are numbered `0..num_channels`.
#[derive(Debug, Clone)]
pub struct Layout {
    pub layout_id: u32,
    pub num_channels: u32,
    pub fixtures: Vec<Fixture>,
}

/// Number of channels taken by the first `i` fixtures: the first channel of
/// fixture `i`.
pub open spec fn channels_before(fixtures: Seq<Fixture>, i: int) -> nat
    decreases i,
{
    if i <= 0 {
        0
    } else {
        channels_before(fixtures, i - 1) + fixtures[i - 1].num_channels as nat
    }
}

/// Whether no two fixtures share an id.
pub open spec fn fixids_unique(fixtures: Seq<Fixture>) -> bool {
    forall|i: int, j: int|
        0 <= i < j < fixtures.len() ==> (#[trigger] fixtures[i]).fixid != (#[trigger] fixtures[j]).fixid
}

/// Whether fixture `i` of `fixtures` occupies channel `chanid`.
pub open spec fn occupies(fixtures: Seq<Fixture>, i: int, chanid: nat) -> bool {
    0 <= i < fixtures.len() && channels_before(fixtures, i) <= chanid < channels_before(
        fixtures,
        i + 1,
    )
}

/// The first channels of later fixtures come no earlier.
pub proof fn lemma_channels_before_monotone(fixtures: Seq<Fixture>, i: int, j: int)
    requires
        0 <= i <= j,
    ensures
        channels_before(fixtures, i) <= channels_before(fixtures, j),
    decreases j - i,
{
    if i < j {
        lemma_channels_before_monotone(fixtures, i, j - 1);
    }
}

impl Layout {
    /// The channel count is what the fixtures occupy, and fixture ids are
    /// unique.
    pub open spec fn wf(&self) -> bool {
        &&& self.num_channels == channels_before(self.fixtures@, self.fixtures@.len() as int)
        &&& fixids_unique(self.fixtures@)
    }

    /// Builds the layout of `fixtures`; refuses two fixtures with one id, or
    /// more channels than a `u32` numbers, with `InvalidLayout`.
    pub fn new(layout_id: u32, fixtures: Vec<Fixture>) -> (r: Result<Layout, Error>)
        ensures
            r is Ok <==> fixids_unique(fixtures@) && channels_before(
                fixtures@,
                fixtures@.len() as int,
            ) <= u32::MAX,
            r matches Ok(l) ==> l.wf() && l.layout_id == layout_id && l.fixtures@ == fixtures@,
            r matches Err(e) ==> e is InvalidLayout,
    {
        let n = fixtures.len();
        let mut total: u64 = 0;
        let mut i: usize = 0;
        while i < n
            invariant
                n == fixtures@.len(),
                0 <= i <= n,
                total == channels_before(fixtures@, i as int),
                total <= u32::MAX,
                forall|a: int, b: int|
                    0 <= a < b < i ==> (#[trigger] fixtures@[a]).fixid
                        != (#[trigger] fixtures@[b]).fixid,
            decreases n - i,
        {
            let mut j: usize = 0;
            while j < i
                invariant
                    n == fixtures@.len(),
                    0 <= j <= i < n,
                    forall|a: int| 0 <= a < j ==> (#[trigger] fixtures@[a]).fixid != fixtures@[i as int].fixid,
                decreases i - j,
            {
                if fixtures[j].fixid == fixtures[i].fixid {
                    assert(!fixids_unique(fixtures@)) by {
                        assert(fixtures@[j as int].fixid == fixtures@[i as int].fixid);
                    }
                    return Err(Error::InvalidLayout(String::from_str("duplicate fixture id")));
                }
                j = j + 1;
            }
            total = total + fixtures[i].num_channels as u64;
            if total > u32::MAX as u64 {
                proof {
                    lemma_channels_before_monotone(fixtures@, i + 1, n as int);
                }
                return Err(Error::InvalidLayout(String::from_str("too many channels")));
            }
            i = i + 1;
        }
        Ok(Layout { layout_id, num_channels: total as u32, fixtures })
    }

    /// The id of the fixture that occupies channel `chanid`.
    pub fn fixture_of_channel(&self, chanid: u32) -> (r: Result<u32, Error>)
        requires
            self.wf(),
        ensures
            r is Ok <==> chanid < self.num_channels,
            r matches Ok(fixid) ==> exists|i: int|
                occupies(self.fixtures@, i, chanid as nat) && #[trigger] self.fixtures@[i].fixid
                    == fixid,
            r matches Err(e) ==> e == Error::ChannelNotFound(chanid),
    {
        if chanid >= self.num_channels {
            return Err(Error::ChannelNotFound(chanid));
        }
        let n = self.fixtures.len();
        let mut start: u64 = 0;
        let mut i: usize = 0;
        while i < n
            invariant
                n == self.fixtures@.len(),
                0 <= i <= n,
                self.wf(),
                chanid < self.num_channels,
                start == channels_before(self.fixtures@, i as int),
                start <= chanid,
            decreases n - i,
        {
            proof {
                lemma_channels_before_monotone(self.fixtures@, i + 1, n as int);
            }
            let end: u64 = start + self.fixtures[i].num_channels as u64;
            if (chanid as u64) < end {
                assert(occupies(self.fixtures@, i as int, chanid as nat));
                return Ok(self.fixtures[i].fixid);
            }
            start = end;
            i = i + 1;
        }
        Err(Error::ChannelNotFound(chanid))
    }

    /// The first channel of fixture `fixid` and the number of channels it
    /// occupies.
    pub fn fixture_channels(&self, fixid: u32) -> (r: Result<(u32, u32), Error>)
        requires
            self.wf(),
        ensures
            r is Ok <==> exists|i: int|
                0 <= i < self.fixtures@.len() && #[trigger] self.fixtures@[i].fixid == fixid,
            r matches Ok(run) ==> exists|i: int|
                0 <= i < self.fixtures@.len() && #[trigger] self.fixtures@[i].fixid == fixid
                    && run.0 == channels_before(self.fixtures@, i) && run.1
                    == self.fixtures@[i].num_channels,
            r matches Err(e) ==> e == Error::FixtureNotFound(fixid),
    {
        let n = self.fixtures.len();
        let mut start: u64 = 0;
        let mut i: usize = 0;
        while i < n
            invariant
                n == self.fixtures@.len(),
                0 <= i <= n,
                self.wf(),
                start == channels_before(self.fixtures@, i as int),
                forall|a: int| 0 <= a < i ==> (#[trigger] self.fixtures@[a]).fixid != fixid,
            decreases n - i,
        {
            proof {
                lemma_channels_before_monotone(self.fixtures@, i + 1, n as int);
            }
            let f = self.fixtures[i];
            if f.fixid == fixid {
                return Ok((start as u32, f.num_channels));
            }
            start = start + f.num_channels as u64;
            i = i + 1;
        }
        Err(Error::FixtureNotFound(fixid))
    }
}

} // verus!
