//! The controller's six zone outputs, as levels. The caller drives the pins
//! to match after each change.
use vstd::prelude::*;

verus! {

/// Number of zones the controller drives.
pub const ZONE_COUNT: usize = 6;

#[derive(Debug, Clone, Copy, PartialEq, Eq, Structural)]
pub enum Level {
    Low,
    High,
}

#[derive(Debug, Clone, Copy, PartialEq, Eq, Structural)]
pub enum ZoneError {
    ZoneOutOfRange,
}

pub struct DioController {
    zones: Vec<Level>,
}

impl DioController {
    /// The level of each zone; zone `n` is at index `n - 1`.
    pub closed spec fn levels(&self) -> Seq<Level> {
        self.zones@
    }

    pub closed spec fn wf(&self) -> bool {
        self.zones@.len() == ZONE_COUNT
    }

    /// Six zones, all low.
    pub fn new() -> (r: Self)
        ensures
            r.wf(),
            r.levels() == Seq::new(ZONE_COUNT as nat, |i: int| Level::Low),
    {
        let mut zones: Vec<Level> = Vec::new();
        let mut i: usize = 0;
        while i < ZONE_COUNT
            invariant
                0 <= i <= ZONE_COUNT,
                zones@ == Seq::new(i as nat, |k: int| Level::Low),
            decreases ZONE_COUNT - i,
        {
            zones.push(Level::Low);
            assert(zones@ =~= Seq::new((i + 1) as nat, |k: int| Level::Low));
            i = i + 1;
        }
        DioController { zones }
    }

    pub fn status(&self) -> (r: Vec<Level>)
        ensures
            r@ == self.levels(),
    {
        let mut out: Vec<Level> = Vec::new();
        let mut i: usize = 0;
        while i < self.zones.len()
            invariant
                0 <= i <= self.zones@.len(),
                out@ == self.zones@.subrange(0, i as int),
            decreases self.zones@.len() - i,
        {
            out.push(self.zones[i]);
            assert(self.zones@.subrange(0, i + 1) =~= self.zones@.subrange(0, i as int).push(self.zones@[i as int]));
            i = i + 1;
        }
        assert(out@ =~= self.zones@);
        out
    }

    /// Sets zone `zone`, numbered from 1 to 6, to `level`; any other number
    /// is `ZoneOutOfRange` and changes nothing.
    pub fn toggle_zone(&mut self, zone: usize, level: Level) -> (r: Result<(), ZoneError>)
        requires
            old(self).wf(),
        ensures
            final(self).wf(),
            1 <= zone <= ZONE_COUNT ==> r is Ok && final(self).levels() == old(self).levels().update(zone - 1, level),
            !(1 <= zone <= ZONE_COUNT) ==> r == Err::<(), ZoneError>(ZoneError::ZoneOutOfRange)
                && final(self).levels() == old(self).levels(),
    {
        if zone < 1 || zone > ZONE_COUNT {
            return Err(ZoneError::ZoneOutOfRange);
        }
        self.zones.set(zone - 1, level);
        Ok(())
    }
}

} // verus!
