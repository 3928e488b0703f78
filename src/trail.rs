use std::collections::VecDeque;
use vstd::prelude::*;

use crate::geometry::Point3;
use crate::ribbon::{MAX_SAMPLES, RibbonMesh, create_trail_mesh};

verus! {

/// How long a sample lives, in nanoseconds: five seconds.
pub const MAX_AGE: u64 = 5_000_000_000;

/// Nanoseconds in a thousand seconds: an emission rate is given in samples
/// per thousand seconds, so that `interval = NANOS_PER_KILOSECOND / rate`.
pub const NANOS_PER_KILOSECOND: u64 = 1_000_000_000_000;

/// One recorded position of the trailed object, with the time it was taken
/// (nanoseconds of elapsed time).
#[derive(Clone, Copy, Debug, PartialEq, Eq, Structural)]
pub struct TrailSample {
    pub position: Point3,
    pub timestamp: u64,
}

/// Why a trail's configuration was rejected.
#[derive(Clone, Copy, Debug, PartialEq, Eq, Structural)]
pub enum TrailConfigError {
    /// `max_points` is zero.
    NoPoints,
    /// `max_points` exceeds `MAX_SAMPLES`.
    TooManyPoints,
    /// The emission rate is zero, so the interval would be infinite.
    ZeroEmitRate,
}

/// The sample history of one trailed object and the mesh currently shown for
/// it. `H` is the renderer's handle of that mesh, `M` its material.
#[derive(Debug)]
pub struct Trail<M, H> {
    /// Most samples kept.
    pub max_points: usize,
    /// Least time between two samples, in nanoseconds.
    pub emit_interval: u64,
    /// Full width of the ribbon at its newest end, in world units.
    pub width: u32,
    pub material: M,
    /// Time gathered toward the next emission, in nanoseconds.
    pub accumulated: u64,
    /// Samples, oldest at the front.
    pub points: VecDeque<TrailSample>,
    /// The mesh currently shown for this trail, if any.
    pub mesh_entity: Option<H>,
}

/// Timestamps never decrease from front to back.
pub open spec fn spec_sorted(s: Seq<TrailSample>) -> bool {
    forall|i: int, j: int| 0 <= i <= j < s.len() ==> s[i].timestamp <= s[j].timestamp
}

/// A sample taken at `timestamp` is older than `MAX_AGE` at time `now`.
pub open spec fn spec_expired(sample: TrailSample, now: u64) -> bool {
    now - sample.timestamp > MAX_AGE
}

/// The accumulator after `delta` more nanoseconds, held at `u64::MAX`.
pub open spec fn spec_accumulate(acc: u64, delta: u64) -> u64 {
    if acc + delta > u64::MAX {
        u64::MAX
    } else {
        (acc + delta) as u64
    }
}

/// The accumulator fires on this tick: a whole interval has gathered.
pub open spec fn spec_emits(acc: u64, delta: u64, interval: u64) -> bool {
    spec_accumulate(acc, delta) >= interval
}

/// The accumulator after the tick: one interval is spent when it fires.
pub open spec fn spec_next_accumulated(acc: u64, delta: u64, interval: u64) -> u64 {
    if spec_emits(acc, delta, interval) {
        (spec_accumulate(acc, delta) - interval) as u64
    } else {
        spec_accumulate(acc, delta)
    }
}

/// The newest `max` samples of `s`.
pub open spec fn spec_cap_count(s: Seq<TrailSample>, max: int) -> Seq<TrailSample> {
    if s.len() > max {
        s.subrange(s.len() - max, s.len() as int)
    } else {
        s
    }
}

/// `s` without its leading expired samples.
pub open spec fn spec_drop_expired(s: Seq<TrailSample>, now: u64) -> Seq<TrailSample>
    decreases s.len(),
{
    if s.len() > 0 && spec_expired(s[0], now) {
        spec_drop_expired(s.drop_first(), now)
    } else {
        s
    }
}

/// The samples after one tick: the new sample appended when the accumulator
/// fired, then the count cap, then the age cap.
pub open spec fn spec_after_tick(
    s: Seq<TrailSample>,
    emit: bool,
    sample: TrailSample,
    max: int,
    now: u64,
) -> Seq<TrailSample> {
    let grown = if emit {
        s.push(sample)
    } else {
        s
    };
    spec_drop_expired(spec_cap_count(grown, max), now)
}

/// What is left after dropping expired samples is a suffix of `s` whose front
/// has not expired.
pub proof fn lemma_drop_expired_suffix(s: Seq<TrailSample>, now: u64)
    ensures
        spec_drop_expired(s, now).len() <= s.len(),
        spec_drop_expired(s, now) == s.subrange(
            s.len() - spec_drop_expired(s, now).len(),
            s.len() as int,
        ),
        spec_drop_expired(s, now).len() > 0 ==> !spec_expired(spec_drop_expired(s, now)[0], now),
    decreases s.len(),
{
    if s.len() > 0 && spec_expired(s[0], now) {
        lemma_drop_expired_suffix(s.drop_first(), now);
        let r = spec_drop_expired(s.drop_first(), now);
        assert(s.drop_first().subrange(
            s.drop_first().len() - r.len(),
            s.drop_first().len() as int,
        ) =~= s.subrange(s.len() - r.len(), s.len() as int));
    } else {
        assert(s.subrange(0, s.len() as int) =~= s);
    }
}

/// Removes samples from the front while there are more than `max`.
fn evict_over_count(points: &mut VecDeque<TrailSample>, max: usize)
    ensures
        final(points)@ == spec_cap_count(old(points)@, max as int),
{
    let ghost start = points@;
    while points.len() > max
        invariant
            points@.len() >= max || points@ == start,
            start.len() <= max ==> points@ == start,
            points@.len() <= start.len(),
            points@ == start.subrange(start.len() - points@.len(), start.len() as int),
        decreases points@.len(),
    {
        points.pop_front();
        assert(points@ =~= start.subrange(start.len() - points@.len(), start.len() as int));
    }
    assert(start.subrange(0, start.len() as int) =~= start);
}

/// Removes samples from the front while the front one has expired at `now`.
fn evict_expired(points: &mut VecDeque<TrailSample>, now: u64)
    ensures
        final(points)@ == spec_drop_expired(old(points)@, now),
{
    while points.len() > 0 && now > points[0].timestamp && now - points[0].timestamp > MAX_AGE
        invariant
            spec_drop_expired(points@, now) == spec_drop_expired(old(points)@, now),
        decreases points@.len(),
    {
        let ghost before = points@;
        points.pop_front();
        assert(points@ =~= before.drop_first());
    }
}

impl<M, H> Trail<M, H> {
    /// The configuration is valid and the samples keep both of the buffer's
    /// invariants: no more than `max_points`, timestamps in order.
    pub open spec fn wf(&self) -> bool {
        &&& 1 <= self.max_points <= MAX_SAMPLES
        &&& self.points@.len() <= self.max_points
        &&& spec_sorted(self.points@)
    }

    /// Time never goes back past the newest sample.
    pub open spec fn accepts_time(&self, now: u64) -> bool {
        self.points@.len() > 0 ==> self.points@.last().timestamp <= now
    }

    /// A trail with no samples and no mesh, emitting `emit_rate` samples per
    /// thousand seconds; rejected when `max_points` is zero or above
    /// `MAX_SAMPLES`, or when `emit_rate` is zero.
    pub fn new(max_points: usize, emit_rate: u64, width: u32, material: M) -> (r: Result<
        Trail<M, H>,
        TrailConfigError,
    >)
        ensures
            max_points == 0 <==> r == Err::<Trail<M, H>, _>(TrailConfigError::NoPoints),
            max_points > MAX_SAMPLES <==> r == Err::<Trail<M, H>, _>(
                TrailConfigError::TooManyPoints,
            ),
            (1 <= max_points <= MAX_SAMPLES && emit_rate == 0) <==> r == Err::<Trail<M, H>, _>(
                TrailConfigError::ZeroEmitRate,
            ),
            r matches Ok(t) ==> {
                &&& t.wf()
                &&& t.max_points == max_points
                &&& t.emit_interval == NANOS_PER_KILOSECOND / emit_rate
                &&& t.width == width
                &&& t.material == material
                &&& t.accumulated == 0
                &&& t.points@.len() == 0
                &&& t.mesh_entity is None
            },
    {
        if max_points == 0 {
            return Err(TrailConfigError::NoPoints);
        }
        if max_points > MAX_SAMPLES {
            return Err(TrailConfigError::TooManyPoints);
        }
        if emit_rate == 0 {
            return Err(TrailConfigError::ZeroEmitRate);
        }
        Ok(Trail {
            max_points,
            emit_interval: NANOS_PER_KILOSECOND / emit_rate,
            width,
            material,
            accumulated: 0,
            points: VecDeque::new(),
            mesh_entity: None,
        })
    }

    /// One tick of the buffer: `delta` nanoseconds have passed, the object is
    /// at `position`, and the elapsed time is `now`. Returns the mesh to retire
    /// when the buffer has become empty.
    pub fn update(&mut self, delta: u64, position: Point3, now: u64) -> (retired: Option<H>)
        requires
            old(self).wf(),
            old(self).accepts_time(now),
        ensures
            final(self).wf(),
            final(self).max_points == old(self).max_points,
            final(self).emit_interval == old(self).emit_interval,
            final(self).width == old(self).width,
            final(self).material == old(self).material,
            final(self).accumulated == spec_next_accumulated(
                old(self).accumulated,
                delta,
                old(self).emit_interval,
            ),
            final(self).points@ == spec_after_tick(
                old(self).points@,
                spec_emits(old(self).accumulated, delta, old(self).emit_interval),
                TrailSample { position, timestamp: now },
                old(self).max_points as int,
                now,
            ),
            final(self).accepts_time(now),
            final(self).points@.len() <= final(self).max_points,
            forall|k: int|
                0 <= k < final(self).points@.len() ==> !spec_expired(
                    #[trigger] final(self).points@[k],
                    now,
                ),
            final(self).points@.len() == 0 ==> final(self).mesh_entity is None,
            final(self).points@.len() == 0 ==> retired == old(self).mesh_entity,
            final(self).points@.len() > 0 ==> retired is None && final(self).mesh_entity
                == old(self).mesh_entity,
    {
        let acc = if delta > u64::MAX - self.accumulated {
            u64::MAX
        } else {
            self.accumulated + delta
        };
        let ghost grown = if acc >= self.emit_interval {
            self.points@.push(TrailSample { position, timestamp: now })
        } else {
            self.points@
        };
        if acc >= self.emit_interval {
            self.accumulated = acc - self.emit_interval;
            self.points.push_back(TrailSample { position, timestamp: now });
        } else {
            self.accumulated = acc;
        }
        assert(self.points@ == grown);
        assert(spec_sorted(grown));
        evict_over_count(&mut self.points, self.max_points);
        let ghost capped = self.points@;
        assert(spec_sorted(capped));
        evict_expired(&mut self.points, now);
        proof {
            lemma_drop_expired_suffix(capped, now);
            let r = self.points@;
            assert(spec_sorted(r));
            assert forall|k: int| 0 <= k < r.len() implies !spec_expired(#[trigger] r[k], now) by {
                assert(r[0].timestamp <= r[k].timestamp);
            }
            if r.len() > 0 {
                assert(grown.len() > 0);
                assert(r.last() == grown.last());
            }
        }
        if self.points.len() == 0 {
            self.mesh_entity.take()
        } else {
            None
        }
    }

    /// The ribbon over the current samples, or `None` below two samples: the
    /// mesh then stays as it is.
    pub fn generate_mesh(&self) -> (r: Option<RibbonMesh>)
        requires
            self.wf(),
        ensures
            self.points@.len() < 2 <==> r is None,
            r matches Some(m) ==> m.is_ribbon_of(self.points@, self.width),
    {
        if self.points.len() < 2 {
            None
        } else {
            Some(create_trail_mesh(&self.points, self.width))
        }
    }

    /// Makes `mesh` the trail's only live mesh and hands back the one it
    /// replaces, for the renderer to retire.
    pub fn replace_mesh(&mut self, mesh: H) -> (previous: Option<H>)
        ensures
            previous == old(self).mesh_entity,
            final(self).mesh_entity == Some(mesh),
            final(self).max_points == old(self).max_points,
            final(self).emit_interval == old(self).emit_interval,
            final(self).width == old(self).width,
            final(self).material == old(self).material,
            final(self).accumulated == old(self).accumulated,
            final(self).points@ == old(self).points@,
    {
        let previous = self.mesh_entity.take();
        self.mesh_entity = Some(mesh);
        previous
    }
}

} // verus!
