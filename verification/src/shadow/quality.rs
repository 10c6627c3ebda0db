//! What a shadow may cost: the map-size ladder, the filter, and the rebuild cadence.
use crate::single::Single;
use vstd::prelude::*;

verus! {

/// The smallest shadow map edge on offer, in texels.
pub const SMALL_MAP: u32 = 1024;

/// The middle rung of the ladder, and the edge a fresh client runs.
pub const DEFAULT_SHADOW_MAP_SIZE: u32 = 2048;

/// The largest shadow map edge on offer.
pub const LARGE_MAP: u32 = 4096;

/// The filter a fresh client runs: 1, the nine-sample one.
pub const DEFAULT_SHADOW_FILTER: u32 = 1;

/// The top of the filter ladder.
pub const MAX_SHADOW_FILTER: u32 = 1;

/// The rebuild cap a fresh client runs, in rebuilds a second.
pub const DEFAULT_SHADOW_RATE: u32 = 30;

/// The top of the rebuild caps.
pub const MAX_SHADOW_RATE: u32 = 120;

/// The rungs of the map-size ladder.
pub open spec fn on_ladder(size: int) -> bool {
    size == SMALL_MAP || size == DEFAULT_SHADOW_MAP_SIZE || size == LARGE_MAP
}

/// `asked` lies nearer to the lower of two rungs than to the upper, in ratio: below their
/// geometric mean.
pub open spec fn nearer_below(asked: int, lower: int, upper: int) -> bool {
    asked * asked < lower * upper
}

/// The rung of the ladder nearest to `asked` in ratio.
pub open spec fn nearest_rung(asked: int) -> int {
    if nearer_below(asked, SMALL_MAP as int, DEFAULT_SHADOW_MAP_SIZE as int) {
        SMALL_MAP as int
    } else if nearer_below(asked, DEFAULT_SHADOW_MAP_SIZE as int, LARGE_MAP as int) {
        DEFAULT_SHADOW_MAP_SIZE as int
    } else {
        LARGE_MAP as int
    }
}

/// Snaps a requested map edge onto the ladder, nearest in ratio.
pub fn clamp_shadow_map_size(asked: u32) -> (r: u32)
    ensures
        r == nearest_rung(asked as int),
{
    let held: u64 = if asked > LARGE_MAP { LARGE_MAP as u64 } else { asked as u64 };
    proof {
        if asked > LARGE_MAP {
            assert(asked * asked >= 4096 * 4096) by (nonlinear_arith)
                requires
                    asked > 4096,
            ;
        }
        assert(held * held <= 4096 * 4096) by (nonlinear_arith)
            requires
                held <= 4096,
        ;
    }
    let squared: u64 = held * held;
    proof {
        assert(1024int * 2048int == 2_097_152 && 2048int * 4096int == 8_388_608) by (nonlinear_arith);
    }
    if squared < 2_097_152 {
        SMALL_MAP
    } else if squared < 8_388_608 {
        DEFAULT_SHADOW_MAP_SIZE
    } else {
        LARGE_MAP
    }
}

/// The snapped size is a rung, a rung is its own snap, and a larger request never gets a
/// smaller map.
pub proof fn snapping_lands_on_the_ladder(asked: int, more: int)
    requires
        0 <= asked <= more,
    ensures
        on_ladder(nearest_rung(asked)),
        on_ladder(asked) ==> nearest_rung(asked) == asked,
        nearest_rung(asked) <= nearest_rung(more),
{
    assert(asked * asked <= more * more) by (nonlinear_arith)
        requires
            0 <= asked <= more,
    ;
    assert(1024int * 2048int == 2_097_152 && 2048int * 4096int == 8_388_608) by (nonlinear_arith);
    assert(1024int * 1024int == 1_048_576 && 2048int * 2048int == 4_194_304 && 4096int * 4096int == 16_777_216)
        by (nonlinear_arith);
}

/// A lane's rebuild cadence: when it last rebuilt, in seconds since the client started.
#[derive(Debug)]
pub struct RebuildRate {
    last: Option<Single>,
}

impl RebuildRate {
    /// When the lane last rebuilt.
    pub closed spec fn last_grant(self) -> Option<Single> {
        self.last
    }

    /// A lane that has never rebuilt.
    pub fn new() -> (r: RebuildRate)
        ensures
            r.last_grant() is None,
    {
        RebuildRate { last: None }
    }

    /// When the lane last rebuilt.
    pub fn last(&self) -> (r: Option<Single>)
        ensures
            r == self.last_grant(),
    {
        self.last
    }

    /// Whether a rebuild is due at `now` under a cap of `rate` a second. `elapsed` says whether
    /// `now` lies a full interval after the last rebuild. A rebuild is due where the cap is 0,
    /// where none was made yet, where the interval has passed, and where the clock went back;
    /// a granted one takes the time.
    pub fn due(&mut self, now: Single, rate: u32, elapsed: bool) -> (r: bool)
        ensures
            r == rebuild_due(old(self).last_grant(), now, rate, elapsed),
            final(self).last_grant() == (if r {
                Some(now)
            } else {
                old(self).last_grant()
            }),
    {
        let due = match self.last {
            None => true,
            Some(last) => rate == 0 || elapsed || now.is_below(last),
        };
        if due {
            self.last = Some(now);
        }
        due
    }

    /// Forgets the last rebuild, so that the next one is due at once.
    pub fn reset(&mut self)
        ensures
            final(self).last_grant() is None,
    {
        self.last = None;
    }
}

/// When a rebuild is due.
pub open spec fn rebuild_due(last: Option<Single>, now: Single, rate: u32, elapsed: bool) -> bool {
    match last {
        None => true,
        Some(at) => rate == 0 || elapsed || now.below(at),
    }
}

/// The first rebuild is always due, a cap of 0 never gates, and a clock that went back is due.
pub proof fn the_gate_never_sticks(last: Option<Single>, now: Single, rate: u32, elapsed: bool)
    ensures
        last is None ==> rebuild_due(last, now, rate, elapsed),
        rate == 0 ==> rebuild_due(last, now, rate, elapsed),
        last matches Some(at) && now.below(at) ==> rebuild_due(last, now, rate, elapsed),
{
}

/// A granted rebuild consumes its slot: asked again at the same time under a cap, and with no
/// interval passed since, no rebuild is due.
pub proof fn a_grant_consumes_the_slot(now: Single, rate: u32)
    requires
        rate > 0,
    ensures
        !rebuild_due(Some(now), now, rate, false),
{
}

/// How a receiver filters the shadow map.
#[derive(Clone, Copy, Debug, PartialEq, Eq, Structural)]
pub enum ShadowFiltering {
    Gaussian,
    Hardware2x2,
}

/// The quality settings as they were last reported.
#[derive(Clone, Copy, Debug)]
pub struct TracedQuality {
    pub map_size: u32,
    pub gaussian: bool,
    pub character_rate: u32,
    pub world_rate: u32,
    pub caster_reach: Single,
}

impl TracedQuality {
    /// The two reports say the same.
    pub open spec fn agrees(self, other: TracedQuality) -> bool {
        &&& self.map_size == other.map_size
        &&& self.gaussian == other.gaussian
        &&& self.character_rate == other.character_rate
        &&& self.world_rate == other.world_rate
        &&& self.caster_reach.same_number(other.caster_reach)
    }

    fn matches(&self, other: &TracedQuality) -> (r: bool)
        ensures
            r == self.agrees(*other),
    {
        self.map_size == other.map_size && self.gaussian == other.gaussian && self.character_rate == other.character_rate
            && self.world_rate == other.world_rate && self.caster_reach.equals(other.caster_reach)
    }
}

/// The shadow settings that bear on cost.
#[derive(Clone, Copy, Debug)]
pub struct ShadowQuality {
    pub shadow_map_size: u32,
    pub shadow_filter: u32,
    pub character_shadow_rate: u32,
    pub world_shadow_rate: u32,
    pub shadow_caster_reach: Single,
}

/// Where the quality settings currently stand.
#[derive(Debug)]
pub struct QualitySinks {
    /// The edge of the shadow map.
    pub map_size: u32,
    /// The retained pipelines' filter switch.
    pub gaussian: bool,
    /// The filter each world camera carries, if any.
    pub cameras: Vec<Option<ShadowFiltering>>,
    /// The last report, if one was made.
    pub traced: Option<TracedQuality>,
}

/// What one pass over the sinks writes.
#[derive(Debug)]
pub struct QualityWrites {
    pub map_size: Option<u32>,
    pub gaussian: Option<bool>,
    /// The filter that every camera is to carry.
    pub method: ShadowFiltering,
    /// For each camera, whether the filter has to be put on it.
    pub cameras: Vec<bool>,
    pub report: Option<TracedQuality>,
}

/// The filter that a setting selects: 0 is the one-sample filter, all else the nine-sample one.
pub open spec fn method_for(filter: u32) -> ShadowFiltering {
    if filter != 0 {
        ShadowFiltering::Gaussian
    } else {
        ShadowFiltering::Hardware2x2
    }
}

/// What the settings amount to in a report.
pub open spec fn report_of(q: ShadowQuality) -> TracedQuality {
    TracedQuality {
        map_size: nearest_rung(q.shadow_map_size as int) as u32,
        gaussian: q.shadow_filter != 0,
        character_rate: q.character_shadow_rate,
        world_rate: q.world_shadow_rate,
        caster_reach: q.shadow_caster_reach,
    }
}

/// Pushes the quality settings: each sink is written exactly where it differs, and a report is
/// due where tracing is on and the last one said something else.
pub fn apply_shadow_quality(q: ShadowQuality, sinks: &QualitySinks, tracing: bool) -> (r: QualityWrites)
    ensures
        r.method == method_for(q.shadow_filter),
        r.map_size == (if sinks.map_size == nearest_rung(q.shadow_map_size as int) {
            None::<u32>
        } else {
            Some(nearest_rung(q.shadow_map_size as int) as u32)
        }),
        r.gaussian == (if sinks.gaussian == (q.shadow_filter != 0) {
            None::<bool>
        } else {
            Some(q.shadow_filter != 0)
        }),
        r.cameras@.len() == sinks.cameras@.len(),
        forall|i: int|
            0 <= i < sinks.cameras@.len() ==> #[trigger] r.cameras@[i] == (sinks.cameras@[i] != Some(
                method_for(q.shadow_filter),
            )),
        r.report == (if tracing && !(sinks.traced matches Some(last) && last.agrees(report_of(q))) {
            Some(report_of(q))
        } else {
            None::<TracedQuality>
        }),
{
    let size: u32 = clamp_shadow_map_size(q.shadow_map_size);
    let gaussian: bool = q.shadow_filter != 0;
    let method = if gaussian { ShadowFiltering::Gaussian } else { ShadowFiltering::Hardware2x2 };
    let mut cameras: Vec<bool> = Vec::new();
    let mut i: usize = 0;
    while i < sinks.cameras.len()
        invariant
            i <= sinks.cameras@.len(),
            cameras@.len() == i,
            method == method_for(q.shadow_filter),
            forall|j: int| 0 <= j < i ==> #[trigger] cameras@[j] == (sinks.cameras@[j] != Some(method)),
        decreases sinks.cameras@.len() - i,
    {
        let differs: bool = match sinks.cameras[i] {
            Some(current) => current != method,
            None => true,
        };
        cameras.push(differs);
        i = i + 1;
    }
    let report = TracedQuality {
        map_size: size,
        gaussian,
        character_rate: q.character_shadow_rate,
        world_rate: q.world_shadow_rate,
        caster_reach: q.shadow_caster_reach,
    };
    let said: bool = match &sinks.traced {
        Some(last) => last.matches(&report),
        None => false,
    };
    QualityWrites {
        map_size: if sinks.map_size == size { None } else { Some(size) },
        gaussian: if sinks.gaussian == gaussian { None } else { Some(gaussian) },
        method,
        cameras,
        report: if tracing && !said { Some(report) } else { None },
    }
}

} // verus!
