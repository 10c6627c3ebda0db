//! How a spell effect plays and how its light ends: the birth that hands over to a hold, the
//! decay a reaped effect plays out, and the end of the light it throws.
use crate::single::{Single, ONE_BITS, ZERO_BITS};
use vstd::prelude::*;

verus! {

/// The animation of the sustained pulse.
pub const ANIM_HOLD: u16 = 158;

/// The animation of the fade-out.
pub const ANIM_DECAY: u16 = 159;

/// Seconds a spell light takes to come up: 0.1.
pub const SPELL_LIGHT_RAMP_BITS: u32 = 0x3DCC_CCCD;

/// Seconds a burst takes to fade when nothing else is known: 0.6.
pub const SPELL_BURST_SPAN_BITS: u32 = 0x3F19_999A;

/// Seconds a light takes to go dark once its effect is reaped: 0.25.
pub const SPELL_REAP_FADE_BITS: u32 = 0x3E80_0000;

/// Seconds an area light takes to come up: 0.25.
pub const SPELL_AREA_RAMP_BITS: u32 = 0x3E80_0000;

/// Seconds an area light takes to go dark once its area is gone: 0.4.
pub const SPELL_AREA_FADE_BITS: u32 = 0x3ECC_CCCD;

/// The least change of brightness that is written: 1e-3.
pub const BRIGHTNESS_STEP_BITS: u32 = 0x3A83_126F;

/// The lives an effect model can lead.
#[derive(Clone, Copy, Debug, PartialEq, Eq, Structural)]
pub enum FxStage {
    /// It plays once.
    OneShot,
    /// It stands while a state holds.
    State,
    /// It plays again whenever it ends.
    Relive,
}

/// One animation of a model.
#[derive(Clone, Copy, Debug, PartialEq, Eq, Structural)]
pub struct AnimClip {
    pub anim_id: u16,
    pub node: u32,
    pub looping: bool,
    pub duration: Single,
}

/// What an effect model still waits for, with the node it has armed.
#[derive(Clone, Copy, Debug, PartialEq, Eq, Structural)]
pub enum FxAnimLife {
    /// Its birth plays, and hands over when it ends.
    Birth(u32),
    /// Nothing is left to hand over.
    Settled(u32),
}

impl FxAnimLife {
    /// The node that is armed.
    pub open spec fn armed_node(self) -> u32 {
        match self {
            FxAnimLife::Birth(node) => node,
            FxAnimLife::Settled(node) => node,
        }
    }

    /// Arms `clip` for `stage`: says what is left to wait for and whether the clip repeats. It
    /// repeats where the sequence loops, and whatever the sequence says for a stage that plays
    /// again; only a state has a handover left.
    pub fn arm(clip: &AnimClip, stage: FxStage) -> (r: (FxAnimLife, bool))
        ensures
            r.0 == if stage == FxStage::State {
                FxAnimLife::Birth(clip.node)
            } else {
                FxAnimLife::Settled(clip.node)
            },
            r.1 == (clip.looping || stage == FxStage::Relive),
    {
        let repeats = clip.looping || stage == FxStage::Relive;
        match stage {
            FxStage::State => (FxAnimLife::Birth(clip.node), repeats),
            _ => (FxAnimLife::Settled(clip.node), repeats),
        }
    }

    /// The node that is armed.
    pub fn armed(&self) -> (r: u32)
        ensures
            r == self.armed_node(),
    {
        match self {
            FxAnimLife::Birth(node) => *node,
            FxAnimLife::Settled(node) => *node,
        }
    }
}

/// `clips` holds its first clip of `id` at `at`.
pub open spec fn first_clip(clips: Seq<AnimClip>, id: u16, at: int) -> bool {
    &&& 0 <= at < clips.len()
    &&& clips[at].anim_id == id
    &&& forall|k: int| 0 <= k < at ==> (#[trigger] clips[k]).anim_id != id
}

/// The first clip of `id`, where the model has one.
pub open spec fn clip_of(clips: Seq<AnimClip>, id: u16) -> Option<AnimClip>
    decreases clips.len(),
{
    if clips.len() == 0 {
        None
    } else if clips.first().anim_id == id {
        Some(clips.first())
    } else {
        clip_of(clips.drop_first(), id)
    }
}

/// Finds the first clip of `id`.
pub fn find(clips: &Vec<AnimClip>, id: u16) -> (r: Option<AnimClip>)
    ensures
        r == clip_of(clips@, id),
        match r {
            Some(clip) => exists|at: int| #[trigger]
                first_clip(clips@, id, at) && clips@[at] == clip,
            None => forall|k: int| 0 <= k < clips@.len() ==> (#[trigger] clips@[k]).anim_id != id,
        },
{
    let mut i: usize = 0;
    assert(clips@.skip(0) =~= clips@);
    while i < clips.len()
        invariant
            i <= clips@.len(),
            clip_of(clips@, id) == clip_of(clips@.skip(i as int), id),
            forall|k: int| 0 <= k < i ==> (#[trigger] clips@[k]).anim_id != id,
        decreases clips@.len() - i,
    {
        assert(clips@.skip(i as int).first() == clips@[i as int]);
        assert(clips@.skip(i as int).drop_first() =~= clips@.skip(i as int + 1));
        if clips[i].anim_id == id {
            assert(first_clip(clips@, id, i as int));
            return Some(clips[i]);
        }
        i += 1;
    }
    None
}

/// What one pass does to an effect's player.
#[derive(Clone, Copy, Debug, PartialEq, Eq, Structural)]
pub enum FxStep {
    /// Nothing.
    Wait,
    /// The effect was reaped: its life ends here, what it played stops and its decay plays once.
    Decay { stop: u32, fade: u32 },
    /// The effect was reaped and has no decay: its life ends here.
    End,
    /// The birth is over: it stops and the hold plays for good.
    Hold { stop: u32, play: u32 },
    /// The birth is over and there is no hold: the model stays where it is.
    Park,
}

/// What one pass does: a reap comes first; then only a birth whose clip has ended once moves on.
pub open spec fn fx_step(
    life: FxAnimLife,
    clips: Seq<AnimClip>,
    completions: Option<u32>,
    decaying: bool,
) -> FxStep {
    if decaying {
        match clip_of(clips, ANIM_DECAY) {
            Some(decay) => FxStep::Decay { stop: life.armed_node(), fade: decay.node },
            None => FxStep::End,
        }
    } else if life is Birth && (completions matches Some(n) && n >= 1) {
        match clip_of(clips, ANIM_HOLD) {
            Some(hold) => FxStep::Hold { stop: life.armed_node(), play: hold.node },
            None => FxStep::Park,
        }
    } else {
        FxStep::Wait
    }
}

/// What is left to wait for after a pass, and `None` once the life is over.
pub open spec fn life_after(life: FxAnimLife, step: FxStep) -> Option<FxAnimLife> {
    match step {
        FxStep::Wait => Some(life),
        FxStep::Decay { .. } => None,
        FxStep::End => None,
        FxStep::Hold { play, .. } => Some(FxAnimLife::Settled(play)),
        FxStep::Park => Some(FxAnimLife::Settled(life.armed_node())),
    }
}

/// The node that a reaped effect plays out, where the model has a decay.
pub fn arm_decay(clips: &Vec<AnimClip>) -> (r: Option<u32>)
    ensures
        r == match clip_of(clips@, ANIM_DECAY) {
            Some(decay) => Some(decay.node),
            None => None,
        },
{
    match find(clips, ANIM_DECAY) {
        Some(decay) => Some(decay.node),
        None => None,
    }
}

/// Runs the completion rule of one effect. `completions` counts how often the armed clip has
/// ended, while the player still holds it.
pub fn advance_fx_anim(
    life: &mut Option<FxAnimLife>,
    clips: &Vec<AnimClip>,
    completions: Option<u32>,
    decaying: bool,
) -> (r: FxStep)
    ensures
        match *old(life) {
            None => r == FxStep::Wait && *final(life) is None,
            Some(l) => {
                &&& r == fx_step(l, clips@, completions, decaying)
                &&& *final(life) == life_after(l, r)
            },
        },
{
    let now: FxAnimLife = match *life {
        Some(now) => now,
        None => {
            return FxStep::Wait;
        },
    };
    if decaying {
        *life = None;
        return match arm_decay(clips) {
            Some(fade) => FxStep::Decay { stop: now.armed(), fade },
            None => FxStep::End,
        };
    }
    let armed: u32 = match now {
        FxAnimLife::Birth(armed) => armed,
        FxAnimLife::Settled(_) => {
            return FxStep::Wait;
        },
    };
    let ended = match completions {
        Some(n) => n >= 1,
        None => false,
    };
    if !ended {
        return FxStep::Wait;
    }
    match find(clips, ANIM_HOLD) {
        Some(hold) => {
            *life = Some(FxAnimLife::Settled(hold.node));
            FxStep::Hold { stop: armed, play: hold.node }
        },
        None => {
            *life = Some(FxAnimLife::Settled(armed));
            FxStep::Park
        },
    }
}

/// How long a reaped effect keeps rendering: the length of its decay, where the model has one.
pub fn decay_span(clips: Option<&Vec<AnimClip>>) -> (r: Option<Single>)
    ensures
        r == match clips {
            Some(all) => match clip_of(all@, ANIM_DECAY) {
                Some(decay) => Some(decay.duration),
                None => None,
            },
            None => None,
        },
{
    match clips {
        Some(all) => match find(all, ANIM_DECAY) {
            Some(decay) => Some(decay.duration),
            None => None,
        },
        None => None,
    }
}

/// A birth hands over once: after it no completion moves the effect again, and only a reap ends
/// it.
pub proof fn a_birth_hands_over_once(
    life: FxAnimLife,
    clips: Seq<AnimClip>,
    completions: Option<u32>,
    later: Option<u32>,
)
    requires
        fx_step(life, clips, completions, false) is Hold || fx_step(
            life,
            clips,
            completions,
            false,
        ) is Park,
    ensures
        life_after(life, fx_step(life, clips, completions, false)) matches Some(next) && next
            is Settled && fx_step(next, clips, later, false) == FxStep::Wait,
{
}

/// A reaped effect plays a decay exactly when it keeps rendering for one.
pub proof fn a_decay_plays_exactly_as_long_as_it_is_granted(
    life: FxAnimLife,
    clips: Seq<AnimClip>,
    completions: Option<u32>,
)
    ensures
        fx_step(life, clips, completions, true) is Decay <==> clip_of(clips, ANIM_DECAY) is Some,
        life_after(life, fx_step(life, clips, completions, true)) is None,
{
}

/// The lives a spell light can lead.
#[derive(Clone, Copy, Debug, PartialEq, Eq, Structural)]
pub enum SpellLightMode {
    /// It holds while its effect stands on a unit.
    Kit,
    /// It flies with its missile.
    Missile,
    /// It flashes and is gone after `span` seconds.
    Burst { span: Single },
    /// It stands over an area, breathing from `phase`.
    Area { phase: Single },
}

impl SpellLightMode {
    /// Seconds this mode takes to come up.
    pub open spec fn ramp_span(self) -> Single {
        Single {
            bits: if self is Area {
                SPELL_AREA_RAMP_BITS
            } else {
                SPELL_LIGHT_RAMP_BITS
            },
        }
    }

    /// Seconds this mode takes to go dark once its host is gone.
    pub open spec fn fade_span(self) -> Single {
        Single {
            bits: if self is Area {
                SPELL_AREA_FADE_BITS
            } else {
                SPELL_REAP_FADE_BITS
            },
        }
    }

    /// Seconds this mode takes to come up.
    pub fn ramp(self) -> (r: Single)
        ensures
            r == self.ramp_span(),
    {
        match self {
            SpellLightMode::Area { .. } => Single { bits: SPELL_AREA_RAMP_BITS },
            _ => Single { bits: SPELL_LIGHT_RAMP_BITS },
        }
    }

    /// Seconds this mode takes to go dark once its host is gone.
    pub fn reap_fade(self) -> (r: Single)
        ensures
            r == self.fade_span(),
    {
        match self {
            SpellLightMode::Area { .. } => Single { bits: SPELL_AREA_FADE_BITS },
            _ => Single { bits: SPELL_REAP_FADE_BITS },
        }
    }
}

/// One live spell light: the brightness it has when fully up, when it comes up, how it lives, its
/// age, and how long its host has been gone.
#[derive(Clone, Copy, Debug, PartialEq, Eq, Structural)]
pub struct SpellLight {
    pub base: Single,
    pub onset: Single,
    pub mode: SpellLightMode,
    pub age: Single,
    pub reaped: Single,
}

/// The quotients that a light's brightness is made of: the time since its onset, that time over
/// the ramp, what a burst's span leaves of one, the swell of an area light, and what the fade
/// after the host leaves of one.
#[derive(Clone, Copy, Debug, PartialEq, Eq, Structural)]
pub struct EnvelopeTerms {
    pub since_onset: Single,
    pub ramped: Single,
    pub burst_left: Single,
    pub swell: Single,
    pub fade_left: Single,
}

/// The three factors of a light's brightness: coming up, its own course, and going dark after its
/// host.
#[derive(Clone, Copy, Debug, PartialEq, Eq, Structural)]
pub struct Envelope {
    pub up: Single,
    pub down: Single,
    pub reap: Single,
}

/// The factors of a light's brightness, and `None` before its onset, when it is dark.
pub open spec fn envelope_of(mode: SpellLightMode, terms: EnvelopeTerms) -> Option<Envelope> {
    let zero = Single { bits: ZERO_BITS };
    let one = Single { bits: ONE_BITS };
    if terms.since_onset.at_most(zero) {
        None
    } else {
        Some(
            Envelope {
                up: terms.ramped.no_more_than(one),
                down: match mode {
                    SpellLightMode::Burst { .. } => terms.burst_left.clamped(zero, one),
                    SpellLightMode::Area { .. } => terms.swell,
                    _ => one,
                },
                reap: terms.fade_left.clamped(zero, one),
            },
        )
    }
}

/// Finds the factors of a light's brightness.
pub fn envelope(mode: SpellLightMode, terms: &EnvelopeTerms) -> (r: Option<Envelope>)
    ensures
        r == envelope_of(mode, *terms),
{
    let zero = Single { bits: ZERO_BITS };
    let one = Single { bits: ONE_BITS };
    if terms.since_onset.is_at_most(zero) {
        return None;
    }
    let down = match mode {
        SpellLightMode::Burst { .. } => terms.burst_left.clamp(zero, one),
        SpellLightMode::Area { .. } => terms.swell,
        _ => one,
    };
    Some(
        Envelope {
            up: terms.ramped.min(one),
            down,
            reap: terms.fade_left.clamp(zero, one),
        },
    )
}

/// A light that has come up fully and whose host stands shines at exactly its own course, which
/// for a held light and a missile is its full brightness.
pub proof fn a_light_that_is_up_runs_its_own_course(
    mode: SpellLightMode,
    terms: EnvelopeTerms,
    zero: Single,
    one: Single,
)
    requires
        !terms.since_onset.at_most(zero),
        one.at_most(terms.ramped),
        terms.fade_left == one,
        zero == (Single { bits: ZERO_BITS }),
        one == (Single { bits: ONE_BITS }),
    ensures
        envelope_of(mode, terms) matches Some(e) && e.up.same_number(one) && e.reap == one && (mode
            is Kit || mode is Missile ==> e.down == one),
{
    reveal(Single::clamped);
}

/// What the light sees of its host: it plays its decay out, or it fades from the world.
#[derive(Clone, Copy, Debug, PartialEq, Eq, Structural)]
pub struct Host {
    pub decaying: bool,
    pub fading: bool,
}

/// A light's host has ended it: a decaying effect ends a held light, a fading area an area light;
/// a missile and a burst have no such end.
pub open spec fn host_ended(mode: SpellLightMode, host: Option<Host>) -> bool {
    match host {
        Some(h) => (mode is Kit && h.decaying) || (mode is Area && h.fading),
        None => false,
    }
}

impl SpellLight {
    /// A fresh light.
    pub fn new(base: Single, onset: Single, mode: SpellLightMode) -> (r: SpellLight)
        ensures
            r.base == base,
            r.onset == onset,
            r.mode == mode,
            r.age == (Single { bits: ZERO_BITS }),
            r.reaped == (Single { bits: ZERO_BITS }),
    {
        let zero = Single { bits: ZERO_BITS };
        SpellLight { base, onset, mode, age: zero, reaped: zero }
    }

    /// The light has gone dark after its host.
    pub open spec fn gone_dark(self) -> bool {
        self.mode.fade_span().at_most(self.reaped)
    }

    /// Has this light finished going dark after its host?
    pub fn reap_complete(&self) -> (r: bool)
        ensures
            r == self.gone_dark(),
    {
        self.mode.reap_fade().is_at_most(self.reaped)
    }
}

/// Ages one spell light by a frame: `aged` is its age and `faded` the time its host has been gone
/// for, each with the frame added. Says whether the light is to be despawned, which only an area
/// light that has gone dark asks for.
pub fn advance_spell_light(
    light: &mut SpellLight,
    aged: Single,
    faded: Single,
    host: Option<Host>,
) -> (r: bool)
    ensures
        *final(light) == (SpellLight {
            age: aged,
            reaped: if host_ended(old(light).mode, host) {
                faded
            } else {
                old(light).reaped
            },
            ..*old(light)
        }),
        r == (host_ended(old(light).mode, host) && old(light).mode is Area
            && final(light).gone_dark()),
{
    light.age = aged;
    let ended = match (light.mode, host) {
        (SpellLightMode::Kit, Some(h)) => h.decaying,
        (SpellLightMode::Area { .. }, Some(h)) => h.fading,
        _ => false,
    };
    if !ended {
        return false;
    }
    light.reaped = faded;
    match light.mode {
        SpellLightMode::Area { .. } => light.reap_complete(),
        _ => false,
    }
}

/// Decides whether a light's brightness is written: where it is more than the step away from what
/// it should be. `gap` is the distance between the two.
pub fn writes_brightness(gap: Single) -> (r: bool)
    ensures
        r == (Single { bits: BRIGHTNESS_STEP_BITS }).below(gap),
{
    let step = Single { bits: BRIGHTNESS_STEP_BITS };
    step.is_below(gap)
}

/// A missile and a burst never ask to be despawned, and never fade after a host.
pub proof fn a_flying_light_has_no_host_to_fade_after(mode: SpellLightMode, host: Option<Host>)
    requires
        mode is Missile || mode is Burst,
    ensures
        !host_ended(mode, host),
{
}

} // verus!
