//! The bloom: which cameras carry it, how large its textures are, and the passes it runs.
use crate::post::grading::ViewWrite;
use crate::post::uniform::{bits_of, laid_out, uniform_bytes};
use crate::single::{Single, ONE_BITS, ZERO_BITS};
use vstd::prelude::*;

verus! {

/// The strongest bloom.
pub const MAX_TIER: u8 = 2;

/// The least edge of a bloom texture.
pub const LEAST_EDGE: u32 = 8;

/// The gain of the first tier: 0.55.
pub const LOW_GAIN_BITS: u32 = 0x3F0C_CCCD;

/// The gain of the second tier: 0.78.
pub const HIGH_GAIN_BITS: u32 = 0x3F47_AE14;

/// The number two.
pub const TWO_BITS: u32 = 0x4000_0000;

/// The tier a setting asks for: no more than the strongest.
pub open spec fn tier_of(bloom: u8) -> u8 {
    if bloom > MAX_TIER {
        MAX_TIER
    } else {
        bloom
    }
}

/// What is done to a camera that carries the bloom of tier `old`: none is shown at tier 0 or on
/// an idle camera, and it is written only where the tier differs.
pub open spec fn bloom_write(bloom: u8, active: bool, old: Option<u8>) -> ViewWrite {
    let tier = tier_of(bloom);
    if tier == 0 || !active {
        if old is Some {
            ViewWrite::Remove
        } else {
            ViewWrite::Leave
        }
    } else if old == Some(tier) {
        ViewWrite::Leave
    } else {
        ViewWrite::Insert
    }
}

/// Decides what is done to a camera's bloom; a written one has the second tier.
pub fn update_bloom_view(bloom: u8, active: bool, old: Option<u8>) -> (r: (ViewWrite, u8))
    ensures
        r.0 == bloom_write(bloom, active, old),
        r.1 == tier_of(bloom),
{
    let tier: u8 = if bloom > MAX_TIER {
        MAX_TIER
    } else {
        bloom
    };
    if tier == 0 || !active {
        return if old.is_some() {
            (ViewWrite::Remove, tier)
        } else {
            (ViewWrite::Leave, tier)
        };
    }
    let held = match old {
        Some(former) => former == tier,
        None => false,
    };
    if held {
        (ViewWrite::Leave, tier)
    } else {
        (ViewWrite::Insert, tier)
    }
}

/// A texture's size.
#[derive(Clone, Copy, Debug, PartialEq, Eq, Structural)]
pub struct TextureSize {
    pub width: u32,
    pub height: u32,
}

/// One edge of a bloom texture: a quarter of the view's on the first tier, half of it above, and
/// never below the least.
pub open spec fn bloom_edge(edge: u32, tier: u8) -> int {
    let scaled = if tier == 1 {
        edge as int / 4
    } else {
        edge as int / 2
    };
    if scaled < LEAST_EDGE {
        LEAST_EDGE as int
    } else {
        scaled
    }
}

fn edge_of(edge: u32, tier: u8) -> (r: u32)
    ensures
        r == bloom_edge(edge, tier),
{
    let scaled: u32 = if tier == 1 {
        edge / 4
    } else {
        edge / 2
    };
    if scaled < LEAST_EDGE {
        LEAST_EDGE
    } else {
        scaled
    }
}

/// The textures a view's bloom holds: their numbers and the tier they were made for.
#[derive(Clone, Copy, Debug, PartialEq, Eq, Structural)]
pub struct BloomTextures {
    pub a: u64,
    pub b: u64,
    pub tier: u8,
}

/// Sizes a view's two bloom textures; a view without a size gets none.
pub fn texture_size(view: Option<TextureSize>, tier: u8) -> (r: Option<TextureSize>)
    ensures
        match view {
            Some(v) => r matches Some(t) && t.width == bloom_edge(v.width, tier) && t.height
                == bloom_edge(v.height, tier),
            None => r is None,
        },
{
    match view {
        Some(v) => Some(
            TextureSize { width: edge_of(v.width, tier), height: edge_of(v.height, tier) },
        ),
        None => None,
    }
}

/// Decides whether a view's bloom has to be bound anew: unless it holds these very textures for
/// this very tier.
pub fn prepare_textures(old: Option<BloomTextures>, a: u64, b: u64, tier: u8) -> (r: bool)
    ensures
        r == (old != Some(BloomTextures { a, b, tier })),
{
    match old {
        Some(held) => !(held.tier == tier && held.a == a && held.b == b),
        None => true,
    }
}

/// The textures a pass reads and writes.
#[derive(Clone, Copy, Debug, PartialEq, Eq, Structural)]
pub enum PassTexture {
    /// The world as it was drawn.
    Main,
    /// The first bloom texture.
    A,
    /// The second bloom texture.
    B,
    /// What the chain of effects has made of the world, read and written on.
    Output,
}

/// The four steps of a bloom.
#[derive(Clone, Copy, Debug, PartialEq, Eq, Structural)]
pub enum BloomPass {
    Extract,
    BlurAcross,
    BlurDown,
    Combine,
}

/// One pass: what it does, what it reads, what it reads beside that, and what it writes.
#[derive(Clone, Copy, Debug, PartialEq, Eq, Structural)]
pub struct PassPlan {
    pub pass: BloomPass,
    pub source: PassTexture,
    pub auxiliary: PassTexture,
    pub destination: PassTexture,
}

/// The passes of a bloom, in order: the bright parts go into the first texture, are blurred
/// across into the second and down back into the first, and are laid over the output.
pub open spec fn bloom_passes() -> Seq<PassPlan> {
    seq![
        PassPlan {
            pass: BloomPass::Extract,
            source: PassTexture::Main,
            auxiliary: PassTexture::B,
            destination: PassTexture::A,
        },
        PassPlan {
            pass: BloomPass::BlurAcross,
            source: PassTexture::A,
            auxiliary: PassTexture::A,
            destination: PassTexture::B,
        },
        PassPlan {
            pass: BloomPass::BlurDown,
            source: PassTexture::B,
            auxiliary: PassTexture::B,
            destination: PassTexture::A,
        },
        PassPlan {
            pass: BloomPass::Combine,
            source: PassTexture::Output,
            auxiliary: PassTexture::A,
            destination: PassTexture::Output,
        },
    ]
}

/// Which of the four pipelines are compiled.
#[derive(Clone, Copy, Debug, PartialEq, Eq, Structural)]
pub struct BloomPipelines {
    pub extract: bool,
    pub blur_across: bool,
    pub blur_down: bool,
    pub combine: bool,
}

/// The passes a view's bloom runs: all four, and none until every pipeline is compiled.
pub fn run_bloom(pipelines: &BloomPipelines) -> (r: Vec<PassPlan>)
    ensures
        r@ == if pipelines.extract && pipelines.blur_across && pipelines.blur_down
            && pipelines.combine {
            bloom_passes()
        } else {
            seq![]
        },
{
    let mut passes: Vec<PassPlan> = Vec::new();
    if !(pipelines.extract && pipelines.blur_across && pipelines.blur_down && pipelines.combine) {
        return passes;
    }
    passes.push(
        PassPlan {
            pass: BloomPass::Extract,
            source: PassTexture::Main,
            auxiliary: PassTexture::B,
            destination: PassTexture::A,
        },
    );
    passes.push(
        PassPlan {
            pass: BloomPass::BlurAcross,
            source: PassTexture::A,
            auxiliary: PassTexture::A,
            destination: PassTexture::B,
        },
    );
    passes.push(
        PassPlan {
            pass: BloomPass::BlurDown,
            source: PassTexture::B,
            auxiliary: PassTexture::B,
            destination: PassTexture::A,
        },
    );
    passes.push(
        PassPlan {
            pass: BloomPass::Combine,
            source: PassTexture::Output,
            auxiliary: PassTexture::A,
            destination: PassTexture::Output,
        },
    );
    assert(passes@ =~= bloom_passes());
    passes
}

/// The four numbers the passes are given: the tier, its gain, and two zeros.
#[derive(Clone, Copy, Debug, PartialEq, Eq, Structural)]
pub struct BloomParams {
    pub tier: Single,
    pub gain: Single,
    pub spare: Single,
    pub padding: Single,
}

/// Makes the numbers the passes of a tier are given.
pub fn bloom_params(tier: u8) -> (r: BloomParams)
    requires
        tier <= MAX_TIER,
    ensures
        r.tier.bits == if tier == 0 {
            ZERO_BITS
        } else if tier == 1 {
            ONE_BITS
        } else {
            TWO_BITS
        },
        r.gain.bits == if tier == 1 {
            LOW_GAIN_BITS
        } else {
            HIGH_GAIN_BITS
        },
        r.spare.bits == ZERO_BITS,
        r.padding.bits == ZERO_BITS,
{
    let zero = Single { bits: ZERO_BITS };
    let bits: u32 = if tier == 0 {
        ZERO_BITS
    } else if tier == 1 {
        ONE_BITS
    } else {
        TWO_BITS
    };
    let gain: u32 = if tier == 1 {
        LOW_GAIN_BITS
    } else {
        HIGH_GAIN_BITS
    };
    BloomParams {
        tier: Single { bits },
        gain: Single { bits: gain },
        spare: zero,
        padding: zero,
    }
}

/// The numbers of a bloom in the order in which the passes read them.
pub open spec fn bloom_row(params: BloomParams) -> Seq<Single> {
    seq![params.tier, params.gain, params.spare, params.padding]
}

/// Lays the numbers of a bloom out for the passes.
pub fn bloom_uniform(params: &BloomParams) -> (r: Vec<u8>)
    ensures
        laid_out(bits_of(bloom_row(*params)), r@),
{
    let mut row: Vec<Single> = Vec::new();
    row.push(params.tier);
    row.push(params.gain);
    row.push(params.spare);
    row.push(params.padding);
    assert(row@ =~= bloom_row(*params));
    uniform_bytes(&row)
}

/// No pass reads a bloom texture while it writes it, and every bloom texture a pass reads as its
/// source was written by the pass before.
pub proof fn no_pass_reads_what_it_writes(k: int)
    requires
        0 <= k < bloom_passes().len(),
    ensures
        bloom_passes()[k].destination != PassTexture::Output ==> bloom_passes()[k].source
            != bloom_passes()[k].destination && bloom_passes()[k].auxiliary
            != bloom_passes()[k].destination,
        bloom_passes()[k].source == PassTexture::A || bloom_passes()[k].source == PassTexture::B
            ==> k > 0 && bloom_passes()[k - 1].destination == bloom_passes()[k].source,
        bloom_passes().last().auxiliary == bloom_passes()[bloom_passes().len() - 2].destination,
{
}

/// A camera that has just been written is left alone until the setting or the camera changes.
pub proof fn a_written_bloom_is_left_alone(bloom: u8)
    requires
        tier_of(bloom) > 0,
    ensures
        bloom_write(bloom, true, Some(tier_of(bloom))) == ViewWrite::Leave,
        bloom_write(bloom, false, Some(tier_of(bloom))) == ViewWrite::Remove,
        bloom_write(bloom, false, None) == ViewWrite::Leave,
{
}

} // verus!
