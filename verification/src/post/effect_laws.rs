//! What holds of every bloom, every sun shaft and every colour cube.
use crate::post::bloom::{
    bloom_params, bloom_row, bloom_uniform, prepare_textures, run_bloom, texture_size,
    update_bloom_view, BloomParams, BloomPass, BloomPipelines, BloomTextures, PassPlan,
    PassTexture, TextureSize,
};
use crate::post::cube::{
    cube_at, identity_cube, stacking_keeps_every_colour, strip_to_cube, StripError,
};
use crate::post::ease::ease_place;
use crate::post::grading::ViewWrite;
use crate::post::grading_laws::shown_after;
use crate::post::sun_shafts::{
    draws_shafts, far_plane, outside_frame, shaft_key, shaft_row, update_shaft_view, ShaftGate,
    ShaftKey, ShaftView,
};
use crate::post::uniform::{bits_of, prepare_uniforms, BufferWrite};
use crate::single::Single;
use vstd::prelude::*;

verus! {

/// After a pass a camera carries the bloom that is asked for: none while it is idle or the setting
/// is off, and else the setting's tier, of which the second is the highest.
pub proof fn a_camera_carries_the_bloom_asked_for(
    bloom: u8,
    active: bool,
    old: Option<u8>,
    r: (ViewWrite, u8),
)
    requires
        call_ensures(update_bloom_view, (bloom, active, old), r),
    ensures
        !active || bloom == 0 ==> shown_after(r.0, Some(r.1), old) is None,
        active && bloom == 1 ==> shown_after(r.0, Some(r.1), old) == Some(1u8),
        active && bloom >= 2 ==> shown_after(r.0, Some(r.1), old) == Some(2u8),
        shown_after(r.0, Some(r.1), old) == old ==> r.0 == ViewWrite::Leave,
{
}

/// A bloom texture has a quarter of the view's edges on the first tier and half of them on the
/// second, rounded down, but never an edge below eight.
pub proof fn a_bloom_texture_is_a_part_of_its_view(
    view: TextureSize,
    low: Option<TextureSize>,
    high: Option<TextureSize>,
    none: Option<TextureSize>,
)
    requires
        call_ensures(texture_size, (Some(view), 1), low),
        call_ensures(texture_size, (Some(view), 2), high),
        call_ensures(texture_size, (None, 1), none),
    ensures
        none is None,
        low matches Some(t) && t.width >= 8 && t.height >= 8,
        high matches Some(t) && t.width >= 8 && t.height >= 8,
        view.width >= 32 ==> (low matches Some(t) && 4 * t.width <= view.width < 4 * t.width + 4),
        view.height >= 32 ==> (low matches Some(t) && 4 * t.height <= view.height < 4 * t.height + 4),
        view.width >= 16 ==> (high matches Some(t) && 2 * t.width <= view.width < 2 * t.width + 2),
        view.height >= 16 ==> (high matches Some(t) && 2 * t.height <= view.height < 2 * t.height + 2),
        view.width < 32 ==> (low matches Some(t) && t.width == 8),
        view.height < 32 ==> (low matches Some(t) && t.height == 8),
        view.width < 16 ==> (high matches Some(t) && t.width == 8),
        view.height < 16 ==> (high matches Some(t) && t.height == 8),
{
}

/// A view is bound anew where it has no textures, where either texture is another, or where they
/// were made for another tier, and nowhere else.
pub proof fn a_view_is_bound_anew_where_anything_differs(
    held: BloomTextures,
    a: u64,
    b: u64,
    tier: u8,
    r: bool,
    first: bool,
)
    requires
        call_ensures(prepare_textures, (Some(held), a, b, tier), r),
        call_ensures(prepare_textures, (None, a, b, tier), first),
    ensures
        first,
        held.a != a ==> r,
        held.b != b ==> r,
        held.tier != tier ==> r,
        held.a == a && held.b == b && held.tier == tier ==> !r,
{
}

/// A bloom runs only when all its pipelines are there. It starts with the world, each blur reads
/// what the pass before wrote, no pass reads a texture that it writes, and the last lays what was
/// blurred over the output.
pub proof fn a_bloom_hands_its_light_from_pass_to_pass(pipelines: &BloomPipelines, r: Vec<PassPlan>)
    requires
        call_ensures(run_bloom, (pipelines,), r),
    ensures
        !pipelines.extract || !pipelines.blur_across || !pipelines.blur_down || !pipelines.combine ==> r@.len() == 0,
        pipelines.extract && pipelines.blur_across && pipelines.blur_down && pipelines.combine ==> {
            &&& r@.len() == 4
            &&& r@[0].pass == BloomPass::Extract
            &&& r@[1].pass == BloomPass::BlurAcross
            &&& r@[2].pass == BloomPass::BlurDown
            &&& r@[3].pass == BloomPass::Combine
            &&& r@[0].source == PassTexture::Main
            &&& r@[1].source == r@[0].destination
            &&& r@[2].source == r@[1].destination
            &&& r@[3].auxiliary == r@[2].destination
            &&& r@[3].source == PassTexture::Output
            &&& r@[3].destination == PassTexture::Output
            &&& r@[0].destination == PassTexture::A
            &&& r@[1].destination == PassTexture::B
            &&& r@[2].destination == PassTexture::A
            &&& r@[0].auxiliary != r@[0].destination
            &&& r@[1].auxiliary != r@[1].destination
            &&& r@[2].auxiliary != r@[2].destination
        },
{
}

/// The passes are given their tier as a number and the gain of that tier, which is larger on the
/// second; the two numbers behind them are zero.
pub proof fn a_higher_tier_glows_more(low: BloomParams, high: BloomParams)
    requires
        call_ensures(bloom_params, (1,), low),
        call_ensures(bloom_params, (2,), high),
    ensures
        low.tier.bits == 0x3F80_0000,
        high.tier.bits == 0x4000_0000,
        low.gain.bits == 0x3F0C_CCCD,
        high.gain.bits == 0x3F47_AE14,
        low.gain.below(high.gain),
        low.spare.bits == 0 && low.padding.bits == 0 && high.spare.bits == 0 && high.padding.bits == 0,
{
}

/// The word in bytes `4 * k` to `4 * k + 3`, lowest byte first.
pub open spec fn low_word(bytes: Seq<u8>, k: int) -> int {
    bytes[4 * k] + 0x100 * bytes[4 * k + 1] + 0x1_0000 * bytes[4 * k + 2] + 0x100_0000 * bytes[4 * k + 3]
}

/// The word in bytes `4 * k` to `4 * k + 3`, highest byte first.
pub open spec fn high_word(bytes: Seq<u8>, k: int) -> int {
    0x100_0000 * bytes[4 * k] + 0x1_0000 * bytes[4 * k + 1] + 0x100 * bytes[4 * k + 2] + bytes[4 * k + 3]
}

/// The passes read the tier first and its gain second, each in four bytes.
pub proof fn the_tier_comes_before_its_gain(params: &BloomParams, r: Vec<u8>)
    requires
        call_ensures(bloom_uniform, (params,), r),
    ensures
        r@.len() == 16,
        ({
            ||| low_word(r@, 0) == params.tier.bits && low_word(r@, 1) == params.gain.bits && low_word(r@, 2)
                == params.spare.bits && low_word(r@, 3) == params.padding.bits
            ||| high_word(r@, 0) == params.tier.bits && high_word(r@, 1) == params.gain.bits && high_word(r@, 2)
                == params.spare.bits && high_word(r@, 3) == params.padding.bits
        }),
{
    let words = bits_of(bloom_row(*params));
    assert(words.len() == 4);
    assert(words[0] == params.tier.bits);
    assert(words[1] == params.gain.bits);
    assert(words[2] == params.spare.bits);
    assert(words[3] == params.padding.bits);
}

/// Two views draw with the same numbers.
pub open spec fn drawn_alike(a: ShaftView, b: ShaftView) -> bool {
    a.u.same_number(b.u) && a.v.same_number(b.v) && a.strength.same_number(b.strength) && a.red.same_number(b.red)
        && a.green.same_number(b.green) && a.blue.same_number(b.blue)
}

/// After a pass a camera shows shafts exactly where they are on, the camera draws outdoors under a
/// sun on the screen, and their strength is more than a thousandth. What it then shows is what it
/// sees, and it is not written again while it shows that already.
pub proof fn a_camera_shows_the_shafts_it_sees(
    state: &ShaftGate,
    seen: &Option<ShaftView>,
    former: &Option<ShaftView>,
    readable: u32,
    depth_usages: &mut u32,
    r: ViewWrite,
)
    requires
        call_ensures(update_shaft_view, (state, seen, former, readable, depth_usages), r),
    ensures
        ({
            let least = Single { bits: 0x3A83_126F };
            let shown = state.enabled && state.active && !state.indoors && state.has_sun && (*seen matches Some(next)
                && !next.strength.at_most(least));
            let after = shown_after(r, *seen, *former);
            &&& !shown ==> after is None
            &&& shown ==> (after matches Some(view) && (view == seen->0 || drawn_alike(view, seen->0)))
            &&& shown && (*former matches Some(view) && drawn_alike(view, seen->0)) ==> r == ViewWrite::Leave
            &&& !(state.enabled && state.active && !state.indoors && state.has_sun) && *former is None ==> r
                == ViewWrite::Leave
        }),
{
}

/// A camera that shows shafts has a depth that they can be drawn with, and keeps every other use
/// of its depth; one that does not keeps its depth as it was.
pub proof fn shown_shafts_can_read_the_depth(
    state: &ShaftGate,
    seen: &Option<ShaftView>,
    former: &Option<ShaftView>,
    readable: u32,
    depth_usages: &mut u32,
    r: ViewWrite,
    drawn: bool,
    use_of_depth: u32,
)
    requires
        call_ensures(update_shaft_view, (state, seen, former, readable, depth_usages), r),
        call_ensures(draws_shafts, (true, readable, *final(depth_usages)), drawn),
        *old(depth_usages) & use_of_depth == use_of_depth,
    ensures
        r == ViewWrite::Insert ==> drawn,
        shown_after(r, *seen, *former) is Some ==> drawn,
        shown_after(r, *seen, *former) is None ==> *final(depth_usages) == *old(depth_usages),
        *final(depth_usages) & use_of_depth == use_of_depth,
{
    let before = *old(depth_usages);
    assert((before | readable) & readable == readable) by (bit_vector);
    assert(before & use_of_depth == use_of_depth ==> (before | readable) & use_of_depth == use_of_depth) by (bit_vector);
}

/// Shafts wait for their pipeline and for a depth that can be read.
pub proof fn shafts_wait_for_their_pipeline(readable: u32, depth_usages: u32, without: bool, with: bool, nothing: bool)
    requires
        call_ensures(draws_shafts, (false, readable, depth_usages), without),
        call_ensures(draws_shafts, (true, readable, depth_usages), with),
        call_ensures(draws_shafts, (true, readable, 0), nothing),
    ensures
        !without,
        with <==> depth_usages & readable == readable,
        nothing <==> readable == 0,
{
    assert(0u32 & readable == 0) by (bit_vector);
}

/// The pass reads the sun's place, the strength and 28 samples, and then the colour.
pub proof fn the_shaft_pass_reads_its_numbers_in_order(view: &ShaftView, r: Vec<Single>)
    requires
        call_ensures(shaft_row, (view,), r),
    ensures
        r@.len() == 8,
        r@[0] == view.u && r@[1] == view.v,
        r@[2] == view.strength,
        r@[3].bits == 0x41E0_0000,
        r@[4] == view.red && r@[5] == view.green && r@[6] == view.blue,
        r@[7].bits == 0,
{
}

/// A camera with perspective keeps its own far plane; one without has it at 3000.
pub proof fn a_flat_camera_has_a_fixed_far_plane(far: Single, own: Single, flat: Single)
    requires
        call_ensures(far_plane, (Some(far),), own),
        call_ensures(far_plane, (None,), flat),
    ensures
        own == far,
        flat.bits == 0x453B_8000,
{
}

/// The sun is as far off the frame as it lies past the edge that it is furthest past: no less than
/// past any of the four, never less than nothing, and always one of these five.
pub proof fn the_furthest_edge_counts(left: Single, right: Single, above: Single, below: Single, r: Single)
    requires
        call_ensures(outside_frame, (left, right, above, below), r),
        !left.not_a_number() && !right.not_a_number() && !above.not_a_number() && !below.not_a_number(),
    ensures
        left.at_most(r) && right.at_most(r) && above.at_most(r) && below.at_most(r),
        (Single { bits: 0 }).at_most(r),
        r == left || r == right || r == above || r == below || r.bits == 0,
{
}

/// A view takes the pipeline of its own format, and the one for several samples from two up.
pub proof fn a_view_takes_the_pipeline_of_its_format(format: u32, samples: u32, r: ShaftKey)
    requires
        call_ensures(shaft_key, (format, samples), r),
    ensures
        r.format == format,
        r.multisampled <==> samples >= 2,
{
}

/// A strip of the right size becomes a cube in which every colour keeps its bytes: the slice of
/// each blue stands on the one before.
pub proof fn every_colour_keeps_its_bytes(
    mips: &Vec<Vec<u8>>,
    r: Result<Vec<u8>, StripError>,
    red: int,
    green: int,
    blue: int,
    channel: int,
)
    requires
        call_ensures(strip_to_cube, (1024, 32, mips), r),
        mips@.len() > 0,
        mips@[0]@.len() == 131072,
        0 <= red < 32,
        0 <= green < 32,
        0 <= blue < 32,
        0 <= channel < 4,
    ensures
        r matches Ok(cube) && cube@.len() == 131072 && cube@[((blue * 32 + green) * 32 + red) * 4 + channel]
            == mips@[0]@[(green * 1024 + blue * 32 + red) * 4 + channel],
{
    stacking_keeps_every_colour(mips@[0]@, red, green, blue, channel);
}

/// A strip of any other size, without a base level or with one of another length is refused, with
/// what was wrong with it.
pub proof fn a_wrong_strip_is_refused(width: u32, height: u32, mips: &Vec<Vec<u8>>, r: Result<Vec<u8>, StripError>)
    requires
        call_ensures(strip_to_cube, (width, height, mips), r),
    ensures
        r is Ok <==> width == 1024 && height == 32 && mips@.len() > 0 && mips@[0]@.len() == 131072,
        width != 1024 || height != 32 ==> r == Err::<Vec<u8>, _>(StripError::WrongSize { width, height }),
        width == 1024 && height == 32 && mips@.len() == 0 ==> r == Err::<Vec<u8>, _>(StripError::NoBaseLevel),
        width == 1024 && height == 32 && mips@.len() > 0 && mips@[0]@.len() != 131072 ==> (r matches Err(
            StripError::WrongLength { bytes },
        ) && bytes == mips@[0]@.len()),
{
    if mips@.len() > 0 {
        assert(mips@[0].len() == mips@[0]@.len());
    }
}

/// `byte` is the nearest to a level's share of the range from 0 to 255.
pub open spec fn nearest_byte(level: int, byte: int) -> bool {
    -15 <= 31 * byte - 255 * level <= 15
}

/// The cube that changes no colour gives every red, green and blue back, to the nearest byte, and
/// lets nothing through.
pub proof fn the_identity_gives_every_colour_back(r: Vec<u8>, red: int, green: int, blue: int)
    requires
        call_ensures(identity_cube, (), r),
        0 <= red < 32,
        0 <= green < 32,
        0 <= blue < 32,
    ensures
        r@.len() == 131072,
        nearest_byte(red, r@[((blue * 32 + green) * 32 + red) * 4] as int),
        nearest_byte(green, r@[((blue * 32 + green) * 32 + red) * 4 + 1] as int),
        nearest_byte(blue, r@[((blue * 32 + green) * 32 + red) * 4 + 2] as int),
        r@[((blue * 32 + green) * 32 + red) * 4 + 3] == 255,
{
    let texel = (blue * 32 + green) * 32 + red;
    assert(0 <= texel < 32768);
    assert(texel % 32 == red && texel / 32 == blue * 32 + green && (texel / 32) % 32 == green && texel / 1024 == blue);
    let d = texel * 4;
    assert(d == cube_at(red, green, blue, 0));
    assert(d / 4 == texel && (d + 1) / 4 == texel && (d + 2) / 4 == texel && (d + 3) / 4 == texel);
    assert(r@[d] as int == (red * 255 + 15) / 31);
    assert(r@[d + 1] as int == (green * 255 + 15) / 31);
    assert(r@[d + 2] as int == (blue * 255 + 15) / 31);
    assert(r@[d + 3] == 255);
}

/// A place between the ends of an ease is kept; before the first end it is the first, and behind
/// the last it is the last.
pub proof fn a_place_on_the_ease_is_kept(along: Single, r: Single)
    requires
        call_ensures(ease_place, (along,), r),
    ensures
        ({
            let first = Single { bits: 0 };
            let last = Single { bits: 0x3F80_0000 };
            &&& first.at_most(along) && along.at_most(last) ==> r == along
            &&& along.below(first) ==> r == first
            &&& last.below(along) ==> r == last
            &&& along.not_a_number() ==> r == along
        }),
{
    reveal(Single::clamped);
}

/// A view's buffer is made once: it is written over where there is one, and made where there is
/// none.
pub proof fn a_buffer_is_made_once(there: BufferWrite, missing: BufferWrite)
    requires
        call_ensures(prepare_uniforms, (true,), there),
        call_ensures(prepare_uniforms, (false,), missing),
    ensures
        there == BufferWrite::Rewrite,
        missing == BufferWrite::Create,
{
}

} // verus!
