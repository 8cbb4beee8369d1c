//! Text anchors: where a string lies relative to the point it is drawn at.

use vstd::prelude::*;

verus! {

/// An anchor as a bit mask. The low two bits choose the horizontal alignment
/// (0 left, 1 centre, 2 right), the bits above the vertical one (0 top,
/// 4 middle, 8 bottom, 16 baseline).
#[allow(non_camel_case_types)]
pub type textdatum_t = u8;

#[allow(non_upper_case_globals)]
pub const textdatum_top_left: textdatum_t = 0;

#[allow(non_upper_case_globals)]
pub const textdatum_top_center: textdatum_t = 1;

#[allow(non_upper_case_globals)]
pub const textdatum_top_centre: textdatum_t = 1;

#[allow(non_upper_case_globals)]
pub const textdatum_top_right: textdatum_t = 2;

#[allow(non_upper_case_globals)]
pub const textdatum_middle_left: textdatum_t = 4;

#[allow(non_upper_case_globals)]
pub const textdatum_middle_center: textdatum_t = 5;

#[allow(non_upper_case_globals)]
pub const textdatum_middle_centre: textdatum_t = 5;

#[allow(non_upper_case_globals)]
pub const textdatum_middle_right: textdatum_t = 6;

#[allow(non_upper_case_globals)]
pub const textdatum_bottom_left: textdatum_t = 8;

#[allow(non_upper_case_globals)]
pub const textdatum_bottom_center: textdatum_t = 9;

#[allow(non_upper_case_globals)]
pub const textdatum_bottom_centre: textdatum_t = 9;

#[allow(non_upper_case_globals)]
pub const textdatum_bottom_right: textdatum_t = 10;

#[allow(non_upper_case_globals)]
pub const textdatum_baseline_left: textdatum_t = 16;

#[allow(non_upper_case_globals)]
pub const textdatum_baseline_center: textdatum_t = 17;

#[allow(non_upper_case_globals)]
pub const textdatum_baseline_centre: textdatum_t = 17;

#[allow(non_upper_case_globals)]
pub const textdatum_baseline_right: textdatum_t = 18;

/// Whether an anchor has a bit of `mask`.
pub open spec fn includes(datum: textdatum_t, mask: textdatum_t) -> bool {
    datum & mask != 0
}

/// The left edge of a string of the given width anchored at `x`: centred
/// anchors move it left by half the width, rounded down, right anchors by
/// the whole width. Centre is looked at before right.
pub open spec fn anchor_x(datum: textdatum_t, x: int, width: int) -> int {
    if includes(datum, textdatum_top_center) {
        x - width / 2
    } else if includes(datum, textdatum_top_right) {
        x - width
    } else {
        x
    }
}

/// The top edge of a string anchored at `y`. Middle anchors move it up by
/// half the height, rounded down, bottom anchors by the whole height,
/// baseline anchors by the baseline; middle is looked at first, then bottom.
/// The font's own vertical offset is taken off whatever the anchor.
pub open spec fn anchor_y(datum: textdatum_t, y: int, height: int, baseline: int, offset: int) -> int {
    let anchored = if includes(datum, textdatum_middle_left) {
        y - height / 2
    } else if includes(datum, textdatum_bottom_left) {
        y - height
    } else if includes(datum, textdatum_baseline_left) {
        y - baseline
    } else {
        y
    };
    anchored - offset
}

/// Whether a coordinate can be handed to the primitive layer.
pub open spec fn is_coordinate(v: int) -> bool {
    i32::MIN <= v <= i32::MAX
}

/// The top-left corner from which a string is drawn: `(x, y)` corrected by
/// the anchor, or `None` where a corner leaves the coordinate range.
/// `baseline` and `offset` are the font's baseline and vertical offset, both
/// already scaled.
pub fn anchor_origin(
    datum: textdatum_t,
    x: i32,
    y: i32,
    width: i32,
    height: i32,
    baseline: i32,
    offset: i32,
) -> (origin: Option<(i32, i32)>)
    ensures
        origin == if is_coordinate(anchor_x(datum, x as int, width as int)) && is_coordinate(
            anchor_y(datum, y as int, height as int, baseline as int, offset as int),
        ) {
            Some(
                (
                    anchor_x(datum, x as int, width as int) as i32,
                    anchor_y(datum, y as int, height as int, baseline as int, offset as int) as i32,
                ),
            )
        } else {
            None::<(i32, i32)>
        },
{
    let wide_width: i64 = width as i64;
    let wide_height: i64 = height as i64;
    let half_width: i64 = wide_width >> 1;
    let half_height: i64 = wide_height >> 1;
    assert(half_width == wide_width as int / 2) by (bit_vector)
        requires
            half_width == wide_width >> 1,
    ;
    assert(half_height == wide_height as int / 2) by (bit_vector)
        requires
            half_height == wide_height >> 1,
    ;
    let anchored: i64 = if datum & textdatum_middle_left != 0 {
        y as i64 - half_height
    } else if datum & textdatum_bottom_left != 0 {
        y as i64 - wide_height
    } else if datum & textdatum_baseline_left != 0 {
        y as i64 - baseline as i64
    } else {
        y as i64
    };
    let top: i64 = anchored - offset as i64;
    let left: i64 = if datum & textdatum_top_center != 0 {
        x as i64 - half_width
    } else if datum & textdatum_top_right != 0 {
        x as i64 - wide_width
    } else {
        x as i64
    };
    if left < i32::MIN as i64 || left > i32::MAX as i64 || top < i32::MIN as i64 || top
        > i32::MAX as i64 {
        None
    } else {
        Some((left as i32, top as i32))
    }
}

/// A string drawn from its top-left corner at `(x, y)` starts where the same
/// string starts when it is drawn from its top-right corner at
/// `(x + width, y)`.
pub proof fn lemma_anchor_left_right(x: int, y: int, width: int, height: int, baseline: int, offset: int)
    ensures
        anchor_x(textdatum_top_left, x, width) == anchor_x(textdatum_top_right, x + width, width),
        anchor_y(textdatum_top_left, y, height, baseline, offset) == anchor_y(
            textdatum_top_right,
            y,
            height,
            baseline,
            offset,
        ),
{
    assert(0u8 & 1u8 == 0 && 0u8 & 2u8 == 0 && 2u8 & 1u8 == 0 && 2u8 & 2u8 != 0 && 0u8 & 4u8 == 0
        && 0u8 & 8u8 == 0 && 0u8 & 16u8 == 0 && 2u8 & 4u8 == 0 && 2u8 & 8u8 == 0 && 2u8 & 16u8
        == 0) by (bit_vector);
}

} // verus!
