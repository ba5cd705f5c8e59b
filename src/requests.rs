//! The requests this client sends. Each begins with an opcode byte and carries,
//! at bytes 2 and 3, its whole length in four-byte units.
use vstd::prelude::*;
use crate::wire::{le16, le32, pad4, push_all, push_u16_le, push_u32_le, push_zeros, round_up_4};

verus! {

pub const OPCODE_CREATE_WINDOW: u8 = 1;
pub const OPCODE_MAP_WINDOW: u8 = 8;
pub const OPCODE_CREATE_PIXMAP: u8 = 53;
pub const OPCODE_CREATE_GC: u8 = 55;
pub const OPCODE_COPY_AREA: u8 = 62;
pub const OPCODE_PUT_IMAGE: u8 = 72;

/// Graphics-context attribute: background pixel.
pub const GC_FLAG_BACKGROUND: u32 = 8;
/// The graphics context's background: green.
pub const GC_BACKGROUND: u32 = 0x0000ff00;

/// Window attribute: background pixel.
pub const WINDOW_FLAG_BACKGROUND_PIXEL: u32 = 2;
/// Window attribute: event mask.
pub const WINDOW_FLAG_EVENT_MASK: u32 = 0x800;
/// The window's background pixel.
pub const WINDOW_BACKGROUND: u32 = 0x00ffff80;
/// Events wanted on the window: exposure (0x8000), key press (0x1), key release
/// (0x2), button press (0x4) and button release (0x8).
pub const WINDOW_EVENT_MASK: u32 = 0x800f;
/// Window depth in bits.
pub const WINDOW_DEPTH: u8 = 24;
/// Window class input-output.
pub const WINDOW_CLASS_INPUT_OUTPUT: u16 = 1;

/// Image format tag for packed pixels.
pub const FORMAT_ZPIXMAP: u8 = 2;
/// Size of the fixed part of a put-image request.
pub const PUT_IMAGE_HEADER_LEN: usize = 24;
/// The largest pixel payload whose padded length still fits the length field.
pub const PUT_IMAGE_MAX_DATA: usize = 262116;

/// Create-graphics-context layout: opcode, pad, length 5, ids, attribute mask, background.
pub open spec fn create_gc_bytes(gc_id: u32, root_id: u32) -> Seq<u8> {
    seq![OPCODE_CREATE_GC, 0u8] + le16(5) + le32(gc_id) + le32(root_id) + le32(
        GC_FLAG_BACKGROUND,
    ) + le32(GC_BACKGROUND)
}

/// A request that creates graphics context `gc_id` on `root_id`, its
/// background set to green.
pub fn x11_create_graphical_context(gc_id: u32, root_id: u32) -> (r: Vec<u8>)
    ensures
        r@ == create_gc_bytes(gc_id, root_id),
{
    let mut r: Vec<u8> = Vec::new();
    r.push(OPCODE_CREATE_GC);
    r.push(0u8);
    push_u16_le(&mut r, 5);
    push_u32_le(&mut r, gc_id);
    push_u32_le(&mut r, root_id);
    push_u32_le(&mut r, GC_FLAG_BACKGROUND);
    push_u32_le(&mut r, GC_BACKGROUND);
    assert(r@ =~= create_gc_bytes(gc_id, root_id));
    r
}

/// Create-window layout: opcode, depth, length 10, ids, geometry, border, class,
/// visual, attribute mask, then the two attribute values.
pub open spec fn create_window_bytes(
    window_id: u32,
    parent_id: u32,
    x: u16,
    y: u16,
    width: u16,
    height: u16,
    root_visual_id: u32,
) -> Seq<u8> {
    seq![OPCODE_CREATE_WINDOW, WINDOW_DEPTH] + le16(10) + le32(window_id) + le32(parent_id)
        + le16(x) + le16(y) + le16(width) + le16(height) + le16(0) + le16(
        WINDOW_CLASS_INPUT_OUTPUT,
    ) + le32(root_visual_id) + le32(WINDOW_FLAG_BACKGROUND_PIXEL | WINDOW_FLAG_EVENT_MASK)
        + le32(WINDOW_BACKGROUND) + le32(WINDOW_EVENT_MASK)
}

/// A request that creates an input-output window of depth 24 with no border,
/// a fixed background pixel, and exposure, key and button events selected.
pub fn x11_create_window(
    window_id: u32,
    parent_id: u32,
    x: u16,
    y: u16,
    width: u16,
    height: u16,
    root_visual_id: u32,
) -> (r: Vec<u8>)
    ensures
        r@ == create_window_bytes(window_id, parent_id, x, y, width, height, root_visual_id),
{
    let mut r: Vec<u8> = Vec::new();
    r.push(OPCODE_CREATE_WINDOW);
    r.push(WINDOW_DEPTH);
    push_u16_le(&mut r, 10);
    push_u32_le(&mut r, window_id);
    push_u32_le(&mut r, parent_id);
    push_u16_le(&mut r, x);
    push_u16_le(&mut r, y);
    push_u16_le(&mut r, width);
    push_u16_le(&mut r, height);
    push_u16_le(&mut r, 0);
    push_u16_le(&mut r, WINDOW_CLASS_INPUT_OUTPUT);
    push_u32_le(&mut r, root_visual_id);
    push_u32_le(&mut r, WINDOW_FLAG_BACKGROUND_PIXEL | WINDOW_FLAG_EVENT_MASK);
    push_u32_le(&mut r, WINDOW_BACKGROUND);
    push_u32_le(&mut r, WINDOW_EVENT_MASK);
    assert(r@ =~= create_window_bytes(window_id, parent_id, x, y, width, height, root_visual_id));
    r
}

/// Map-window layout: opcode, pad, length 2, window.
pub open spec fn map_window_bytes(window_id: u32) -> Seq<u8> {
    seq![OPCODE_MAP_WINDOW, 0u8] + le16(2) + le32(window_id)
}

/// A request that maps (shows) `window_id`.
pub fn x11_map_window(window_id: u32) -> (r: Vec<u8>)
    ensures
        r@ == map_window_bytes(window_id),
{
    let mut r: Vec<u8> = Vec::new();
    r.push(OPCODE_MAP_WINDOW);
    r.push(0u8);
    push_u16_le(&mut r, 2);
    push_u32_le(&mut r, window_id);
    assert(r@ =~= map_window_bytes(window_id));
    r
}

/// Create-pixmap layout: opcode, depth, length 4, pixmap, drawable, size.
pub open spec fn create_pixmap_bytes(
    window_id: u32,
    pixmap_id: u32,
    width: u16,
    height: u16,
    depth: u8,
) -> Seq<u8> {
    seq![OPCODE_CREATE_PIXMAP, depth] + le16(4) + le32(pixmap_id) + le32(window_id) + le16(width)
        + le16(height)
}

/// A request that creates pixmap `pixmap_id` of the given size and depth on
/// the screen of drawable `window_id`.
pub fn x11_create_pixmap(window_id: u32, pixmap_id: u32, width: u16, height: u16, depth: u8) -> (r:
    Vec<u8>)
    ensures
        r@ == create_pixmap_bytes(window_id, pixmap_id, width, height, depth),
{
    let mut r: Vec<u8> = Vec::new();
    r.push(OPCODE_CREATE_PIXMAP);
    r.push(depth);
    push_u16_le(&mut r, 4);
    push_u32_le(&mut r, pixmap_id);
    push_u32_le(&mut r, window_id);
    push_u16_le(&mut r, width);
    push_u16_le(&mut r, height);
    assert(r@ =~= create_pixmap_bytes(window_id, pixmap_id, width, height, depth));
    r
}

/// The length field of a put-image request with `n` bytes of pixels.
pub open spec fn put_image_units(n: int) -> int {
    6 + pad4(n) / 4
}

/// Put-image layout: opcode, format, length, drawable, context, size, destination,
/// left pad, depth, pad, then the pixels and zeros up to a multiple of four.
pub open spec fn put_image_bytes(
    drawable_id: u32,
    gc_id: u32,
    width: u16,
    height: u16,
    dst_x: u16,
    dst_y: u16,
    depth: u8,
    data: Seq<u8>,
) -> Seq<u8> {
    seq![OPCODE_PUT_IMAGE, FORMAT_ZPIXMAP] + le16(put_image_units(data.len() as int) as u16) + le32(
        drawable_id,
    ) + le32(gc_id) + le16(width) + le16(height) + le16(dst_x) + le16(dst_y) + seq![
        0u8,
        depth,
    ] + le16(0) + data + Seq::new((pad4(data.len() as int) - data.len()) as nat, |_i: int| 0u8)
}

/// A request that uploads packed pixels `data` into `drawable_id` at
/// (`dst_x`, `dst_y`), the pixels followed by zeros up to a multiple of four
/// bytes. The drawable `_window_id` plays no part in it.
pub fn x11_put_image(
    _window_id: u32,
    drawable_id: u32,
    gc_id: u32,
    width: u16,
    height: u16,
    dst_x: u16,
    dst_y: u16,
    depth: u8,
    data: Vec<u8>,
) -> (r: Vec<u8>)
    requires
        data@.len() <= PUT_IMAGE_MAX_DATA,
    ensures
        r@ == put_image_bytes(drawable_id, gc_id, width, height, dst_x, dst_y, depth, data@),
        r@.len() == PUT_IMAGE_HEADER_LEN + pad4(data@.len() as int),
        put_image_units(data@.len() as int) <= u16::MAX,
        4 * put_image_units(data@.len() as int) == r@.len(),
{
    let padded = round_up_4(data.len() as u32);
    let units: u16 = (6 + padded / 4) as u16;
    let mut r: Vec<u8> = Vec::new();
    r.push(OPCODE_PUT_IMAGE);
    r.push(FORMAT_ZPIXMAP);
    push_u16_le(&mut r, units);
    push_u32_le(&mut r, drawable_id);
    push_u32_le(&mut r, gc_id);
    push_u16_le(&mut r, width);
    push_u16_le(&mut r, height);
    push_u16_le(&mut r, dst_x);
    push_u16_le(&mut r, dst_y);
    r.push(0u8);
    r.push(depth);
    push_u16_le(&mut r, 0);
    push_all(&mut r, data.as_slice());
    push_zeros(&mut r, (padded as usize) - data.len());
    assert(r@ =~= put_image_bytes(drawable_id, gc_id, width, height, dst_x, dst_y, depth, data@));
    r
}

/// Copy-area layout: opcode, pad, length 7, source, destination, context, source
/// point, destination point, size.
pub open spec fn copy_area_bytes(
    src_id: u32,
    dst_id: u32,
    gc_id: u32,
    src_x: u16,
    src_y: u16,
    dst_x: u16,
    dst_y: u16,
    width: u16,
    height: u16,
) -> Seq<u8> {
    seq![OPCODE_COPY_AREA, 0u8] + le16(7) + le32(src_id) + le32(dst_id) + le32(gc_id) + le16(src_x)
        + le16(src_y) + le16(dst_x) + le16(dst_y) + le16(width) + le16(height)
}

/// A request that copies the `width` by `height` area at (`src_x`, `src_y`)
/// of `src_id` to (`dst_x`, `dst_y`) of `dst_id`, through graphics context `gc_id`.
pub fn x11_copy_area(
    src_id: u32,
    dst_id: u32,
    gc_id: u32,
    src_x: u16,
    src_y: u16,
    dst_x: u16,
    dst_y: u16,
    width: u16,
    height: u16,
) -> (r: Vec<u8>)
    ensures
        r@ == copy_area_bytes(src_id, dst_id, gc_id, src_x, src_y, dst_x, dst_y, width, height),
{
    let mut r: Vec<u8> = Vec::new();
    r.push(OPCODE_COPY_AREA);
    r.push(0u8);
    push_u16_le(&mut r, 7);
    push_u32_le(&mut r, src_id);
    push_u32_le(&mut r, dst_id);
    push_u32_le(&mut r, gc_id);
    push_u16_le(&mut r, src_x);
    push_u16_le(&mut r, src_y);
    push_u16_le(&mut r, dst_x);
    push_u16_le(&mut r, dst_y);
    push_u16_le(&mut r, width);
    push_u16_le(&mut r, height);
    assert(r@ =~= copy_area_bytes(src_id, dst_id, gc_id, src_x, src_y, dst_x, dst_y, width, height));
    r
}

} // verus!
