//! Connection setup: the handshake request a client sends, the server's reply,
//! and the resource identifiers derived from it.
use vstd::prelude::*;
use crate::wire::{
    le16, le_u16_at, le_u32_at, pad4, push_all, push_u16_le, push_zeros, read_le_u16,
    read_le_u32, round_up_4,
};

verus! {

/// The only authentication scheme this client offers: `MIT-MAGIC-COOKIE-1`.
pub open spec fn cookie_scheme() -> Seq<u8> {
    seq![
        77u8, 73, 84, 45, 77, 65, 71, 73, 67, 45, 67, 79, 79, 75, 73, 69, 45, 49,
    ]
}

/// The byte-order mark for little-endian (`l`).
pub const BYTE_ORDER_LITTLE: u8 = 108;

/// Length in bytes of an authentication token.
pub const AUTH_TOKEN_LEN: usize = 16;

/// Size of the fixed part of the setup reply body, before the vendor string.
pub const SETUP_PREFIX_LEN: usize = 32;

/// Size of one screen record in the setup reply.
pub const SCREEN_LEN: usize = 40;

/// The name of the authentication scheme, as bytes.
pub fn cookie_scheme_name() -> (r: Vec<u8>)
    ensures
        r@ == cookie_scheme(),
{
    let r: Vec<u8> = vec![
        77u8, 73, 84, 45, 77, 65, 71, 73, 67, 45, 67, 79, 79, 75, 73, 69, 45, 49,
    ];
    assert(r@ =~= cookie_scheme());
    r
}

/// The root screen as the server describes it.
#[derive(Clone, Copy, Debug, PartialEq, Eq, Structural)]
pub struct Screen {
    pub id: u32,
    pub colormap: u32,
    pub white: u32,
    pub black: u32,
    pub input_mask: u32,
    pub width: u16,
    pub height: u16,
    pub width_mm: u16,
    pub height_mm: u16,
    pub maps_min: u16,
    pub maps_max: u16,
    pub root_visual_id: u32,
    pub backing_store: u8,
    pub save_unders: u8,
    pub root_depth: u8,
    pub depths_count: u8,
}

/// What the rest of the session needs from the setup reply.
#[derive(Clone, Copy, Debug, PartialEq, Eq, Structural)]
pub struct ConnectionInformation {
    pub root_screen: Screen,
    pub resource_id_base: u32,
    pub resource_id_mask: u32,
}

/// The handshake request: byte order `l`, protocol 11.0, the scheme name and
/// the token, each length given in the header and the name padded to four bytes.
pub open spec fn handshake_bytes(token: Seq<u8>) -> Seq<u8> {
    seq![BYTE_ORDER_LITTLE, 0u8] + le16(11) + le16(0) + le16(cookie_scheme().len() as u16) + le16(
        token.len() as u16,
    ) + le16(0) + cookie_scheme() + Seq::new(
        (pad4(cookie_scheme().len() as int) - cookie_scheme().len()) as nat,
        |_i: int| 0u8,
    ) + token
}

/// Builds the handshake request that authenticates with `token`.
pub fn handshake_request(token: &[u8]) -> (r: Vec<u8>)
    requires
        token@.len() == AUTH_TOKEN_LEN,
    ensures
        r@ == handshake_bytes(token@),
{
    let name = cookie_scheme_name();
    let name_len = name.len();
    let mut r: Vec<u8> = Vec::new();
    r.push(BYTE_ORDER_LITTLE);
    r.push(0u8);
    push_u16_le(&mut r, 11);
    push_u16_le(&mut r, 0);
    push_u16_le(&mut r, name_len as u16);
    push_u16_le(&mut r, token.len() as u16);
    push_u16_le(&mut r, 0);
    push_all(&mut r, name.as_slice());
    let padded = round_up_4(name_len as u32);
    push_zeros(&mut r, (padded as usize) - name_len);
    push_all(&mut r, token);
    assert(r@ =~= handshake_bytes(token@));
    r
}

/// The length in bytes of the reply body announced by the 8-byte reply header,
/// when the header says the connection was accepted.
pub open spec fn accepted_body_len(header: Seq<u8>) -> Option<int> {
    if header[0] == 1 {
        Some(4 * le_u16_at(header, 6))
    } else {
        None
    }
}

/// Reads the 8-byte reply header: `Some` with the body length in bytes when the
/// server accepted the connection, `None` for any other outcome.
pub fn setup_body_length(header: &[u8]) -> (r: Option<usize>)
    requires
        header@.len() >= 8,
    ensures
        match r {
            Some(n) => accepted_body_len(header@) == Some(n as int),
            None => accepted_body_len(header@) is None,
        },
{
    if header[0] == 1 {
        let units = read_le_u16(header, 6);
        Some(4 * (units as usize))
    } else {
        None
    }
}

/// The screen record that starts at `off`.
pub open spec fn screen_at(s: Seq<u8>, off: int) -> Screen {
    Screen {
        id: le_u32_at(s, off) as u32,
        colormap: le_u32_at(s, off + 4) as u32,
        white: le_u32_at(s, off + 8) as u32,
        black: le_u32_at(s, off + 12) as u32,
        input_mask: le_u32_at(s, off + 16) as u32,
        width: le_u16_at(s, off + 20) as u16,
        height: le_u16_at(s, off + 22) as u16,
        width_mm: le_u16_at(s, off + 24) as u16,
        height_mm: le_u16_at(s, off + 26) as u16,
        maps_min: le_u16_at(s, off + 28) as u16,
        maps_max: le_u16_at(s, off + 30) as u16,
        root_visual_id: le_u32_at(s, off + 32) as u32,
        backing_store: s[off + 36],
        save_unders: s[off + 37],
        root_depth: s[off + 38],
        depths_count: s[off + 39],
    }
}

/// Where the first screen record starts in a reply body: after the fixed
/// prefix, the vendor string padded to four bytes, and eight bytes per pixmap
/// format.
pub open spec fn screen_offset(body: Seq<u8>) -> int {
    SETUP_PREFIX_LEN + pad4(le_u16_at(body, 16)) + 8 * body[21]
}

/// The connection information a reply body holds, when it is long enough to
/// hold the first screen record.
pub open spec fn setup_info(body: Seq<u8>) -> Option<ConnectionInformation> {
    if body.len() >= SETUP_PREFIX_LEN && screen_offset(body) + SCREEN_LEN <= body.len() {
        Some(
            ConnectionInformation {
                root_screen: screen_at(body, screen_offset(body)),
                resource_id_base: le_u32_at(body, 4) as u32,
                resource_id_mask: le_u32_at(body, 8) as u32,
            },
        )
    } else {
        None
    }
}

/// Decodes the screen record at `off`.
fn parse_screen(buf: &[u8], off: usize) -> (r: Screen)
    requires
        off + SCREEN_LEN <= buf@.len(),
    ensures
        r == screen_at(buf@, off as int),
{
    let _total: usize = buf.len();
    Screen {
        id: read_le_u32(buf, off),
        colormap: read_le_u32(buf, off + 4),
        white: read_le_u32(buf, off + 8),
        black: read_le_u32(buf, off + 12),
        input_mask: read_le_u32(buf, off + 16),
        width: read_le_u16(buf, off + 20),
        height: read_le_u16(buf, off + 22),
        width_mm: read_le_u16(buf, off + 24),
        height_mm: read_le_u16(buf, off + 26),
        maps_min: read_le_u16(buf, off + 28),
        maps_max: read_le_u16(buf, off + 30),
        root_visual_id: read_le_u32(buf, off + 32),
        backing_store: buf[off + 36],
        save_unders: buf[off + 37],
        root_depth: buf[off + 38],
        depths_count: buf[off + 39],
    }
}

/// Decodes the body of an accepted setup reply; `None` when the body is too
/// short to hold the fixed prefix and the first screen record.
pub fn parse_setup(body: &[u8]) -> (r: Option<ConnectionInformation>)
    ensures
        r == setup_info(body@),
{
    let total: usize = body.len();
    if total < SETUP_PREFIX_LEN {
        return None;
    }
    let vendor_len = read_le_u16(body, 16);
    let formats = body[21];
    let vendor_padded = round_up_4(vendor_len as u32);
    let off: usize = SETUP_PREFIX_LEN + (vendor_padded as usize) + 8 * (formats as usize);
    if off > total || total - off < SCREEN_LEN {
        return None;
    }
    let screen = parse_screen(body, off);
    Some(
        ConnectionInformation {
            root_screen: screen,
            resource_id_base: read_le_u32(body, 4),
            resource_id_mask: read_le_u32(body, 8),
        },
    )
}

/// The identifier that follows `prev`: one more than the bits of `prev` under
/// the mask, combined with the base.
pub open spec fn next_id(prev: u32, info: ConnectionInformation) -> int {
    1 + ((info.resource_id_mask & prev) | info.resource_id_base)
}

/// Allocates the resource identifier after `current_id`, `0` standing for none yet.
pub fn next_x11_id(current_id: u32, info: ConnectionInformation) -> (r: u32)
    requires
        ((info.resource_id_mask & current_id) | info.resource_id_base) < u32::MAX,
    ensures
        r as int == next_id(current_id, info),
{
    1 + ((info.resource_id_mask & current_id) | info.resource_id_base)
}

/// Allocation depends on the previous identifier and the connection alone, and
/// one less than the result is the previous identifier's bits under the mask
/// combined with the base.
pub proof fn lemma_next_id(p: u32, q: u32, info: ConnectionInformation, other: ConnectionInformation)
    ensures
        next_id(p, info) - 1 == ((info.resource_id_mask & p) | info.resource_id_base),
        (p == q && info.resource_id_base == other.resource_id_base
            && info.resource_id_mask == other.resource_id_mask) ==> next_id(p, info) == next_id(
            q,
            other,
        ),
{
}

} // verus!
