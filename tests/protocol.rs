use minesweeper::auth::{load_x11_auth_token, AuthError};
use minesweeper::events::{decode_event, EventAction};
use minesweeper::requests::{
    x11_copy_area, x11_create_graphical_context, x11_create_pixmap, x11_create_window,
    x11_map_window, x11_put_image,
};
use minesweeper::setup::{
    handshake_request, next_x11_id, parse_setup, setup_body_length, ConnectionInformation, Screen,
};
use minesweeper::wire::round_up_4;

const SCHEME: &[u8] = b"MIT-MAGIC-COOKIE-1";

fn be16(v: u16) -> [u8; 2] {
    v.to_be_bytes()
}

fn record(family: u16, address: &[u8], display: &[u8], name: &[u8], data: &[u8]) -> Vec<u8> {
    let mut r = Vec::new();
    r.extend_from_slice(&family.to_le_bytes());
    for field in [address, display, name, data] {
        r.extend_from_slice(&be16(field.len() as u16));
        r.extend_from_slice(field);
    }
    r
}

fn token() -> Vec<u8> {
    (0u8..16).map(|i| i * 7 + 3).collect()
}

fn blank_screen() -> Screen {
    Screen {
        id: 0,
        colormap: 0,
        white: 0,
        black: 0,
        input_mask: 0,
        width: 0,
        height: 0,
        width_mm: 0,
        height_mm: 0,
        maps_min: 0,
        maps_max: 0,
        root_visual_id: 0,
        backing_store: 0,
        save_unders: 0,
        root_depth: 0,
        depths_count: 0,
    }
}

fn info(base: u32, mask: u32) -> ConnectionInformation {
    ConnectionInformation { root_screen: blank_screen(), resource_id_base: base, resource_id_mask: mask }
}

#[test]
fn round_up_4_examples() {
    assert_eq!(round_up_4(0), 0);
    assert_eq!(round_up_4(1), 4);
    assert_eq!(round_up_4(4), 4);
    assert_eq!(round_up_4(5), 8);
    assert_eq!(round_up_4(u32::MAX - 3), u32::MAX - 3);
}

#[test]
fn round_up_4_is_idempotent_and_aligned() {
    for n in 0u32..200 {
        let r = round_up_4(n);
        assert_eq!(r % 4, 0);
        assert!(r >= n && r < n + 4);
        assert_eq!(round_up_4(r), r);
        if n % 4 == 0 {
            assert_eq!(r, n);
        }
    }
}

#[test]
fn next_id_examples() {
    let i = info(0x0020_0000, 0x001F_FFFF);
    assert_eq!(next_x11_id(0, i), 0x0020_0001);
    assert_eq!(next_x11_id(0x0020_0001, i), 0x0020_0002);
    assert_eq!(next_x11_id(0x0020_0001, i), next_x11_id(0x0020_0001, i));
}

#[test]
fn next_id_formula() {
    let i = info(0x0440_0000, 0x003F_FFFF);
    for p in [0u32, 1, 5, 0x0440_0007, 0xFFFF_FFF0, 0x003F_FFFE] {
        assert_eq!(next_x11_id(p, i) - 1, (i.resource_id_mask & p) | i.resource_id_base);
    }
}

#[test]
fn credential_single_matching_record() {
    let file = record(1, b"", b"0", SCHEME, &token());
    assert_eq!(load_x11_auth_token(&file), Ok(token()));
}

#[test]
fn credential_only_non_matching_records() {
    let mut file = record(256, b"host", b"0", SCHEME, &token());
    file.extend(record(1, b"", b"0", b"XDM-AUTHORIZATION-1", &token()));
    file.extend(record(1, b"", b"0", SCHEME, &token()[..15]));
    assert_eq!(load_x11_auth_token(&file), Err(AuthError::CredentialNotFound));
}

#[test]
fn credential_first_match_after_others() {
    let mut file = record(256, b"host", b"1", SCHEME, &[9u8; 16]);
    file.extend(record(1, b"ab", b"0", SCHEME, &token()));
    file.extend(record(1, b"", b"2", SCHEME, &[5u8; 16]));
    assert_eq!(load_x11_auth_token(&file), Ok(token()));
}

#[test]
fn credential_empty_or_truncated() {
    assert_eq!(load_x11_auth_token(&[]), Err(AuthError::CredentialNotFound));
    let file = record(1, b"", b"0", SCHEME, &token());
    assert_eq!(
        load_x11_auth_token(&file[..file.len() - 1]),
        Err(AuthError::CredentialNotFound)
    );
}

#[test]
fn handshake_request_layout() {
    let t = token();
    let r = handshake_request(&t);
    assert_eq!(r.len(), 12 + 20 + 16);
    assert_eq!(&r[..12], &[b'l', 0, 11, 0, 0, 0, 18, 0, 16, 0, 0, 0]);
    assert_eq!(&r[12..30], SCHEME);
    assert_eq!(&r[30..32], &[0, 0]);
    assert_eq!(&r[32..], &t[..]);
}

#[test]
fn setup_header_outcomes() {
    assert_eq!(setup_body_length(&[1, 0, 11, 0, 0, 0, 3, 1]), Some(4 * 259));
    assert_eq!(setup_body_length(&[0, 0, 11, 0, 0, 0, 3, 1]), None);
    assert_eq!(setup_body_length(&[2, 0, 11, 0, 0, 0, 3, 1]), None);
}

fn setup_body(vendor_len: u16, formats: u8) -> Vec<u8> {
    let mut b = vec![0u8; 32];
    b[4..8].copy_from_slice(&0x0020_0000u32.to_le_bytes());
    b[8..12].copy_from_slice(&0x001F_FFFFu32.to_le_bytes());
    b[16..18].copy_from_slice(&vendor_len.to_le_bytes());
    b[21] = formats;
    let padded = ((vendor_len as usize) + 3) / 4 * 4;
    b.extend(std::iter::repeat(b'v').take(vendor_len as usize));
    b.extend(std::iter::repeat(0xEE).take(padded - vendor_len as usize));
    b.extend(std::iter::repeat(0xAA).take(8 * formats as usize));
    let mut screen = vec![0u8; 40];
    screen[0..4].copy_from_slice(&0x0000_04A1u32.to_le_bytes());
    screen[20..22].copy_from_slice(&1920u16.to_le_bytes());
    screen[22..24].copy_from_slice(&1080u16.to_le_bytes());
    screen[32..36].copy_from_slice(&0x0000_0021u32.to_le_bytes());
    screen[38] = 24;
    b.extend(screen);
    b
}

#[test]
fn setup_reply_parsing_over_vendor_lengths() {
    for vendor_len in [0u16, 1, 3, 4] {
        for formats in [0u8, 2, 7] {
            let body = setup_body(vendor_len, formats);
            let info = parse_setup(&body).expect("body holds a screen");
            assert_eq!(info.resource_id_base, 0x0020_0000);
            assert_eq!(info.resource_id_mask, 0x001F_FFFF);
            assert_eq!(info.root_screen.id, 0x0000_04A1);
            assert_eq!(info.root_screen.width, 1920);
            assert_eq!(info.root_screen.height, 1080);
            assert_eq!(info.root_screen.root_visual_id, 0x21);
            assert_eq!(info.root_screen.root_depth, 24);
        }
    }
}

#[test]
fn setup_reply_too_short() {
    let body = setup_body(3, 2);
    assert_eq!(parse_setup(&body[..body.len() - 1]), None);
    assert_eq!(parse_setup(&body[..20]), None);
}

#[test]
fn put_image_lengths() {
    for len in 1usize..=8 {
        let data: Vec<u8> = (0..len as u8).map(|b| b + 1).collect();
        let r = x11_put_image(1, 2, 3, 4, 5, 6, 7, 24, data.clone());
        let padded = round_up_4(len as u32) as usize;
        assert_eq!(u16::from_le_bytes([r[2], r[3]]) as usize, 6 + padded / 4);
        assert_eq!(r.len(), 24 + padded);
        assert_eq!(&r[24..24 + len], &data[..]);
        assert!(r[24 + len..].iter().all(|&b| b == 0));
        assert_eq!(r[0], 72);
        assert_eq!(r[1], 2);
        assert_eq!(r[21], 24);
    }
}

#[test]
fn fixed_requests_layout() {
    assert_eq!(
        x11_create_graphical_context(0x0102_0304, 0x0A0B_0C0D),
        vec![55, 0, 5, 0, 4, 3, 2, 1, 0x0D, 0x0C, 0x0B, 0x0A, 8, 0, 0, 0, 0, 0xff, 0, 0]
    );
    assert_eq!(x11_map_window(0x0000_0203), vec![8, 0, 2, 0, 3, 2, 0, 0]);
    assert_eq!(
        x11_create_pixmap(7, 9, 256, 80, 24),
        vec![53, 24, 4, 0, 9, 0, 0, 0, 7, 0, 0, 0, 0, 1, 80, 0]
    );
    assert_eq!(
        x11_copy_area(1, 2, 3, 16, 22, 32, 48, 16, 16),
        vec![62, 0, 7, 0, 1, 0, 0, 0, 2, 0, 0, 0, 3, 0, 0, 0, 16, 0, 22, 0, 32, 0, 48, 0, 16, 0, 16, 0]
    );
    let w = x11_create_window(5, 6, 200, 200, 256, 256, 0x21);
    assert_eq!(w.len(), 40);
    assert_eq!(&w[..4], &[1, 24, 10, 0]);
    assert_eq!(&w[4..12], &[5, 0, 0, 0, 6, 0, 0, 0]);
    assert_eq!(&w[12..24], &[200, 0, 200, 0, 0, 1, 0, 1, 0, 0, 1, 0]);
    assert_eq!(&w[24..28], &[0x21, 0, 0, 0]);
    assert_eq!(&w[28..32], &[0x02, 0x08, 0, 0]);
    assert_eq!(&w[32..36], &[0x80, 0xff, 0xff, 0]);
    assert_eq!(&w[36..40], &[0x0f, 0x80, 0, 0]);
}

fn frame(code: u8, detail: u8, x: u16, y: u16) -> Vec<u8> {
    let mut f = vec![0u8; 32];
    f[0] = code;
    f[1] = detail;
    f[20..22].copy_from_slice(&700u16.to_le_bytes());
    f[22..24].copy_from_slice(&900u16.to_le_bytes());
    f[24..26].copy_from_slice(&x.to_le_bytes());
    f[26..28].copy_from_slice(&y.to_le_bytes());
    f
}

#[test]
fn event_decoding() {
    assert_eq!(decode_event(&frame(5, 1, 32, 48)), EventAction::Click { x: 32, y: 48, button: 1 });
    assert_eq!(decode_event(&frame(5, 3, 300, 2)), EventAction::Click { x: 300, y: 2, button: 3 });
    assert_eq!(decode_event(&frame(12, 0, 0, 0)), EventAction::Redraw);
    assert_eq!(decode_event(&frame(3, 36, 0, 0)), EventAction::Reset);
    assert_eq!(decode_event(&frame(3, 37, 0, 0)), EventAction::Ignore);
    assert_eq!(decode_event(&frame(99, 1, 32, 48)), EventAction::Ignore);
    assert_eq!(decode_event(&frame(2, 36, 0, 0)), EventAction::Ignore);
}
