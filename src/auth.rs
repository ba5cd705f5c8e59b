//! The credential file: a sequence of records, each a little-endian family code
//! followed by four fields (address, display number, scheme name, data), every
//! field a big-endian `u16` length and that many bytes.
use vstd::prelude::*;
use crate::setup::{cookie_scheme, cookie_scheme_name, AUTH_TOKEN_LEN};
use crate::wire::{be_u16_at, bytes_equal, copy_range, le_u16_at, read_be_u16, read_le_u16};

verus! {

/// The family code of local (same-machine) credentials.
pub const FAMILY_LOCAL: u16 = 1;

/// Why no token could be taken from a credential file.
#[derive(Clone, Copy, Debug, PartialEq, Eq, Structural)]
pub enum AuthError {
    CredentialNotFound,
}

/// One record of the credential file.
pub struct AuthEntry {
    pub family: u16,
    pub address: Vec<u8>,
    pub display_number: Vec<u8>,
    pub auth_name: Vec<u8>,
    pub auth_data: Vec<u8>,
}

/// A record as values: family, address, display number, scheme name, data.
pub type AuthRecord = (u16, Seq<u8>, Seq<u8>, Seq<u8>, Seq<u8>);

impl View for AuthEntry {
    type V = AuthRecord;

    open spec fn view(&self) -> AuthRecord {
        (self.family, self.address@, self.display_number@, self.auth_name@, self.auth_data@)
    }
}

/// The length-prefixed field at `p`, and where the next one starts.
pub open spec fn field_at(s: Seq<u8>, p: int) -> Option<(Seq<u8>, int)> {
    if 0 <= p && p + 2 <= s.len() && p + 2 + be_u16_at(s, p) <= s.len() {
        Some((s.subrange(p + 2, p + 2 + be_u16_at(s, p)), p + 2 + be_u16_at(s, p)))
    } else {
        None
    }
}

/// The record at `p`, and where the next one starts; `None` when the bytes end
/// before the record does.
pub open spec fn record_at(s: Seq<u8>, p: int) -> Option<(AuthRecord, int)> {
    if 0 <= p && p + 2 <= s.len() {
        match field_at(s, p + 2) {
            None => None,
            Some((address, p1)) => match field_at(s, p1) {
                None => None,
                Some((display, p2)) => match field_at(s, p2) {
                    None => None,
                    Some((name, p3)) => match field_at(s, p3) {
                        None => None,
                        Some((data, p4)) => Some(
                            ((le_u16_at(s, p) as u16, address, display, name, data), p4),
                        ),
                    },
                },
            },
        }
    } else {
        None
    }
}

/// Whether a record holds a token this client can use: a local one, of the
/// cookie scheme, with exactly a token's length of data.
pub open spec fn is_usable(e: AuthRecord) -> bool {
    e.0 == FAMILY_LOCAL && e.3 == cookie_scheme() && e.4.len() == AUTH_TOKEN_LEN
}

/// The data of the first usable record from `p` on, reading records in order
/// and stopping at the first one that the bytes cut short.
pub open spec fn token_from(s: Seq<u8>, p: int) -> Option<Seq<u8>>
    decreases s.len() - p,
{
    match record_at(s, p) {
        None => None,
        Some((e, q)) => if is_usable(e) {
            Some(e.4)
        } else if p < q <= s.len() {
            token_from(s, q)
        } else {
            None
        },
    }
}

/// Reads the length-prefixed field at `pos`.
fn read_field(buf: &[u8], pos: usize) -> (r: Option<(Vec<u8>, usize)>)
    ensures
        match r {
            None => field_at(buf@, pos as int) is None,
            Some((v, q)) => field_at(buf@, pos as int) == Some((v@, q as int)),
        },
{
    let total: usize = buf.len();
    if pos > total || total - pos < 2 {
        return None;
    }
    let len = read_be_u16(buf, pos) as usize;
    if total - pos - 2 < len {
        return None;
    }
    let v = copy_range(buf, pos + 2, len);
    Some((v, pos + 2 + len))
}

/// Reads the record at `pos`, and where the next one starts.
fn read_x11_auth_entry(buf: &[u8], pos: usize) -> (r: Option<(AuthEntry, usize)>)
    ensures
        match r {
            None => record_at(buf@, pos as int) is None,
            Some((e, q)) => record_at(buf@, pos as int) == Some((e@, q as int)),
        },
{
    let total: usize = buf.len();
    if pos > total || total - pos < 2 {
        return None;
    }
    let family = read_le_u16(buf, pos);
    let (address, p1) = match read_field(buf, pos + 2) {
        None => return None,
        Some(f) => f,
    };
    let (display_number, p2) = match read_field(buf, p1) {
        None => return None,
        Some(f) => f,
    };
    let (auth_name, p3) = match read_field(buf, p2) {
        None => return None,
        Some(f) => f,
    };
    let (auth_data, p4) = match read_field(buf, p3) {
        None => return None,
        Some(f) => f,
    };
    Some((AuthEntry { family, address, display_number, auth_name, auth_data }, p4))
}

/// Takes the token of the first usable record of a credential file's bytes.
pub fn load_x11_auth_token(file: &[u8]) -> (r: Result<Vec<u8>, AuthError>)
    ensures
        match r {
            Ok(token) => token_from(file@, 0) == Some(token@),
            Err(e) => e == AuthError::CredentialNotFound && token_from(file@, 0) is None,
        },
{
    let scheme = cookie_scheme_name();
    let mut pos: usize = 0;
    loop
        invariant
            pos <= file@.len(),
            scheme@ == cookie_scheme(),
            token_from(file@, 0) == token_from(file@, pos as int),
        decreases file@.len() - pos,
    {
        match read_x11_auth_entry(file, pos) {
            None => {
                return Err(AuthError::CredentialNotFound);
            },
            Some((entry, next)) => {
                if entry.family == FAMILY_LOCAL && bytes_equal(
                    entry.auth_name.as_slice(),
                    scheme.as_slice(),
                ) && entry.auth_data.len() == AUTH_TOKEN_LEN {
                    return Ok(entry.auth_data);
                }
                pos = next;
            },
        }
    }
}

} // verus!
