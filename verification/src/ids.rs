//! Harmony's identifiers: random (version 4) UUIDs, held as their 128-bit value.

use vstd::prelude::*;
use crate::text::{digit_str, hex_char};

verus! {

/// `v` carries the marks of a random UUID: version nibble 4 and the
/// RFC 4122 variant bits `10`.
pub open spec fn is_v4(v: u128) -> bool {
    (v >> 76u128) & 0xfu128 == 4 && (v >> 62u128) & 3u128 == 2
}

/// The `i`-th hexadecimal digit of `v`, counting from the most significant.
pub open spec fn nibble(v: u128, i: int) -> int {
    ((v >> ((124 - 4 * i) as u128)) & 0xfu128) as int
}

/// The 32 lower-case hexadecimal digits of `v`, most significant first.
pub open spec fn hex_digits(v: u128) -> Seq<char> {
    Seq::new(32, |i: int| hex_char(nibble(v, i)))
}

/// The hyphenated lower-case form of a UUID (8-4-4-4-12 digits), as uuid's
/// `Display` writes it.
pub open spec fn hyphenated(v: u128) -> Seq<char> {
    let h = hex_digits(v);
    h.subrange(0, 8) + seq!['-'] + h.subrange(8, 12) + seq!['-'] + h.subrange(12, 16) + seq!['-']
        + h.subrange(16, 20) + seq!['-'] + h.subrange(20, 32)
}

/// What uuid's `Uuid::parse_str` gives back, as the UUID's 128-bit value.
pub uninterp spec fn uuid_parse(s: Seq<char>) -> Option<u128>;

/// Calls uuid's `Uuid::new_v4` and takes `as_u128` of it. The value is random;
/// claimed, as uuid's source shows (it masks in the version and variant bits):
/// it is marked as a version 4 UUID.
#[verifier::external_body]
fn random_v4() -> (v: u128)
    ensures
        is_v4(v),
{
    uuid::Uuid::new_v4().as_u128()
}

/// Calls uuid's `Uuid::parse_str` and takes `as_u128` of a success. Claimed:
/// the result is the named one, and, as uuid's parser shows (a 36-character
/// input is read as hyphenated, hex digits of either case), the hyphenated
/// lower-case form of a value parses back to that value.
#[verifier::external_body]
fn parse_uuid(s: &str) -> (r: Option<u128>)
    ensures
        r == uuid_parse(s@),
        forall|v: u128| s@ == #[trigger] hyphenated(v) ==> r == Some(v),
{
    match uuid::Uuid::parse_str(s) {
        Ok(u) => Some(u.as_u128()),
        Err(_) => None,
    }
}

/// Appends the hexadecimal digits `from..to` of `v` to `out`.
fn push_hex_digits(out: &mut String, v: u128, from: usize, to: usize)
    requires
        from <= to <= 32,
    ensures
        final(out)@ == old(out)@ + hex_digits(v).subrange(from as int, to as int),
{
    let mut i: usize = from;
    while i < to
        invariant
            from <= i <= to <= 32,
            out@ == old(out)@ + hex_digits(v).subrange(from as int, i as int),
        decreases to - i,
    {
        let shift: u128 = 124 - 4 * (i as u128);
        let d: u128 = (v >> shift) & 0xf;
        assert(d < 16) by (bit_vector)
            requires
                d == (v >> shift) & 0xf,
        ;
        out.append(digit_str(d as u64));
        assert(hex_digits(v).subrange(from as int, i + 1) =~= hex_digits(v).subrange(
            from as int,
            i as int,
        ).push(hex_char(nibble(v, i as int))));
        i = i + 1;
    }
}

/// The hyphenated lower-case form of the UUID `v`.
pub fn format_uuid(v: u128) -> (s: String)
    ensures
        s@ == hyphenated(v),
{
    let mut s = String::new();
    proof {
        reveal_strlit("-");
    }
    push_hex_digits(&mut s, v, 0, 8);
    s.append("-");
    push_hex_digits(&mut s, v, 8, 12);
    s.append("-");
    push_hex_digits(&mut s, v, 12, 16);
    s.append("-");
    push_hex_digits(&mut s, v, 16, 20);
    s.append("-");
    push_hex_digits(&mut s, v, 20, 32);
    assert(s@ =~= hyphenated(v));
    s
}

/// Harmony's unique identifier of a track.
#[derive(Debug, Clone, Copy, PartialEq, Eq, Hash, Structural)]
pub struct TrackId(pub u128);

impl TrackId {
    /// A new random identifier.
    pub fn new() -> (id: Self)
        ensures
            is_v4(id.0),
    {
        TrackId(random_v4())
    }

    /// Parses an identifier from its UUID text (hyphenated, simple, braced or
    /// `urn:uuid:`); `None` where the text is no UUID. The text that
    /// `to_string` writes parses back to the same identifier.
    pub fn from_string(s: &str) -> (r: Option<Self>)
        ensures
            r == (match uuid_parse(s@) {
                Some(v) => Some(TrackId(v)),
                None => None,
            }),
            forall|v: u128| s@ == #[trigger] hyphenated(v) ==> r == Some(TrackId(v)),
    {
        match parse_uuid(s) {
            Some(v) => Some(TrackId(v)),
            None => None,
        }
    }

    /// The hyphenated lower-case UUID text of the identifier.
    pub fn to_string(&self) -> (s: String)
        ensures
            s@ == hyphenated(self.0),
    {
        format_uuid(self.0)
    }
}

impl Default for TrackId {
    /// A new random identifier.
    fn default() -> (id: Self)
        ensures
            is_v4(id.0),
    {
        TrackId::new()
    }
}

/// Harmony's unique identifier of a track group.
#[derive(Debug, Clone, Copy, PartialEq, Eq, Hash, Structural)]
pub struct GroupId(pub u128);

impl GroupId {
    /// A new random identifier.
    pub fn new() -> (id: Self)
        ensures
            is_v4(id.0),
    {
        GroupId(random_v4())
    }

    /// Parses an identifier from its UUID text; `None` where the text is no
    /// UUID. The text that `to_string` writes parses back to the same identifier.
    pub fn from_string(s: &str) -> (r: Option<Self>)
        ensures
            r == (match uuid_parse(s@) {
                Some(v) => Some(GroupId(v)),
                None => None,
            }),
            forall|v: u128| s@ == #[trigger] hyphenated(v) ==> r == Some(GroupId(v)),
    {
        match parse_uuid(s) {
            Some(v) => Some(GroupId(v)),
            None => None,
        }
    }

    /// The hyphenated lower-case UUID text of the identifier.
    pub fn to_string(&self) -> (s: String)
        ensures
            s@ == hyphenated(self.0),
    {
        format_uuid(self.0)
    }
}

impl Default for GroupId {
    /// A new random identifier.
    fn default() -> (id: Self)
        ensures
            is_v4(id.0),
    {
        GroupId::new()
    }
}

/// Harmony's unique identifier of a playlist.
#[derive(Debug, Clone, Copy, PartialEq, Eq, Hash, Structural)]
pub struct PlaylistId(pub u128);

impl PlaylistId {
    /// A new random identifier.
    pub fn new() -> (id: Self)
        ensures
            is_v4(id.0),
    {
        PlaylistId(random_v4())
    }

    /// Parses an identifier from its UUID text; `None` where the text is no
    /// UUID. The text that `to_string` writes parses back to the same identifier.
    pub fn from_string(s: &str) -> (r: Option<Self>)
        ensures
            r == (match uuid_parse(s@) {
                Some(v) => Some(PlaylistId(v)),
                None => None,
            }),
            forall|v: u128| s@ == #[trigger] hyphenated(v) ==> r == Some(PlaylistId(v)),
    {
        match parse_uuid(s) {
            Some(v) => Some(PlaylistId(v)),
            None => None,
        }
    }

    /// The hyphenated lower-case UUID text of the identifier.
    pub fn to_string(&self) -> (s: String)
        ensures
            s@ == hyphenated(self.0),
    {
        format_uuid(self.0)
    }
}

impl Default for PlaylistId {
    /// A new random identifier.
    fn default() -> (id: Self)
        ensures
            is_v4(id.0),
    {
        PlaylistId::new()
    }
}

} // verus!
