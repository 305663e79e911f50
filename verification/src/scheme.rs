//! Scheme identifiers.

use crate::error::Error;
use vstd::prelude::*;
use vstd::string::*;
use vstd::utf8::*;

verus! {

/// Scheme identifier: selects the algorithm and its properties.
#[derive(Debug, Clone, Copy, PartialEq, Eq, Structural)]
pub enum Scheme {
    /// Deterministic AES-GCM-SIV, key derived from the master via HKDF.
    Dgcmsiv,
    /// Probabilistic AES-GCM-SIV: fresh 12-byte nonce per call, prepended.
    Pgcmsiv,
    /// Deterministic AES-SIV over the full 64-byte master key.
    Dsiv,
    /// Probabilistic AES-SIV: fresh 16-byte nonce per call, supplied as
    /// associated data and prepended.
    Psiv,
    /// Testing only: identity, no encryption.
    Mock1,
    /// Testing only: byte reversal, no encryption.
    Mock2,
}

/// The lowercase identifier of each scheme.
pub open spec fn scheme_name(s: Scheme) -> Seq<char> {
    match s {
        Scheme::Dgcmsiv => "dgcmsiv"@,
        Scheme::Pgcmsiv => "pgcmsiv"@,
        Scheme::Dsiv => "dsiv"@,
        Scheme::Psiv => "psiv"@,
        Scheme::Mock1 => "mock1"@,
        Scheme::Mock2 => "mock2"@,
    }
}

/// Whether the same plaintext and key always give the same output.
pub open spec fn is_deterministic_scheme(s: Scheme) -> bool {
    match s {
        Scheme::Dgcmsiv | Scheme::Dsiv | Scheme::Mock1 | Scheme::Mock2 => true,
        Scheme::Pgcmsiv | Scheme::Psiv => false,
    }
}

/// The four authenticated schemes, the only ones selectable by name.
pub open spec fn is_core_scheme(s: Scheme) -> bool {
    !(s is Mock1) && !(s is Mock2)
}

/// The byte encoding of a sequence of ASCII characters.
pub open spec fn ascii_bytes(c: Seq<char>) -> Seq<u8> {
    Seq::new(c.len(), |i: int| c[i] as u8)
}

/// ASCII lowercase of one byte; every other byte is unchanged.
pub open spec fn ascii_lower(b: u8) -> u8 {
    if 65 <= b <= 90 {
        (b + 32) as u8
    } else {
        b
    }
}

/// ASCII case-insensitive equality of two byte strings.
pub open spec fn eq_ignore_ascii_case(a: Seq<u8>, b: Seq<u8>) -> bool {
    &&& a.len() == b.len()
    &&& forall|i: int| 0 <= i < a.len() ==> ascii_lower(#[trigger] a[i]) == ascii_lower(b[i])
}

/// `bytes` names the scheme `s`, ignoring ASCII case.
pub open spec fn names_scheme(bytes: Seq<u8>, s: Scheme) -> bool {
    eq_ignore_ascii_case(bytes, ascii_bytes(scheme_name(s)))
}

/// The core scheme named by `bytes` (case-insensitively), if any.
pub open spec fn parse_scheme_spec(bytes: Seq<u8>) -> Option<Scheme> {
    if names_scheme(bytes, Scheme::Dgcmsiv) {
        Some(Scheme::Dgcmsiv)
    } else if names_scheme(bytes, Scheme::Pgcmsiv) {
        Some(Scheme::Pgcmsiv)
    } else if names_scheme(bytes, Scheme::Dsiv) {
        Some(Scheme::Dsiv)
    } else if names_scheme(bytes, Scheme::Psiv) {
        Some(Scheme::Psiv)
    } else {
        None
    }
}

/// The UTF-8 bytes of a scheme's identifier are its ASCII bytes.
proof fn lemma_name_bytes(s: Scheme)
    ensures
        encode_utf8(scheme_name(s)) == ascii_bytes(scheme_name(s)),
        scheme_name(s).len() <= 7,
{
    reveal_strlit("dgcmsiv");
    reveal_strlit("pgcmsiv");
    reveal_strlit("dsiv");
    reveal_strlit("psiv");
    reveal_strlit("mock1");
    reveal_strlit("mock2");
    let c = scheme_name(s);
    assert(is_ascii_chars(c));
    is_ascii_chars_encode_utf8(c);
    assert(encode_utf8(c) =~= ascii_bytes(c));
}

/// Parsing a scheme's own identifier gives back that scheme for the four
/// core schemes, and fails for the testing-only mock schemes.
pub proof fn lemma_parse_as_str(s: Scheme)
    ensures
        is_core_scheme(s) ==> parse_scheme_spec(encode_utf8(scheme_name(s))) == Some(s),
        !is_core_scheme(s) ==> parse_scheme_spec(encode_utf8(scheme_name(s))) is None,
{
    reveal_strlit("dgcmsiv");
    reveal_strlit("pgcmsiv");
    reveal_strlit("dsiv");
    reveal_strlit("psiv");
    reveal_strlit("mock1");
    reveal_strlit("mock2");
    lemma_name_bytes(Scheme::Dgcmsiv);
    lemma_name_bytes(Scheme::Pgcmsiv);
    lemma_name_bytes(Scheme::Dsiv);
    lemma_name_bytes(Scheme::Psiv);
    lemma_name_bytes(Scheme::Mock1);
    lemma_name_bytes(Scheme::Mock2);
    let b = ascii_bytes(scheme_name(s));
    assert(b[0] == ascii_bytes(scheme_name(s))[0]);
    if s is Pgcmsiv {
        assert(ascii_lower(b[0]) != ascii_lower(ascii_bytes(scheme_name(Scheme::Dgcmsiv))[0]));
    }
    if s is Psiv {
        assert(ascii_lower(b[0]) != ascii_lower(ascii_bytes(scheme_name(Scheme::Dsiv))[0]));
    }
    if s is Mock1 || s is Mock2 {
        assert(ascii_lower(b[0]) != ascii_lower(ascii_bytes(scheme_name(Scheme::Dsiv))[0]));
        assert(ascii_lower(b[0]) != ascii_lower(ascii_bytes(scheme_name(Scheme::Psiv))[0]));
    }
}

/// Parsing ignores ASCII case: two names that differ only in the case of
/// their letters select the same scheme, or both select none.
pub proof fn lemma_parse_ignores_case(a: Seq<u8>, b: Seq<u8>)
    requires
        eq_ignore_ascii_case(a, b),
    ensures
        parse_scheme_spec(a) == parse_scheme_spec(b),
{
    assert forall|s: Scheme| names_scheme(a, s) <==> names_scheme(b, s) by {
        let n = ascii_bytes(scheme_name(s));
        if names_scheme(a, s) {
            assert forall|i: int| 0 <= i < b.len() implies ascii_lower(#[trigger] b[i]) == ascii_lower(n[i]) by {
                assert(ascii_lower(a[i]) == ascii_lower(b[i]));
            }
        }
        if names_scheme(b, s) {
            assert forall|i: int| 0 <= i < a.len() implies ascii_lower(#[trigger] a[i]) == ascii_lower(n[i]) by {
                assert(ascii_lower(a[i]) == ascii_lower(b[i]));
            }
        }
    }
}

/// Compares two byte strings, ignoring ASCII case.
fn bytes_eq_ignore_ascii_case(a: &[u8], b: &[u8]) -> (res: bool)
    ensures
        res == eq_ignore_ascii_case(a@, b@),
{
    if a.len() != b.len() {
        return false;
    }
    let n = a.len();
    let mut i: usize = 0;
    while i < n
        invariant
            n == a@.len(),
            n == b@.len(),
            i <= n,
            forall|j: int| 0 <= j < i ==> ascii_lower(#[trigger] a@[j]) == ascii_lower(b@[j]),
        decreases n - i,
    {
        let x = a[i];
        let y = b[i];
        let lx: u8 = if 65 <= x && x <= 90 { x + 32 } else { x };
        let ly: u8 = if 65 <= y && y <= 90 { y + 32 } else { y };
        if lx != ly {
            assert(ascii_lower(a@[i as int]) != ascii_lower(b@[i as int]));
            return false;
        }
        i = i + 1;
    }
    true
}

impl Scheme {
    /// Lowercase scheme identifier (`"dgcmsiv"`, `"dsiv"`, ...).
    pub fn as_str(&self) -> (res: &'static str)
        ensures
            res@ == scheme_name(*self),
    {
        match self {
            Scheme::Dgcmsiv => "dgcmsiv",
            Scheme::Pgcmsiv => "pgcmsiv",
            Scheme::Dsiv => "dsiv",
            Scheme::Psiv => "psiv",
            Scheme::Mock1 => "mock1",
            Scheme::Mock2 => "mock2",
        }
    }

    /// `true` if the same plaintext and key always produce the same output.
    pub fn is_deterministic(&self) -> (res: bool)
        ensures
            res == is_deterministic_scheme(*self),
    {
        match self {
            Scheme::Dgcmsiv => true,
            Scheme::Pgcmsiv => false,
            Scheme::Dsiv => true,
            Scheme::Psiv => false,
            Scheme::Mock1 => true,
            Scheme::Mock2 => true,
        }
    }

    /// `true` if a fresh random nonce is drawn per call; the inverse of
    /// [`Self::is_deterministic`].
    pub fn is_probabilistic(&self) -> (res: bool)
        ensures
            res == !is_deterministic_scheme(*self),
    {
        !self.is_deterministic()
    }

    /// `bytes` names this scheme, ignoring ASCII case.
    fn is_named_by(&self, bytes: &[u8]) -> (res: bool)
        ensures
            res == names_scheme(bytes@, *self),
    {
        let name = self.as_str().as_bytes();
        proof {
            lemma_name_bytes(*self);
        }
        bytes_eq_ignore_ascii_case(bytes, name)
    }

    /// Parse a core scheme from its identifier, ignoring ASCII case.
    ///
    /// The testing-only `mock1` / `mock2` schemes are never selectable by
    /// name.
    pub fn parse(s: &str) -> (res: Result<Scheme, Error>)
        ensures
            res == (match parse_scheme_spec(s.spec_bytes()) {
                Some(sc) => Ok(sc),
                None => Err(Error::UnknownScheme),
            }),
    {
        let bytes = s.as_bytes();
        if Scheme::Dgcmsiv.is_named_by(bytes) {
            Ok(Scheme::Dgcmsiv)
        } else if Scheme::Pgcmsiv.is_named_by(bytes) {
            Ok(Scheme::Pgcmsiv)
        } else if Scheme::Dsiv.is_named_by(bytes) {
            Ok(Scheme::Dsiv)
        } else if Scheme::Psiv.is_named_by(bytes) {
            Ok(Scheme::Psiv)
        } else {
            Err(Error::UnknownScheme)
        }
    }
}

impl std::str::FromStr for Scheme {
    type Err = Error;

    /// Parse a core scheme from its identifier; see [`Scheme::parse`].
    fn from_str(s: &str) -> (res: Result<Self, Self::Err>)
        ensures
            res == (match parse_scheme_spec(s.spec_bytes()) {
                Some(sc) => Ok(sc),
                None => Err(Error::UnknownScheme),
            }),
    {
        Scheme::parse(s)
    }
}

} // verus!
