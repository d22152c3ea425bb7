//! Token extraction: reading the raw bearer credential out of request
//! metadata, and the decoded token value handed to authorization decisions.

use vstd::prelude::*;
use jsonwebtoken::Header;

verus! {

/// Declares `jsonwebtoken::Header`, the decoded JOSE header of a token
/// (algorithm, key identifier, token type). It is carried through this crate
/// opaquely: only the verification library reads or writes it.
#[verifier::external_type_specification]
#[verifier::external_body]
pub struct ExHeader(Header);

/// Relies on `jsonwebtoken::Header`'s derived `Clone`: the clone is a
/// field-for-field duplicate of the header record.
pub assume_specification[ <Header as core::clone::Clone>::clone ](h: &Header) -> (r: Header)
    ensures
        r == *h,
;

/// A decoded token: the JOSE header record and the claims payload.
///
/// Produced exactly once per successful decode call and passed transiently
/// from the decoder to the authorization decision; it is never persisted.
#[derive(Clone, Debug)]
pub struct Token<T> {
    /// The decoded token header.
    pub header: Header,
    /// The decoded claims payload.
    pub claims: T,
}

impl<T> Token<T> {
    /// Packs a decoded header and claims payload into a token value.
    pub fn new(header: Header, claims: T) -> (r: Self)
        ensures
            r.header == header,
            r.claims == claims,
    {
        Token { header, claims }
    }
}

/// A decoded token reduced to its claims payload, for handlers that do not
/// care about the header record.
#[derive(Clone, Copy, Debug)]
pub struct Claims<T>(pub T);

/// The ASCII-lowercased image of one byte.
pub open spec fn lower_byte(b: u8) -> u8 {
    if 65 <= b && b <= 90 {
        (b + 32) as u8
    } else {
        b
    }
}

/// The ASCII-lowercased image of a byte sequence.
pub open spec fn lower_bytes(s: Seq<u8>) -> Seq<u8> {
    s.map_values(|b: u8| lower_byte(b))
}

/// The value of the first header whose name equals `name` up to ASCII case,
/// or `None` when no header carries that name.
pub open spec fn header_lookup(h: Seq<(Seq<u8>, Seq<u8>)>, name: Seq<u8>) -> Option<Seq<u8>>
    decreases h.len(),
{
    if h.len() == 0 {
        None
    } else if lower_bytes(h[0].0) == lower_bytes(name) {
        Some(h[0].1)
    } else {
        header_lookup(h.drop_first(), name)
    }
}

/// The request metadata the pipeline reads: an ordered list of header
/// name/value pairs, both as raw bytes. Header names compare without regard
/// to ASCII case, as they do on the wire.
///
/// Its view is the sequence of name/value byte pairs.
pub struct Headers {
    entries: Vec<(Vec<u8>, Vec<u8>)>,
}

impl View for Headers {
    type V = Seq<(Seq<u8>, Seq<u8>)>;

    closed spec fn view(&self) -> Seq<(Seq<u8>, Seq<u8>)> {
        self.entries@.map_values(|e: (Vec<u8>, Vec<u8>)| (e.0@, e.1@))
    }
}

fn lower(b: u8) -> (r: u8)
    ensures
        r == lower_byte(b),
{
    if 65 <= b && b <= 90 {
        b + 32
    } else {
        b
    }
}

fn names_match(a: &Vec<u8>, b: &Vec<u8>) -> (r: bool)
    ensures
        r == (lower_bytes(a@) == lower_bytes(b@)),
{
    if a.len() != b.len() {
        proof {
            assert(lower_bytes(a@).len() == a@.len());
            assert(lower_bytes(b@).len() == b@.len());
        }
        return false;
    }
    let mut i: usize = 0;
    while i < a.len()
        invariant
            i <= a@.len(),
            a@.len() == b@.len(),
            forall|j: int| 0 <= j < i ==> lower_byte(a@[j]) == lower_byte(b@[j]),
        decreases a@.len() - i,
    {
        if lower(a[i]) != lower(b[i]) {
            proof {
                assert(lower_bytes(a@)[i as int] == lower_byte(a@[i as int]));
                assert(lower_bytes(b@)[i as int] == lower_byte(b@[i as int]));
            }
            return false;
        }
        i += 1;
    }
    proof {
        assert(lower_bytes(a@) =~= lower_bytes(b@));
    }
    true
}

impl Headers {
    /// Request metadata with no headers.
    pub fn new() -> (r: Self)
        ensures
            r@ == Seq::<(Seq<u8>, Seq<u8>)>::empty(),
    {
        let r = Headers { entries: Vec::new() };
        proof {
            assert(r@ =~= Seq::<(Seq<u8>, Seq<u8>)>::empty());
        }
        r
    }

    /// Appends one header name/value pair.
    pub fn append(&mut self, name: Vec<u8>, value: Vec<u8>)
        ensures
            final(self)@ == old(self)@.push((name@, value@)),
    {
        let ghost before = self@;
        self.entries.push((name, value));
        proof {
            assert(self@ =~= before.push((name@, value@)));
        }
    }

    /// The value of the first header named `name`, compared without regard
    /// to ASCII case; `None` when the header is absent.
    pub fn get(&self, name: &Vec<u8>) -> (r: Option<&Vec<u8>>)
        ensures
            r is Some <==> header_lookup(self@, name@) is Some,
            r matches Some(v) ==> Some(v@) == header_lookup(self@, name@),
    {
        let mut i: usize = 0;
        proof {
            assert(self@.skip(0) =~= self@);
        }
        while i < self.entries.len()
            invariant
                i <= self.entries@.len(),
                self@.len() == self.entries@.len(),
                self@ == self.entries@.map_values(|e: (Vec<u8>, Vec<u8>)| (e.0@, e.1@)),
                header_lookup(self@, name@) == header_lookup(self@.skip(i as int), name@),
            decreases self.entries@.len() - i,
        {
            proof {
                assert(self@.skip(i as int)[0] == self@[i as int]);
            }
            if names_match(&self.entries[i].0, name) {
                return Some(&self.entries[i].1);
            }
            proof {
                assert(self@.skip(i as int).drop_first() =~= self@.skip(i + 1));
            }
            i += 1;
        }
        proof {
            assert(self@.skip(i as int) =~= Seq::<(Seq<u8>, Seq<u8>)>::empty());
        }
        None
    }
}

/// The bytes of the header name `Authorization`.
pub open spec fn authorization_name() -> Seq<u8> {
    seq![65u8, 117u8, 116u8, 104u8, 111u8, 114u8, 105u8, 122u8, 97u8, 116u8, 105u8, 111u8, 110u8]
}

fn authorization_name_vec() -> (r: Vec<u8>)
    ensures
        r@ == authorization_name(),
{
    let r: Vec<u8> = vec![65u8, 117u8, 116u8, 104u8, 111u8, 114u8, 105u8, 122u8, 97u8, 116u8, 105u8, 111u8, 110u8];
    proof {
        assert(r@ =~= authorization_name());
    }
    r
}

/// The bytes of the literal prefix `Bearer ` (case-sensitive, single space).
pub open spec fn bearer_prefix() -> Seq<u8> {
    seq![66u8, 101u8, 97u8, 114u8, 101u8, 114u8, 32u8]
}

/// The bytes following the literal prefix `Bearer ` in a header value, or
/// `None` when the value does not carry that exact prefix.
pub open spec fn bearer_token_bytes(value: Seq<u8>) -> Option<Seq<u8>> {
    if value.len() >= 7 && value.subrange(0, 7) == bearer_prefix() {
        Some(value.skip(7))
    } else {
        None
    }
}

fn bearer_prefix_byte(i: usize) -> (r: u8)
    requires
        i < 7,
    ensures
        r == bearer_prefix()[i as int],
{
    if i == 0 {
        66
    } else if i == 1 {
        101
    } else if i == 2 {
        97
    } else if i == 3 {
        114
    } else if i == 4 {
        101
    } else if i == 5 {
        114
    } else {
        32
    }
}

fn strip_bearer(value: &Vec<u8>) -> (r: Option<Vec<u8>>)
    ensures
        r is Some <==> bearer_token_bytes(value@) is Some,
        r matches Some(t) ==> Some(t@) == bearer_token_bytes(value@),
{
    if value.len() < 7 {
        return None;
    }
    let mut i: usize = 0;
    while i < 7
        invariant
            i <= 7,
            value@.len() >= 7,
            forall|j: int| 0 <= j < i ==> value@[j] == bearer_prefix()[j],
        decreases 7 - i,
    {
        if value[i] != bearer_prefix_byte(i) {
            proof {
                assert(value@.subrange(0, 7)[i as int] == value@[i as int]);
            }
            return None;
        }
        i += 1;
    }
    proof {
        assert(value@.subrange(0, 7) =~= bearer_prefix());
    }
    let mut t: Vec<u8> = Vec::new();
    let mut k: usize = 7;
    while k < value.len()
        invariant
            7 <= k <= value@.len(),
            t@ =~= value@.subrange(7, k as int),
        decreases value@.len() - k,
    {
        t.push(value[k]);
        k += 1;
    }
    proof {
        assert(t@ =~= value@.skip(7));
    }
    Some(t)
}

/// The characters that the bytes decode to as UTF-8, or `None` when they are
/// not valid UTF-8. This names the result of `String::from_utf8` (std), a
/// function of the bytes alone; no contract states its value on given
/// inputs.
pub uninterp spec fn utf8_decode(bytes: Seq<u8>) -> Option<Seq<char>>;

/// Relies on `String::from_utf8` (std): it succeeds exactly on input that is
/// valid UTF-8, and the resulting string's characters depend on the bytes
/// alone.
#[verifier::external_body]
fn utf8_to_string(bytes: Vec<u8>) -> (r: Option<String>)
    ensures
        r is Some <==> utf8_decode(bytes@) is Some,
        r matches Some(s) ==> Some(s@) == utf8_decode(bytes@),
{
    String::from_utf8(bytes).ok()
}

/// A token extraction strategy: a pure, non-suspending read of request
/// metadata that either finds the raw token string or reports it absent.
///
/// Alternate strategies (custom header, cookie) implement the same
/// two-outcome contract; strategies are not combined automatically.
pub trait Extract {
    /// The token this strategy reads from the given request metadata.
    spec fn token_of(h: Seq<(Seq<u8>, Seq<u8>)>) -> Option<Seq<char>>;

    /// Extracts the raw token string from the request metadata, or reports
    /// it absent.
    fn extract(h: &Headers) -> (r: Option<String>)
        ensures
            r is Some <==> Self::token_of(h@) is Some,
            r matches Some(s) ==> Some(s@) == Self::token_of(h@),
    ;
}

/// Token extraction from a header with the `Bearer` authentication scheme:
/// the token is the exact substring of the `Authorization` header following
/// the literal prefix `Bearer `. A missing header, a different scheme and
/// non-UTF-8 bytes after the prefix all collapse to the same absent outcome.
pub struct Bearer;

impl Extract for Bearer {
    open spec fn token_of(h: Seq<(Seq<u8>, Seq<u8>)>) -> Option<Seq<char>> {
        match header_lookup(h, authorization_name()) {
            None => None,
            Some(value) => match bearer_token_bytes(value) {
                None => None,
                Some(bytes) => utf8_decode(bytes),
            },
        }
    }

    fn extract(h: &Headers) -> (r: Option<String>) {
        let name = authorization_name_vec();
        match h.get(&name) {
            None => None,
            Some(value) => match strip_bearer(value) {
                None => None,
                Some(rest) => utf8_to_string(rest),
            },
        }
    }
}

/// Token extraction from the `Authorization` header, under the `Bearer`
/// scheme.
#[derive(Clone, Debug, Default)]
pub struct AuthorizationExtract;

impl Extract for AuthorizationExtract {
    open spec fn token_of(h: Seq<(Seq<u8>, Seq<u8>)>) -> Option<Seq<char>> {
        <Bearer as Extract>::token_of(h)
    }

    fn extract(h: &Headers) -> (r: Option<String>) {
        Bearer::extract(h)
    }
}

} // verus!
