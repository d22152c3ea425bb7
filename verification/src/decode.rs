//! The token verification engine: an ordered, immutable set of verification
//! keys sharing one claim-validation ruleset, and a decoder that tries each
//! key in construction order until one accepts the token.

use vstd::prelude::*;
use jsonwebtoken::DecodingKey;
use jsonwebtoken::Validation;
use jsonwebtoken::errors::Error as JwtError;
use serde_json::Value;
use crate::extract::Token;

verus! {

/// Declares `jsonwebtoken::DecodingKey`, the key material used to check a
/// token's signature. Opaque here; a [`Key`] pairs it with the secret bytes
/// it was built from.
#[verifier::external_type_specification]
#[verifier::external_body]
pub struct ExDecodingKey(DecodingKey);

/// Declares `jsonwebtoken::Validation`, the claim-validation ruleset
/// (permitted algorithms, expiry requirement, issuer and audience
/// constraints). Opaque here; it is configured by the caller and handed
/// unchanged to the verification library.
#[verifier::external_type_specification]
#[verifier::external_body]
pub struct ExValidation(Validation);

/// Declares `serde_json::Value`, the structured claims payload that a token
/// carries. Opaque here: this crate hands it through to the authorization
/// decision without interpreting it.
#[verifier::external_type_specification]
#[verifier::external_body]
pub struct ExValue(Value);

/// Whether the signature of `token` verifies under the key built from the
/// bytes `secret`. This names the signature check inside
/// `jsonwebtoken::decode`, a deterministic function of the token and the key
/// material alone; no contract states its value on given inputs.
pub uninterp spec fn key_accepts(secret: Seq<u8>, token: Seq<char>) -> bool;

/// One verification key: the raw key material for the verification library,
/// together with the secret bytes it was built from as its mathematical
/// identity.
pub struct Key {
    inner: DecodingKey,
    material: Ghost<Seq<u8>>,
}

/// Relies on `jsonwebtoken::DecodingKey::from_secret`: builds the HMAC
/// verification key that holds exactly the given secret bytes.
#[verifier::external_body]
fn raw_key_from_secret(secret: &Vec<u8>) -> (k: DecodingKey) {
    DecodingKey::from_secret(secret)
}

/// Relies on `jsonwebtoken::DecodingKey`'s derived `Clone`: the clone is a
/// field-for-field duplicate of the key.
#[verifier::external_body]
fn clone_raw_key(k: &DecodingKey) -> (r: DecodingKey)
    ensures
        r == *k,
{
    k.clone()
}

impl Key {
    /// The secret bytes this key was built from.
    pub closed spec fn material(&self) -> Seq<u8> {
        self.material@
    }

    /// A verification key for tokens signed with the HMAC secret `secret`.
    pub fn from_secret(secret: &Vec<u8>) -> (k: Key)
        ensures
            k.material() == secret@,
    {
        Key { inner: raw_key_from_secret(secret), material: Ghost(secret@) }
    }
}

impl Clone for Key {
    /// The clone carries the same key material, so it verifies exactly the
    /// same tokens.
    fn clone(&self) -> (r: Self)
        ensures
            r.material() == self.material(),
    {
        Key { inner: clone_raw_key(&self.inner), material: Ghost(self.material@) }
    }
}

/// The key materials of a sequence of keys, in order.
pub open spec fn materials_of(keys: Seq<Key>) -> Seq<Seq<u8>> {
    keys.map_values(|k: Key| k.material())
}

/// Whether some key material in `keys` accepts the signature of `token`.
pub open spec fn some_key_accepts(keys: Seq<Seq<u8>>, token: Seq<char>) -> bool {
    exists|i: int| 0 <= i < keys.len() && key_accepts(keys[i], token)
}

proof fn lemma_accepting_key_carries_over(a: Seq<Seq<u8>>, b: Seq<Seq<u8>>, token: Seq<char>)
    requires
        a.to_multiset() == b.to_multiset(),
        some_key_accepts(a, token),
    ensures
        some_key_accepts(b, token),
{
    broadcast use vstd::seq_lib::group_to_multiset_ensures;

    let i = choose|i: int| 0 <= i < a.len() && key_accepts(a[i], token);
    assert(a.contains(a[i]));
    assert(b.to_multiset().count(a[i]) > 0);
    assert(b.contains(a[i]));
    let j = choose|j: int| 0 <= j < b.len() && b[j] == a[i];
    assert(key_accepts(b[j], token));
}

/// Key order does not affect whether decoding can succeed: whether some key
/// of a set accepts a token's signature depends only on which materials the
/// set holds, not on the order they stand in. Only the error surfaced on
/// total failure, and performance, depend on the order.
pub proof fn lemma_key_order_irrelevant(a: Seq<Seq<u8>>, b: Seq<Seq<u8>>, token: Seq<char>)
    requires
        a.to_multiset() == b.to_multiset(),
    ensures
        some_key_accepts(a, token) == some_key_accepts(b, token),
{
    if some_key_accepts(a, token) {
        lemma_accepting_key_carries_over(a, b, token);
    }
    if some_key_accepts(b, token) {
        lemma_accepting_key_carries_over(b, a, token);
    }
}

/// A decoder for JSON Web Tokens: an ordered, immutable collection of
/// verification keys (at least one, enforced at construction) and one shared
/// claim-validation ruleset.
///
/// Its view is the ordered sequence of key materials.
pub struct Decoder {
    keys: Vec<Key>,
    validation: Validation,
}

impl View for Decoder {
    type V = Seq<Seq<u8>>;

    closed spec fn view(&self) -> Seq<Seq<u8>> {
        materials_of(self.keys@)
    }
}

/// Relies on `jsonwebtoken::Validation::default`: the standard ruleset,
/// permitting HS256 and requiring a valid, unexpired `exp` claim.
#[verifier::external_body]
fn default_validation() -> (v: Validation) {
    Validation::default()
}

/// Relies on `jsonwebtoken::Validation`'s derived `Clone`: the clone is a
/// field-for-field duplicate of the ruleset.
#[verifier::external_body]
fn clone_validation(v: &Validation) -> (r: Validation)
    ensures
        r == *v,
{
    v.clone()
}

/// Relies on `jsonwebtoken::decode`: it verifies the token's signature
/// against the key before any claim validation, so a success implies that
/// the signature matches the key's material. Expiry and the other ruleset
/// checks also depend on the clock, so nothing more is promised of the
/// outcome.
#[verifier::external_body]
fn decode_with_key(token: &str, key: &Key, validation: &Validation) -> (r: Result<
    Token<Value>,
    JwtError,
>)
    ensures
        r is Ok ==> key_accepts(key.material(), token@),
{
    match jsonwebtoken::decode::<Value>(token, &key.inner, validation) {
        Ok(jsonwebtoken::TokenData { header, claims }) => Ok(Token { header, claims }),
        Err(e) => Err(e),
    }
}

impl Decoder {
    #[verifier::type_invariant]
    spec fn has_keys(self) -> bool {
        self.keys@.len() >= 1
    }

    /// The shared claim-validation ruleset, as an abstract value.
    pub closed spec fn spec_validation(&self) -> Validation {
        self.validation
    }

    /// Creates a decoder from the provided decoding key, with the standard
    /// ruleset.
    pub fn from_key(key: Key) -> (r: Self)
        ensures
            r@ == seq![key.material()],
    {
        let keys: Vec<Key> = vec![key];
        let r = Decoder { keys, validation: default_validation() };
        proof {
            assert(r@ =~= seq![key.material()]);
        }
        r
    }

    /// Creates a decoder from the provided decoding key and ruleset.
    pub fn new(key: Key, validation: Validation) -> (r: Self)
        ensures
            r@ == seq![key.material()],
            r.spec_validation() == validation,
    {
        let keys: Vec<Key> = vec![key];
        let r = Decoder { keys, validation };
        proof {
            assert(r@ =~= seq![key.material()]);
        }
        r
    }

    /// Creates a decoder from the provided decoding keys and ruleset.
    ///
    /// Returns `None` exactly when the given vector is empty: an empty key
    /// set is a construction error, never a runtime error.
    pub fn with_keys(keys: Vec<Key>, validation: Validation) -> (r: Option<Self>)
        ensures
            r is None <==> keys@.len() == 0,
            r matches Some(d) ==> (d@ == materials_of(keys@) && d.spec_validation() == validation),
    {
        if keys.len() == 0 {
            None
        } else {
            Some(Decoder { keys, validation })
        }
    }

    /// The decoding keys, in the order they are tried.
    pub fn keys(&self) -> (r: &Vec<Key>)
        ensures
            materials_of(r@) == self@,
    {
        &self.keys
    }

    /// The shared claim-validation ruleset.
    pub fn validation(&self) -> (r: &Validation)
        ensures
            *r == self.spec_validation(),
    {
        &self.validation
    }

    /// Decodes and validates `token`, trying each key in construction order
    /// and returning the first success; when every key fails, the error of
    /// the last key tried is returned.
    ///
    /// A success implies that some key in the set accepts the token's
    /// signature, wherever it stands in the order; a token whose signature
    /// no key of the set accepts is always rejected.
    pub fn decode(&self, token: &str) -> (r: Result<Token<Value>, JwtError>)
        ensures
            r is Ok ==> some_key_accepts(self@, token@),
            !some_key_accepts(self@, token@) ==> r is Err,
    {
        proof {
            use_type_invariant(self);
        }
        let mut last_err: Option<JwtError> = None;
        let mut i: usize = 0;
        while i < self.keys.len()
            invariant
                i <= self.keys@.len(),
                i > 0 ==> last_err is Some,
                self@ == materials_of(self.keys@),
            decreases self.keys@.len() - i,
        {
            match decode_with_key(token, &self.keys[i], &self.validation) {
                Ok(t) => {
                    proof {
                        assert(self@[i as int] == self.keys@[i as int].material());
                    }
                    return Ok(t);
                },
                Err(e) => {
                    last_err = Some(e);
                },
            }
            i += 1;
        }
        Err(last_err.unwrap())
    }
}

impl Clone for Decoder {
    /// The clone holds the same key materials in the same order, under the
    /// same ruleset.
    fn clone(&self) -> (r: Self)
        ensures
            r@ == self@,
            r.spec_validation() == self.spec_validation(),
    {
        proof {
            use_type_invariant(self);
        }
        let mut keys: Vec<Key> = Vec::new();
        let mut i: usize = 0;
        while i < self.keys.len()
            invariant
                i <= self.keys@.len(),
                keys@.len() == i,
                forall|j: int|
                    0 <= j < i ==> keys@[j].material() == self.keys@[j].material(),
            decreases self.keys@.len() - i,
        {
            keys.push(self.keys[i].clone());
            i += 1;
        }
        let r = Decoder { keys, validation: clone_validation(&self.validation) };
        proof {
            assert(r@ =~= self@);
        }
        r
    }
}

} // verus!
