//! Middleware types and traits: the request-interception pipeline. One call
//! runs extraction, decoding and the authorization decision synchronously,
//! then either rejects immediately or hands a single-owner downstream handle
//! to the surrounding executor for the suspending forward.

use vstd::prelude::*;
use core::marker::PhantomData;
use jsonwebtoken::errors::Error as JwtError;
use serde_json::Value;
use crate::decode::Decoder;
use crate::decode::some_key_accepts;
use crate::extract::Bearer;
use crate::extract::Extract;
use crate::extract::Headers;
use crate::extract::Token;
use crate::response::Response;
use crate::response::UNAUTHORIZED;

verus! {

/// The output value of a validation: either an admission or a rejection
/// response.
pub trait Output: Sized {
    /// The rejection this output denotes, `None` for admission.
    spec fn deny_of(self) -> Option<Response>;

    /// Turns the output into `None` to admit the request, or into the
    /// rejection response to send.
    fn output(self) -> (r: Option<Response>)
        ensures
            r == self.deny_of(),
    ;
}

impl Output for bool {
    open spec fn deny_of(self) -> Option<Response> {
        if self {
            None
        } else {
            Some(Response { status: UNAUTHORIZED })
        }
    }

    fn output(self) -> (r: Option<Response>) {
        if self {
            None
        } else {
            Some(Response::unauthorized())
        }
    }
}

impl Output for Result<(), Response> {
    open spec fn deny_of(self) -> Option<Response> {
        match self {
            Ok(_) => None,
            Err(e) => Some(e),
        }
    }

    fn output(self) -> (r: Option<Response>) {
        match self {
            Ok(_) => None,
            Err(e) => Some(e),
        }
    }
}

/// Trait for additional token validation: the pipeline's authorization
/// decision, run inline between decode and forward. It may keep state, but
/// must not suspend.
///
/// The two spec functions bound the decision from both sides: a token the
/// decision provably admits is always admitted, and an admitted token was at
/// least possibly admissible. For a deterministic decision the two coincide.
pub trait Validate<I> {
    /// Tokens this decision is bound to admit.
    spec fn must_allow(&self, t: Token<I>) -> bool;

    /// Tokens this decision can possibly admit.
    spec fn may_allow(&self, t: Token<I>) -> bool;

    /// Decides on a decoded token: `None` admits the request, a response
    /// rejects it with that response.
    fn validate(&mut self, input: &Token<I>) -> (r: Option<Response>)
        ensures
            old(self).must_allow(*input) ==> r is None,
            r is None ==> old(self).may_allow(*input),
    ;
}

/// Discards any token data and admits the request: used when a valid
/// signature is the only requirement.
#[derive(Clone, Copy)]
pub struct Discard;

impl<I> Validate<I> for Discard {
    open spec fn must_allow(&self, t: Token<I>) -> bool {
        true
    }

    open spec fn may_allow(&self, t: Token<I>) -> bool {
        true
    }

    fn validate(&mut self, input: &Token<I>) -> (r: Option<Response>) {
        None
    }
}

/// An authorization decision built from a user-supplied function over the
/// decoded token. The function must accept every token; its output is read
/// through [`Output`], so it may be a plain `bool` or carry a custom
/// rejection response.
#[verifier::reject_recursive_types(I)]
#[verifier::reject_recursive_types(O)]
pub struct Predicate<I, F, O> where F: Fn(&Token<I>) -> O, O: Output {
    f: F,
    claims: PhantomData<I>,
}

impl<I, F, O> Predicate<I, F, O> where F: Fn(&Token<I>) -> O, O: Output {
    #[verifier::type_invariant]
    spec fn callable(self) -> bool {
        forall|t: &Token<I>| call_requires(self.f, (t,))
    }

    /// Wraps the decision function `f`, which must accept every token.
    ///
    /// The wrapped decision is bound to admit exactly the tokens on which
    /// `f` cannot output a denial, and can admit only those on which `f` can
    /// output an admission.
    pub fn new(f: F) -> (r: Self)
        requires
            forall|t: &Token<I>| call_requires(f, (t,)),
        ensures
            forall|t: Token<I>| #[trigger] r.must_allow(t) <==> (forall|o: O|
                call_ensures(f, (&t,), o) ==> o.deny_of() is None),
            forall|t: Token<I>| #[trigger] r.may_allow(t) <==> (exists|o: O|
                call_ensures(f, (&t,), o) && o.deny_of() is None),
    {
        Predicate { f, claims: PhantomData }
    }
}

impl<I, F, O> Validate<I> for Predicate<I, F, O> where F: Fn(&Token<I>) -> O, O: Output {
    closed spec fn must_allow(&self, t: Token<I>) -> bool {
        forall|o: O| call_ensures(self.f, (&t,), o) ==> o.deny_of() is None
    }

    closed spec fn may_allow(&self, t: Token<I>) -> bool {
        exists|o: O| call_ensures(self.f, (&t,), o) && o.deny_of() is None
    }

    fn validate(&mut self, input: &Token<I>) -> (r: Option<Response>) {
        proof {
            use_type_invariant(&*self);
        }
        let o = (self.f)(input);
        o.output()
    }
}

/// The outcome of the validating phase for one decoded-token result.
pub enum Admission {
    /// The request is admitted with this decoded token.
    Forward(Token<Value>),
    /// The request is rejected with this response; downstream is not
    /// invoked.
    Reject(Response),
}

/// Applies the authorization decision to the outcome of a decode. A failed
/// decode is rejected with the fixed unauthorized response; a token the
/// decision admits is forwarded unchanged; every admitted token passed the
/// decision.
pub fn authorize<H: Validate<Value>>(validate: &mut H, decoded: Result<Token<Value>, JwtError>) -> (r:
    Admission)
    ensures
        decoded is Err ==> (r matches Admission::Reject(res) && res.status == UNAUTHORIZED),
        decoded is Ok && old(validate).must_allow(decoded->Ok_0) ==> r == Admission::Forward(
            decoded->Ok_0,
        ),
        r matches Admission::Forward(t) ==> (decoded is Ok && decoded->Ok_0 == t && old(
            validate,
        ).may_allow(t)),
{
    match decoded {
        Ok(t) => match validate.validate(&t) {
            None => Admission::Forward(t),
            Some(res) => Admission::Reject(res),
        },
        Err(_) => Admission::Reject(Response::unauthorized()),
    }
}

/// Whether some key material in `keys` accepts the token that the extractor
/// found, `false` when no token was found.
pub open spec fn extracted_accepts(keys: Seq<Seq<u8>>, extracted: Option<Seq<char>>) -> bool {
    match extracted {
        Some(t) => some_key_accepts(keys, t),
        None => false,
    }
}

/// Layer type for creating middleware: the decoder, the authorization
/// decision, the extraction strategy, and whether decoded claims are
/// injected into request-scoped context.
///
/// To configure the layer and create the middleware service, call the
/// [`layer`] function.
pub struct JwtLayer<H = Discard, X = Bearer> {
    /// The token decoder shared by all requests.
    pub decoder: Decoder,
    /// The authorization decision run on each decoded token.
    pub validate: H,
    /// Whether decoded claims are handed onward for context injection.
    pub store: bool,
    /// The extraction strategy, chosen by type.
    pub extract: PhantomData<X>,
}

/// Creates a [layer](JwtLayer) for middleware: bearer-header extraction, the
/// always-allow decision, and no context injection.
pub fn layer(decoder: Decoder) -> (r: JwtLayer)
    ensures
        r.decoder == decoder,
        r.validate == Discard,
        !r.store,
{
    JwtLayer { decoder, validate: Discard, store: false, extract: PhantomData }
}

impl<X> JwtLayer<Discard, X> {
    /// Replaces the always-allow decision with `validate`.
    pub fn with_filter<H>(self, validate: H) -> (r: JwtLayer<H, X>)
        ensures
            r.decoder == self.decoder,
            r.validate == validate,
            !r.store,
    {
        JwtLayer { decoder: self.decoder, validate, store: false, extract: PhantomData }
    }
}

impl<H, X> JwtLayer<H, X> {
    /// Requests that decoded claims be injected into request-scoped context
    /// so downstream handlers can retrieve them without re-decoding.
    pub fn store_to_extension(self) -> (r: Self)
        ensures
            r.decoder == self.decoder,
            r.validate == self.validate,
            r.store,
    {
        JwtLayer { decoder: self.decoder, validate: self.validate, store: true, extract: PhantomData }
    }
}

impl<H> JwtLayer<H, Bearer> {
    /// Replaces the default bearer-header extraction with the strategy
    /// `extract`.
    pub fn with_extract<X: Extract>(self, extract: X) -> (r: JwtLayer<H, X>)
        ensures
            r.decoder == self.decoder,
            r.validate == self.validate,
            r.store == self.store,
    {
        let _unused = extract;
        JwtLayer { decoder: self.decoder, validate: self.validate, store: self.store, extract: PhantomData }
    }
}

impl<H, X> JwtLayer<H, X> {
    /// Wraps the downstream service `svc` in the middleware, with a copy of
    /// this layer's configuration.
    pub fn layer<S>(&self, svc: S) -> (r: Jwt<S, H, X>) where H: Clone
        ensures
            r.svc == svc,
            r.decoder@ == self.decoder@,
            r.decoder.spec_validation() == self.decoder.spec_validation(),
            cloned(self.validate, r.validate),
            r.store == self.store,
    {
        Jwt {
            svc,
            decoder: self.decoder.clone(),
            validate: self.validate.clone(),
            store: self.store,
            extract: PhantomData,
        }
    }
}

impl<H: Clone, X> Clone for JwtLayer<H, X> {
    /// The clone shares the decoder's key materials and ruleset, a clone of
    /// the decision, and the same configuration.
    fn clone(&self) -> (r: Self)
        ensures
            r.decoder@ == self.decoder@,
            r.decoder.spec_validation() == self.decoder.spec_validation(),
            cloned(self.validate, r.validate),
            r.store == self.store,
    {
        JwtLayer {
            decoder: self.decoder.clone(),
            validate: self.validate.clone(),
            store: self.store,
            extract: PhantomData,
        }
    }
}

/// Middleware future: the per-request state machine, linear by ownership.
///
/// States advance `NotReady` to `Called` to done, or start at `Ready` and
/// finish at once; every transition consumes the instance, so no step can
/// repeat and a completed instance cannot be driven again (misuse is a
/// compile-time error rather than a runtime panic).
pub enum JwtFuture<S, R, F> {
    /// The request was admitted; the downstream handle has not been invoked
    /// yet. Carries the single-owner handle, the request, and the decoded
    /// token for optional context injection.
    NotReady {
        /// The downstream handle, owned by this request alone.
        svc: S,
        /// The admitted request.
        req: R,
        /// The decoded token that admitted the request.
        token: Token<Value>,
    },
    /// The downstream handler was invoked; its suspending work is in
    /// flight.
    Called {
        /// The downstream handler's own future.
        fut: F,
    },
    /// The request was rejected; the response is ready at once and
    /// downstream is never invoked.
    Ready {
        /// The rejection response.
        res: Response,
    },
}

impl<S, R, F> JwtFuture<S, R, F> {
    /// A future that resolves at once to the rejection `res`.
    pub fn ready(res: Response) -> (r: Self)
        ensures
            r == (JwtFuture::<S, R, F>::Ready { res }),
    {
        JwtFuture::Ready { res }
    }

    /// A future that must first wait for the downstream handle to accept
    /// the admitted request.
    pub fn not_ready(svc: S, req: R, token: Token<Value>) -> (r: Self)
        ensures
            r == (JwtFuture::<S, R, F>::NotReady { svc, req, token }),
    {
        JwtFuture::NotReady { svc, req, token }
    }

    /// A future waiting on the downstream handler's own future.
    pub fn called(fut: F) -> (r: Self)
        ensures
            r == (JwtFuture::<S, R, F>::Called { fut }),
    {
        JwtFuture::Called { fut }
    }

    /// Dismantles the pre-forward state into the single-owner downstream
    /// handle, the request, and the decoded token, consuming the instance.
    pub fn begin_forward(self) -> (r: (S, R, Token<Value>))
        requires
            self is NotReady,
        ensures
            self matches JwtFuture::NotReady { svc, req, token } ==> r == (svc, req, token),
    {
        match self {
            JwtFuture::NotReady { svc, req, token } => (svc, req, token),
            _ => unreached(),
        }
    }

    /// Resolves a rejected request to its response, consuming the instance.
    pub fn finish(self) -> (r: Response)
        requires
            self is Ready,
        ensures
            self matches JwtFuture::Ready { res } ==> r == res,
    {
        match self {
            JwtFuture::Ready { res } => res,
            _ => unreached(),
        }
    }
}

/// Middleware for token validation: wraps a downstream handler and admits or
/// rejects each request.
///
/// The decoder is the only state shared across concurrent requests; it is
/// read-only after construction. The downstream handle is swapped out for a
/// fresh clone on every admitted request before the suspending forward
/// begins, so the middleware is always ready for the next request.
pub struct Jwt<S, H = Discard, X = Bearer> {
    /// The downstream handle template: handed out to the next admitted
    /// request and replaced by a fresh clone at that moment.
    pub svc: S,
    /// The token decoder.
    pub decoder: Decoder,
    /// The authorization decision.
    pub validate: H,
    /// Whether decoded claims are handed onward for context injection.
    pub store: bool,
    /// The extraction strategy, chosen by type.
    pub extract: PhantomData<X>,
}

impl<S: Clone, H: Clone, X> Clone for Jwt<S, H, X> {
    /// The clone holds clones of the downstream template and the decision,
    /// the same key materials and ruleset, and the same configuration.
    fn clone(&self) -> (r: Self)
        ensures
            cloned(self.svc, r.svc),
            r.decoder@ == self.decoder@,
            r.decoder.spec_validation() == self.decoder.spec_validation(),
            cloned(self.validate, r.validate),
            r.store == self.store,
    {
        Jwt {
            svc: self.svc.clone(),
            decoder: self.decoder.clone(),
            validate: self.validate.clone(),
            store: self.store,
            extract: PhantomData,
        }
    }
}

impl<S, H, X> Jwt<S, H, X> where S: Clone, H: Validate<Value>, X: Extract {
    /// Drives one request through the validating phase: extraction, decode,
    /// and the authorization decision, none of which suspends. An absent
    /// token, a token no key accepts, and a denied token are rejected at
    /// once, leaving the downstream handle untouched; an admitted request
    /// receives the currently held downstream handle, and the middleware
    /// keeps a fresh clone of it, taken before the forward can suspend.
    pub fn call<R, F>(&mut self, headers: &Headers, req: R) -> (r: JwtFuture<S, R, F>)
        ensures
            final(self).decoder@ == old(self).decoder@,
            final(self).decoder.spec_validation() == old(self).decoder.spec_validation(),
            final(self).store == old(self).store,
            !extracted_accepts(old(self).decoder@, X::token_of(headers@)) ==> (r matches
                JwtFuture::Ready { res } && res.status == UNAUTHORIZED && final(self).svc == old(
                self,
            ).svc),
            r is Ready ==> final(self).svc == old(self).svc,
            !(r is Called),
            r matches JwtFuture::NotReady { svc, req: forwarded, token } ==> (svc == old(self).svc
                && forwarded == req && cloned(old(self).svc, final(self).svc) && extracted_accepts(
                old(self).decoder@,
                X::token_of(headers@),
            ) && old(self).validate.may_allow(token)),
    {
        let raw = match X::extract(headers) {
            Some(s) => s,
            None => {
                return JwtFuture::ready(Response::unauthorized());
            },
        };
        let decoded = self.decoder.decode(raw.as_str());
        match authorize(&mut self.validate, decoded) {
            Admission::Reject(res) => JwtFuture::ready(res),
            Admission::Forward(token) => {
                let mut dispatched = self.svc.clone();
                core::mem::swap(&mut self.svc, &mut dispatched);
                JwtFuture::not_ready(dispatched, req, token)
            },
        }
    }
}

} // verus!
