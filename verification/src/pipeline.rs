//! The pipeline for one request: look the identifier up in the cache, have
//! the origin fetched on a miss, classify and transform what came back, cache
//! it, and answer with the body or with "not modified".
//!
//! The fetch itself is the caller's business. `begin` says whether one is
//! needed and from where; `complete` takes what the origin answered.
//!
//! A caller that shares the pipeline among requests needs it only for the
//! two steps that touch the cache, `lookup` and `keep`. What stands between
//! them needs no pipeline: `after_lookup`, `prepare` and `serve`.

use crate::cache::{may_answer, no_entries, ResultCache, CACHE_CAPACITY, CACHE_TTL_SECS};
use crate::etag::{etag_for, lemma_etag_is_one_token, make_etag, sha1_digest};
use crate::identifier::{extract_identifier, format_src, identifier_of, source_url_of};
use crate::response::{
    common_headers, header_value, text_answer, text_response, with_common_headers, Response,
    ResponseView, STATUS_BAD_GATEWAY, STATUS_INTERNAL_ERROR, STATUS_NOT_FOUND,
    STATUS_NOT_MODIFIED, STATUS_OK, STATUS_UNSUPPORTED_MEDIA_TYPE,
};
use crate::sniff::{classify, is_animated};
use crate::transform::{
    decoded_size, encoder_refused_fit, has_pixels, is_fitted_encoding, transform, TransformError,
};
use crate::validator::{
    header_matches, lemma_lone_validator, lemma_lone_validator_lists_itself, trimmed,
    validator_matches,
};
use vstd::prelude::*;
use vstd::slice::*;
use vstd::string::*;

verus! {

/// What the origin did when it was asked for an asset.
pub enum Upstream {
    /// The request failed before any answer arrived, or timed out.
    Unreachable,
    /// The origin answered with `status`. `body` is `None` where the body was
    /// not read or could not be read.
    Answered { status: u16, body: Option<Vec<u8>> },
}

/// What to do next for a request.
pub enum Step {
    /// Answer with this response.
    Respond(Response),
    /// Fetch `url` and hand the outcome, with `identifier`, to `complete`.
    Fetch { identifier: String, url: String },
}

/// The answer that carries `asset`: "not modified" without a body and with
/// the placeholder for the origin URL when the request lists the asset's
/// token, the full body with status 200 otherwise.
pub open spec fn served(asset: Seq<u8>, if_none_match: Option<Seq<char>>, url: Seq<char>) -> ResponseView {
    if validator_matches(if_none_match, etag_for(asset)) {
        ResponseView {
            status: STATUS_NOT_MODIFIED,
            headers: common_headers(etag_for(asset), None),
            body: Seq::empty(),
        }
    } else {
        ResponseView {
            status: STATUS_OK,
            headers: common_headers(etag_for(asset), Some(url)),
            body: asset,
        }
    }
}

/// A status in the range that counts as success.
pub open spec fn is_success(status: u16) -> bool {
    200 <= status <= 299
}

/// The answer to give when the origin delivered no asset, or `None` when it
/// delivered one: 404 is passed on, every other failure is a bad gateway.
pub open spec fn upstream_failure(upstream: Upstream) -> Option<ResponseView> {
    match upstream {
        Upstream::Unreachable => Some(text_response(STATUS_BAD_GATEWAY, "upstream fetch failed"@)),
        Upstream::Answered { status, body } => {
            if status == STATUS_NOT_FOUND {
                Some(text_response(STATUS_NOT_FOUND, "emoji not found"@))
            } else if !is_success(status) {
                Some(text_response(STATUS_BAD_GATEWAY, "upstream error"@))
            } else if body is None {
                Some(text_response(STATUS_BAD_GATEWAY, "upstream read failed"@))
            } else {
                None
            }
        },
    }
}

/// The bytes that the origin delivered, where it delivered any.
pub open spec fn upstream_body(upstream: Upstream) -> Seq<u8> {
    match upstream {
        Upstream::Answered { status, body: Some(bytes) } => bytes@,
        _ => Seq::empty(),
    }
}

/// The answer to a transform that failed.
pub open spec fn transform_failure(e: TransformError) -> ResponseView {
    match e {
        TransformError::Decode => text_response(STATUS_UNSUPPORTED_MEDIA_TYPE, "decode failed"@),
        TransformError::Encode => text_response(STATUS_INTERNAL_ERROR, "encode failed"@),
    }
}

/// Answers a request with `asset`, honouring its `If-None-Match` header.
pub fn serve(asset: Vec<u8>, if_none_match: Option<&str>, url: &str) -> (response: Response)
    ensures
        response@ == served(asset@, header_value(if_none_match), url@),
{
    let etag = make_etag(asset.as_slice());
    if header_matches(if_none_match, etag.as_str()) {
        Response {
            status: STATUS_NOT_MODIFIED,
            headers: with_common_headers(etag, None),
            body: Vec::new(),
        }
    } else {
        Response { status: STATUS_OK, headers: with_common_headers(etag, Some(url)), body: asset }
    }
}

/// Sorts out what the origin answered: the asset's bytes, or the response
/// that reports the failure.
pub fn source_asset(upstream: Upstream) -> (r: Result<Vec<u8>, Response>)
    ensures
        match r {
            Ok(bytes) => upstream_failure(upstream) is None && bytes@ == upstream_body(upstream),
            Err(response) => upstream_failure(upstream) == Some(response@),
        },
{
    match upstream {
        Upstream::Unreachable => Err(text_answer(STATUS_BAD_GATEWAY, "upstream fetch failed")),
        Upstream::Answered { status, body } => {
            if status == STATUS_NOT_FOUND {
                Err(text_answer(STATUS_NOT_FOUND, "emoji not found"))
            } else if status < 200 || status > 299 {
                Err(text_answer(STATUS_BAD_GATEWAY, "upstream error"))
            } else {
                match body {
                    Some(bytes) => Ok(bytes),
                    None => Err(text_answer(STATUS_BAD_GATEWAY, "upstream read failed")),
                }
            }
        },
    }
}

/// The response that reports a failed transform.
pub fn transform_failed(e: TransformError) -> (response: Response)
    ensures
        response@ == transform_failure(e),
{
    match e {
        TransformError::Decode => text_answer(STATUS_UNSUPPORTED_MEDIA_TYPE, "decode failed"),
        TransformError::Encode => text_answer(STATUS_INTERNAL_ERROR, "encode failed"),
    }
}

/// Everything between the fetch and the cache: sorts out what the origin
/// answered, classifies the asset and transforms it. The result is the asset
/// to cache and serve, or the response that reports why there is none.
///
/// An animated asset comes back as it was fetched. A still image comes back
/// as the WebP encoding of its fit into the box, or fails: with "unsupported
/// media type" exactly when it cannot be decoded, with "internal error" only
/// where it decodes to a picture without pixels and the encoder refuses.
pub fn prepare(upstream: Upstream) -> (r: Result<Vec<u8>, Response>)
    ensures
        match upstream_failure(upstream) {
            Some(answer) => r matches Err(response) && response@ == answer,
            None => {
                let body = upstream_body(upstream);
                if is_animated(body) {
                    r matches Ok(asset) && asset@ == body
                } else if decoded_size(body) is None {
                    r matches Err(response) && response@ == transform_failure(
                        TransformError::Decode,
                    )
                } else {
                    match r {
                        Ok(asset) => is_fitted_encoding(body, asset@),
                        Err(response) => !has_pixels(body) && encoder_refused_fit(body)
                            && response@ == transform_failure(TransformError::Encode),
                    }
                }
            },
        },
{
    match source_asset(upstream) {
        Err(response) => Err(response),
        Ok(body) => {
            let kind = classify(body.as_slice());
            match transform(body.as_slice(), kind) {
                Ok(asset) => Ok(asset),
                Err(e) => Err(transform_failed(e)),
            }
        },
    }
}

/// What follows the cache lookup for `identifier`: the answer on a hit, the
/// fetch to make on a miss.
pub fn after_lookup(identifier: String, cached: Option<Vec<u8>>, if_none_match: Option<&str>) -> (step:
    Step)
    ensures
        match cached {
            Some(asset) => step matches Step::Respond(response) && response@ == served(
                asset@,
                header_value(if_none_match),
                source_url_of(identifier@),
            ),
            None => step matches Step::Fetch { identifier: id, url } && id@ == identifier@ && url@
                == source_url_of(identifier@),
        },
{
    let url = format_src(identifier.as_str());
    match cached {
        Some(asset) => Step::Respond(serve(asset, if_none_match, url.as_str())),
        None => Step::Fetch { identifier, url },
    }
}

/// The pipeline with its cache.
pub struct Pipeline {
    cache: ResultCache,
}

impl Pipeline {
    /// For each identifier that was ever cached, the asset cached last.
    pub closed spec fn entries(&self) -> Map<Seq<char>, Seq<u8>> {
        self.cache.entries()
    }

    /// The bounds of the cache: the number of entries it holds at most, and
    /// the seconds that an entry lives.
    pub closed spec fn limits(&self) -> (u64, u64) {
        self.cache.limits()
    }

    /// A pipeline with an empty cache of the service's bounds.
    pub fn new() -> (pipeline: Self)
        ensures
            pipeline.entries() == no_entries(),
            pipeline.limits() == (CACHE_CAPACITY, CACHE_TTL_SECS),
    {
        Pipeline { cache: ResultCache::new() }
    }

    /// A pipeline over the given cache.
    pub fn with_cache(cache: ResultCache) -> (pipeline: Self)
        ensures
            pipeline.entries() == cache.entries(),
            pipeline.limits() == cache.limits(),
    {
        Pipeline { cache }
    }

    /// The asset cached for `identifier`, if the cache still holds one.
    pub fn cached(&self, identifier: &str) -> (found: Option<Vec<u8>>)
        ensures
            may_answer(
                self.entries(),
                identifier@,
                match found {
                    Some(asset) => Some(asset@),
                    None => None,
                },
            ),
    {
        self.cache.get(identifier)
    }

    /// Looks the path segment `name` up: the identifier that it names, and the
    /// asset cached for that identifier, if the cache still holds one. This
    /// is all of `begin` that reads the cache; `after_lookup` does the rest.
    pub fn lookup(&self, name: &str) -> (found: (String, Option<Vec<u8>>))
        ensures
            found.0@ == identifier_of(name@),
            may_answer(
                self.entries(),
                identifier_of(name@),
                match found.1 {
                    Some(asset) => Some(asset@),
                    None => None,
                },
            ),
    {
        let identifier = extract_identifier(name);
        let cached = self.cache.get(identifier.as_str());
        (identifier, cached)
    }

    /// Caches `asset` for `identifier`, in place of any earlier asset. This is
    /// all of `finish` that changes the cache; `serve` does the rest.
    pub fn keep(&mut self, identifier: String, asset: Vec<u8>)
        ensures
            final(self).entries() == old(self).entries().insert(identifier@, asset@),
            final(self).limits() == old(self).limits(),
    {
        self.cache.put(identifier, asset);
    }

    /// Starts a request for the path segment `name`.
    ///
    /// The identifier is `name` without its suffix. Where the cache answers,
    /// the request is answered from it, with the asset that was cached last
    /// for the identifier; where it does not, the origin URL for the
    /// identifier is to be fetched.
    pub fn begin(&self, name: &str, if_none_match: Option<&str>) -> (step: Step)
        ensures
            match step {
                Step::Respond(response) => self.entries().contains_key(identifier_of(name@))
                    && response@ == served(
                    self.entries()[identifier_of(name@)],
                    header_value(if_none_match),
                    source_url_of(identifier_of(name@)),
                ),
                Step::Fetch { identifier, url } => identifier@ == identifier_of(name@) && url@
                    == source_url_of(identifier_of(name@)),
            },
    {
        let (identifier, cached) = self.lookup(name);
        after_lookup(identifier, cached, if_none_match)
    }

    /// Ends a request once the transform has answered: a transformed asset is
    /// cached under `identifier` and served, a failure is reported and leaves
    /// the cache as it was.
    pub fn finish(
        &mut self,
        identifier: String,
        transformed: Result<Vec<u8>, TransformError>,
        if_none_match: Option<&str>,
    ) -> (response: Response)
        ensures
            match transformed {
                Ok(asset) => final(self).entries() == old(self).entries().insert(
                    identifier@,
                    asset@,
                ) && response@ == served(
                    asset@,
                    header_value(if_none_match),
                    source_url_of(identifier@),
                ),
                Err(e) => final(self).entries() == old(self).entries() && response@
                    == transform_failure(e),
            },
            final(self).limits() == old(self).limits(),
    {
        match transformed {
            Err(e) => transform_failed(e),
            Ok(asset) => {
                let url = format_src(identifier.as_str());
                let kept = slice_to_vec(asset.as_slice());
                self.keep(identifier, kept);
                serve(asset, if_none_match, url.as_str())
            },
        }
    }

    /// Ends a request for `identifier` with what the origin answered.
    ///
    /// A failed fetch is reported and nothing is cached. An animated asset is
    /// cached and served as it came. A still image that cannot be decoded is
    /// reported as an unsupported media type; one that decodes to a picture of
    /// at least one pixel is cached and served as the WebP encoding of its
    /// fit into the box. An internal error is left for a decoded picture
    /// without pixels that the encoder refuses. Only a served asset enters
    /// the cache.
    pub fn complete(&mut self, identifier: String, upstream: Upstream, if_none_match: Option<&str>) -> (response: Response)
        ensures
            match upstream_failure(upstream) {
                Some(answer) => response@ == answer && final(self).entries() == old(
                    self,
                ).entries(),
                None => {
                    let body = upstream_body(upstream);
                    let url = source_url_of(identifier@);
                    let before = old(self).entries();
                    let after = final(self).entries();
                    if is_animated(body) {
                        after == before.insert(identifier@, body) && response@ == served(
                            body,
                            header_value(if_none_match),
                            url,
                        )
                    } else if decoded_size(body) is None {
                        after == before && response@ == transform_failure(TransformError::Decode)
                    } else {
                        ||| !has_pixels(body) && encoder_refused_fit(body) && after == before
                            && response@ == transform_failure(TransformError::Encode)
                        ||| after.contains_key(identifier@) && after == before.insert(
                            identifier@,
                            after[identifier@],
                        ) && response@ == served(
                            after[identifier@],
                            header_value(if_none_match),
                            url,
                        ) && is_fitted_encoding(body, after[identifier@])
                    }
                },
            },
            final(self).limits() == old(self).limits(),
    {
        match prepare(upstream) {
            Err(response) => response,
            Ok(asset) => self.finish(identifier, Ok(asset), if_none_match),
        }
    }
}

/// Conditional requests. A request whose `If-None-Match` is the token of the
/// asset is answered "not modified", without a body. A request without the
/// header, or with one that does not list the token (a single validator that
/// differs from the token once trimmed, for one), gets the full body with
/// status 200.
pub proof fn lemma_conditional_request(asset: Seq<u8>, header: Option<Seq<char>>, url: Seq<char>)
    ensures
        header == Some(etag_for(asset)) ==> served(asset, header, url).status
            == STATUS_NOT_MODIFIED && served(asset, header, url).body.len() == 0,
        header is None ==> served(asset, header, url).status == STATUS_OK && served(
            asset,
            header,
            url,
        ).body == asset,
        !validator_matches(header, etag_for(asset)) ==> served(asset, header, url).status
            == STATUS_OK && served(asset, header, url).body == asset,
        header matches Some(h) && (forall|k: int| 0 <= k < h.len() ==> h[k] != ',') && trimmed(h)
            != etag_for(asset) ==> served(asset, header, url).status == STATUS_OK && served(
            asset,
            header,
            url,
        ).body == asset,
{
    let tag = etag_for(asset);
    lemma_etag_is_one_token(sha1_digest(asset));
    lemma_lone_validator_lists_itself(tag);
    if header matches Some(h) && (forall|k: int| 0 <= k < h.len() ==> h[k] != ',') {
        lemma_lone_validator(header->Some_0, tag);
    }
}

} // verus!
