//! A memo of endpoint URLs, keyed by the exact text of the endpoint path.

use crate::openai::{
    api_base, endpoint_path, lemma_models_path_plain, lemma_models_text_plain, models_text, openai_uri,
};
use crate::urls::{joined_url, plain_path, plain_segment, push_segment, segment_pushed, url_text};
use cached::Cached;
use vstd::prelude::*;
use vstd::string::*;

verus! {

#[verifier::external_type_specification]
#[verifier::external_body]
#[verifier::reject_recursive_types(K)]
#[verifier::reject_recursive_types(V)]
#[verifier::reject_recursive_types(S)]
pub struct ExUnboundCache<K, V, S>(cached::UnboundCache<K, V, S>);

/// A store of URLs under string keys.
pub type UrlStore = cached::UnboundCache<String, url::Url>;

/// What a store of URLs holds: for each key, the serialization of its URL.
pub uninterp spec fn stored_urls(c: UrlStore) -> Map<Seq<char>, Seq<char>>;

/// Relies on `UnboundCache::new`: an empty store.
#[verifier::external_body]
fn new_store() -> (r: UrlStore)
    ensures
        stored_urls(r).dom() == Set::<Seq<char>>::empty(),
{
    cached::UnboundCache::new()
}

/// Relies on `Cached::cache_get` of `UnboundCache`: the URL stored under
/// the key, if any, with the store's entries left as they are.
#[verifier::external_body]
fn store_get(c: &mut UrlStore, key: &str) -> (r: Option<url::Url>)
    ensures
        stored_urls(*final(c)) == stored_urls(*old(c)),
        r is Some <==> stored_urls(*old(c)).contains_key(key@),
        r is Some ==> url_text(r->Some_0) == stored_urls(*old(c))[key@],
{
    c.cache_get(key).cloned()
}

/// Relies on `Cached::cache_set` of `UnboundCache`: the URL is stored
/// under the key, in place of any earlier one.
#[verifier::external_body]
fn store_set(c: &mut UrlStore, key: String, u: url::Url)
    ensures
        stored_urls(*final(c)) == stored_urls(*old(c)).insert(key@, url_text(u)),
{
    c.cache_set(key, u);
}

/// Relies on the derived `Clone` of `Url`: the same serialization.
#[verifier::external_body]
fn copy_url(u: &url::Url) -> (r: url::Url)
    ensures
        url_text(r) == url_text(*u),
{
    u.clone()
}

/// Endpoint URLs built once and kept for later calls with the same version
/// and endpoint.
pub struct UriCache {
    pub store: UrlStore,
    pub hits: u64,
}

/// What one call of `UriCache::uri` does: the result is that of
/// `openai_uri`; a path seen before is a hit and leaves the memo as it was;
/// a new path that resolves is added.
pub open spec fn uri_call(
    before: UriCache,
    after: UriCache,
    version: Seq<char>,
    endpoint: Seq<char>,
    r: Result<url::Url, url::ParseError>,
) -> bool {
    let key = endpoint_path(version, endpoint);
    &&& (r is Ok <==> joined_url(api_base(), key) is Some)
    &&& (r is Ok ==> joined_url(api_base(), key) == Some(url_text(r->Ok_0)))
    &&& (plain_path(key) ==> r is Ok && url_text(r->Ok_0) == api_base() + key)
    &&& if before.memo().contains_key(key) {
        &&& after.memo() == before.memo()
        &&& after.hits == (if before.hits < u64::MAX {
            (before.hits + 1) as u64
        } else {
            before.hits
        })
    } else {
        &&& after.hits == before.hits
        &&& after.memo() == (if r is Ok {
            before.memo().insert(key, url_text(r->Ok_0))
        } else {
            before.memo()
        })
    }
}

impl UriCache {
    /// The URLs kept, by endpoint path.
    pub open spec fn memo(self) -> Map<Seq<char>, Seq<char>> {
        stored_urls(self.store)
    }

    /// Every URL kept is the one its path resolves to, which for a plain
    /// path is the root and the path joined.
    pub open spec fn wf(self) -> bool {
        forall|k: Seq<char>| #[trigger]
            self.memo().contains_key(k) ==> joined_url(api_base(), k) == Some(self.memo()[k]) && (
            plain_path(k) ==> self.memo()[k] == api_base() + k)
    }

    /// An empty memo.
    pub fn new() -> (r: Self)
        ensures
            r.wf(),
            r.memo() == Map::<Seq<char>, Seq<char>>::empty(),
            r.hits == 0,
    {
        UriCache { store: new_store(), hits: 0 }
    }

    /// How many calls found their URL kept.
    pub fn hits(&self) -> (r: u64)
        ensures
            r == self.hits,
    {
        self.hits
    }

    /// The URL of an endpoint, as `openai_uri` builds it, taken from the
    /// memo where the same version and endpoint were asked for before.
    pub fn uri(&mut self, version: &str, endpoint: &str) -> (r: Result<url::Url, url::ParseError>)
        requires
            old(self).wf(),
            version@.len() > 0,
            version@[0] == 'v',
        ensures
            final(self).wf(),
            uri_call(*old(self), *final(self), version@, endpoint@, r),
    {
        let mut key = String::from_str(version);
        key.append("/");
        key.append(endpoint);
        match store_get(&mut self.store, key.as_str()) {
            Some(u) => {
                if self.hits < u64::MAX {
                    self.hits = self.hits + 1;
                }
                proof {
                    assert(self.memo() == old(self).memo());
                }
                Ok(u)
            },
            None => {
                let r = openai_uri(version, endpoint);
                match r {
                    Ok(u) => {
                        let kept = copy_url(&u);
                        store_set(&mut self.store, key, kept);
                        proof {
                            let k = endpoint_path(version@, endpoint@);
                            assert forall|k2: Seq<char>| #[trigger]
                                self.memo().contains_key(k2) implies joined_url(api_base(), k2) == Some(
                                self.memo()[k2],
                            ) && (plain_path(k2) ==> self.memo()[k2] == api_base() + k2) by {
                                if k2 != k {
                                    assert(old(self).memo().contains_key(k2));
                                }
                            }
                        }
                        Ok(u)
                    },
                    Err(e) => {
                        assert(self.memo() == old(self).memo());
                        Err(e)
                    },
                }
            },
        }
    }
}

impl UriCache {
    /// The URL of one model, as `model_url` builds it, with the models URL
    /// taken from the memo (and kept there on first use).
    pub fn model_uri(&mut self, model_id: &str) -> (r: Result<url::Url, url::ParseError>)
        requires
            old(self).wf(),
        ensures
            final(self).wf(),
            r is Ok,
            url_text(r->Ok_0) == segment_pushed(models_text(), model_id@),
            plain_segment(model_id@) ==> url_text(r->Ok_0) == models_text() + "/"@ + model_id@,
            final(self).memo() == old(self).memo().insert(endpoint_path("v1"@, "models"@), models_text()),
            final(self).hits == (if old(self).memo().contains_key(endpoint_path("v1"@, "models"@))
                && old(self).hits < u64::MAX {
                (old(self).hits + 1) as u64
            } else {
                old(self).hits
            }),
    {
        proof {
            reveal_strlit("v1");
            lemma_models_path_plain();
            lemma_models_text_plain();
        }
        let mut u = match self.uri("v1", "models") {
            Ok(u) => u,
            Err(e) => {
                return Err(e);
            },
        };
        proof {
            let k = endpoint_path("v1"@, "models"@);
            if old(self).memo().contains_key(k) {
                assert(self.memo() =~= old(self).memo().insert(k, models_text()));
            }
        }
        push_segment(&mut u, model_id);
        Ok(u)
    }
}

/// Asking twice for the same endpoint: where the first call resolves, the
/// second is served from the memo, counts as a hit, and gives a URL with
/// the same text.
pub proof fn lemma_repeat_call_hits(
    c0: UriCache,
    c1: UriCache,
    c2: UriCache,
    version: Seq<char>,
    endpoint: Seq<char>,
    r1: Result<url::Url, url::ParseError>,
    r2: Result<url::Url, url::ParseError>,
)
    requires
        uri_call(c0, c1, version, endpoint, r1),
        uri_call(c1, c2, version, endpoint, r2),
        r1 is Ok,
        c1.hits < u64::MAX,
    ensures
        r2 is Ok,
        url_text(r2->Ok_0) == url_text(r1->Ok_0),
        c2.hits == c1.hits + 1,
        c2.memo() == c1.memo(),
{
}

} // verus!
