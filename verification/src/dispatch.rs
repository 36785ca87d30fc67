//! The request dispatcher: the sequential plan a run steps through.
//!
//! A `Dispatcher` is produced by `Engine::prepare` after the headers have
//! compiled, and is then stepped once per iteration.  Each step selects the
//! target round-robin by iteration index, parses it, and hands back a
//! `Dispatch` for the shell to execute; any fatal condition stops the run
//! with the dispatcher unchanged, so no later iteration can ever be
//! reached.

use vstd::prelude::*;
use vstd::arithmetic::div_mod::{lemma_mod_add_multiples_vanish, lemma_mod_bound, lemma_small_mod};

use crate::engine::Method;
use crate::errors::EngineError;
use crate::headers::Header;
use crate::urls::{parse_url, url_well_formed};

verus! {

/// The target of iteration `i`: round-robin selection over the URL list,
/// purely a function of the iteration index and the list.
pub open spec fn target_of(urls: Seq<String>, i: int) -> Seq<char>
    recommends
        urls.len() > 0,
{
    urls[i % urls.len() as int]@
}

/// Round-robin selection cycles with period equal to the list length:
/// iteration `i + urls.len()` targets the same URL as iteration `i`.
pub proof fn lemma_round_robin_cycle(urls: Seq<String>, i: int)
    requires
        urls.len() > 0,
        0 <= i,
    ensures
        target_of(urls, i + urls.len()) == target_of(urls, i),
{
    lemma_mod_add_multiples_vanish(i, urls.len() as int);
}

/// During the first cycle the URLs are used exactly in list order:
/// iteration `i` targets `urls[i]` whenever `i` is below the list length.
pub proof fn lemma_round_robin_first_cycle(urls: Seq<String>, i: int)
    requires
        0 <= i < urls.len(),
    ensures
        target_of(urls, i) == urls[i]@,
{
    lemma_small_mod(i as nat, urls.len());
}

/// With a single URL every iteration targets it: whatever the iteration
/// index, the round-robin target is that one URL.
pub proof fn lemma_single_url_round_robin(urls: Seq<String>, i: int)
    requires
        urls.len() == 1,
        0 <= i,
    ensures
        target_of(urls, i) == urls[0]@,
{
    lemma_mod_bound(i, 1);
}

/// Everything the shell needs to execute one request: the parsed URL, the
/// target string it was parsed from, and the method.
pub struct Dispatch {
    pub url: url::Url,
    pub target: String,
    pub method: Method,
}

/// The state of one run: the configuration fixed by `Engine::prepare`
/// together with the index of the next iteration.  Exactly one dispatch is
/// handed out per iteration, in ascending index order.
pub struct Dispatcher {
    pub urls: Vec<String>,
    pub headers: Vec<Header>,
    pub method: Method,
    pub requests: usize,
    pub issued: usize,
}

impl Dispatcher {
    /// Steps the run by one iteration.
    ///
    /// Returns `Ok(None)` when all requests have been issued; otherwise
    /// selects the target for the current iteration round-robin, and either
    /// hands out its dispatch and advances, or aborts the run: an empty URL
    /// list is a configuration error (the round-robin index would divide by
    /// zero) and an unparsable target is an invalid URL.  On every error
    /// the dispatcher is unchanged, so stepping again cannot get past the
    /// failing iteration.
    pub fn next(&mut self) -> (r: Result<Option<Dispatch>, EngineError>)
        ensures
            final(self).urls == old(self).urls,
            final(self).headers == old(self).headers,
            final(self).method == old(self).method,
            final(self).requests == old(self).requests,
            match r {
                Ok(None) => old(self).issued >= old(self).requests
                    && final(self).issued == old(self).issued,
                Ok(Some(d)) => old(self).issued < old(self).requests
                    && old(self).urls@.len() > 0
                    && url_well_formed(target_of(old(self).urls@, old(self).issued as int))
                    && d.target@ == target_of(old(self).urls@, old(self).issued as int)
                    && d.method == old(self).method
                    && final(self).issued == old(self).issued + 1,
                Err(e) => old(self).issued < old(self).requests
                    && final(self).issued == old(self).issued
                    && if old(self).urls@.len() == 0 {
                        e == EngineError::Configuration
                    } else {
                        e == EngineError::InvalidUrl
                            && !url_well_formed(target_of(old(self).urls@, old(self).issued as int))
                    },
            },
    {
        if self.issued >= self.requests {
            return Ok(None);
        }
        if self.urls.len() == 0 {
            return Err(EngineError::Configuration);
        }
        let slot: usize = self.issued % self.urls.len();
        let target = &self.urls[slot];
        match parse_url(target.as_str()) {
            None => Err(EngineError::InvalidUrl),
            Some(url) => {
                let dispatch = Dispatch { url, target: target.clone(), method: self.method };
                self.issued = self.issued + 1;
                Ok(Some(dispatch))
            },
        }
    }
}

} // verus!
