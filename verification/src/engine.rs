//! Engine configuration: the immutable value that a run is driven from.

use vstd::prelude::*;

use crate::dispatch::{target_of, Dispatch, Dispatcher};
use crate::errors::EngineError;
use crate::headers::{compile_headers, entry_name, entry_value, valid_entry};
use crate::sample::{make_sample, Sample};
use crate::urls::url_well_formed;

verus! {

/// The HTTP method every request of a run is issued with.
///
/// Only `Get` is reachable through the public surface: `Engine::new` fixes
/// the method and no setter is offered.  `Head` is kept as an explicit
/// configuration option of the data model.
#[derive(Clone, Copy, PartialEq, Eq, Structural, Debug)]
pub enum Method {
    Get,
    Head,
}

/// Configuration for one load-sampling run: the target URLs, the raw
/// `"name=value"` header entries, and the request method.
///
/// The value is immutable once built; [`Engine::headers`] consumes the
/// current configuration and returns a new one.  Header entries are not
/// validated here: validation happens once per run, before any request.
#[derive(Clone)]
pub struct Engine {
    pub urls: Vec<String>,
    pub headers: Vec<String>,
    pub method: Method,
}

impl Engine {
    /// Builds a configuration over the given URL list, with no default
    /// headers and the method fixed to `Get`.
    pub fn new(urls: Vec<String>) -> (e: Engine)
        ensures
            e.urls == urls,
            e.headers@ == Seq::<String>::empty(),
            e.method == Method::Get,
    {
        Engine { urls, headers: Vec::new(), method: Method::Get }
    }

    /// Replaces the raw header list, keeping URLs and method.  The entries
    /// are validated at run time, not here.
    pub fn headers(self, headers: Vec<String>) -> (e: Engine)
        ensures
            e.urls == self.urls,
            e.headers == headers,
            e.method == self.method,
    {
        Engine { headers, ..self }
    }

    /// A runnable configuration: every header entry compiles, and the URL
    /// list is nonempty whenever at least one request is asked for.  With
    /// zero requests an empty list is acceptable, since no iteration will
    /// ever select a URL.
    pub open spec fn runnable(self, requests: usize) -> bool {
        &&& forall|i: int|
            0 <= i < self.headers@.len() ==> valid_entry(#[trigger] self.headers@[i]@)
        &&& requests > 0 ==> self.urls@.len() > 0
    }

    /// What a successful `prepare` hands back: a dispatcher at iteration
    /// zero, carrying this configuration's URLs and method unchanged and
    /// the header entries compiled in order.
    pub open spec fn prepared(self, requests: usize, d: Dispatcher) -> bool {
        &&& d.urls@ == self.urls@
        &&& d.method == self.method
        &&& d.requests == requests
        &&& d.issued == 0
        &&& d.headers@.len() == self.headers@.len()
        &&& forall|i: int|
            0 <= i < self.headers@.len()
                ==> #[trigger] d.headers@[i].name@ == entry_name(self.headers@[i]@)
                && d.headers@[i].value@ == entry_value(self.headers@[i]@)
    }

    /// Validates the configuration for a run of `requests` iterations and
    /// builds its dispatcher.
    ///
    /// Header compilation is atomic and comes first: one bad entry refuses
    /// the run before anything else happens.  An empty URL list is refused
    /// whenever at least one request is asked for; with zero requests it is
    /// acceptable, since no iteration will ever select a URL.  On success
    /// the dispatcher starts at iteration zero and carries the compiled
    /// headers, the URLs and the method unchanged.
    pub fn prepare(&self, requests: usize) -> (r: Result<Dispatcher, EngineError>)
        ensures
            r is Ok <==> self.runnable(requests),
            r matches Ok(d) ==> self.prepared(requests, d),
            r matches Err(e) ==> e == EngineError::Configuration,
    {
        let compiled = match compile_headers(&self.headers) {
            Ok(hs) => hs,
            Err(e) => {
                return Err(e);
            },
        };
        if requests > 0 && self.urls.len() == 0 {
            return Err(EngineError::Configuration);
        }
        let urls = self.urls.clone();
        proof {
            assert forall|i: int| 0 <= i < self.urls@.len() implies urls@[i] == self.urls@[i] by {
                assert(cloned::<String>(self.urls@[i], urls@[i]));
            }
            assert(urls@ =~= self.urls@);
            assert(urls@ == self.urls@);
        }
        let d = Dispatcher { urls, headers: compiled, method: self.method, requests, issued: 0 };
        proof {
            assert(self.prepared(requests, d));
        }
        Ok(d)
    }

    /// Runs the engine: validates the configuration, then issues `requests`
    /// iterations in order, one dispatch each, handing every dispatch to
    /// `execute` and every derived sample to `collect` before moving on.
    ///
    /// `execute` is the run's window on the outside world: it performs one
    /// timed request and reports either `Some((status, elapsed nanoseconds,
    /// drained body length))` or `None` for a transport failure.  Nothing is
    /// assumed about its answers; the run is correct for every one of them.
    ///
    /// The error cases are exact where the engine itself decides: the run
    /// refuses exactly the non-runnable configurations before any dispatch,
    /// an invalid URL can only be reported when some planned target really
    /// does not parse, and a run whose very first target does not parse is
    /// refused as such before any outside call.  A normal return promises
    /// that every planned target parsed.  A transport failure is the
    /// executor's verdict and aborts the run at that iteration.
    ///
    /// The executor is only ever handed dispatches of the plan itself —
    /// this configuration's method, a target drawn round-robin from its
    /// URL list — so that is all its obligation covers.
    pub fn run<E, F>(&self, requests: usize, execute: E, collect: F) -> (r: Result<
        (),
        EngineError,
    >) where
        E: FnMut(Dispatch) -> Option<(u16, u128, Option<usize>)>,
        F: FnMut(Sample),

        requires
            forall|d: Dispatch|
                d.method == self.method && (exists|k: int|
                    0 <= k < requests && d.target@ == #[trigger] target_of(self.urls@, k))
                    ==> #[trigger] call_requires(execute, (d,)),
            forall|s: Sample| #[trigger] call_requires(collect, (s,)),
        ensures
            (r matches Err(e) && e == EngineError::Configuration) <==> !self.runnable(requests),
            (r matches Err(e) && e == EngineError::InvalidUrl) ==> exists|k: int|
                0 <= k < requests && !url_well_formed(target_of(self.urls@, k)),
            self.runnable(requests) && requests > 0 && !url_well_formed(
                target_of(self.urls@, 0),
            ) ==> (r matches Err(e) && e == EngineError::InvalidUrl),
            r is Ok ==> forall|k: int|
                0 <= k < requests ==> url_well_formed(#[trigger] target_of(self.urls@, k)),
            self.runnable(requests) && requests == 0 ==> r is Ok,
    {
        let mut execute = execute;
        let mut collect = collect;
        let mut dispatcher = match self.prepare(requests) {
            Ok(dispatcher) => dispatcher,
            Err(e) => {
                return Err(e);
            },
        };
        loop
            invariant
                self.runnable(requests),
                dispatcher.urls@ == self.urls@,
                dispatcher.method == self.method,
                dispatcher.requests == requests,
                dispatcher.issued <= requests,
                forall|k: int|
                    0 <= k < dispatcher.issued ==> url_well_formed(
                        #[trigger] target_of(self.urls@, k),
                    ),
                forall|d: Dispatch|
                    d.method == self.method && (exists|k: int|
                        0 <= k < requests && d.target@ == #[trigger] target_of(self.urls@, k))
                        ==> #[trigger] call_requires(execute, (d,)),
                forall|s: Sample| #[trigger] call_requires(collect, (s,)),
            decreases requests - dispatcher.issued,
        {
            let ghost before: usize = dispatcher.issued;
            match dispatcher.next() {
                Ok(None) => {
                    return Ok(());
                },
                Ok(Some(dispatch)) => {
                    proof {
                        assert(0 <= before < requests);
                        assert(dispatch.target@ == target_of(self.urls@, before as int));
                    }
                    match execute(dispatch) {
                        None => {
                            return Err(EngineError::Transport);
                        },
                        Some((status, duration_nanos, body_len)) => {
                            let sample = make_sample(status, duration_nanos, body_len);
                            collect(sample);
                        },
                    }
                },
                Err(e) => {
                    return Err(e);
                },
            }
        }
    }
}

} // verus!
