use vstd::prelude::*;

use crate::apps::{app_views, copy_apps, is_blank, output_is_blank, parse_app_list, parsed_entries, UwpAppInfo};

verus! {

/// How long, in milliseconds, an enumeration result is served from the cache.
pub const CACHE_TTL_MS: u64 = 30000;

/// The views of an application list.
pub type AppsView = Seq<(Seq<char>, Seq<char>)>;

/// The last enumeration result and when it was fetched, in milliseconds on a
/// monotonic clock. No entry before the first successful fetch.
pub struct AppCache {
    fetched_at: Option<u64>,
    apps: Vec<UwpAppInfo>,
}

impl View for AppCache {
    type V = (Option<u64>, AppsView);

    closed spec fn view(&self) -> (Option<u64>, AppsView) {
        (self.fetched_at, app_views(self.apps@))
    }
}

/// What a lookup at time `now` serves from the cache: the stored list when it
/// was fetched at most the time to live ago and is not empty.
pub open spec fn lookup_spec(c: (Option<u64>, AppsView), now: u64) -> Option<AppsView> {
    match c.0 {
        Some(t) => if now as int - t as int <= CACHE_TTL_MS as int && c.1.len() > 0 {
            Some(c.1)
        } else {
            None
        },
        None => None,
    }
}

impl AppCache {
    /// A cache with no entry.
    pub fn new() -> (r: AppCache)
        ensures
            r@ == (None::<u64>, Seq::<(Seq<char>, Seq<char>)>::empty()),
    {
        let r = AppCache { fetched_at: None, apps: Vec::new() };
        assert(app_views(r.apps@) =~= Seq::<(Seq<char>, Seq<char>)>::empty());
        r
    }

    /// The cached list, where it may be served at time `now`.
    pub fn lookup(&self, now: u64) -> (r: Option<Vec<UwpAppInfo>>)
        ensures
            match r {
                Some(v) => lookup_spec(self@, now) == Some(app_views(v@)),
                None => lookup_spec(self@, now) is None,
            },
    {
        match self.fetched_at {
            Some(t) => {
                let age: u64 = if now >= t { now - t } else { 0 };
                if age <= CACHE_TTL_MS && self.apps.len() > 0 {
                    Some(copy_apps(&self.apps))
                } else {
                    None
                }
            },
            None => None,
        }
    }

    /// Replaces the entry, time and list together.
    pub fn store(&mut self, now: u64, apps: &Vec<UwpAppInfo>)
        ensures
            final(self)@ == (Some(now), app_views(apps@)),
    {
        let copy = copy_apps(apps);
        self.fetched_at = Some(now);
        self.apps = copy;
    }

    /// Takes the outcome of running the enumeration at time `now`: the
    /// output text, or the error text of the last interpreter tried. Parsed
    /// entries are stored and returned; blank output yields no entries and
    /// leaves the cache as it was, as does any error.
    pub fn finish_fetch(&mut self, now: u64, output: Result<String, String>) -> (r: Result<Vec<UwpAppInfo>, String>)
        ensures
            match output {
                Err(e) => r matches Err(m) && m@ == e@,
                Ok(text) => (r is Err <==> !is_blank(text@) && parsed_entries(text@) is None)
                    && (is_blank(text@) ==> (r matches Ok(v) && v@.len() == 0))
                    && (!is_blank(text@) && r is Ok ==> parsed_entries(text@) == Some(app_views(r->Ok_0@))),
            },
            match (output, r) {
                (Ok(text), Ok(v)) => if is_blank(text@) {
                    final(self)@ == old(self)@
                } else {
                    final(self)@ == (Some(now), app_views(v@))
                },
                _ => final(self)@ == old(self)@,
            },
    {
        match output {
            Err(e) => Err(e),
            Ok(text) => {
                if output_is_blank(text.as_str()) {
                    return Ok(Vec::new());
                }
                match parse_app_list(text.as_str()) {
                    Ok(apps) => {
                        self.store(now, &apps);
                        Ok(apps)
                    },
                    Err(m) => Err(m),
                }
            },
        }
    }
}

/// The message when no interpreter could be run at all.
pub open spec fn no_interpreter_message() -> Seq<char> {
    "failed to run powershell"@
}

/// What a sequence of interpreter attempts amounts to: the output of the first
/// that succeeded, else the error text of the last, else a fixed message.
pub open spec fn choose_output_spec(attempts: Seq<Result<String, String>>) -> Result<Seq<char>, Seq<char>>
    decreases attempts.len(),
{
    if attempts.len() == 0 {
        Err(no_interpreter_message())
    } else {
        match attempts[0] {
            Ok(out) => Ok(out@),
            Err(e) => match choose_output_spec(attempts.drop_first()) {
                Ok(out) => Ok(out),
                Err(later) => if attempts.len() == 1 {
                    Err(e@)
                } else {
                    Err(later)
                },
            },
        }
    }
}

/// Combines the outcomes of the interpreters tried, in order of preference.
pub fn choose_output(attempts: &Vec<Result<String, String>>) -> (r: Result<String, String>)
    ensures
        match r {
            Ok(out) => choose_output_spec(attempts@) == Ok::<Seq<char>, Seq<char>>(out@),
            Err(e) => choose_output_spec(attempts@) == Err::<Seq<char>, Seq<char>>(e@),
        },
{
    let n = attempts.len();
    let mut i: usize = n;
    let mut acc: Result<String, String> = Err(String::from_str("failed to run powershell"));
    while i > 0
        invariant
            i <= n,
            n == attempts@.len(),
            match acc {
                Ok(out) => choose_output_spec(attempts@.subrange(i as int, n as int)) == Ok::<
                    Seq<char>,
                    Seq<char>,
                >(out@),
                Err(e) => choose_output_spec(attempts@.subrange(i as int, n as int)) == Err::<
                    Seq<char>,
                    Seq<char>,
                >(e@),
            },
        decreases i,
    {
        i = i - 1;
        proof {
            assert(attempts@.subrange(i as int, n as int).drop_first() =~= attempts@.subrange(i + 1, n as int));
        }
        acc = match &attempts[i] {
            Ok(out) => Ok(out.clone()),
            Err(e) => match acc {
                Ok(out) => Ok(out),
                Err(later) => if i + 1 == n {
                    Err(e.clone())
                } else {
                    Err(later)
                },
            },
        };
    }
    assert(attempts@.subrange(0, n as int) =~= attempts@);
    acc
}

/// A stored, non-empty list is served by every lookup until the time to live
/// has passed since it was fetched, so no fetch is needed meanwhile; after
/// that every lookup misses.
pub proof fn fresh_entry_is_served(fetched: u64, apps: AppsView, now: u64)
    requires
        apps.len() > 0,
        fetched <= now,
    ensures
        now <= fetched + CACHE_TTL_MS ==> lookup_spec((Some(fetched), apps), now) == Some(apps),
        now > fetched + CACHE_TTL_MS ==> lookup_spec((Some(fetched), apps), now) is None,
{
}

/// An empty list never satisfies a lookup, so the fetch after it is retried.
pub proof fn empty_result_does_not_stick(fetched: u64, now: u64)
    ensures
        lookup_spec((Some(fetched), Seq::<(Seq<char>, Seq<char>)>::empty()), now) is None,
{
}

} // verus!
