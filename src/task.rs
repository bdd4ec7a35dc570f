//! Queries handed to background work, and the delivery of their results to the
//! host: each pending response is resolved at most once.
use vstd::prelude::*;

verus! {

/// How many suggestions a query returns unless configured otherwise.
pub const DEFAULT_SUGGESTION_COUNT: usize = 10;

/// The settings of a suggestion query that the library acts on. The engine's
/// weight cutoff and beam width are left at the engine's own defaults.
#[derive(Clone, Copy, Debug, PartialEq, Eq, Structural)]
pub struct SuggestConfig {
    /// The largest number of suggestions delivered.
    pub n_best: usize,
    /// Whether the engine also tries other capitalizations of the word.
    pub recase: bool,
}

impl SuggestConfig {
    /// The explicit default: the ten best suggestions, capitalization-aware.
    pub fn standard() -> (r: SuggestConfig)
        ensures
            r.n_best == DEFAULT_SUGGESTION_COUNT,
            r.recase,
    {
        SuggestConfig { n_best: DEFAULT_SUGGESTION_COUNT, recase: true }
    }
}

/// One unit of engine work: a correctness check or a suggestion query on a word.
#[derive(Clone, Debug)]
pub enum Query {
    Check(String),
    Suggest(String, SuggestConfig),
}

/// The word a query is about.
pub open spec fn query_word(q: Query) -> Seq<char> {
    match q {
        Query::Check(w) => w@,
        Query::Suggest(w, _) => w@,
    }
}

impl Query {
    /// The word the engine is asked about.
    pub fn word(&self) -> (r: &String)
        ensures
            r@ == query_word(*self),
    {
        match self {
            Query::Check(w) => w,
            Query::Suggest(w, _) => w,
        }
    }
}

/// What the engine produced for a query, in its own ranking order.
#[derive(Debug)]
pub enum Outcome {
    Correct(bool),
    Suggestions(Vec<String>),
}

/// Why a query was delivered to the host as a failure.
#[derive(Clone, Debug)]
pub enum TaskError {
    /// The background work failed, with its message.
    Failed(String),
    /// The background work produced a result of the other kind of query.
    WrongKind,
}

/// The value delivered to the host for one query.
#[derive(Debug)]
pub enum Resolution {
    Boolean(bool),
    Strings(Vec<String>),
    Rejected(TaskError),
}

/// The mathematical value of a result, produced or delivered.
pub enum Delivery {
    Boolean(bool),
    Strings(Seq<Seq<char>>),
    Failed(Seq<char>),
    WrongKind,
}

/// The characters of each string of a sequence.
pub open spec fn strings_view(v: Seq<String>) -> Seq<Seq<char>> {
    v.map_values(|s: String| s@)
}

/// The value of what the background work handed back.
pub open spec fn raw_view(raw: Result<Outcome, String>) -> Delivery {
    match raw {
        Ok(Outcome::Correct(b)) => Delivery::Boolean(b),
        Ok(Outcome::Suggestions(v)) => Delivery::Strings(strings_view(v@)),
        Err(e) => Delivery::Failed(e@),
    }
}

impl View for Resolution {
    type V = Delivery;

    open spec fn view(&self) -> Delivery {
        match self {
            Resolution::Boolean(b) => Delivery::Boolean(*b),
            Resolution::Strings(v) => Delivery::Strings(strings_view(v@)),
            Resolution::Rejected(TaskError::Failed(e)) => Delivery::Failed(e@),
            Resolution::Rejected(TaskError::WrongKind) => Delivery::WrongKind,
        }
    }
}

/// At most the first `n` items of `s`, in order.
pub open spec fn first_n<A>(s: Seq<A>, n: nat) -> Seq<A> {
    if s.len() <= n {
        s
    } else {
        s.take(n as int)
    }
}

/// What the host receives for `q` once its work produced `d`: a check yields its
/// boolean, a suggestion query the best `n_best` suggestions in the engine's
/// order, a failure is passed on, and a result of the other kind is refused.
pub open spec fn delivery_for(q: Query, d: Delivery) -> Delivery {
    match d {
        Delivery::Boolean(b) => match q {
            Query::Check(_) => Delivery::Boolean(b),
            Query::Suggest(_, _) => Delivery::WrongKind,
        },
        Delivery::Strings(s) => match q {
            Query::Check(_) => Delivery::WrongKind,
            Query::Suggest(_, cfg) => Delivery::Strings(first_n(s, cfg.n_best as nat)),
        },
        other => other,
    }
}

/// Turns the result of the background work for `query` into the value the host
/// receives.
pub fn complete(query: &Query, raw: Result<Outcome, String>) -> (r: Resolution)
    ensures
        r@ == delivery_for(*query, raw_view(raw)),
{
    match raw {
        Ok(Outcome::Correct(b)) => match query {
            Query::Check(_) => Resolution::Boolean(b),
            Query::Suggest(_, _) => Resolution::Rejected(TaskError::WrongKind),
        },
        Ok(Outcome::Suggestions(v)) => match query {
            Query::Check(_) => Resolution::Rejected(TaskError::WrongKind),
            Query::Suggest(_, cfg) => {
                let mut best = v;
                let ghost all = best@;
                best.truncate(cfg.n_best);
                proof {
                    if all.len() > cfg.n_best {
                        assert(strings_view(best@) =~= strings_view(all).take(cfg.n_best as int));
                    } else {
                        assert(best@ =~= all);
                    }
                }
                Resolution::Strings(best)
            },
        },
        Err(e) => Resolution::Rejected(TaskError::Failed(e)),
    }
}

/// A query waiting for its result, which it hands to the host at most once.
pub struct PendingResponse {
    query: Query,
    resolved: bool,
}

impl PendingResponse {
    /// The query this response answers.
    pub closed spec fn query_spec(&self) -> Query {
        self.query
    }

    /// Whether the result was already handed over.
    pub closed spec fn is_resolved(&self) -> bool {
        self.resolved
    }

    /// A response, not yet resolved, awaiting the result of `query`.
    pub fn new(query: Query) -> (r: PendingResponse)
        ensures
            r.query_spec() == query,
            !r.is_resolved(),
    {
        PendingResponse { query, resolved: false }
    }

    /// The query this response answers.
    pub fn query(&self) -> (r: &Query)
        ensures
            *r == self.query_spec(),
    {
        &self.query
    }

    /// Whether the result was already handed over.
    pub fn resolved(&self) -> (r: bool)
        ensures
            r == self.is_resolved(),
    {
        self.resolved
    }

    /// Hands the result of the background work to the host: the first call
    /// yields the value for the query, every later call yields nothing.
    pub fn resolve(&mut self, raw: Result<Outcome, String>) -> (r: Option<Resolution>)
        ensures
            final(self).query_spec() == old(self).query_spec(),
            final(self).is_resolved(),
            old(self).is_resolved() ==> r is None,
            !old(self).is_resolved() ==> r is Some && r->Some_0@ == delivery_for(
                old(self).query_spec(),
                raw_view(raw),
            ),
    {
        if self.resolved {
            None
        } else {
            self.resolved = true;
            Some(complete(&self.query, raw))
        }
    }
}

/// A correctness check never delivers a list: once its work produced a
/// boolean, exactly that boolean is delivered.
pub proof fn lemma_check_delivers_boolean(word: String, d: Delivery)
    ensures
        !(delivery_for(Query::Check(word), d) is Strings),
        d is Boolean ==> delivery_for(Query::Check(word), d) == d,
{
}

/// A suggestion list delivered to the host answers a suggestion query, holds at
/// most the configured number of suggestions, and is a prefix of the engine's
/// list, so the engine's best-first order is kept.
pub proof fn lemma_suggestions_bounded(q: Query, d: Delivery)
    ensures
        delivery_for(q, d) is Strings ==> {
            let s = delivery_for(q, d)->Strings_0;
            &&& q is Suggest
            &&& d is Strings
            &&& s.len() <= q->Suggest_1.n_best
            &&& s.len() <= d->Strings_0.len()
            &&& s == d->Strings_0.take(s.len() as int)
        },
{
    if delivery_for(q, d) is Strings {
        let all = d->Strings_0;
        if all.len() <= q->Suggest_1.n_best {
            assert(all == all.take(all.len() as int));
        }
    }
}

/// Queries for the same word whose background work produced equal results are
/// answered with equal values, whichever completes first.
pub proof fn lemma_same_result_same_delivery(
    q: Query,
    raw1: Result<Outcome, String>,
    raw2: Result<Outcome, String>,
)
    requires
        raw_view(raw1) == raw_view(raw2),
    ensures
        delivery_for(q, raw_view(raw1)) == delivery_for(q, raw_view(raw2)),
{
}

} // verus!
