//! Search-query parameters and their normalization.
//!
//! A search arrives as a set of optional URL parameters. The façade imposes
//! no defaults and no validation of its own: every filter is forwarded to the
//! backend exactly as it arrived. The one normalization it performs is
//! splitting the comma-separated airline allow-list into individual codes,
//! dropping empty entries.

use vstd::prelude::*;
use vstd::string::StrSliceExecFns;

verus! {

/// Raw query parameters of the search endpoint, one field per URL parameter.
/// Every field is optional; absence means "unconstrained". The price ceiling
/// is carried in cents.
#[derive(Clone, Debug)]
pub struct SearchQuery {
    pub q: Option<String>,
    pub origin: Option<String>,
    pub destination: Option<String>,
    pub departure_date: Option<String>,
    pub return_date: Option<String>,
    pub passengers: Option<u32>,
    pub cabin: Option<String>,
    pub max_price_cents: Option<u64>,
    pub max_stops: Option<u32>,
    /// Comma-separated airline codes, exactly as they arrived on the wire.
    pub airlines: Option<String>,
    pub sort: Option<String>,
    pub limit: Option<u32>,
    pub offset: Option<u32>,
}

/// A search call ready for the backend: the same filters as the query,
/// with the airline allow-list split into individual codes.
#[derive(Clone, Debug)]
pub struct SearchRequest {
    pub q: Option<String>,
    pub origin: Option<String>,
    pub destination: Option<String>,
    pub departure_date: Option<String>,
    pub return_date: Option<String>,
    pub passengers: Option<u32>,
    pub cabin: Option<String>,
    pub max_price_cents: Option<u64>,
    pub max_stops: Option<u32>,
    pub airlines: Option<Vec<String>>,
    pub sort: Option<String>,
    pub limit: Option<u32>,
    pub offset: Option<u32>,
}

/// Index of the first comma in `s`, or `s.len()` if there is none.
pub open spec fn first_comma(s: Seq<char>) -> nat
    decreases s.len(),
{
    if s.len() == 0 {
        0
    } else if s[0] == ',' {
        0
    } else {
        first_comma(s.subrange(1, s.len() as int)) + 1
    }
}

/// The comma-separated segments of `s`, in order, empties included:
/// splitting `a,,b` gives `[a, (empty), b]`, and the empty string gives one
/// empty segment.
pub open spec fn split_commas(s: Seq<char>) -> Seq<Seq<char>>
    decreases s.len(),
{
    let i = first_comma(s) as int;
    if i >= s.len() {
        seq![s]
    } else {
        seq![s.subrange(0, i)] + split_commas(s.subrange(i + 1, s.len() as int))
    }
}

/// `segs` with its empty segments removed, order kept.
pub open spec fn drop_empty(segs: Seq<Seq<char>>) -> Seq<Seq<char>> {
    segs.filter(|t: Seq<char>| t.len() > 0)
}

/// The individual airline codes of a comma-separated list: the nonempty
/// segments between commas, in order.
pub open spec fn airline_codes(s: Seq<char>) -> Seq<Seq<char>> {
    drop_empty(split_commas(s))
}

/// How a backend search call relates to the raw parameters it was built
/// from: every filter forwarded unmodified, except the airline list, which
/// is split into its individual codes (and stays absent when absent).
pub open spec fn request_matches(params: SearchQuery, r: SearchRequest) -> bool {
    &&& r.q == params.q
    &&& r.origin == params.origin
    &&& r.destination == params.destination
    &&& r.departure_date == params.departure_date
    &&& r.return_date == params.return_date
    &&& r.passengers == params.passengers
    &&& r.cabin == params.cabin
    &&& r.max_price_cents == params.max_price_cents
    &&& r.max_stops == params.max_stops
    &&& r.sort == params.sort
    &&& r.limit == params.limit
    &&& r.offset == params.offset
    &&& (params.airlines is None <==> r.airlines is None)
    &&& (params.airlines matches Some(list) ==> (r.airlines matches Some(codes)
        && codes.deep_view() == airline_codes(list@)))
}

/// `first_comma` is what its name says: everything before it differs from a
/// comma, and it points at a comma unless there is none.
pub proof fn lemma_first_comma_at(s: Seq<char>, i: int)
    requires
        0 <= i <= s.len(),
        forall|k: int| 0 <= k < i ==> s[k] != ',',
        i < s.len() ==> s[i] == ',',
    ensures
        first_comma(s) == i,
    decreases i,
{
    if i == 0 {
    } else {
        let tail = s.subrange(1, s.len() as int);
        assert forall|k: int| 0 <= k < i - 1 implies tail[k] != ',' by {
            assert(tail[k] == s[k + 1]);
        }
        assert(i - 1 < tail.len() ==> tail[i - 1] == s[i]);
        lemma_first_comma_at(tail, i - 1);
    }
}

/// Index of the first comma in `s`, or the character count if there is none.
fn find_comma(s: &str) -> (i: usize)
    ensures
        i == first_comma(s@),
        i <= s@.len(),
{
    let n = s.unicode_len();
    let mut i: usize = 0;
    loop
        invariant
            n == s@.len(),
            i <= n,
            forall|k: int| 0 <= k < i ==> s@[k] != ',',
        decreases n - i,
    {
        if i == n {
            proof {
                lemma_first_comma_at(s@, i as int);
            }
            return i;
        }
        if s.get_char(i) == ',' {
            proof {
                lemma_first_comma_at(s@, i as int);
            }
            return i;
        }
        i = i + 1;
    }
}

/// Splits `s` at every comma, keeping empty segments, as `split_commas` says.
pub fn split_csv(s: &str) -> (r: Vec<String>)
    ensures
        r.deep_view() == split_commas(s@),
    decreases s@.len(),
{
    let n = s.unicode_len();
    let i = find_comma(s);
    if i == n {
        let mut r: Vec<String> = Vec::new();
        r.push(s.to_owned());
        assert(r.deep_view() =~= split_commas(s@));
        r
    } else {
        let head = s.substring_char(0, i);
        let tail = s.substring_char(i + 1, n);
        let mut r = split_csv(tail);
        r.insert(0, head.to_owned());
        assert(r.deep_view() =~= split_commas(s@));
        r
    }
}

/// Splits a comma-separated airline list into its individual codes, dropping
/// empty entries, as `airline_codes` says.
pub fn normalize_airlines(s: &str) -> (r: Vec<String>)
    ensures
        r.deep_view() == airline_codes(s@),
{
    let parts = split_csv(s);
    let n = parts.len();
    let mut r: Vec<String> = Vec::new();
    let mut j: usize = 0;
    proof {
        assert(parts.deep_view().take(0) =~= Seq::<Seq<char>>::empty());
    }
    while j < n
        invariant
            n == parts@.len(),
            j <= n,
            parts.deep_view() == split_commas(s@),
            r.deep_view() == drop_empty(parts.deep_view().take(j as int)),
        decreases n - j,
    {
        let ghost prefix = parts.deep_view().take(j as int);
        let ghost next = parts.deep_view().take(j + 1);
        let ghost seg = parts.deep_view()[j as int];
        proof {
            assert(next.drop_last() =~= prefix);
            assert(next.last() == seg);
            assert(seg == parts@[j as int]@);
            assert(drop_empty(next) == (if seg.len() > 0 {
                drop_empty(prefix).push(seg)
            } else {
                drop_empty(prefix)
            })) by {
                reveal_with_fuel(Seq::<Seq<char>>::filter, 2);
            }
        }
        let ghost before = r.deep_view();
        if !parts[j].as_str().is_empty() {
            r.push(parts[j].clone());
            proof {
                assert(r.deep_view() =~= before.push(seg));
            }
        }
        assert(r.deep_view() == drop_empty(next));
        j = j + 1;
    }
    proof {
        assert(parts.deep_view().take(n as int) =~= parts.deep_view());
    }
    r
}

impl SearchRequest {
    /// Turns raw query parameters into a backend search call. Every filter is
    /// forwarded unmodified; only the airline list is split into codes.
    pub fn from_query(params: SearchQuery) -> (r: SearchRequest)
        ensures
            request_matches(params, r),
    {
        let airlines = match params.airlines {
            None => None,
            Some(list) => Some(normalize_airlines(list.as_str())),
        };
        SearchRequest {
            q: params.q,
            origin: params.origin,
            destination: params.destination,
            departure_date: params.departure_date,
            return_date: params.return_date,
            passengers: params.passengers,
            cabin: params.cabin,
            max_price_cents: params.max_price_cents,
            max_stops: params.max_stops,
            airlines,
            sort: params.sort,
            limit: params.limit,
            offset: params.offset,
        }
    }
}

} // verus!
