//! Content-type lists and the best-match rule between a preference list and
//! the types that a selection advertises.
use vstd::prelude::*;

verus! {

/// The content type used when the caller names none.
pub const DEFAULT_MIME: &'static str = "text/plain;charset=utf-8";

/// The default content type, as characters.
pub open spec fn default_mime() -> Seq<char> {
    DEFAULT_MIME@
}

/// A preference list after normalization: an empty list stands for the
/// default content type alone.
pub open spec fn normalized(mimes: Seq<Seq<char>>) -> Seq<Seq<char>> {
    if mimes.len() == 0 {
        seq![default_mime()]
    } else {
        mimes
    }
}

/// `i` is the first position of `t` in `wanted`.
pub open spec fn is_first_index(wanted: Seq<Seq<char>>, t: Seq<char>, i: int) -> bool {
    &&& 0 <= i < wanted.len()
    &&& wanted[i] == t
    &&& forall|j: int| 0 <= j < i ==> wanted[j] != t
}

/// The position of `t` in `wanted`, if it occurs there (its first position).
pub open spec fn index_of(wanted: Seq<Seq<char>>, t: Seq<char>) -> Option<nat> {
    if wanted.contains(t) {
        Some((choose|i: int| is_first_index(wanted, t, i)) as nat)
    } else {
        None
    }
}

/// `b` is the best match of `wanted` against the advertised types `offers`:
/// the lowest position of `wanted` whose type was advertised, or none.
pub open spec fn is_best(wanted: Seq<Seq<char>>, offers: Seq<Seq<char>>, b: Option<nat>) -> bool {
    match b {
        Some(i) => {
            &&& i < wanted.len()
            &&& offers.contains(wanted[i as int])
            &&& forall|j: int| 0 <= j < i ==> !offers.contains(#[trigger] wanted[j])
        },
        None => forall|j: int| 0 <= j < wanted.len() ==> !offers.contains(#[trigger] wanted[j]),
    }
}

/// One matcher step: the advertised type `t` replaces the current best match
/// when it stands earlier in `wanted`.
pub open spec fn next_best(wanted: Seq<Seq<char>>, best: Option<nat>, t: Seq<char>) -> Option<nat> {
    match index_of(wanted, t) {
        Some(n) => match best {
            Some(k) => if n < k { Some(n) } else { Some(k) },
            None => Some(n),
        },
        None => best,
    }
}

/// The best match after the types `offers` were advertised one by one, in order.
pub open spec fn best_after(wanted: Seq<Seq<char>>, offers: Seq<Seq<char>>) -> Option<nat>
    decreases offers.len(),
{
    if offers.len() == 0 {
        None
    } else {
        next_best(wanted, best_after(wanted, offers.drop_last()), offers.last())
    }
}

/// Returns the preference list to work with: the given one, or the default
/// content type alone where none was given.
pub fn get_mimes(mimes: Vec<String>) -> (r: Vec<String>)
    ensures
        r.deep_view() == normalized(mimes.deep_view()),
{
    if mimes.len() == 0 {
        let mut r: Vec<String> = Vec::new();
        r.push(DEFAULT_MIME.to_owned());
        assert(r.deep_view() =~= seq![default_mime()]);
        return r;
    }
    mimes
}

/// The first position of `t` in `wanted`, if any.
pub fn position(wanted: &Vec<String>, t: &String) -> (r: Option<usize>)
    ensures
        r matches Some(i) ==> is_first_index(wanted.deep_view(), t@, i as int),
        r is None ==> !wanted.deep_view().contains(t@),
        r matches Some(i) ==> index_of(wanted.deep_view(), t@) == Some(i as nat),
        r is None ==> index_of(wanted.deep_view(), t@) is None,
{
    let ghost w = wanted.deep_view();
    let mut i: usize = 0;
    while i < wanted.len()
        invariant
            w == wanted.deep_view(),
            i <= wanted.len(),
            forall|j: int| 0 <= j < i ==> w[j] != t@,
        decreases wanted.len() - i,
    {
        if wanted[i] == *t {
            proof {
                assert(is_first_index(w, t@, i as int));
                lemma_first_index_unique(w, t@, i as int);
            }
            return Some(i);
        }
        i = i + 1;
    }
    assert(!w.contains(t@));
    None
}

proof fn lemma_first_index_exists(wanted: Seq<Seq<char>>, t: Seq<char>, k: int)
    requires
        0 <= k < wanted.len(),
        wanted[k] == t,
    ensures
        exists|i: int| is_first_index(wanted, t, i),
    decreases k,
{
    if exists|j: int| 0 <= j < k && wanted[j] == t {
        let j = choose|j: int| 0 <= j < k && wanted[j] == t;
        lemma_first_index_exists(wanted, t, j);
    } else {
        assert(is_first_index(wanted, t, k));
    }
}

/// What `index_of` gives: the first position where the type occurs.
pub proof fn lemma_index_of(wanted: Seq<Seq<char>>, t: Seq<char>)
    ensures
        index_of(wanted, t) matches Some(n) ==> is_first_index(wanted, t, n as int),
        index_of(wanted, t) is None ==> forall|j: int| 0 <= j < wanted.len() ==> wanted[j] != t,
{
    if wanted.contains(t) {
        let k = choose|k: int| 0 <= k < wanted.len() && wanted[k] == t;
        lemma_first_index_exists(wanted, t, k);
    } else {
        assert forall|j: int| 0 <= j < wanted.len() implies wanted[j] != t by {
            if wanted[j] == t {
                assert(wanted.contains(t));
            }
        }
    }
}

proof fn lemma_first_index_unique(wanted: Seq<Seq<char>>, t: Seq<char>, i: int)
    requires
        is_first_index(wanted, t, i),
    ensures
        index_of(wanted, t) == Some(i as nat),
{
    assert(wanted.contains(t));
    let k = choose|k: int| is_first_index(wanted, t, k);
    assert(is_first_index(wanted, t, k));
    if k < i {
        assert(wanted[k] != t);
    } else if i < k {
        assert(wanted[i] != t);
    }
}

/// An index held by the library, as a specification value.
pub open spec fn opt_nat(o: Option<usize>) -> Option<nat> {
    match o {
        Some(i) => Some(i as nat),
        None => None,
    }
}

/// One matcher step: returns the best match after `t` was advertised, given
/// the best match `best` before it.
pub fn next_best_index(wanted: &Vec<String>, best: Option<usize>, t: &String) -> (r: Option<usize>)
    requires
        best matches Some(k) ==> k < wanted.len(),
    ensures
        opt_nat(r) == next_best(wanted.deep_view(), opt_nat(best), t@),
        r matches Some(k) ==> k < wanted.len(),
{
    match position(wanted, t) {
        Some(n) => match best {
            Some(k) => if n < k { Some(n) } else { Some(k) },
            None => Some(n),
        },
        None => best,
    }
}

proof fn lemma_contains_push(s: Seq<Seq<char>>, t: Seq<char>, x: Seq<char>)
    ensures
        s.push(t).contains(x) == (s.contains(x) || x == t),
{
    if s.contains(x) {
        let i = choose|i: int| 0 <= i < s.len() && s[i] == x;
        assert(s.push(t)[i] == x);
    }
    if x == t {
        assert(s.push(t)[s.len() as int] == x);
    }
    if s.push(t).contains(x) {
        let i = choose|i: int| 0 <= i < s.push(t).len() && s.push(t)[i] == x;
        if i < s.len() {
            assert(s[i] == x);
        }
    }
}

/// The matcher, fed the advertised types one by one, holds the best match of
/// the preference list against all of them.
pub proof fn lemma_best_after_is_best(wanted: Seq<Seq<char>>, offers: Seq<Seq<char>>)
    ensures
        is_best(wanted, offers, best_after(wanted, offers)),
    decreases offers.len(),
{
    if offers.len() > 0 {
        let p = offers.drop_last();
        let t = offers.last();
        assert(p.push(t) =~= offers);
        lemma_best_after_is_best(wanted, p);
        let b = best_after(wanted, p);
        assert forall|x: Seq<char>| offers.contains(x) == (p.contains(x) || x == t) by {
            lemma_contains_push(p, t, x);
        }
        lemma_index_of(wanted, t);
        if let Some(n) = index_of(wanted, t) {
            assert(offers.contains(wanted[n as int]));
        }
    }
}

/// The best match is one value: two best matches over the same advertised
/// types agree.
pub proof fn lemma_best_unique(
    wanted: Seq<Seq<char>>,
    offers: Seq<Seq<char>>,
    a: Option<nat>,
    b: Option<nat>,
)
    requires
        is_best(wanted, offers, a),
        is_best(wanted, offers, b),
    ensures
        a == b,
{
    match (a, b) {
        (Some(i), Some(j)) => {
            if i < j {
                assert(!offers.contains(wanted[i as int]));
            } else if j < i {
                assert(!offers.contains(wanted[j as int]));
            }
        },
        (Some(i), None) => {
            assert(!offers.contains(wanted[i as int]));
        },
        (None, Some(j)) => {
            assert(!offers.contains(wanted[j as int]));
        },
        (None, None) => {},
    }
}

/// Once set, the best match never moves to a later position as more types
/// are advertised.
pub proof fn lemma_best_never_regresses(
    wanted: Seq<Seq<char>>,
    offers: Seq<Seq<char>>,
    more: Seq<Seq<char>>,
)
    ensures
        best_after(wanted, offers) matches Some(i) ==> best_after(wanted, offers + more) matches Some(
            j,
        ) && j <= i,
{
    lemma_best_after_is_best(wanted, offers);
    lemma_best_after_is_best(wanted, offers + more);
    if let Some(i) = best_after(wanted, offers) {
        let x = wanted[i as int];
        let k = choose|k: int| 0 <= k < offers.len() && offers[k] == x;
        assert((offers + more)[k] == x);
        assert((offers + more).contains(x));
    }
}

/// The best match depends on which types were advertised, not on the order in
/// which they came nor on how often each came.
pub proof fn lemma_best_order_independent(
    wanted: Seq<Seq<char>>,
    a: Seq<Seq<char>>,
    b: Seq<Seq<char>>,
)
    requires
        forall|t: Seq<char>| a.contains(t) == b.contains(t),
    ensures
        best_after(wanted, a) == best_after(wanted, b),
{
    lemma_best_after_is_best(wanted, a);
    lemma_best_after_is_best(wanted, b);
    lemma_best_unique(wanted, a, best_after(wanted, a), best_after(wanted, b));
}

/// Where no advertised type is in the preference list, there is no match.
pub proof fn lemma_no_common_type(wanted: Seq<Seq<char>>, offers: Seq<Seq<char>>)
    requires
        forall|j: int| 0 <= j < wanted.len() ==> !offers.contains(#[trigger] wanted[j]),
    ensures
        best_after(wanted, offers) is None,
{
    lemma_best_after_is_best(wanted, offers);
    lemma_best_unique(wanted, offers, best_after(wanted, offers), None);
}

/// With two preferred types both advertised, the first one is chosen,
/// whatever the order of the advertisements.
pub proof fn lemma_preference_order(t1: Seq<char>, t2: Seq<char>, offers: Seq<Seq<char>>)
    requires
        offers.contains(t1),
        offers.contains(t2),
    ensures
        best_after(seq![t1, t2], offers) == Some(0nat),
{
    let wanted = seq![t1, t2];
    lemma_best_after_is_best(wanted, offers);
    assert(wanted[0] == t1);
    lemma_best_unique(wanted, offers, best_after(wanted, offers), Some(0nat));
}

/// An empty preference list means the same as the default content type alone.
pub proof fn lemma_empty_list_is_default()
    ensures
        normalized(Seq::empty()) == normalized(seq![default_mime()]),
{
}

} // verus!
