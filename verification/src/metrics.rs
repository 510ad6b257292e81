//! Metric vocabulary: label sets kept sorted by key, their Prometheus
//! text form, and the naming rules for metrics.
//!
//! The registry of live counters, gauges and histograms, which shares
//! them between threads, lives outside this module and uses these pieces.

use vstd::prelude::*;
use crate::config::seq_join;
use crate::error::{Error, Result};
use crate::shared_types::IntoText;
use crate::text::{owned, push_char, push_str};

verus! {

// ============================================================================
// Key order
// ============================================================================

/// Lexicographic order of character sequences (`a <= b`).  It agrees with
/// the order of `String`, which compares UTF-8 bytes: UTF-8 keeps the order
/// of code points.
pub open spec fn lex_le(a: Seq<char>, b: Seq<char>) -> bool
    decreases a.len(),
{
    if a.len() == 0 {
        true
    } else if b.len() == 0 {
        false
    } else if a[0] != b[0] {
        a[0] < b[0]
    } else {
        lex_le(a.drop_first(), b.drop_first())
    }
}

/// Any two sequences are ordered one way or the other.
pub proof fn lemma_lex_le_total(a: Seq<char>, b: Seq<char>)
    ensures
        lex_le(a, b) || lex_le(b, a),
    decreases a.len(),
{
    if a.len() > 0 && b.len() > 0 && a[0] == b[0] {
        lemma_lex_le_total(a.drop_first(), b.drop_first());
    }
}

/// The order is transitive.
pub proof fn lemma_lex_le_transitive(a: Seq<char>, b: Seq<char>, c: Seq<char>)
    requires
        lex_le(a, b),
        lex_le(b, c),
    ensures
        lex_le(a, c),
    decreases a.len(),
{
    if a.len() > 0 && b.len() > 0 && c.len() > 0 && a[0] == b[0] && b[0] == c[0] {
        lemma_lex_le_transitive(a.drop_first(), b.drop_first(), c.drop_first());
    }
}

/// Whether `a <= b` in the order of [`lex_le`].
fn key_le(a: &str, b: &str) -> (r: bool)
    ensures
        r == lex_le(a@, b@),
{
    let n = a.unicode_len();
    let m = b.unicode_len();
    let mut i: usize = 0;
    assert(a@.skip(0) =~= a@ && b@.skip(0) =~= b@);
    while i < n && i < m
        invariant
            n == a@.len(),
            m == b@.len(),
            i <= n,
            i <= m,
            lex_le(a@, b@) == lex_le(a@.skip(i as int), b@.skip(i as int)),
        decreases n - i,
    {
        let x = a.get_char(i);
        let y = b.get_char(i);
        assert(a@.skip(i as int)[0] == x);
        assert(b@.skip(i as int)[0] == y);
        if x != y {
            return x < y;
        }
        assert(a@.skip(i as int).drop_first() =~= a@.skip(i + 1));
        assert(b@.skip(i as int).drop_first() =~= b@.skip(i + 1));
        i = i + 1;
    }
    i == n
}

// ============================================================================
// Labels
// ============================================================================

/// Label key-value pairs for metric dimensions, kept sorted by key; pairs
/// with equal keys keep the order in which they were added.
#[derive(Debug, PartialEq, Eq, Hash)]
pub struct Labels {
    inner: Vec<(String, String)>,
}

/// The text of a label pair.
pub open spec fn pair_view(p: (String, String)) -> (Seq<char>, Seq<char>) {
    (p.0@, p.1@)
}

/// Keys are in non-decreasing order.
pub open spec fn keys_sorted(s: Seq<(Seq<char>, Seq<char>)>) -> bool {
    forall|i: int, j: int| 0 <= i < j < s.len() ==> lex_le(#[trigger] s[i].0, #[trigger] s[j].0)
}

/// The first position whose key is greater than `k` (the length when
/// there is none).
pub open spec fn upper_bound(s: Seq<(Seq<char>, Seq<char>)>, k: Seq<char>) -> int
    decreases s.len(),
{
    if s.len() == 0 {
        0
    } else if !lex_le(s[0].0, k) {
        0
    } else {
        1 + upper_bound(s.drop_first(), k)
    }
}

/// `s` with `(k, v)` placed after every pair whose key is at most `k`:
/// what pushing the pair and stably sorting by key gives on a sorted `s`.
pub open spec fn insert_label(s: Seq<(Seq<char>, Seq<char>)>, k: Seq<char>, v: Seq<char>) -> Seq<
    (Seq<char>, Seq<char>),
> {
    let p = upper_bound(s, k);
    s.take(p) + seq![(k, v)] + s.skip(p)
}

/// The pairs of `pairs` inserted one after another into `s`: a stable
/// sort of `pairs` by key when `s` is empty.
pub open spec fn insert_all(s: Seq<(Seq<char>, Seq<char>)>, pairs: Seq<(Seq<char>, Seq<char>)>) -> Seq<
    (Seq<char>, Seq<char>),
>
    decreases pairs.len(),
{
    if pairs.len() == 0 {
        s
    } else {
        let t = insert_all(s, pairs.drop_last());
        insert_label(t, pairs.last().0, pairs.last().1)
    }
}

proof fn lemma_upper_bound(s: Seq<(Seq<char>, Seq<char>)>, k: Seq<char>)
    requires
        keys_sorted(s),
    ensures
        0 <= upper_bound(s, k) <= s.len(),
        forall|i: int| 0 <= i < upper_bound(s, k) ==> lex_le(#[trigger] s[i].0, k),
        forall|i: int| upper_bound(s, k) <= i < s.len() ==> !lex_le(#[trigger] s[i].0, k),
    decreases s.len(),
{
    if s.len() > 0 {
        let t = s.drop_first();
        assert(keys_sorted(t)) by {
            assert forall|i: int, j: int| 0 <= i < j < t.len() implies lex_le(
                #[trigger] t[i].0,
                #[trigger] t[j].0,
            ) by {
                assert(t[i] == s[i + 1] && t[j] == s[j + 1]);
            }
        }
        lemma_upper_bound(t, k);
        if !lex_le(s[0].0, k) {
            assert forall|i: int| 0 <= i < s.len() implies !lex_le(#[trigger] s[i].0, k) by {
                if i > 0 && lex_le(s[i].0, k) {
                    lemma_lex_le_transitive(s[0].0, s[i].0, k);
                }
            }
        } else {
            assert forall|i: int| 0 <= i < upper_bound(s, k) implies lex_le(#[trigger] s[i].0, k) by {
                if i > 0 {
                    assert(s[i] == t[i - 1]);
                }
            }
            assert forall|i: int| upper_bound(s, k) <= i < s.len() implies !lex_le(
                #[trigger] s[i].0,
                k,
            ) by {
                assert(s[i] == t[i - 1]);
            }
        }
    }
}

/// Inserting a pair keeps the keys sorted.
pub proof fn lemma_insert_keeps_sorted(s: Seq<(Seq<char>, Seq<char>)>, k: Seq<char>, v: Seq<char>)
    requires
        keys_sorted(s),
    ensures
        keys_sorted(insert_label(s, k, v)),
        insert_label(s, k, v).len() == s.len() + 1,
{
    lemma_upper_bound(s, k);
    let p = upper_bound(s, k);
    let r = insert_label(s, k, v);
    assert forall|i: int, j: int| 0 <= i < j < r.len() implies lex_le(
        #[trigger] r[i].0,
        #[trigger] r[j].0,
    ) by {
        if j < p {
            assert(r[i] == s[i] && r[j] == s[j]);
        } else if j == p {
            assert(r[i] == s[i]);
        } else if i < p {
            assert(r[i] == s[i] && r[j] == s[j - 1]);
            lemma_lex_le_total(s[j - 1].0, k);
            lemma_lex_le_transitive(s[i].0, k, s[j - 1].0);
        } else if i == p {
            assert(r[j] == s[j - 1]);
            lemma_lex_le_total(s[j - 1].0, k);
        } else {
            assert(r[i] == s[i - 1] && r[j] == s[j - 1]);
        }
    }
}

/// Inserting any pairs into sorted labels leaves them sorted.
pub proof fn lemma_insert_all_sorted(
    s: Seq<(Seq<char>, Seq<char>)>,
    pairs: Seq<(Seq<char>, Seq<char>)>,
)
    requires
        keys_sorted(s),
    ensures
        keys_sorted(insert_all(s, pairs)),
        insert_all(s, pairs).len() == s.len() + pairs.len(),
    decreases pairs.len(),
{
    if pairs.len() > 0 {
        lemma_insert_all_sorted(s, pairs.drop_last());
        lemma_insert_keeps_sorted(
            insert_all(s, pairs.drop_last()),
            pairs.last().0,
            pairs.last().1,
        );
    }
}

/// Every sequence is ordered before itself.
proof fn lemma_lex_le_reflexive(a: Seq<char>)
    ensures
        lex_le(a, a),
    decreases a.len(),
{
    if a.len() > 0 {
        lemma_lex_le_reflexive(a.drop_first());
    }
}

/// Sequences ordered both ways are equal.
proof fn lemma_lex_le_antisymmetric(a: Seq<char>, b: Seq<char>)
    requires
        lex_le(a, b),
        lex_le(b, a),
    ensures
        a == b,
    decreases a.len(),
{
    if a.len() > 0 && b.len() > 0 {
        lemma_lex_le_antisymmetric(a.drop_first(), b.drop_first());
        assert(a =~= seq![a[0]] + a.drop_first());
        assert(b =~= seq![b[0]] + b.drop_first());
    }
}

/// Inserting a pair adds it to the pairs held, and nothing else.
proof fn lemma_insert_label_multiset(s: Seq<(Seq<char>, Seq<char>)>, k: Seq<char>, v: Seq<char>)
    requires
        keys_sorted(s),
    ensures
        insert_label(s, k, v).to_multiset() =~= s.to_multiset().insert((k, v)),
{
    broadcast use vstd::seq_lib::group_to_multiset_ensures;

    lemma_upper_bound(s, k);
    let p = upper_bound(s, k);
    let r = insert_label(s, k, v);
    assert(r.remove(p) =~= s);
    assert(r[p] == (k, v));
    assert(r.to_multiset().count((k, v)) > 0) by {
        assert(r.contains((k, v)));
    }
}

/// The labels built from `pairs` hold exactly the pairs of `pairs`.
proof fn lemma_insert_all_multiset(pairs: Seq<(Seq<char>, Seq<char>)>)
    ensures
        insert_all(Seq::empty(), pairs).to_multiset() =~= pairs.to_multiset(),
    decreases pairs.len(),
{
    broadcast use vstd::seq_lib::group_to_multiset_ensures;

    if pairs.len() > 0 {
        let front = pairs.drop_last();
        lemma_insert_all_multiset(front);
        lemma_insert_all_sorted(Seq::empty(), front);
        lemma_insert_label_multiset(insert_all(Seq::empty(), front), pairs.last().0, pairs.last().1);
        assert(front.push(pairs.last()) =~= pairs);
    }
}

/// Two key-sorted sequences that hold the same pairs, where pairs with
/// equal keys are equal, are the same sequence.
proof fn lemma_sorted_same_pairs_equal(s: Seq<(Seq<char>, Seq<char>)>, t: Seq<(Seq<char>, Seq<char>)>)
    requires
        keys_sorted(s),
        keys_sorted(t),
        s.to_multiset() == t.to_multiset(),
        forall|x: (Seq<char>, Seq<char>), y: (Seq<char>, Seq<char>)|
            #![trigger s.to_multiset().count(x), s.to_multiset().count(y)]
            s.to_multiset().count(x) > 0 && s.to_multiset().count(y) > 0 && x.0 == y.0 ==> x == y,
    ensures
        s == t,
    decreases s.len(),
{
    broadcast use vstd::seq_lib::group_to_multiset_ensures;

    assert(s.len() == s.to_multiset().len() && t.len() == t.to_multiset().len());
    if s.len() == 0 {
        assert(s =~= t);
    } else {
        let m = s.to_multiset();
        assert(s.contains(s[0]));
        assert(m.count(s[0]) > 0);
        assert(t.contains(s[0]));
        let j = choose|j: int| 0 <= j < t.len() && t[j] == s[0];
        if j > 0 {
            assert(lex_le(t[0].0, t[j].0));
        } else {
            lemma_lex_le_reflexive(t[0].0);
        }
        assert(t.contains(t[0]));
        assert(m.count(t[0]) > 0);
        assert(s.contains(t[0]));
        let i = choose|i: int| 0 <= i < s.len() && s[i] == t[0];
        if i > 0 {
            assert(lex_le(s[0].0, s[i].0));
        } else {
            lemma_lex_le_reflexive(s[0].0);
        }
        lemma_lex_le_antisymmetric(s[0].0, t[0].0);
        assert(s[0] == t[0]);
        let s1 = s.remove(0);
        let t1 = t.remove(0);
        assert(s1.to_multiset() =~= m.remove(s[0]));
        assert(t1.to_multiset() =~= t.to_multiset().remove(t[0]));
        assert(keys_sorted(s1)) by {
            assert forall|a: int, b: int| 0 <= a < b < s1.len() implies lex_le(
                #[trigger] s1[a].0,
                #[trigger] s1[b].0,
            ) by {
                assert(s1[a] == s[a + 1] && s1[b] == s[b + 1]);
            }
        }
        assert(keys_sorted(t1)) by {
            assert forall|a: int, b: int| 0 <= a < b < t1.len() implies lex_le(
                #[trigger] t1[a].0,
                #[trigger] t1[b].0,
            ) by {
                assert(t1[a] == t[a + 1] && t1[b] == t[b + 1]);
            }
        }
        assert forall|x: (Seq<char>, Seq<char>), y: (Seq<char>, Seq<char>)|
            #![trigger s1.to_multiset().count(x), s1.to_multiset().count(y)]
            s1.to_multiset().count(x) > 0 && s1.to_multiset().count(y) > 0 && x.0 == y.0 implies x
            == y by {
            assert(m.count(x) > 0 && m.count(y) > 0);
        }
        lemma_sorted_same_pairs_equal(s1, t1);
        assert(s =~= t) by {
            assert forall|a: int| 0 <= a < s.len() implies s[a] == t[a] by {
                if a > 0 {
                    assert(s[a] == s1[a - 1] && t[a] == t1[a - 1]);
                }
            }
        }
    }
}

/// The labels built from two lists holding the same pairs in any order are
/// the same, when no two pairs of the list share a key with different
/// values.
pub proof fn lemma_from_pairs_order_free(
    p: Seq<(Seq<char>, Seq<char>)>,
    q: Seq<(Seq<char>, Seq<char>)>,
)
    requires
        p.to_multiset() == q.to_multiset(),
        forall|i: int, j: int|
            0 <= i < p.len() && 0 <= j < p.len() && #[trigger] p[i].0 == #[trigger] p[j].0 ==> p[i]
                == p[j],
    ensures
        insert_all(Seq::empty(), p) == insert_all(Seq::empty(), q),
{
    broadcast use vstd::seq_lib::group_to_multiset_ensures;

    let s = insert_all(Seq::empty(), p);
    let t = insert_all(Seq::empty(), q);
    lemma_insert_all_sorted(Seq::empty(), p);
    lemma_insert_all_sorted(Seq::empty(), q);
    lemma_insert_all_multiset(p);
    lemma_insert_all_multiset(q);
    assert forall|x: (Seq<char>, Seq<char>), y: (Seq<char>, Seq<char>)|
        #![trigger s.to_multiset().count(x), s.to_multiset().count(y)]
        s.to_multiset().count(x) > 0 && s.to_multiset().count(y) > 0 && x.0 == y.0 implies x
        == y by {
        assert(p.to_multiset().count(x) > 0 && p.to_multiset().count(y) > 0);
        assert(p.contains(x) && p.contains(y));
        let i = choose|i: int| 0 <= i < p.len() && p[i] == x;
        let j = choose|j: int| 0 <= j < p.len() && p[j] == y;
        assert(p[i].0 == p[j].0);
    }
    lemma_sorted_same_pairs_equal(s, t);
}

impl View for Labels {
    type V = Seq<(Seq<char>, Seq<char>)>;

    closed spec fn view(&self) -> Seq<(Seq<char>, Seq<char>)> {
        self.inner@.map_values(|p: (String, String)| pair_view(p))
    }
}

impl Labels {
    #[verifier::type_invariant]
    spec fn sorted(self) -> bool {
        keys_sorted(self@)
    }

    /// The labels with no pairs.
    pub fn new() -> (r: Self)
        ensures
            r@.len() == 0,
    {
        let inner: Vec<(String, String)> = Vec::new();
        assert(inner@.map_values(|p: (String, String)| pair_view(p)) =~= Seq::empty());
        Labels { inner }
    }

    /// Places a pair after every pair whose key is at most `key`.
    fn insert(&mut self, key: String, value: String)
        ensures
            final(self)@ == insert_label(old(self)@, key@, value@),
    {
        proof {
            use_type_invariant(&*self);
            lemma_upper_bound(self@, key@);
            lemma_insert_keeps_sorted(self@, key@, value@);
        }
        let ghost s = self@;
        let ghost ub = upper_bound(s, key@);
        let mut p: usize = 0;
        let n = self.inner.len();
        loop
            invariant
                n == self.inner@.len(),
                s == self@,
                s.len() == n,
                p <= n,
                p <= ub,
                ub <= n,
                forall|i: int| 0 <= i < ub ==> lex_le(#[trigger] s[i].0, key@),
                forall|i: int| ub <= i < s.len() ==> !lex_le(#[trigger] s[i].0, key@),
            ensures
                p == ub,
            decreases n - p,
        {
            if p == n {
                break;
            }
            assert(s[p as int] == pair_view(self.inner@[p as int]));
            let le = key_le(self.inner[p].0.as_str(), key.as_str());
            assert(le == lex_le(s[p as int].0, key@));
            if !le {
                assert(ub <= p);
                break;
            }
            p = p + 1;
        }
        assert(p == upper_bound(s, key@));
        let ghost before = self.inner@;
        let mut inner: Vec<(String, String)> = Vec::new();
        std::mem::swap(&mut inner, &mut self.inner);
        inner.insert(p, (key, value));
        assert(inner@.map_values(|q: (String, String)| pair_view(q)) =~= insert_label(
            s,
            key@,
            value@,
        ));
        self.inner = inner;
    }

    /// Adds a label; the pairs stay sorted by key.
    pub fn with(self, key: impl IntoText, value: impl IntoText) -> (r: Self)
        ensures
            r@ == insert_label(self@, key.text(), value.text()),
    {
        let mut r = self;
        r.insert(key.into_text(), value.into_text());
        r
    }

    /// Adds a `service` label.
    pub fn service(self, service: impl IntoText) -> (r: Self)
        ensures
            r@ == insert_label(self@, "service"@, service.text()),
    {
        self.with("service", service)
    }

    /// Adds a `layer` label.
    pub fn layer(self, layer: impl IntoText) -> (r: Self)
        ensures
            r@ == insert_label(self@, "layer"@, layer.text()),
    {
        self.with("layer", layer)
    }

    /// Adds a `module` label.
    pub fn module(self, module: impl IntoText) -> (r: Self)
        ensures
            r@ == insert_label(self@, "module"@, module.text()),
    {
        self.with("module", module)
    }

    /// Adds a `tier` label.
    pub fn tier(self, tier: impl IntoText) -> (r: Self)
        ensures
            r@ == insert_label(self@, "tier"@, tier.text()),
    {
        self.with("tier", tier)
    }

    /// Adds a `status` label.
    pub fn status(self, status: impl IntoText) -> (r: Self)
        ensures
            r@ == insert_label(self@, "status"@, status.text()),
    {
        self.with("status", status)
    }

    /// Adds an `agent` label.
    pub fn agent(self, agent_id: impl IntoText) -> (r: Self)
        ensures
            r@ == insert_label(self@, "agent"@, agent_id.text()),
    {
        self.with("agent", agent_id)
    }

    /// Labels from a list of pairs, stably sorted by key.
    pub fn from_pairs(pairs: &[(&str, &str)]) -> (r: Self)
        ensures
            r@ == insert_all(
                Seq::empty(),
                pairs@.map_values(|p: (&str, &str)| (p.0@, p.1@)),
            ),
    {
        let ghost pv = pairs@.map_values(|p: (&str, &str)| (p.0@, p.1@));
        let mut labels = Labels::new();
        let mut i: usize = 0;
        while i < pairs.len()
            invariant
                i <= pairs@.len(),
                pv == pairs@.map_values(|p: (&str, &str)| (p.0@, p.1@)),
                labels@ == insert_all(Seq::empty(), pv.take(i as int)),
            decreases pairs@.len() - i,
        {
            let (k, v) = pairs[i];
            labels.insert(owned(k), owned(v));
            assert(pv.take(i + 1).drop_last() =~= pv.take(i as int));
            i = i + 1;
        }
        assert(pv.take(i as int) =~= pv);
        labels
    }

    /// Whether there are no pairs.
    pub fn is_empty(&self) -> (r: bool)
        ensures
            r == (self@.len() == 0),
    {
        self.inner.len() == 0
    }

    /// The labels in Prometheus form: `{k1="v1",k2="v2"}` with values
    /// escaped, or nothing when there are no labels.
    pub fn prometheus_format(&self) -> (r: String)
        ensures
            r@ == labels_text(self@),
    {
        let n = self.inner.len();
        if n == 0 {
            return String::new();
        }
        let ghost s = self@;
        let mut parts: Vec<String> = Vec::new();
        let mut i: usize = 0;
        while i < n
            invariant
                n == self.inner@.len(),
                s == self@,
                i <= n,
                parts@.map_values(|t: String| t@) =~= s.take(i as int).map_values(
                    |p: (Seq<char>, Seq<char>)| pair_text(p),
                ),
            decreases n - i,
        {
            let (k, v) = &self.inner[i];
            let mut t = owned(k.as_str());
            push_str(&mut t, "=\"");
            let e = escape_label_value(v.as_str());
            push_str(&mut t, e.as_str());
            push_char(&mut t, '"');
            assert(s[i as int] == pair_view(self.inner@[i as int]));
            assert(t@ =~= pair_text(s[i as int])) by {
                reveal_strlit("=\"");
            }
            let ghost before = parts@;
            parts.push(t);
            assert(parts@.map_values(|t: String| t@) =~= before.map_values(|t: String| t@).push(
                t@,
            ));
            assert(s.take(i + 1) =~= s.take(i as int).push(s[i as int]));
            i = i + 1;
        }
        assert(s.take(n as int) =~= s);
        let mut out = owned("{");
        let joined = crate::config::join_texts(&parts, ",");
        push_str(&mut out, joined.as_str());
        push_char(&mut out, '}');
        assert(out@ =~= labels_text(s)) by {
            reveal_strlit("{");
        }
        out
    }
}

impl Clone for Labels {
    fn clone(&self) -> (r: Self)
        ensures
            r@ == self@,
    {
        proof {
            use_type_invariant(self);
        }
        let ghost s = self@;
        let n = self.inner.len();
        let mut inner: Vec<(String, String)> = Vec::new();
        let mut i: usize = 0;
        while i < n
            invariant
                n == self.inner@.len(),
                s == self@,
                i <= n,
                inner@.map_values(|p: (String, String)| pair_view(p)) =~= s.take(i as int),
            decreases n - i,
        {
            let (k, v) = &self.inner[i];
            let ghost before = inner@;
            inner.push((k.clone(), v.clone()));
            assert(s[i as int] == pair_view(self.inner@[i as int]));
            assert(inner@.map_values(|p: (String, String)| pair_view(p)) =~= before.map_values(
                |p: (String, String)| pair_view(p),
            ).push(s[i as int]));
            assert(s.take(i + 1) =~= s.take(i as int).push(s[i as int]));
            i = i + 1;
        }
        assert(s.take(n as int) =~= s);
        Labels { inner }
    }
}

impl Default for Labels {
    fn default() -> (r: Self)
        ensures
            r@.len() == 0,
    {
        Labels::new()
    }
}

/// How one character of a label value is written: backslash, double
/// quote and line feed are escaped with a backslash.
pub open spec fn escape_char(c: char) -> Seq<char> {
    if c == '\\' {
        seq!['\\', '\\']
    } else if c == '"' {
        seq!['\\', '"']
    } else if c == '\n' {
        seq!['\\', 'n']
    } else {
        seq![c]
    }
}

/// A label value with its special characters escaped.
pub open spec fn escape_text(s: Seq<char>) -> Seq<char>
    decreases s.len(),
{
    if s.len() == 0 {
        Seq::empty()
    } else {
        escape_text(s.drop_last()) + escape_char(s.last())
    }
}

/// `k="escaped v"`.
pub open spec fn pair_text(p: (Seq<char>, Seq<char>)) -> Seq<char> {
    p.0 + "=\""@ + escape_text(p.1) + seq!['"']
}

/// The Prometheus form of a label list.
pub open spec fn labels_text(s: Seq<(Seq<char>, Seq<char>)>) -> Seq<char> {
    if s.len() == 0 {
        Seq::empty()
    } else {
        "{"@ + seq_join(s.map_values(|p: (Seq<char>, Seq<char>)| pair_text(p)), ","@) + seq!['}']
    }
}

/// Escapes backslashes, double quotes and line feeds in a label value.
pub fn escape_label_value(s: &str) -> (r: String)
    ensures
        r@ == escape_text(s@),
{
    let n = s.unicode_len();
    let mut out = String::new();
    let mut i: usize = 0;
    while i < n
        invariant
            n == s@.len(),
            i <= n,
            out@ == escape_text(s@.take(i as int)),
        decreases n - i,
    {
        let c = s.get_char(i);
        if c == '\\' {
            push_char(&mut out, '\\');
            push_char(&mut out, '\\');
        } else if c == '"' {
            push_char(&mut out, '\\');
            push_char(&mut out, '"');
        } else if c == '\n' {
            push_char(&mut out, '\\');
            push_char(&mut out, 'n');
        } else {
            push_char(&mut out, c);
        }
        assert(s@.take(i + 1).drop_last() =~= s@.take(i as int));
        assert(out@ =~= escape_text(s@.take(i + 1)));
        i = i + 1;
    }
    assert(s@.take(n as int) =~= s@);
    out
}

// ============================================================================
// Metric names
// ============================================================================

/// A character that may begin a metric name: `[a-zA-Z_:]`.
pub open spec fn is_metric_start(c: char) -> bool {
    ('a' <= c && c <= 'z') || ('A' <= c && c <= 'Z') || c == '_' || c == ':'
}

/// A character that may occur in a metric name: `[a-zA-Z0-9_:]`.
pub open spec fn is_metric_char(c: char) -> bool {
    is_metric_start(c) || ('0' <= c && c <= '9')
}

/// The first position at or after `i` holding a character that may not
/// occur in a metric name, or -1.
pub open spec fn first_invalid_from(s: Seq<char>, i: int) -> int
    decreases s.len() - i,
{
    if i < 0 || i >= s.len() {
        -1
    } else if !is_metric_char(s[i]) {
        i
    } else {
        first_invalid_from(s, i + 1)
    }
}

/// Why a metric name breaks the Prometheus rule
/// `[a-zA-Z_:][a-zA-Z0-9_:]*`, or nothing when it keeps it.
pub open spec fn metric_name_error(s: Seq<char>) -> Option<Seq<char>> {
    if s.len() == 0 {
        Some("Metric name cannot be empty"@)
    } else if !is_metric_start(s[0]) {
        Some("Metric name '"@ + s + "' must start with [a-zA-Z_:]"@)
    } else if first_invalid_from(s, 0) >= 0 {
        Some(
            "Metric name '"@ + s + "' contains invalid character '"@ + seq![
                s[first_invalid_from(s, 0)],
            ] + "'"@,
        )
    } else {
        None
    }
}

fn is_metric_start_char(c: char) -> (r: bool)
    ensures
        r == is_metric_start(c),
{
    ('a' <= c && c <= 'z') || ('A' <= c && c <= 'Z') || c == '_' || c == ':'
}

/// Checks a metric name against the Prometheus rule
/// `[a-zA-Z_:][a-zA-Z0-9_:]*`.
pub fn validate_metric_name(name: &str) -> (r: Result<()>)
    ensures
        match metric_name_error(name@) {
            None => r is Ok,
            Some(m) => r matches Err(Error::Validation(x)) && x@ == m,
        },
{
    let n = name.unicode_len();
    if n == 0 {
        return Err(Error::Validation(owned("Metric name cannot be empty")));
    }
    let first = name.get_char(0);
    if !is_metric_start_char(first) {
        let mut m = owned("Metric name '");
        push_str(&mut m, name);
        push_str(&mut m, "' must start with [a-zA-Z_:]");
        return Err(Error::Validation(m));
    }
    let mut i: usize = 0;
    while i < n
        invariant
            n == name@.len(),
            0 < n,
            i <= n,
            is_metric_start(name@[0]),
            first_invalid_from(name@, 0) == first_invalid_from(name@, i as int),
        decreases n - i,
    {
        let c = name.get_char(i);
        if !(is_metric_start_char(c) || ('0' <= c && c <= '9')) {
            let mut m = owned("Metric name '");
            push_str(&mut m, name);
            push_str(&mut m, "' contains invalid character '");
            push_char(&mut m, c);
            push_str(&mut m, "'");
            return Err(Error::Validation(m));
        }
        i = i + 1;
    }
    Ok(())
}

/// The registered name of a metric: `prefix_name`, or `name` alone when
/// the prefix is empty.
pub open spec fn full_metric_name(prefix: Seq<char>, name: Seq<char>) -> Seq<char> {
    if prefix.len() == 0 {
        name
    } else {
        prefix + seq!['_'] + name
    }
}

/// The registered name of a metric under a registry prefix.
pub fn metric_full_name(prefix: &str, name: &str) -> (r: String)
    ensures
        r@ == full_metric_name(prefix@, name@),
{
    if prefix.unicode_len() == 0 {
        owned(name)
    } else {
        let mut r = owned(prefix);
        push_char(&mut r, '_');
        push_str(&mut r, name);
        r
    }
}

// ============================================================================
// Gauge arithmetic
// ============================================================================

/// The stored bits of a gauge read as a signed 64-bit number.
pub open spec fn as_signed(v: u64) -> int {
    if v <= i64::MAX {
        v as int
    } else {
        v - 0x1_0000_0000_0000_0000
    }
}

/// The sum of two signed 64-bit numbers, saturating at the bounds.
pub open spec fn saturating_sum(a: int, b: int) -> int {
    if a + b > i64::MAX {
        i64::MAX as int
    } else if a + b < i64::MIN {
        i64::MIN as int
    } else {
        a + b
    }
}

/// A fixed-point gauge value after adding `scaled_delta`: the stored bits
/// read as a signed number, the delta added with saturation, and the
/// result never below zero.
pub fn gauge_add_fixed(current: u64, scaled_delta: i64) -> (r: u64)
    ensures
        r == (if saturating_sum(as_signed(current), scaled_delta as int) < 0 {
            0
        } else {
            saturating_sum(as_signed(current), scaled_delta as int)
        }),
{
    let c: i64 = if current <= 0x7fff_ffff_ffff_ffff {
        current as i64
    } else {
        let high: u64 = current - 0x8000_0000_0000_0000;
        (high as i64) + i64::MIN
    };
    let sum: i64 = match c.checked_add(scaled_delta) {
        Some(v) => v,
        None => if scaled_delta > 0 {
            i64::MAX
        } else {
            i64::MIN
        },
    };
    if sum < 0 {
        0
    } else {
        sum as u64
    }
}

} // verus!
