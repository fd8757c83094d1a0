//! Ordered sets of strings: the string order, sorted insertion and joining.

use vstd::prelude::*;
use vstd::string::*;

verus! {

/// The order of strings: character by character, by code point, a proper
/// prefix before the longer text (the order of `str`'s `Ord`).
pub open spec fn lex_lt(a: Seq<char>, b: Seq<char>) -> bool
    decreases a.len(),
{
    if a.len() == 0 {
        b.len() > 0
    } else if b.len() == 0 {
        false
    } else if a[0] != b[0] {
        (a[0] as int) < (b[0] as int)
    } else {
        lex_lt(a.drop_first(), b.drop_first())
    }
}

/// Whether a sequence of texts is strictly increasing.
pub open spec fn strictly_sorted(s: Seq<Seq<char>>) -> bool {
    forall|i: int, j: int| 0 <= i < j < s.len() ==> lex_lt(#[trigger] s[i], #[trigger] s[j])
}

/// The texts separated by `sep`.
pub open spec fn join(parts: Seq<Seq<char>>, sep: Seq<char>) -> Seq<char>
    decreases parts.len(),
{
    if parts.len() == 0 {
        Seq::empty()
    } else if parts.len() == 1 {
        parts[0]
    } else {
        join(parts.drop_last(), sep) + sep + parts.last()
    }
}

proof fn lemma_lex_irreflexive(a: Seq<char>)
    ensures
        !lex_lt(a, a),
    decreases a.len(),
{
    if a.len() > 0 {
        lemma_lex_irreflexive(a.drop_first());
    }
}

proof fn lemma_lex_total(a: Seq<char>, b: Seq<char>)
    requires
        a != b,
    ensures
        lex_lt(a, b) || lex_lt(b, a),
    decreases a.len(),
{
    if a.len() > 0 && b.len() > 0 && a[0] == b[0] {
        if a.drop_first() == b.drop_first() {
            assert(a =~= seq![a[0]] + a.drop_first());
            assert(b =~= seq![b[0]] + b.drop_first());
        }
        lemma_lex_total(a.drop_first(), b.drop_first());
    } else if a.len() == 0 && b.len() == 0 {
        assert(a =~= b);
    } else if a.len() > 0 && b.len() > 0 {
        assert((a[0] as int) != (b[0] as int));
    }
}

proof fn lemma_lex_transitive(a: Seq<char>, b: Seq<char>, c: Seq<char>)
    requires
        lex_lt(a, b),
        lex_lt(b, c),
    ensures
        lex_lt(a, c),
    decreases a.len(),
{
    if a.len() > 0 && b.len() > 0 && c.len() > 0 && a[0] == b[0] && b[0] == c[0] {
        lemma_lex_transitive(a.drop_first(), b.drop_first(), c.drop_first());
    }
}

/// Whether `a` comes before `b` in the string order.
pub fn str_lt(a: &str, b: &str) -> (r: bool)
    ensures
        r == lex_lt(a@, b@),
{
    let n = a.unicode_len();
    let m = b.unicode_len();
    let mut i: usize = 0;
    assert(a@.subrange(0, n as int) =~= a@);
    assert(b@.subrange(0, m as int) =~= b@);
    while i < n && i < m
        invariant
            n == a@.len(),
            m == b@.len(),
            i <= n,
            i <= m,
            lex_lt(a@, b@) == lex_lt(a@.subrange(i as int, n as int), b@.subrange(i as int, m as int)),
        decreases n - i,
    {
        let x = a.get_char(i);
        let y = b.get_char(i);
        if x != y {
            return (x as u32) < (y as u32);
        }
        assert(a@.subrange(i as int, n as int).drop_first() =~= a@.subrange(i + 1, n as int));
        assert(b@.subrange(i as int, m as int).drop_first() =~= b@.subrange(i + 1, m as int));
        i = i + 1;
    }
    i < m
}

/// A set of strings, kept in increasing order.
#[derive(Debug, PartialEq, Eq)]
pub struct StrSet {
    items: Vec<String>,
}

impl View for StrSet {
    type V = Seq<Seq<char>>;

    closed spec fn view(&self) -> Seq<Seq<char>> {
        self.items@.map_values(|s: String| s@)
    }
}

impl Clone for StrSet {
    fn clone(&self) -> (r: Self)
        ensures
            r@ == self@,
    {
        proof {
            use_type_invariant(self);
        }
        StrSet { items: self.to_vec() }
    }
}

impl StrSet {
    /// The strings are kept in strictly increasing order.
    #[verifier::type_invariant]
    spec fn wf(&self) -> bool {
        strictly_sorted(self.items@.map_values(|s: String| s@))
    }

    /// The empty set.
    pub fn new() -> (r: Self)
        ensures
            r@ == Seq::<Seq<char>>::empty(),
    {
        let r = StrSet { items: Vec::new() };
        assert(r@ =~= Seq::<Seq<char>>::empty());
        r
    }

    /// Adds a string; the set keeps its order and holds each string once.
    pub fn insert(&mut self, x: String)
        ensures
            strictly_sorted(final(self)@),
            forall|t: Seq<char>| #[trigger]
                final(self)@.contains(t) <==> old(self)@.contains(t) || t == x@,
    {
        proof {
            use_type_invariant(&*self);
        }
        let ghost v = self@;
        let n = self.items.len();
        let mut p: usize = 0;
        while p < n && str_lt(self.items[p].as_str(), x.as_str())
            invariant
                v == self@,
                n == v.len(),
                strictly_sorted(v),
                p <= n,
                forall|i: int| 0 <= i < p ==> lex_lt(#[trigger] v[i], x@),
            decreases n - p,
        {
            p = p + 1;
        }
        if p < n && self.items[p].as_str().unicode_len() == x.as_str().unicode_len() && !str_lt(
            x.as_str(),
            self.items[p].as_str(),
        ) {
            proof {
                if v[p as int] != x@ {
                    lemma_lex_total(v[p as int], x@);
                }
            }
            assert(v[p as int] == x@);
            assert(forall|t: Seq<char>| v.contains(t) || t == x@ ==> #[trigger] v.contains(t)) by {
                assert(v[p as int] == x@);
            }
            return;
        }
        proof {
            if p < n {
                if v[p as int] == x@ {
                    lemma_lex_irreflexive(x@);
                }
                lemma_lex_total(v[p as int], x@);
                assert forall|j: int| p <= j < n implies lex_lt(x@, #[trigger] v[j]) by {
                    if j > p {
                        lemma_lex_transitive(x@, v[p as int], v[j]);
                    }
                }
            }
        }
        let mut taken = StrSet::new();
        core::mem::swap(self, &mut taken);
        let StrSet { mut items } = taken;
        assert(items@.map_values(|s: String| s@) == v);
        items.insert(p, x);
        let ghost w = items@.map_values(|s: String| s@);
        assert(w =~= v.insert(p as int, x@));
        assert forall|i: int, j: int| 0 <= i < j < w.len() implies lex_lt(
            #[trigger] w[i],
            #[trigger] w[j],
        ) by {
            if j < p {
            } else if j == p {
            } else if i < p {
                lemma_lex_transitive(w[i], x@, w[j]);
            } else if i == p {
            } else {
            }
        }
        assert forall|t: Seq<char>| #[trigger] w.contains(t) <==> v.contains(t) || t == x@ by {
            if w.contains(t) {
                let k = choose|k: int| 0 <= k < w.len() && w[k] == t;
                if k < p {
                    assert(v[k] == t);
                } else if k > p {
                    assert(v[k - 1] == t);
                }
            }
            if v.contains(t) {
                let k = choose|k: int| 0 <= k < v.len() && v[k] == t;
                if k < p {
                    assert(w[k] == t);
                } else {
                    assert(w[k + 1] == t);
                }
            }
            if t == x@ {
                assert(w[p as int] == t);
            }
        }
        *self = StrSet { items };
    }

    /// The strings in order.
    pub fn to_vec(&self) -> (r: Vec<String>)
        ensures
            r@.map_values(|s: String| s@) == self@,
    {
        let mut r: Vec<String> = Vec::new();
        let mut i: usize = 0;
        while i < self.items.len()
            invariant
                i <= self.items.len(),
                r@.map_values(|s: String| s@) == self@.subrange(0, i as int),
            decreases self.items.len() - i,
        {
            let ghost before = r@.map_values(|s: String| s@);
            let item = self.items[i].clone();
            r.push(item);
            assert(r@.map_values(|s: String| s@) =~= before.push(item@));
            assert(self@.subrange(0, i + 1) =~= self@.subrange(0, i as int).push(item@));
            i = i + 1;
        }
        assert(self@.subrange(0, i as int) =~= self@);
        r
    }

    /// The strings in order, separated by `sep`.
    pub fn joined(&self, sep: &str) -> (r: String)
        ensures
            r@ == join(self@, sep@),
    {
        let mut r = String::new();
        let mut i: usize = 0;
        let ghost v = self@;
        assert(v.subrange(0, 0) =~= Seq::<Seq<char>>::empty());
        while i < self.items.len()
            invariant
                v == self@,
                i <= v.len(),
                r@ == join(v.subrange(0, i as int), sep@),
            decreases self.items.len() - i,
        {
            assert(v.subrange(0, i + 1).drop_last() =~= v.subrange(0, i as int));
            if i > 0 {
                r.append(sep);
            } else {
                assert(r@ =~= Seq::<char>::empty());
            }
            r.append(self.items[i].as_str());
            i = i + 1;
        }
        assert(v.subrange(0, v.len() as int) =~= v);
        r
    }
}

/// The value of `key` among key/value pairs where a later pair for a key
/// replaces an earlier one.
pub open spec fn attr_lookup(entries: Seq<(Seq<char>, Seq<char>)>, key: Seq<char>) -> Option<
    Seq<char>,
>
    decreases entries.len(),
{
    if entries.len() == 0 {
        None
    } else if entries.last().0 == key {
        Some(entries.last().1)
    } else {
        attr_lookup(entries.drop_last(), key)
    }
}

/// Whether the keys of key/value pairs are strictly increasing.
pub open spec fn keys_sorted(s: Seq<(Seq<char>, Seq<char>)>) -> bool {
    forall|i: int, j: int| 0 <= i < j < s.len() ==> lex_lt(#[trigger] s[i].0, #[trigger] s[j].0)
}

proof fn lemma_lookup_absent(s: Seq<(Seq<char>, Seq<char>)>, k: Seq<char>)
    requires
        forall|i: int| 0 <= i < s.len() ==> #[trigger] s[i].0 != k,
    ensures
        attr_lookup(s, k) is None,
    decreases s.len(),
{
    if s.len() > 0 {
        assert(s[s.len() - 1].0 != k);
        lemma_lookup_absent(s.drop_last(), k);
    }
}

proof fn lemma_lookup_at(s: Seq<(Seq<char>, Seq<char>)>, k: Seq<char>, i: int)
    requires
        0 <= i < s.len(),
        s[i].0 == k,
        forall|j: int| 0 <= j < s.len() && j != i ==> #[trigger] s[j].0 != k,
    ensures
        attr_lookup(s, k) == Some(s[i].1),
    decreases s.len(),
{
    if i < s.len() - 1 {
        assert(s[s.len() - 1].0 != k);
        lemma_lookup_at(s.drop_last(), k, i);
    }
}

proof fn lemma_sorted_keys_unique(s: Seq<(Seq<char>, Seq<char>)>, i: int)
    requires
        keys_sorted(s),
        0 <= i < s.len(),
    ensures
        forall|j: int| 0 <= j < s.len() && j != i ==> #[trigger] s[j].0 != s[i].0,
{
    assert forall|j: int| 0 <= j < s.len() && j != i implies #[trigger] s[j].0 != s[i].0 by {
        if s[j].0 == s[i].0 {
            lemma_lex_irreflexive(s[i].0);
        }
    }
}

proof fn lemma_lookup_sorted(s: Seq<(Seq<char>, Seq<char>)>, k: Seq<char>)
    requires
        keys_sorted(s),
    ensures
        match attr_lookup(s, k) {
            Some(v) => exists|i: int| 0 <= i < s.len() && s[i] == (k, v),
            None => forall|i: int| 0 <= i < s.len() ==> #[trigger] s[i].0 != k,
        },
{
    if exists|i: int| 0 <= i < s.len() && s[i].0 == k {
        let i = choose|i: int| 0 <= i < s.len() && s[i].0 == k;
        lemma_sorted_keys_unique(s, i);
        lemma_lookup_at(s, k, i);
    } else {
        lemma_lookup_absent(s, k);
    }
}

/// String attributes by key, kept in increasing key order; setting a key
/// again replaces its value.
#[derive(Debug)]
pub struct AttrMap {
    entries: Vec<(String, String)>,
}

impl View for AttrMap {
    type V = Seq<(Seq<char>, Seq<char>)>;

    closed spec fn view(&self) -> Seq<(Seq<char>, Seq<char>)> {
        self.entries@.map_values(|p: (String, String)| (p.0@, p.1@))
    }
}

impl AttrMap {
    /// The keys are kept in strictly increasing order.
    #[verifier::type_invariant]
    spec fn wf(&self) -> bool {
        keys_sorted(self.entries@.map_values(|p: (String, String)| (p.0@, p.1@)))
    }

    /// The value of an attribute, if set.
    pub open spec fn get(&self, key: Seq<char>) -> Option<Seq<char>> {
        attr_lookup(self@, key)
    }

    /// No attributes.
    pub fn new() -> (r: Self)
        ensures
            r@ == Seq::<(Seq<char>, Seq<char>)>::empty(),
    {
        let r = AttrMap { entries: Vec::new() };
        assert(r@ =~= Seq::<(Seq<char>, Seq<char>)>::empty());
        r
    }

    /// The attributes in increasing key order.
    pub fn to_vec(&self) -> (r: Vec<(String, String)>)
        ensures
            r@.map_values(|p: (String, String)| (p.0@, p.1@)) == self@,
            keys_sorted(self@),
    {
        proof {
            use_type_invariant(self);
        }
        let mut r: Vec<(String, String)> = Vec::new();
        let mut i: usize = 0;
        while i < self.entries.len()
            invariant
                i <= self.entries.len(),
                r@.map_values(|p: (String, String)| (p.0@, p.1@)) == self@.subrange(0, i as int),
            decreases self.entries.len() - i,
        {
            let ghost before = r@.map_values(|p: (String, String)| (p.0@, p.1@));
            let k = self.entries[i].0.clone();
            let v = self.entries[i].1.clone();
            r.push((k, v));
            assert(r@.map_values(|p: (String, String)| (p.0@, p.1@)) =~= before.push((k@, v@)));
            assert(self@.subrange(0, i + 1) =~= self@.subrange(0, i as int).push((k@, v@)));
            i = i + 1;
        }
        assert(self@.subrange(0, i as int) =~= self@);
        r
    }

    /// The value of an attribute, if set.
    pub fn get_value(&self, key: &str) -> (r: Option<String>)
        ensures
            match r {
                Some(v) => self.get(key@) == Some(v@),
                None => self.get(key@) is None,
            },
    {
        let mut i: usize = self.entries.len();
        assert(self@.subrange(0, i as int) =~= self@);
        while i > 0
            invariant
                i <= self.entries.len(),
                attr_lookup(self@, key@) == attr_lookup(self@.subrange(0, i as int), key@),
            decreases i,
        {
            let entry = &self.entries[i - 1];
            assert(self@.subrange(0, i as int).last() == (entry.0@, entry.1@));
            if crate::text::same_text(entry.0.as_str(), key) {
                return Some(entry.1.clone());
            }
            assert(self@.subrange(0, i as int).drop_last() =~= self@.subrange(0, i - 1));
            i = i - 1;
        }
        None
    }

    /// Sets an attribute.
    pub fn insert(&mut self, key: String, value: String)
        ensures
            keys_sorted(final(self)@),
            forall|k: Seq<char>| #[trigger]
                final(self).get(k) == if k == key@ {
                    Some(value@)
                } else {
                    old(self).get(k)
                },
    {
        proof {
            use_type_invariant(&*self);
        }
        let ghost v = self@;
        let ghost kv = (key@, value@);
        let n = self.entries.len();
        let mut p: usize = 0;
        while p < n && str_lt(self.entries[p].0.as_str(), key.as_str())
            invariant
                v == self@,
                n == v.len(),
                keys_sorted(v),
                p <= n,
                forall|i: int| 0 <= i < p ==> lex_lt(#[trigger] v[i].0, key@),
            decreases n - p,
        {
            p = p + 1;
        }
        let found = p < n && crate::text::same_text(self.entries[p].0.as_str(), key.as_str());
        let mut taken = AttrMap::new();
        core::mem::swap(self, &mut taken);
        let AttrMap { mut entries } = taken;
        assert(entries@.map_values(|e: (String, String)| (e.0@, e.1@)) == v);
        if found {
            entries.set(p, (key, value));
        } else {
            entries.insert(p, (key, value));
        }
        let ghost w = entries@.map_values(|e: (String, String)| (e.0@, e.1@));
        proof {
            if found {
                assert(v[p as int].0 == kv.0);
                assert(w =~= v.update(p as int, kv));
            } else {
                assert(w =~= v.insert(p as int, kv));
                if p < n {
                    if v[p as int].0 == kv.0 {
                    } else {
                        lemma_lex_total(v[p as int].0, kv.0);
                    }
                    assert forall|j: int| p <= j < n implies lex_lt(kv.0, #[trigger] v[j].0) by {
                        if j > p {
                            lemma_lex_transitive(kv.0, v[p as int].0, v[j].0);
                        }
                    }
                }
            }
            assert(keys_sorted(w)) by {
                assert forall|i: int, j: int| 0 <= i < j < w.len() implies lex_lt(
                    #[trigger] w[i].0,
                    #[trigger] w[j].0,
                ) by {
                    if found {
                        if i == p {
                            assert(w[j] == v[j]);
                        } else if j == p {
                            assert(w[i] == v[i]);
                        }
                    } else if i < p && j > p {
                        assert(w[i] == v[i]);
                        assert(w[j] == v[j - 1]);
                        lemma_lex_transitive(w[i].0, kv.0, w[j].0);
                    } else if i == p {
                        assert(w[j] == v[j - 1]);
                    } else if j == p {
                        assert(w[i] == v[i]);
                    } else if j < p {
                        assert(w[i] == v[i]);
                        assert(w[j] == v[j]);
                    } else {
                        assert(w[i] == v[i - 1]);
                        assert(w[j] == v[j - 1]);
                    }
                }
            }
            assert forall|k: Seq<char>| #[trigger] attr_lookup(w, k) == if k == kv.0 {
                Some(kv.1)
            } else {
                attr_lookup(v, k)
            } by {
                lemma_sorted_keys_unique(w, p as int);
                if k == kv.0 {
                    lemma_lookup_at(w, k, p as int);
                } else {
                    lemma_lookup_sorted(v, k);
                    lemma_lookup_sorted(w, k);
                    match attr_lookup(v, k) {
                        Some(x) => {
                            let i = choose|i: int| 0 <= i < v.len() && v[i] == (k, x);
                            let wi = if found || i < p { i } else { i + 1 };
                            assert(w[wi] == (k, x));
                            lemma_sorted_keys_unique(w, wi);
                            lemma_lookup_at(w, k, wi);
                        },
                        None => {
                            assert forall|i: int| 0 <= i < w.len() implies #[trigger] w[i].0 != k by {
                                if i != p {
                                    let vi = if found || i < p { i } else { i - 1 };
                                    assert(w[i] == v[vi]);
                                }
                            }
                            lemma_lookup_absent(w, k);
                        },
                    }
                }
            }
        }
        *self = AttrMap { entries };
    }
}

/// A set of integers, kept in increasing order.
#[derive(Debug, PartialEq, Eq)]
pub struct U64Set {
    items: Vec<u64>,
}

impl View for U64Set {
    type V = Seq<u64>;

    closed spec fn view(&self) -> Seq<u64> {
        self.items@
    }
}

impl Clone for U64Set {
    fn clone(&self) -> (r: Self)
        ensures
            r@ == self@,
    {
        proof {
            use_type_invariant(self);
        }
        U64Set { items: self.to_vec() }
    }
}

impl U64Set {
    /// The integers are kept in strictly increasing order.
    #[verifier::type_invariant]
    spec fn wf(&self) -> bool {
        forall|i: int, j: int| 0 <= i < j < self.items@.len() ==> self.items@[i] < self.items@[j]
    }

    /// The empty set.
    pub fn new() -> (r: Self)
        ensures
            r@ == Seq::<u64>::empty(),
    {
        U64Set { items: Vec::new() }
    }

    /// The integers in increasing order.
    pub fn to_vec(&self) -> (r: Vec<u64>)
        ensures
            r@ == self@,
    {
        let mut r: Vec<u64> = Vec::new();
        let mut i: usize = 0;
        while i < self.items.len()
            invariant
                i <= self.items.len(),
                r@ == self@.subrange(0, i as int),
            decreases self.items.len() - i,
        {
            r.push(self.items[i]);
            assert(r@ =~= self@.subrange(0, i + 1));
            i = i + 1;
        }
        assert(self@.subrange(0, i as int) =~= self@);
        r
    }

    /// Adds an integer; the set keeps its order and holds each integer once.
    pub fn insert(&mut self, x: u64)
        ensures
            forall|i: int, j: int|
                0 <= i < j < final(self)@.len() ==> final(self)@[i] < final(self)@[j],
            forall|t: u64| #[trigger] final(self)@.contains(t) <==> old(self)@.contains(t) || t == x,
    {
        proof {
            use_type_invariant(&*self);
        }
        let ghost v = self@;
        let n = self.items.len();
        let mut p: usize = 0;
        while p < n && self.items[p] < x
            invariant
                v == self@,
                n == v.len(),
                forall|i: int, j: int| 0 <= i < j < v.len() ==> v[i] < v[j],
                p <= n,
                forall|i: int| 0 <= i < p ==> #[trigger] v[i] < x,
            decreases n - p,
        {
            p = p + 1;
        }
        if p < n && self.items[p] == x {
            assert(v[p as int] == x);
            return;
        }
        let mut taken = U64Set::new();
        core::mem::swap(self, &mut taken);
        let U64Set { mut items } = taken;
        items.insert(p, x);
        let ghost w = items@;
        assert(w =~= v.insert(p as int, x));
        assert forall|t: u64| #[trigger] w.contains(t) <==> v.contains(t) || t == x by {
            if w.contains(t) {
                let k = choose|k: int| 0 <= k < w.len() && w[k] == t;
                if k < p {
                    assert(v[k] == t);
                } else if k > p {
                    assert(v[k - 1] == t);
                }
            }
            if v.contains(t) {
                let k = choose|k: int| 0 <= k < v.len() && v[k] == t;
                if k < p {
                    assert(w[k] == t);
                } else {
                    assert(w[k + 1] == t);
                }
            }
            if t == x {
                assert(w[p as int] == t);
            }
        }
        *self = U64Set { items };
    }
}

} // verus!
