//! Properties of the server selection rule.
use vstd::prelude::*;

use crate::config::{default_config, startup_config, AppConfig, StoredConfig, available_servers, enabled_with_priority, ordered_up_to, urls, ServerConfigView};

verus! {

broadcast use vstd::seq_lib::group_seq_properties;

/// The entry has priority `p`.
pub open spec fn has_priority(p: int) -> spec_fn(ServerConfigView) -> bool {
    |c: ServerConfigView| c.priority == p
}

/// The number of enabled entries in `s`.
pub open spec fn enabled_count(s: Seq<ServerConfigView>) -> nat
    decreases s.len(),
{
    if s.len() == 0 {
        0
    } else {
        enabled_count(s.drop_last()) + if s.last().enabled {
            1nat
        } else {
            0nat
        }
    }
}

proof fn lemma_with_priority_members(s: Seq<ServerConfigView>, p: int)
    ensures
        forall|k: int|
            0 <= k < enabled_with_priority(s, p).len() ==> {
                let c = #[trigger] enabled_with_priority(s, p)[k];
                c.enabled && c.priority == p && s.contains(c)
            },
    decreases s.len(),
{
    if s.len() > 0 {
        let t = s.drop_last();
        lemma_with_priority_members(t, p);
        let w = enabled_with_priority(s, p);
        let w0 = enabled_with_priority(t, p);
        assert forall|k: int| 0 <= k < w.len() implies {
            let c = #[trigger] w[k];
            c.enabled && c.priority == p && s.contains(c)
        } by {
            if k < w0.len() {
                let c = w0[k];
                assert(w[k] == c);
                let j = choose|j: int| 0 <= j < t.len() && t[j] == c;
                assert(s[j] == c);
            } else {
                assert(w[k] == s.last());
                assert(s[s.len() - 1] == s.last());
            }
        }
    }
}

proof fn lemma_ordered_members(s: Seq<ServerConfigView>, p: int)
    requires
        p >= -1,
    ensures
        forall|k: int|
            0 <= k < ordered_up_to(s, p).len() ==> {
                let c = #[trigger] ordered_up_to(s, p)[k];
                c.enabled && c.priority <= p && s.contains(c)
            },
        forall|i: int, j: int|
            0 <= i <= j < ordered_up_to(s, p).len() ==> (#[trigger] ordered_up_to(s, p)[i]).priority
                <= (#[trigger] ordered_up_to(s, p)[j]).priority,
    decreases p + 1,
{
    if p >= 0 {
        lemma_ordered_members(s, p - 1);
        lemma_with_priority_members(s, p);
        let a = ordered_up_to(s, p - 1);
        let w = enabled_with_priority(s, p);
        let o = ordered_up_to(s, p);
        assert(o == a + w);
        assert forall|k: int| 0 <= k < o.len() implies {
            let c = #[trigger] o[k];
            c.enabled && c.priority <= p && s.contains(c)
        } by {
            if k < a.len() {
                assert(o[k] == a[k]);
            } else {
                assert(o[k] == w[k - a.len()]);
            }
        }
        assert forall|i: int, j: int| 0 <= i <= j < o.len() implies (#[trigger] o[i]).priority <= (
        #[trigger] o[j]).priority by {
            if j < a.len() {
                assert(o[i] == a[i]);
                assert(o[j] == a[j]);
            } else if i < a.len() {
                assert(o[i] == a[i]);
                assert(o[j] == w[j - a.len()]);
            } else {
                assert(o[i] == w[i - a.len()]);
                assert(o[j] == w[j - a.len()]);
            }
        }
    }
}

/// Every server offered is an enabled entry of the configuration, and the
/// offered servers come by non-decreasing priority.
pub proof fn law_available_servers_enabled_and_sorted(s: Seq<ServerConfigView>)
    ensures
        forall|k: int|
            0 <= k < available_servers(s).len() ==> (#[trigger] available_servers(s)[k]).enabled
                && s.contains(available_servers(s)[k]),
        forall|i: int, j: int|
            0 <= i <= j < available_servers(s).len() ==> (
            #[trigger] available_servers(s)[i]).priority <= (
            #[trigger] available_servers(s)[j]).priority,
{
    lemma_ordered_members(s, 255);
}

proof fn lemma_ordered_push(s: Seq<ServerConfigView>, c: ServerConfigView, p: int)
    requires
        p >= -1,
    ensures
        ordered_up_to(s.push(c), p).len() == ordered_up_to(s, p).len() + if c.enabled && c.priority
            <= p {
            1int
        } else {
            0int
        },
    decreases p + 1,
{
    if p >= 0 {
        lemma_ordered_push(s, c, p - 1);
        assert(s.push(c).drop_last() =~= s);
        assert(s.push(c).last() == c);
    }
}

/// Every enabled entry is offered exactly as many times as it is configured:
/// the number of servers offered is the number of enabled entries.
pub proof fn law_available_servers_count(s: Seq<ServerConfigView>)
    ensures
        available_servers(s).len() == enabled_count(s),
    decreases s.len(),
{
    if s.len() > 0 {
        let t = s.drop_last();
        law_available_servers_count(t);
        assert(t.push(s.last()) =~= s);
        lemma_ordered_push(t, s.last(), 255);
    } else {
        lemma_ordered_empty(s, 255);
    }
}

proof fn lemma_ordered_empty(s: Seq<ServerConfigView>, p: int)
    requires
        s.len() == 0,
        p >= -1,
    ensures
        ordered_up_to(s, p).len() == 0,
    decreases p + 1,
{
    if p >= 0 {
        lemma_ordered_empty(s, p - 1);
    }
}

proof fn lemma_with_priority_filter(s: Seq<ServerConfigView>, q: int, p: int)
    ensures
        enabled_with_priority(s, q).filter(has_priority(p)) == if q == p {
            enabled_with_priority(s, q)
        } else {
            Seq::<ServerConfigView>::empty()
        },
    decreases s.len(),
{
    reveal(Seq::filter);
    if s.len() > 0 {
        let t = s.drop_last();
        lemma_with_priority_filter(t, q, p);
        let w0 = enabled_with_priority(t, q);
        if s.last().enabled && s.last().priority == q {
            w0.lemma_filter_push(s.last(), has_priority(p));
        }
    } else {
        assert(Seq::<ServerConfigView>::empty().filter(has_priority(p)) =~= Seq::<
            ServerConfigView,
        >::empty());
    }
}

proof fn lemma_ordered_filter(s: Seq<ServerConfigView>, q: int, p: int)
    requires
        q >= -1,
        p >= 0,
    ensures
        ordered_up_to(s, q).filter(has_priority(p)) == if p <= q {
            enabled_with_priority(s, p)
        } else {
            Seq::<ServerConfigView>::empty()
        },
    decreases q + 1,
{
    reveal(Seq::filter);
    if q >= 0 {
        lemma_ordered_filter(s, q - 1, p);
        lemma_with_priority_filter(s, q, p);
        Seq::filter_distributes_over_add(
            ordered_up_to(s, q - 1),
            enabled_with_priority(s, q),
            has_priority(p),
        );
        if p < q {
            assert(enabled_with_priority(s, p) + Seq::<ServerConfigView>::empty() =~= enabled_with_priority(s, p));
        } else if p == q {
            assert(Seq::<ServerConfigView>::empty() + enabled_with_priority(s, p) =~= enabled_with_priority(s, p));
        } else {
            assert(Seq::<ServerConfigView>::empty() + Seq::<ServerConfigView>::empty() =~= Seq::<
                ServerConfigView,
            >::empty());
        }
    } else {
        assert(Seq::<ServerConfigView>::empty().filter(has_priority(p)) =~= Seq::<
            ServerConfigView,
        >::empty());
    }
}

/// Among the servers offered, those of any one priority are exactly the
/// enabled entries of that priority, in the order they are configured (the
/// ordering is stable).
pub proof fn law_available_servers_stable(s: Seq<ServerConfigView>, p: u8)
    ensures
        available_servers(s).filter(has_priority(p as int)) == enabled_with_priority(s, p as int),
{
    lemma_ordered_filter(s, 255, p as int);
}

/// The entry is enabled.
pub open spec fn is_enabled() -> spec_fn(ServerConfigView) -> bool {
    |c: ServerConfigView| c.enabled
}

proof fn lemma_urls_add(a: Seq<ServerConfigView>, b: Seq<ServerConfigView>)
    ensures
        urls(a + b) == urls(a) + urls(b),
{
    assert(urls(a + b) =~= urls(a) + urls(b));
}

proof fn lemma_urls_push(a: Seq<ServerConfigView>, c: ServerConfigView)
    ensures
        urls(a.push(c)) == urls(a).push(c.url),
{
    assert(urls(a.push(c)) =~= urls(a).push(c.url));
}

proof fn lemma_ordered_push_multiset(s: Seq<ServerConfigView>, c: ServerConfigView, p: int)
    requires
        p >= -1,
    ensures
        urls(ordered_up_to(s.push(c), p)).to_multiset() == if c.enabled && c.priority <= p {
            urls(ordered_up_to(s, p)).to_multiset().insert(c.url)
        } else {
            urls(ordered_up_to(s, p)).to_multiset()
        },
    decreases p + 1,
{
    broadcast use vstd::multiset::group_multiset_axioms;

    if p >= 0 {
        lemma_ordered_push_multiset(s, c, p - 1);
        assert(s.push(c).drop_last() =~= s);
        assert(s.push(c).last() == c);
        let a1 = ordered_up_to(s.push(c), p - 1);
        let w1 = enabled_with_priority(s.push(c), p);
        let a0 = ordered_up_to(s, p - 1);
        let w0 = enabled_with_priority(s, p);
        lemma_urls_add(a1, w1);
        lemma_urls_add(a0, w0);
        vstd::seq_lib::lemma_multiset_commutative(urls(a1), urls(w1));
        vstd::seq_lib::lemma_multiset_commutative(urls(a0), urls(w0));
        if c.enabled && c.priority == p {
            assert(w1 == w0.push(c));
            lemma_urls_push(w0, c);
            vstd::seq_lib::to_multiset_build(urls(w0), c.url);
        } else {
            assert(w1 == w0);
        }
        let m = urls(ordered_up_to(s.push(c), p)).to_multiset();
        if c.enabled && c.priority <= p {
            assert(m =~= urls(ordered_up_to(s, p)).to_multiset().insert(c.url));
        } else {
            assert(m =~= urls(ordered_up_to(s, p)).to_multiset());
        }
    } else {
        assert(ordered_up_to(s.push(c), p) =~= ordered_up_to(s, p));
    }
}

/// The addresses offered are, counted with multiplicity, exactly the
/// addresses of the enabled entries: an address that only disabled entries
/// carry is never offered.
pub proof fn law_available_servers_multiset(s: Seq<ServerConfigView>)
    ensures
        urls(available_servers(s)).to_multiset() == urls(s.filter(is_enabled())).to_multiset(),
    decreases s.len(),
{
    broadcast use vstd::multiset::group_multiset_axioms;

    if s.len() > 0 {
        let t = s.drop_last();
        let c = s.last();
        law_available_servers_multiset(t);
        assert(t.push(c) =~= s);
        lemma_ordered_push_multiset(t, c, 255);
        t.lemma_filter_push(c, is_enabled());
        if c.enabled {
            lemma_urls_push(t.filter(is_enabled()), c);
            vstd::seq_lib::to_multiset_build(urls(t.filter(is_enabled())), c.url);
        }
    } else {
        lemma_ordered_empty(s, 255);
        reveal(Seq::filter);
        assert(urls(available_servers(s)) =~= Seq::<Seq<char>>::empty());
        assert(urls(s.filter(is_enabled())) =~= Seq::<Seq<char>>::empty());
    }
}

/// Indices below `n` of the enabled entries of priority `p`, ascending.
pub open spec fn indices_with_priority(s: Seq<ServerConfigView>, p: int, n: int) -> Seq<int>
    decreases n,
{
    if n <= 0 {
        Seq::empty()
    } else {
        let r = indices_with_priority(s, p, n - 1);
        if s[n - 1].enabled && s[n - 1].priority == p {
            r.push(n - 1)
        } else {
            r
        }
    }
}

/// Indices of the enabled entries of priority at most `p`, by priority and
/// then by position.
pub open spec fn ordered_indices(s: Seq<ServerConfigView>, p: int) -> Seq<int>
    decreases p + 1,
{
    if p < 0 {
        Seq::empty()
    } else {
        ordered_indices(s, p - 1) + indices_with_priority(s, p, s.len() as int)
    }
}

/// Where each offered server sits in the configuration.
pub open spec fn available_order(s: Seq<ServerConfigView>) -> Seq<int> {
    ordered_indices(s, 255)
}

/// The entries of `s` at the indices `o`.
pub open spec fn pick(s: Seq<ServerConfigView>, o: Seq<int>) -> Seq<ServerConfigView> {
    o.map_values(|k: int| s[k])
}

proof fn lemma_indices_pick(s: Seq<ServerConfigView>, p: int, n: int)
    requires
        0 <= n <= s.len(),
    ensures
        enabled_with_priority(s.take(n), p) == pick(s, indices_with_priority(s, p, n)),
    decreases n,
{
    if n == 0 {
        assert(s.take(0) =~= Seq::<ServerConfigView>::empty());
        assert(pick(s, indices_with_priority(s, p, 0)) =~= Seq::<ServerConfigView>::empty());
    } else {
        lemma_indices_pick(s, p, n - 1);
        assert(s.take(n).drop_last() =~= s.take(n - 1));
        assert(s.take(n).last() == s[n - 1]);
        let r = indices_with_priority(s, p, n - 1);
        if s[n - 1].enabled && s[n - 1].priority == p {
            assert(pick(s, r.push(n - 1)) =~= pick(s, r).push(s[n - 1]));
        }
    }
}

proof fn lemma_indices_props(s: Seq<ServerConfigView>, p: int, n: int)
    requires
        0 <= n <= s.len(),
    ensures
        ({
            let w = indices_with_priority(s, p, n);
            &&& forall|i: int|
                0 <= i < w.len() ==> 0 <= #[trigger] w[i] < n && s[w[i]].enabled && s[w[i]].priority == p
            &&& forall|i: int, j: int| 0 <= i < j < w.len() ==> #[trigger] w[i] < #[trigger] w[j]
            &&& forall|k: int|
                0 <= k < n && #[trigger] s[k].enabled && s[k].priority == p ==> w.contains(k)
        }),
    decreases n,
{
    if n > 0 {
        lemma_indices_props(s, p, n - 1);
        let r = indices_with_priority(s, p, n - 1);
        let w = indices_with_priority(s, p, n);
        if s[n - 1].enabled && s[n - 1].priority == p {
            assert(w == r.push(n - 1));
            assert(w[r.len() as int] == n - 1);
            assert forall|k: int| 0 <= k < n && #[trigger] s[k].enabled && s[k].priority == p implies w.contains(k) by {
                if k == n - 1 {
                    assert(w[r.len() as int] == k);
                } else {
                    let i = choose|i: int| 0 <= i < r.len() && r[i] == k;
                    assert(w[i] == k);
                }
            }
        } else {
            assert forall|k: int| 0 <= k < n && #[trigger] s[k].enabled && s[k].priority == p implies w.contains(k) by {
                assert(k != n - 1);
            }
        }
    }
}

proof fn lemma_ordered_indices_pick(s: Seq<ServerConfigView>, p: int)
    requires
        p >= -1,
    ensures
        ordered_up_to(s, p) == pick(s, ordered_indices(s, p)),
    decreases p + 1,
{
    if p >= 0 {
        lemma_ordered_indices_pick(s, p - 1);
        lemma_indices_pick(s, p, s.len() as int);
        assert(s.take(s.len() as int) =~= s);
        let a = ordered_indices(s, p - 1);
        let w = indices_with_priority(s, p, s.len() as int);
        assert(pick(s, a + w) =~= pick(s, a) + pick(s, w));
    } else {
        assert(pick(s, ordered_indices(s, p)) =~= Seq::<ServerConfigView>::empty());
    }
}

proof fn lemma_ordered_indices_props(s: Seq<ServerConfigView>, p: int)
    requires
        p >= -1,
    ensures
        ({
            let o = ordered_indices(s, p);
            &&& forall|i: int|
                0 <= i < o.len() ==> 0 <= #[trigger] o[i] < s.len() && s[o[i]].enabled && s[o[i]].priority <= p
            &&& forall|i: int, j: int|
                0 <= i < j < o.len() ==> s[#[trigger] o[i]].priority < s[#[trigger] o[j]].priority || (
                s[o[i]].priority == s[o[j]].priority && o[i] < o[j])
            &&& forall|k: int|
                0 <= k < s.len() && #[trigger] s[k].enabled && s[k].priority <= p ==> o.contains(k)
        }),
    decreases p + 1,
{
    if p >= 0 {
        lemma_ordered_indices_props(s, p - 1);
        lemma_indices_props(s, p, s.len() as int);
        let a = ordered_indices(s, p - 1);
        let w = indices_with_priority(s, p, s.len() as int);
        let o = ordered_indices(s, p);
        assert(o == a + w);
        assert forall|i: int| 0 <= i < o.len() implies 0 <= #[trigger] o[i] < s.len() && s[o[i]].enabled
            && s[o[i]].priority <= p by {
            if i < a.len() {
                assert(o[i] == a[i]);
            } else {
                assert(o[i] == w[i - a.len()]);
            }
        }
        assert forall|i: int, j: int| 0 <= i < j < o.len() implies s[#[trigger] o[i]].priority < s[
            #[trigger] o[j]].priority || (s[o[i]].priority == s[o[j]].priority && o[i] < o[j]) by {
            if j < a.len() {
                assert(o[i] == a[i]);
                assert(o[j] == a[j]);
            } else if i < a.len() {
                assert(o[i] == a[i]);
                assert(o[j] == w[j - a.len()]);
            } else {
                assert(o[i] == w[i - a.len()]);
                assert(o[j] == w[j - a.len()]);
            }
        }
        assert forall|k: int| 0 <= k < s.len() && #[trigger] s[k].enabled && s[k].priority <= p implies o.contains(
            k,
        ) by {
            if s[k].priority < p {
                let i = choose|i: int| 0 <= i < a.len() && a[i] == k;
                assert(o[i] == k);
            } else {
                let i = choose|i: int| 0 <= i < w.len() && w[i] == k;
                assert(o[i + a.len()] == k);
            }
        }
    }
}

/// The servers offered correspond one to one with the enabled entries: the
/// `i`-th offered server is the entry at position `available_order(s)[i]`;
/// these positions are distinct, each enabled entry's position occurs, and
/// positions come by ascending priority, and by ascending position within a
/// priority.
pub proof fn law_available_servers_order(s: Seq<ServerConfigView>)
    ensures
        ({
            let o = available_order(s);
            let a = available_servers(s);
            &&& a.len() == o.len()
            &&& forall|i: int|
                0 <= i < o.len() ==> 0 <= #[trigger] o[i] < s.len() && s[o[i]].enabled && a[i] == s[o[i]]
            &&& forall|i: int, j: int|
                0 <= i < j < o.len() ==> s[#[trigger] o[i]].priority < s[#[trigger] o[j]].priority || (
                s[o[i]].priority == s[o[j]].priority && o[i] < o[j])
            &&& forall|i: int, j: int| 0 <= i < o.len() && 0 <= j < o.len() && i != j ==> #[trigger] o[i] != #[trigger] o[j]
            &&& forall|k: int| 0 <= k < s.len() && #[trigger] s[k].enabled ==> o.contains(k)
        }),
{
    lemma_ordered_indices_pick(s, 255);
    lemma_ordered_indices_props(s, 255);
    let o = available_order(s);
    assert forall|i: int, j: int| 0 <= i < o.len() && 0 <= j < o.len() && i != j implies #[trigger] o[i] != #[trigger] o[j] by {
        if i < j {
            assert(s[o[i]].priority < s[o[j]].priority || o[i] < o[j]);
        } else {
            assert(s[o[j]].priority < s[o[i]].priority || o[j] < o[i]);
        }
    }
}

/// A configuration read from the file is the one in force after start-up,
/// whatever its version or other fields; only when no configuration could be
/// read is the built-in one used.
pub proof fn law_loaded_config_in_force(stored: StoredConfig)
    ensures
        stored matches StoredConfig::Loaded(c) ==> startup_config(stored) == c@,
        !(stored is Loaded) ==> startup_config(stored) == default_config(),
{
}

} // verus!
