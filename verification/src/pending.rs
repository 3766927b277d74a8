//! The pending-work view: a stateless query that collects one item per
//! progress token of each contributing provider, providers visited in
//! reverse registration order, and stably sorts the collection by recency.

use vstd::prelude::*;

verus! {

/// Progress reported under one token of one provider.
pub struct TokenProgress {
    pub token: String,
    pub message: Option<String>,
    pub percentage: Option<u8>,
    pub last_update_at: u64,
}

/// One provider's live snapshot: its name and its token-to-progress entries,
/// in reported order.
pub struct ProviderStatus {
    pub name: String,
    pub pending_work: Vec<TokenProgress>,
}

/// One unit of pending work, ready to be shown in the status line.
pub struct PendingWorkItem {
    pub provider_name: String,
    pub token: String,
    pub message: Option<String>,
    pub percentage: Option<u8>,
    pub last_update_at: u64,
}

/// The pending item carrying one token's progress for one provider.
pub open spec fn item_of(p: ProviderStatus, w: TokenProgress) -> PendingWorkItem {
    PendingWorkItem {
        provider_name: p.name,
        token: w.token,
        message: w.message,
        percentage: w.percentage,
        last_update_at: w.last_update_at,
    }
}

/// One item per progress token of the provider, in reported order.
pub open spec fn provider_items(p: ProviderStatus) -> Seq<PendingWorkItem> {
    Seq::new(p.pending_work@.len(), |i: int| item_of(p, p.pending_work@[i]))
}

/// Whether a provider shows up at all: it has at least one non-empty
/// progress token.
pub open spec fn contributes(p: ProviderStatus) -> bool {
    exists|i: int| 0 <= i < p.pending_work@.len() && p.pending_work@[i].token@.len() > 0
}

/// What one provider adds to the collection.
pub open spec fn maybe_items(p: ProviderStatus) -> Seq<PendingWorkItem> {
    if contributes(p) {
        provider_items(p)
    } else {
        Seq::empty()
    }
}

/// The items of every provider, providers visited in reverse registration
/// order (newest-registered first).
pub open spec fn gathered(ps: Seq<ProviderStatus>) -> Seq<PendingWorkItem>
    decreases ps.len(),
{
    if ps.len() == 0 {
        Seq::empty()
    } else {
        gathered(ps.drop_first()) + maybe_items(ps.first())
    }
}

/// Where a stable descending insertion of `x` lands: after every leading
/// item at least as recent as `x`.
pub open spec fn insert_position(s: Seq<PendingWorkItem>, x: PendingWorkItem) -> int
    decreases s.len(),
{
    if s.len() > 0 && s.first().last_update_at >= x.last_update_at {
        1 + insert_position(s.drop_first(), x)
    } else {
        0
    }
}

/// Stable insertion of `x` by recency: `x` goes after every leading item
/// whose timestamp is at least its own, and before the rest.
pub open spec fn spec_insert_desc(s: Seq<PendingWorkItem>, x: PendingWorkItem) -> Seq<
    PendingWorkItem,
>
    decreases s.len(),
{
    if s.len() > 0 && s.first().last_update_at >= x.last_update_at {
        seq![s.first()] + spec_insert_desc(s.drop_first(), x)
    } else {
        seq![x] + s
    }
}

/// Stable sort by timestamp, most recent first: repeated stable insertion in
/// input order.
pub open spec fn spec_sort_desc(s: Seq<PendingWorkItem>) -> Seq<PendingWorkItem>
    decreases s.len(),
{
    if s.len() == 0 {
        Seq::empty()
    } else {
        spec_insert_desc(spec_sort_desc(s.drop_last()), s.last())
    }
}

/// The whole pending-work view: gather, then stable sort by recency.
pub open spec fn pending_work_spec(ps: Seq<ProviderStatus>) -> Seq<PendingWorkItem> {
    spec_sort_desc(gathered(ps))
}

/// Ordered by timestamp, most recent first.
pub open spec fn sorted_by_recency(s: Seq<PendingWorkItem>) -> bool {
    forall|i: int, j: int|
        0 <= i <= j < s.len() ==> s[i].last_update_at >= s[j].last_update_at
}

/// The items of `s` carrying timestamp `t`, in order.
pub open spec fn with_timestamp(s: Seq<PendingWorkItem>, t: u64) -> Seq<PendingWorkItem>
    decreases s.len(),
{
    if s.len() == 0 {
        Seq::empty()
    } else if s.last().last_update_at == t {
        with_timestamp(s.drop_last(), t).push(s.last())
    } else {
        with_timestamp(s.drop_last(), t)
    }
}

proof fn lemma_insert_desc_as_insert(s: Seq<PendingWorkItem>, x: PendingWorkItem)
    ensures
        0 <= insert_position(s, x) <= s.len(),
        spec_insert_desc(s, x) == s.insert(insert_position(s, x), x),
        forall|i: int|
            0 <= i < insert_position(s, x) ==> s[i].last_update_at >= x.last_update_at,
        insert_position(s, x) < s.len() ==> s[insert_position(s, x)].last_update_at
            < x.last_update_at,
    decreases s.len(),
{
    if s.len() > 0 && s.first().last_update_at >= x.last_update_at {
        lemma_insert_desc_as_insert(s.drop_first(), x);
        let k = insert_position(s.drop_first(), x);
        assert(spec_insert_desc(s, x) =~= s.insert(1 + k, x));
        assert forall|i: int| 0 <= i < 1 + k implies s[i].last_update_at
            >= x.last_update_at by {
            if i > 0 {
                assert(s.drop_first()[i - 1].last_update_at >= x.last_update_at);
            }
        }
    } else {
        assert(spec_insert_desc(s, x) =~= s.insert(0, x));
    }
}

proof fn lemma_insert_desc_sorted(s: Seq<PendingWorkItem>, x: PendingWorkItem)
    requires
        sorted_by_recency(s),
    ensures
        sorted_by_recency(spec_insert_desc(s, x)),
        spec_insert_desc(s, x).len() == s.len() + 1,
{
    lemma_insert_desc_as_insert(s, x);
    let k = insert_position(s, x);
    let r = spec_insert_desc(s, x);
    assert forall|i: int, j: int| 0 <= i <= j < r.len() implies r[i].last_update_at
        >= r[j].last_update_at by {
        if i < k && j > k {
            assert(s[j - 1].last_update_at <= s[k].last_update_at);
        }
    }
}

proof fn lemma_sort_desc_sorted_len(s: Seq<PendingWorkItem>)
    ensures
        sorted_by_recency(spec_sort_desc(s)),
        spec_sort_desc(s).len() == s.len(),
    decreases s.len(),
{
    if s.len() > 0 {
        lemma_sort_desc_sorted_len(s.drop_last());
        lemma_insert_desc_sorted(spec_sort_desc(s.drop_last()), s.last());
    }
}

proof fn lemma_insert_desc_multiset(s: Seq<PendingWorkItem>, x: PendingWorkItem)
    ensures
        spec_insert_desc(s, x).to_multiset() == s.to_multiset().insert(x),
{
    broadcast use vstd::seq_lib::to_multiset_insert;

    lemma_insert_desc_as_insert(s, x);
    assert(s.insert(insert_position(s, x), x).to_multiset() == s.to_multiset().insert(x));
}

proof fn lemma_sort_desc_multiset(s: Seq<PendingWorkItem>)
    ensures
        spec_sort_desc(s).to_multiset() == s.to_multiset(),
    decreases s.len(),
{
    broadcast use vstd::seq_lib::to_multiset_build;

    if s.len() > 0 {
        lemma_sort_desc_multiset(s.drop_last());
        lemma_insert_desc_multiset(spec_sort_desc(s.drop_last()), s.last());
        assert(s.drop_last().push(s.last()) =~= s);
        assert(s.drop_last().push(s.last()).to_multiset() =~= s.drop_last().to_multiset().insert(
            s.last(),
        ));
        assert(spec_sort_desc(s).to_multiset() == spec_sort_desc(
            s.drop_last(),
        ).to_multiset().insert(s.last()));
        assert(spec_sort_desc(s.drop_last()).to_multiset().insert(s.last())
            == s.drop_last().to_multiset().insert(s.last()));
        assert(s.drop_last().push(s.last()).to_multiset() == s.to_multiset());
    } else {
        assert(s =~= Seq::<PendingWorkItem>::empty());
    }
}

proof fn lemma_with_timestamp_single(x: PendingWorkItem, t: u64)
    ensures
        with_timestamp(seq![x], t) == (if x.last_update_at == t {
            seq![x]
        } else {
            Seq::<PendingWorkItem>::empty()
        }),
{
    let s = seq![x];
    assert(s.last() == x);
    assert(s.drop_last() =~= Seq::<PendingWorkItem>::empty());
    assert(with_timestamp(Seq::<PendingWorkItem>::empty(), t)
        == Seq::<PendingWorkItem>::empty());
    assert(with_timestamp(s.drop_last(), t) == Seq::<PendingWorkItem>::empty());
    if x.last_update_at == t {
        assert(with_timestamp(s, t) =~= seq![x]);
    }
}

proof fn lemma_with_timestamp_add(a: Seq<PendingWorkItem>, b: Seq<PendingWorkItem>, t: u64)
    ensures
        with_timestamp(a + b, t) == with_timestamp(a, t) + with_timestamp(b, t),
    decreases b.len(),
{
    if b.len() == 0 {
        assert(a + b =~= a);
        assert(with_timestamp(a, t) + with_timestamp(b, t) =~= with_timestamp(a, t));
    } else {
        lemma_with_timestamp_add(a, b.drop_last(), t);
        assert((a + b).drop_last() =~= a + b.drop_last());
        assert((a + b).last() == b.last());
        if b.last().last_update_at == t {
            assert(with_timestamp(a, t) + with_timestamp(b, t) =~= (with_timestamp(a, t)
                + with_timestamp(b.drop_last(), t)).push(b.last()));
        }
    }
}

proof fn lemma_with_timestamp_none(s: Seq<PendingWorkItem>, t: u64)
    requires
        forall|i: int| 0 <= i < s.len() ==> s[i].last_update_at != t,
    ensures
        with_timestamp(s, t) == Seq::<PendingWorkItem>::empty(),
    decreases s.len(),
{
    if s.len() > 0 {
        lemma_with_timestamp_none(s.drop_last(), t);
    }
}

proof fn lemma_insert_desc_with_timestamp(s: Seq<PendingWorkItem>, x: PendingWorkItem, t: u64)
    requires
        sorted_by_recency(s),
    ensures
        with_timestamp(spec_insert_desc(s, x), t) == (if x.last_update_at == t {
            with_timestamp(s, t).push(x)
        } else {
            with_timestamp(s, t)
        }),
{
    lemma_insert_desc_as_insert(s, x);
    let k = insert_position(s, x);
    let pre = s.take(k);
    let post = s.skip(k);
    let r = spec_insert_desc(s, x);
    assert(r =~= (pre + seq![x]) + post);
    lemma_with_timestamp_add(pre + seq![x], post, t);
    lemma_with_timestamp_add(pre, seq![x], t);
    lemma_with_timestamp_add(pre, post, t);
    lemma_with_timestamp_single(x, t);
    assert(pre + post =~= s);
    if x.last_update_at == t {
        assert forall|i: int| 0 <= i < post.len() implies post[i].last_update_at != t by {
            assert(post[i] == s[k + i]);
            assert(s[k].last_update_at <= s[k].last_update_at);
            assert(s[k + i].last_update_at <= s[k].last_update_at);
        }
        lemma_with_timestamp_none(post, t);
        assert(with_timestamp(r, t) =~= with_timestamp(s, t).push(x));
    } else {
        assert(with_timestamp(r, t) =~= with_timestamp(s, t));
    }
}

proof fn lemma_sort_desc_with_timestamp(s: Seq<PendingWorkItem>, t: u64)
    ensures
        with_timestamp(spec_sort_desc(s), t) == with_timestamp(s, t),
    decreases s.len(),
{
    if s.len() > 0 {
        lemma_sort_desc_with_timestamp(s.drop_last(), t);
        lemma_sort_desc_sorted_len(s.drop_last());
        lemma_insert_desc_with_timestamp(spec_sort_desc(s.drop_last()), s.last(), t);
    }
}

/// Pending-work ordering law: the view holds exactly the gathered items,
/// ordered by timestamp with the most recent first, and the order is
/// deterministic and stable — items with equal timestamps keep the order in
/// which they were gathered.
pub proof fn lemma_pending_work_order(ps: Seq<ProviderStatus>)
    ensures
        pending_work_spec(ps).len() == gathered(ps).len(),
        pending_work_spec(ps).to_multiset() == gathered(ps).to_multiset(),
        sorted_by_recency(pending_work_spec(ps)),
        forall|t: u64| #[trigger]
            with_timestamp(pending_work_spec(ps), t) == with_timestamp(gathered(ps), t),
{
    lemma_sort_desc_sorted_len(gathered(ps));
    lemma_sort_desc_multiset(gathered(ps));
    assert forall|t: u64| #[trigger] with_timestamp(pending_work_spec(ps), t) == with_timestamp(
        gathered(ps),
        t,
    ) by {
        lemma_sort_desc_with_timestamp(gathered(ps), t);
    }
}

/// Head-selection law: when any work is pending, the head of the view is a
/// gathered item with the maximum timestamp.
pub proof fn lemma_head_most_recent(ps: Seq<ProviderStatus>)
    requires
        gathered(ps).len() > 0,
    ensures
        pending_work_spec(ps).len() == gathered(ps).len(),
        gathered(ps).contains(pending_work_spec(ps).first()),
        forall|i: int|
            0 <= i < gathered(ps).len() ==> pending_work_spec(ps).first().last_update_at
                >= gathered(ps)[i].last_update_at,
{
    broadcast use vstd::seq_lib::to_multiset_contains;

    let g = gathered(ps);
    let r = pending_work_spec(ps);
    lemma_sort_desc_sorted_len(g);
    lemma_sort_desc_multiset(g);
    assert(r.contains(r.first()));
    assert(r.to_multiset().count(r.first()) > 0);
    assert(g.contains(r.first()));
    assert forall|i: int| 0 <= i < g.len() implies r.first().last_update_at
        >= g[i].last_update_at by {
        assert(g.contains(g[i]));
        assert(g.to_multiset().count(g[i]) > 0);
        assert(r.contains(g[i]));
        let j = choose|j: int| 0 <= j < r.len() && r[j] == g[i];
        assert(r.first().last_update_at >= r[j].last_update_at);
    }
}

proof fn lemma_insert_position_characterization(s: Seq<PendingWorkItem>, x: PendingWorkItem, k: int)
    requires
        0 <= k <= s.len(),
        forall|i: int| 0 <= i < k ==> s[i].last_update_at >= x.last_update_at,
        k < s.len() ==> s[k].last_update_at < x.last_update_at,
    ensures
        insert_position(s, x) == k,
    decreases s.len(),
{
    if k > 0 {
        assert forall|i: int| 0 <= i < k - 1 implies s.drop_first()[i].last_update_at
            >= x.last_update_at by {
            assert(s[i + 1].last_update_at >= x.last_update_at);
        }
        assert(k - 1 < s.drop_first().len() ==> s.drop_first()[k - 1].last_update_at
            < x.last_update_at);
        lemma_insert_position_characterization(s.drop_first(), x, k - 1);
    }
}

fn provider_contributes(p: &ProviderStatus) -> (r: bool)
    ensures
        r == contributes(*p),
{
    let n = p.pending_work.len();
    let mut j: usize = 0;
    while j < n
        invariant
            j <= n,
            n == p.pending_work@.len(),
            forall|k: int| 0 <= k < j ==> p.pending_work@[k].token@.len() == 0,
        decreases n - j,
    {
        if !p.pending_work[j].token.as_str().is_empty() {
            return true;
        }
        j += 1;
    }
    false
}

fn append_provider_items(out: &mut Vec<PendingWorkItem>, p: &ProviderStatus)
    ensures
        final(out)@ == old(out)@ + maybe_items(*p),
{
    if !provider_contributes(p) {
        proof {
            assert(out@ =~= old(out)@ + maybe_items(*p));
        }
        return;
    }
    let n = p.pending_work.len();
    let mut j: usize = 0;
    while j < n
        invariant
            j <= n,
            n == p.pending_work@.len(),
            contributes(*p),
            out@ == old(out)@ + provider_items(*p).take(j as int),
        decreases n - j,
    {
        let w = &p.pending_work[j];
        let msg = match &w.message {
            Option::Some(m) => Option::Some(m.clone()),
            Option::None => Option::None,
        };
        let item = PendingWorkItem {
            provider_name: p.name.clone(),
            token: w.token.clone(),
            message: msg,
            percentage: w.percentage,
            last_update_at: w.last_update_at,
        };
        proof {
            assert(item == item_of(*p, p.pending_work@[j as int]));
        }
        out.push(item);
        proof {
            assert(out@ =~= old(out)@ + provider_items(*p).take(j as int + 1));
        }
        j += 1;
    }
    proof {
        assert(provider_items(*p).take(n as int) =~= provider_items(*p));
    }
}

fn gather_pending(providers: &Vec<ProviderStatus>) -> (r: Vec<PendingWorkItem>)
    ensures
        r@ == gathered(providers@),
{
    let ghost ps = providers@;
    let mut out: Vec<PendingWorkItem> = Vec::new();
    let mut i: usize = providers.len();
    proof {
        assert(ps.skip(i as int) =~= Seq::<ProviderStatus>::empty());
    }
    while i > 0
        invariant
            i <= ps.len(),
            providers@ == ps,
            out@ == gathered(ps.skip(i as int)),
        decreases i,
    {
        i -= 1;
        append_provider_items(&mut out, &providers[i]);
        proof {
            assert(ps.skip(i as int).drop_first() =~= ps.skip(i as int + 1));
            assert(ps.skip(i as int).first() == ps[i as int]);
        }
    }
    proof {
        assert(ps.skip(0) =~= ps);
    }
    out
}

fn insert_by_recency(out: &mut Vec<PendingWorkItem>, x: PendingWorkItem)
    ensures
        final(out)@ == spec_insert_desc(old(out)@, x),
{
    let ghost s = out@;
    let n = out.len();
    let mut idx: usize = 0;
    while idx < n && out[idx].last_update_at >= x.last_update_at
        invariant
            idx <= n,
            n == s.len(),
            out@ == s,
            forall|i: int| 0 <= i < idx ==> s[i].last_update_at >= x.last_update_at,
        decreases n - idx,
    {
        idx += 1;
    }
    proof {
        lemma_insert_position_characterization(s, x, idx as int);
        lemma_insert_desc_as_insert(s, x);
    }
    out.insert(idx, x);
}

fn sort_by_recency(items: Vec<PendingWorkItem>) -> (r: Vec<PendingWorkItem>)
    ensures
        r@ == spec_sort_desc(items@),
{
    let ghost all = items@;
    let mut rest = items;
    let mut out: Vec<PendingWorkItem> = Vec::new();
    proof {
        assert(all.skip(0) =~= all);
        assert(all.take(0) =~= Seq::<PendingWorkItem>::empty());
    }
    while rest.len() > 0
        invariant
            rest@.len() <= all.len(),
            rest@ == all.skip(all.len() - rest@.len()),
            out@ == spec_sort_desc(all.take(all.len() - rest@.len())),
        decreases rest@.len(),
    {
        let ghost k = all.len() - rest@.len();
        let x = rest.remove(0);
        proof {
            assert(x == all[k]);
        }
        insert_by_recency(&mut out, x);
        proof {
            assert(rest@ =~= all.skip(k + 1));
            assert(all.take(k + 1).drop_last() =~= all.take(k));
            assert(all.take(k + 1).last() == all[k]);
        }
    }
    proof {
        assert(all.take(all.len() as int) =~= all);
    }
    out
}

/// Collects the pending work of the given provider snapshots: one item per
/// progress token of each contributing provider, providers visited in
/// reverse registration order, the whole collection stably sorted by
/// recency, most recent first.
pub fn pending_language_server_work(providers: &Vec<ProviderStatus>) -> (r: Vec<PendingWorkItem>)
    ensures
        r@ == pending_work_spec(providers@),
{
    let gathered_items = gather_pending(providers);
    sort_by_recency(gathered_items)
}

} // verus!
