//! Fetching the whole item list: the ids are asked for 200 at a time, as
//! `ids.chunks(200)` splits them, each batch in one request.
use vstd::prelude::*;
use crate::search::Gw2Item;
use crate::text::{decimal, push_char, render_u128, parse_u32_spec, all_digits, is_digit, lemma_decimal_digits, law_parse_after_render};

verus! {

/// How many ids one request of the item endpoint asks for at most.
pub open spec fn batch_limit() -> int {
    200
}

/// How many requests `n` ids take: `n / 200`, rounded up.
pub open spec fn batch_count(n: nat) -> nat {
    ((n + 199) / 200) as nat
}

/// The `k`-th batch of ids, as `ids.chunks(200)` yields it.
pub open spec fn batch(ids: Seq<u32>, k: int) -> Seq<u32> {
    let start = 200 * k;
    let end = if start + 200 <= ids.len() { start + 200 } else { ids.len() as int };
    ids.subrange(start, end)
}

/// The decimal ids joined by commas.
pub open spec fn join_ids(ids: Seq<u32>) -> Seq<char>
    decreases ids.len(),
{
    if ids.len() == 0 {
        Seq::empty()
    } else if ids.len() == 1 {
        decimal(ids[0] as nat)
    } else {
        join_ids(ids.drop_last()).push(',') + decimal(ids.last() as nat)
    }
}

/// The URL that asks for a batch of items at once.
pub open spec fn batch_url(ids: Seq<u32>) -> Seq<char> {
    "https://api.guildwars2.com/v2/items?ids="@ + join_ids(ids)
}

/// Renders the URL for the ids `ids[start..end]`.
fn batch_url_of(ids: &Vec<u32>, start: usize, end: usize) -> (r: String)
    requires
        start < end <= ids@.len(),
    ensures
        r@ == batch_url(ids@.subrange(start as int, end as int)),
{
    let mut r = "https://api.guildwars2.com/v2/items?ids=".to_owned();
    let ghost prefix = r@;
    let mut j: usize = start;
    while j < end
        invariant
            start <= j <= end <= ids@.len(),
            prefix == "https://api.guildwars2.com/v2/items?ids="@,
            r@ == prefix + join_ids(ids@.subrange(start as int, j as int)),
        decreases end - j,
    {
        let ghost before = ids@.subrange(start as int, j as int);
        let ghost after = ids@.subrange(start as int, j + 1);
        assert(after.drop_last() =~= before);
        if j > start {
            push_char(&mut r, ',');
        }
        let digits = render_u128(ids[j] as u128);
        r.append(digits.as_str());
        proof {
            if j == start {
                assert(before.len() == 0);
                assert(join_ids(before) == Seq::<char>::empty());
                assert(after.len() == 1);
            }
            assert(prefix + join_ids(after) =~= r@);
        }
        j = j + 1;
    }
    r
}

/// The URLs that fetch all items of `ids`, 200 ids per request, in order.
pub fn item_batch_urls(ids: &Vec<u32>) -> (r: Vec<String>)
    ensures
        r@.len() == batch_count(ids@.len()),
        forall|k: int| 0 <= k < r@.len() ==> (#[trigger] r@[k])@ == batch_url(batch(ids@, k)),
{
    let n = ids.len();
    let mut r: Vec<String> = Vec::new();
    let mut start: usize = 0;
    let mut k: usize = 0;
    while start < n
        invariant
            n == ids@.len(),
            start <= n,
            r@.len() == k,
            start < n ==> start == 200 * k,
            start == n ==> k == batch_count(n as nat),
            forall|j: int| 0 <= j < k ==> (#[trigger] r@[j])@ == batch_url(batch(ids@, j)),
        decreases n - start,
    {
        let end: usize = if n - start > 200 { start + 200 } else { n };
        let url = batch_url_of(ids, start, end);
        assert(batch(ids@, k as int) == ids@.subrange(start as int, end as int));
        r.push(url);
        proof {
            if end == n {
                assert(k + 1 == batch_count(n as nat)) by (nonlinear_arith)
                    requires
                        start == 200 * k,
                        start < n,
                        n <= start + 200,
                ;
            }
        }
        start = end;
        k = k + 1;
    }
    r
}

/// Every id is fetched, in its place: `ids[i]` is item `i % 200` of batch
/// `i / 200`, and that batch is one of the requests.
pub proof fn law_batches_cover_ids(ids: Seq<u32>, i: int)
    requires
        0 <= i < ids.len(),
    ensures
        i / 200 < batch_count(ids.len()),
        batch(ids, i / 200)[i % 200] == ids[i],
{
    let k = i / 200;
    let n = ids.len() as int;
    assert(200 * k <= i < 200 * k + 200) by (nonlinear_arith)
        requires
            k == i / 200,
            0 <= i,
    ;
    assert(k < (n + 199) / 200) by (nonlinear_arith)
        requires
            200 * k <= i,
            i < n,
    ;
    assert(i % 200 == i - 200 * k) by (nonlinear_arith)
        requires
            k == i / 200,
            0 <= i,
    ;
}

/// Each request asks for between 1 and 200 ids, and every request but the
/// last asks for exactly 200.
pub proof fn law_batch_sizes(ids: Seq<u32>, k: int)
    requires
        0 <= k < batch_count(ids.len()),
    ensures
        1 <= batch(ids, k).len() <= batch_limit(),
        k + 1 < batch_count(ids.len()) ==> batch(ids, k).len() == batch_limit(),
{
    let n = ids.len() as int;
    assert(200 * k < n) by (nonlinear_arith)
        requires
            0 <= k,
            k < (n + 199) / 200,
            0 <= n,
    ;
    if k + 1 < batch_count(ids.len()) {
        assert(200 * k + 200 < n) by (nonlinear_arith)
            requires
                0 <= k,
                k + 1 < (n + 199) / 200,
                0 <= n,
        ;
    }
}

/// What the caller does next while fetching the batches.
#[derive(Debug)]
pub enum BatchStep {
    /// Fetch the next batch; these are the items gathered so far.
    FetchNext(Vec<Gw2Item>),
    /// Stop with this result.
    Finish(Result<Vec<Gw2Item>, String>),
}

/// Before the first batch: with no batch to fetch, the item list is empty;
/// otherwise the first batch is fetched, with nothing gathered yet.
pub fn start_batches(total: usize) -> (r: BatchStep)
    ensures
        match r {
            BatchStep::FetchNext(gathered) => total > 0 && gathered@.len() == 0,
            BatchStep::Finish(Ok(items)) => total == 0 && items@.len() == 0,
            BatchStep::Finish(Err(_)) => false,
        },
{
    if total == 0 {
        BatchStep::Finish(Ok(Vec::new()))
    } else {
        BatchStep::FetchNext(Vec::new())
    }
}

/// After batch `done` of `total` was fetched: a failed batch ends the whole
/// fetch with its error; otherwise its items are added after those gathered,
/// and the fetch goes on until the last batch is in.
pub fn after_batch(
    gathered: Vec<Gw2Item>,
    fetched: Result<Vec<Gw2Item>, String>,
    done: usize,
    total: usize,
) -> (r: BatchStep)
    requires
        done < total,
    ensures
        match fetched {
            Err(e) => r == BatchStep::Finish(Err(e)),
            Ok(items) => match r {
                BatchStep::FetchNext(next) => done + 1 < total && next@ == gathered@ + items@,
                BatchStep::Finish(Ok(all)) => done + 1 == total && all@ == gathered@ + items@,
                BatchStep::Finish(Err(_)) => false,
            },
        },
{
    match fetched {
        Err(e) => BatchStep::Finish(Err(e)),
        Ok(items) => {
            let mut all = gathered;
            let mut items = items;
            all.append(&mut items);
            if done + 1 == total {
                BatchStep::Finish(Ok(all))
            } else {
                BatchStep::FetchNext(all)
            }
        },
    }
}

/// The fields of `s` between commas, as `str::split(',')` yields them.
pub open spec fn split_commas(s: Seq<char>) -> Seq<Seq<char>>
    decreases s.len(),
{
    if s.len() == 0 {
        seq![Seq::<char>::empty()]
    } else {
        let prev = split_commas(s.drop_last());
        if s.last() == ',' {
            prev.push(Seq::<char>::empty())
        } else {
            prev.update(prev.len() - 1, prev.last().push(s.last()))
        }
    }
}

/// Splitting always gives at least one field.
proof fn lemma_split_nonempty(s: Seq<char>)
    ensures
        split_commas(s).len() >= 1,
    decreases s.len(),
{
    if s.len() > 0 {
        lemma_split_nonempty(s.drop_last());
    }
}

/// Text without commas extends the last field.
proof fn lemma_split_append(a: Seq<char>, b: Seq<char>)
    requires
        !b.contains(','),
    ensures
        split_commas(a + b) == split_commas(a).update(
            split_commas(a).len() - 1,
            split_commas(a).last() + b,
        ),
    decreases b.len(),
{
    lemma_split_nonempty(a);
    if b.len() == 0 {
        assert(a + b =~= a);
        assert(split_commas(a).last() + b =~= split_commas(a).last());
        assert(split_commas(a).update(split_commas(a).len() - 1, split_commas(a).last())
            =~= split_commas(a));
    } else {
        let b0 = b.drop_last();
        assert(!b0.contains(',')) by {
            if b0.contains(',') {
                let j = choose|j: int| 0 <= j < b0.len() && b0[j] == ',';
                assert(b[j] == ',');
            }
        }
        lemma_split_append(a, b0);
        assert((a + b).drop_last() =~= a + b0);
        assert((a + b).last() == b.last());
        assert(b.last() != ',') by {
            assert(b[b.len() - 1] == b.last());
        }
        let sa = split_commas(a);
        let last = sa.len() - 1;
        let prev = split_commas(a + b0);
        assert(prev == sa.update(last, sa.last() + b0));
        assert(prev.len() == sa.len());
        assert(prev.last() == sa.last() + b0);
        assert(split_commas(a + b) == prev.update(last, prev.last().push(b.last())));
        assert((sa.last() + b0).push(b.last()) =~= sa.last() + b);
        assert(split_commas(a + b) =~= sa.update(last, sa.last() + b));
    }
}

/// A decimal rendering holds no comma.
proof fn lemma_decimal_no_comma(n: nat)
    ensures
        !decimal(n).contains(','),
{
    lemma_decimal_digits(n);
    if decimal(n).contains(',') {
        let j = choose|j: int| 0 <= j < decimal(n).len() && decimal(n)[j] == ',';
        assert(is_digit(decimal(n)[j]));
    }
}

/// The comma-joined ids split back into the decimal texts of the ids.
proof fn lemma_split_join_ids(ids: Seq<u32>)
    requires
        ids.len() > 0,
    ensures
        split_commas(join_ids(ids)).len() == ids.len(),
        forall|i: int| 0 <= i < ids.len() ==> #[trigger] split_commas(join_ids(ids))[i] == decimal(ids[i] as nat),
    decreases ids.len(),
{
    let empty = Seq::<char>::empty();
    if ids.len() == 1 {
        lemma_decimal_no_comma(ids[0] as nat);
        lemma_split_append(empty, decimal(ids[0] as nat));
        assert(empty + decimal(ids[0] as nat) =~= decimal(ids[0] as nat));
        assert(split_commas(empty).last() + decimal(ids[0] as nat) =~= decimal(ids[0] as nat));
    } else {
        let front = ids.drop_last();
        lemma_split_join_ids(front);
        let head = join_ids(front).push(',');
        lemma_decimal_no_comma(ids.last() as nat);
        lemma_split_append(head, decimal(ids.last() as nat));
        assert(head.drop_last() =~= join_ids(front));
        assert(split_commas(head) == split_commas(join_ids(front)).push(empty));
        assert(empty + decimal(ids.last() as nat) =~= decimal(ids.last() as nat));
        let f = split_commas(join_ids(ids));
        assert forall|i: int| 0 <= i < ids.len() implies #[trigger] f[i] == decimal(ids[i] as nat) by {
            if i < ids.len() - 1 {
                assert(f[i] == split_commas(join_ids(front))[i]);
                assert(front[i] == ids[i]);
            }
        }
    }
}

/// A batch URL names exactly the requested ids: after the item endpoint's
/// `?ids=`, splitting the rest at commas gives one field per id, in order,
/// and each field parses back as that id.
pub proof fn law_batch_url_names_ids(ids: Seq<u32>)
    requires
        ids.len() > 0,
    ensures
        batch_url(ids).len() >= 40,
        batch_url(ids).take(40) == "https://api.guildwars2.com/v2/items?ids="@,
        split_commas(batch_url(ids).skip(40)).len() == ids.len(),
        forall|i: int| 0 <= i < ids.len()
            ==> parse_u32_spec(#[trigger] split_commas(batch_url(ids).skip(40))[i]) == Some(ids[i]),
{
    let prefix = "https://api.guildwars2.com/v2/items?ids="@;
    reveal_strlit("https://api.guildwars2.com/v2/items?ids=");
    assert(prefix.len() == 40);
    let u = batch_url(ids);
    assert(u.take(40) =~= prefix);
    assert(u.skip(40) =~= join_ids(ids));
    lemma_split_join_ids(ids);
    assert forall|i: int| 0 <= i < ids.len() implies parse_u32_spec(
        #[trigger] split_commas(batch_url(ids).skip(40))[i],
    ) == Some(ids[i]) by {
        law_parse_after_render(ids[i]);
    }
}

} // verus!
