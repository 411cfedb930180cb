use vstd::prelude::*;
use crate::pubkey::Pubkey;

verus! {

/// `i` is the first position of `k` in `s`.
pub open spec fn is_first_index(s: Seq<Pubkey>, k: Pubkey, i: int) -> bool {
    &&& 0 <= i < s.len()
    &&& s[i] == k
    &&& forall|j: int| 0 <= j < i ==> s[j] != k
}

/// `k` occurs in `s`.
pub open spec fn occurs(s: Seq<Pubkey>, k: Pubkey) -> bool {
    exists|i: int| is_first_index(s, k, i)
}

/// The first position of `k` in `s` (meaningful when `k` occurs).
pub open spec fn first_index_of(s: Seq<Pubkey>, k: Pubkey) -> int {
    choose|i: int| is_first_index(s, k, i)
}

/// The position of the entry that follows `previous` in `s`: the first entry
/// when there is no previous one, the entry right after the first occurrence
/// of `previous` otherwise, and none when `previous` is absent or last.
pub open spec fn spec_next_after(s: Seq<Pubkey>, previous: Option<Pubkey>) -> Option<int> {
    match previous {
        None => if s.len() > 0 { Some(0int) } else { None },
        Some(p) => if occurs(s, p) && first_index_of(s, p) + 1 < s.len() {
            Some(first_index_of(s, p) + 1)
        } else {
            None
        },
    }
}

proof fn lemma_first_index_unique(s: Seq<Pubkey>, k: Pubkey, i: int, j: int)
    requires
        is_first_index(s, k, i),
        is_first_index(s, k, j),
    ensures
        i == j,
{
    if i < j {
        assert(s[i] != k);
    } else if j < i {
        assert(s[j] != k);
    }
}

/// Finds the entry that follows `previous` among `keys` (the fund's restaking
/// vaults, say): `keys.iter().skip_while(|k| k != previous).nth(1)`, or the
/// first entry when there is no previous one.
pub fn next_after(keys: &Vec<Pubkey>, previous: Option<Pubkey>) -> (r: Option<usize>)
    ensures
        r matches Some(i) ==> i < keys.len(),
        r == (match spec_next_after(keys@, previous) { Some(i) => Some(i as usize), None => None }),
{
    match previous {
        None => {
            if keys.len() > 0 { Some(0) } else { None }
        },
        Some(p) => {
            let mut i: usize = 0;
            while i < keys.len()
                invariant
                    i <= keys.len(),
                    previous == Some(p),
                    forall|j: int| 0 <= j < i ==> keys@[j] != p,
                decreases keys.len() - i,
            {
                if keys[i] == p {
                    assert(is_first_index(keys@, p, i as int));
                    proof {
                        assert(occurs(keys@, p));
                        let c = first_index_of(keys@, p);
                        lemma_first_index_unique(keys@, p, c, i as int);
                        assert(c == i as int);
                    }
                    if i + 1 < keys.len() {
                        return Some(i + 1);
                    } else {
                        return None;
                    }
                }
                i += 1;
            }
            assert(!occurs(keys@, p));
            None
        },
    }
}

/// When no key occurs twice, the entry after the one at `i` is the one at
/// `i + 1`, and there is none after the last: walking with `next_after`
/// from no previous entry visits every entry once, in order.
pub proof fn lemma_next_after_walks_in_order(s: Seq<Pubkey>, i: int)
    requires
        s.no_duplicates(),
        0 <= i < s.len(),
    ensures
        spec_next_after(s, Some(s[i])) == (if i + 1 < s.len() { Some(i + 1) } else { None::<int> }),
        spec_next_after(s, None) == Some(0int),
{
    assert(is_first_index(s, s[i], i));
    assert(occurs(s, s[i]));
    let c = first_index_of(s, s[i]);
    lemma_first_index_unique(s, s[i], c, i);
}

/// What a command decides about one entry while looking for work.
#[derive(Clone, Copy, PartialEq, Eq, Structural, Debug)]
pub enum StepDecision {
    /// Nothing to do here; look at the next entry.
    Skip,
    /// Work on this entry.
    Take,
    /// The fund is misconfigured; the command fails.
    Fail,
}

/// The first entry at or after `start` to work on, looking at the entries in
/// order: none when every remaining entry is skipped, an error when an entry
/// that fails comes before any to work on.
pub open spec fn spec_first_taken(ds: Seq<StepDecision>, start: int) -> Result<Option<int>, crate::errors::ErrorCode>
    decreases ds.len() - start,
{
    if start < 0 || start >= ds.len() {
        Ok(None)
    } else if ds[start] == StepDecision::Take {
        Ok(Some(start))
    } else if ds[start] == StepDecision::Fail {
        Err(crate::errors::ErrorCode::FundOperationCommandExecutionFailedException)
    } else {
        spec_first_taken(ds, start + 1)
    }
}

/// The entry found is at or after `start`, in range, and taken.
pub proof fn lemma_first_taken_bounds(ds: Seq<StepDecision>, start: int)
    requires
        spec_first_taken(ds, start) matches Ok(Some(_)),
    ensures
        spec_first_taken(ds, start) matches Ok(Some(i)) && start <= i < ds.len() && ds[i] == StepDecision::Take,
    decreases ds.len() - start,
{
    if start >= 0 && start < ds.len() && ds[start] == StepDecision::Skip {
        lemma_first_taken_bounds(ds, start + 1);
    }
}

/// Walks the entries from `start` until one is taken or one fails.
pub fn first_taken(ds: &Vec<StepDecision>, start: usize) -> (r: Result<Option<usize>, crate::errors::ErrorCode>)
    ensures
        r == (match spec_first_taken(ds@, start as int) {
            Ok(Some(i)) => Ok(Some(i as usize)),
            Ok(None) => Ok(None),
            Err(e) => Err(e),
        }),
        r matches Ok(Some(i)) ==> start <= i < ds.len() && ds@[i as int] == StepDecision::Take,
{
    let mut i: usize = start;
    while i < ds.len()
        invariant
            start <= i,
            spec_first_taken(ds@, start as int) == spec_first_taken(ds@, i as int),
        decreases ds.len() - i,
    {
        match ds[i] {
            StepDecision::Take => return Ok(Some(i)),
            StepDecision::Fail => return Err(crate::errors::ErrorCode::FundOperationCommandExecutionFailedException),
            StepDecision::Skip => {},
        }
        i += 1;
    }
    Ok(None)
}

/// The entry to work on after `previous` (or from the first one): when no
/// key occurs twice this is what looking at the entry after `previous`, and
/// falling back to the one after that whenever there is nothing to do, finds.
pub fn next_taken(keys: &Vec<Pubkey>, ds: &Vec<StepDecision>, previous: Option<Pubkey>)
    -> (r: Result<Option<usize>, crate::errors::ErrorCode>)
    requires
        keys.len() == ds.len(),
    ensures
        r == (match spec_next_after(keys@, previous) {
            None => Ok(None),
            Some(start) => match spec_first_taken(ds@, start) {
                Ok(Some(i)) => Ok(Some(i as usize)),
                Ok(None) => Ok(None),
                Err(e) => Err(e),
            },
        }),
        r matches Ok(Some(i)) ==> i < ds.len() && ds@[i as int] == StepDecision::Take,
{
    match next_after(keys, previous) {
        None => Ok(None),
        Some(start) => first_taken(ds, start),
    }
}

/// All items but the first (`items[1..].to_vec()`; no items stay when there are none).
pub fn skip_first<T: Copy>(items: &Vec<T>) -> (r: Vec<T>)
    ensures
        items.len() == 0 ==> r@ == Seq::<T>::empty(),
        items.len() > 0 ==> r@ == items@.drop_first(),
{
    let mut r: Vec<T> = Vec::new();
    let mut i: usize = 1;
    while i < items.len()
        invariant
            1 <= i,
            items.len() > 0 ==> i <= items.len(),
            items.len() > 0 ==> r@ == items@.subrange(1, i as int),
            items.len() == 0 ==> r@ == Seq::<T>::empty(),
        decreases items.len() - i,
    {
        r.push(items[i]);
        i += 1;
        assert(r@ =~= items@.subrange(1, i as int));
    }
    proof {
        if items.len() > 0 {
            assert(items@.subrange(1, items.len() as int) =~= items@.drop_first());
        }
    }
    r
}

/// How many of `n` remaining entries a step that serves at most `size` takes.
pub open spec fn spec_batch_size(n: int, size: int) -> int {
    if n < size { n } else { size }
}

/// The batches in which steps of at most `size` entries serve `s`: the first
/// batch, then the batches of what is left.
pub open spec fn spec_batches<T>(s: Seq<T>, size: int) -> Seq<Seq<T>>
    recommends
        size > 0,
    decreases s.len(),
{
    if s.len() == 0 || size <= 0 {
        Seq::empty()
    } else {
        let b = spec_batch_size(s.len() as int, size);
        seq![s.take(b)] + spec_batches(s.skip(b), size)
    }
}

/// All the batches, one after the other.
pub open spec fn flatten_batches<T>(bs: Seq<Seq<T>>) -> Seq<T>
    decreases bs.len(),
{
    if bs.len() == 0 {
        Seq::empty()
    } else {
        bs[0] + flatten_batches(bs.drop_first())
    }
}

/// Serving entries batch after batch serves every entry exactly once, in
/// order, and no step serves none or more than `size`.
pub proof fn lemma_batches_serve_every_entry_once<T>(s: Seq<T>, size: int)
    requires
        size > 0,
    ensures
        flatten_batches(spec_batches(s, size)) == s,
        forall|i: int| 0 <= i < spec_batches(s, size).len() ==>
            0 < #[trigger] spec_batches(s, size)[i].len() <= size,
    decreases s.len(),
{
    if s.len() > 0 {
        let b = spec_batch_size(s.len() as int, size);
        let bs = spec_batches(s, size);
        lemma_batches_serve_every_entry_once(s.skip(b), size);
        assert(bs.drop_first() =~= spec_batches(s.skip(b), size));
        assert(s.take(b) + s.skip(b) =~= s);
        assert forall|i: int| 0 <= i < bs.len() implies 0 < #[trigger] bs[i].len() <= size by {
            if i > 0 {
                assert(bs[i] == spec_batches(s.skip(b), size)[i - 1]);
            }
        }
    } else {
        assert(spec_batches(s, size) =~= Seq::<Seq<T>>::empty());
    }
}

/// The entries from position `n` on (`s[n..].to_vec()`).
pub fn skip_n<T: Copy>(s: &Vec<T>, n: usize) -> (r: Vec<T>)
    requires
        n <= s.len(),
    ensures
        r@ == s@.skip(n as int),
{
    let mut r: Vec<T> = Vec::new();
    let mut k: usize = n;
    while k < s.len()
        invariant
            n <= k <= s.len(),
            r@ == s@.subrange(n as int, k as int),
        decreases s.len() - k,
    {
        r.push(s[k]);
        k += 1;
        assert(r@ =~= s@.subrange(n as int, k as int));
    }
    assert(r@ =~= s@.skip(n as int));
    r
}

/// Whether `k` is among `keys` (an account among those handed over, say).
pub fn contains_key(keys: &Vec<Pubkey>, k: Pubkey) -> (r: bool)
    ensures
        r == keys@.contains(k),
{
    let mut i: usize = 0;
    while i < keys.len()
        invariant
            i <= keys.len(),
            forall|j: int| 0 <= j < i ==> keys@[j] != k,
        decreases keys.len() - i,
    {
        if keys[i] == k {
            assert(keys@[i as int] == k);
            return true;
        }
        i += 1;
    }
    false
}

/// Whether the `count` accounts from `offset` on are the first `count`
/// expected ones, in order.
pub fn keys_match_from(account_keys: &Vec<Pubkey>, offset: usize, expected: &Vec<Pubkey>, count: usize) -> (r: bool)
    requires
        offset + count <= account_keys.len(),
        count <= expected.len(),
    ensures
        r == (account_keys@.subrange(offset as int, offset + count) == expected@.take(count as int)),
{
    let mut i: usize = 0;
    while i < count
        invariant
            i <= count,
            offset + count <= account_keys.len(),
            count <= expected.len(),
            forall|j: int| 0 <= j < i ==> account_keys@[offset + j] == expected@[j],
        decreases count - i,
    {
        if account_keys[offset + i] != expected[i] {
            assert(account_keys@.subrange(offset as int, offset + count)[i as int] != expected@.take(count as int)[i as int]);
            return false;
        }
        i += 1;
    }
    assert(account_keys@.subrange(offset as int, offset + count) =~= expected@.take(count as int));
    true
}

} // verus!
