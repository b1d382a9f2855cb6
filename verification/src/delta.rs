//! The change detector: given the previously cached manifest and a newly
//! loaded one, it selects the records that need download — those whose `id`
//! is new or whose `changed` stamp differs from the cached record's.

use vstd::prelude::*;

use crate::schema::DrupalFileAsset;
use crate::text::str_eq;

verus! {

/// The cached record an `id` resolves to: the last record of `old` with
/// that `id`, if any.
pub open spec fn old_entry(old: Seq<DrupalFileAsset>, id: Seq<char>) -> Option<DrupalFileAsset>
    decreases old.len(),
{
    if old.len() == 0 {
        None
    } else if old.last().id@ == id {
        Some(old.last())
    } else {
        old_entry(old.drop_last(), id)
    }
}

/// Whether a record requires download against the cached records `old`.
pub open spec fn needs_download(old: Seq<DrupalFileAsset>, a: DrupalFileAsset) -> bool {
    match old_entry(old, a.id@) {
        None => true,
        Some(o) => o.changed != a.changed,
    }
}

/// The sync delta: the records of `new`, in order, that need download.
pub open spec fn delta_spec(old: Seq<DrupalFileAsset>, new: Seq<DrupalFileAsset>) -> Seq<
    DrupalFileAsset,
>
    decreases new.len(),
{
    if new.len() == 0 {
        Seq::empty()
    } else {
        delta_spec(old, new.drop_last()) + (if needs_download(old, new.last()) {
            seq![new.last()]
        } else {
            Seq::empty()
        })
    }
}

fn cached_changed(old: &[DrupalFileAsset], id: &str) -> (r: Option<i64>)
    ensures
        r == match old_entry(old@, id@) {
            None => None::<i64>,
            Some(o) => Some(o.changed),
        },
{
    let n = old.len();
    let mut k = n;
    proof {
        assert(old@.subrange(0, n as int) =~= old@);
    }
    while k > 0
        invariant
            k <= n,
            n == old@.len(),
            old_entry(old@, id@) == old_entry(old@.subrange(0, k as int), id@),
        decreases k,
    {
        proof {
            assert(old@.subrange(0, k as int).last() == old@[k - 1]);
            assert(old@.subrange(0, k as int).drop_last() =~= old@.subrange(0, k - 1 as int));
        }
        if str_eq(old[k - 1].id.as_str(), id) {
            return Some(old[k - 1].changed);
        }
        k = k - 1;
    }
    None
}

/// Compares two record lists and returns the records of `new_assets` that
/// are new or changed against `old_assets`.
pub fn get_changed_assets(old_assets: &[DrupalFileAsset], new_assets: &[DrupalFileAsset]) -> (r:
    Vec<DrupalFileAsset>)
    ensures
        r@ == delta_spec(old_assets@, new_assets@),
{
    let n = new_assets.len();
    let mut r: Vec<DrupalFileAsset> = Vec::new();
    let mut i: usize = 0;
    proof {
        assert(new_assets@.subrange(0, 0) =~= Seq::<DrupalFileAsset>::empty());
    }
    while i < n
        invariant
            i <= n,
            n == new_assets@.len(),
            r@ == delta_spec(old_assets@, new_assets@.subrange(0, i as int)),
        decreases n - i,
    {
        proof {
            assert(new_assets@.subrange(0, i + 1 as int).drop_last() =~= new_assets@.subrange(
                0,
                i as int,
            ));
            assert(new_assets@.subrange(0, i + 1 as int).last() == new_assets@[i as int]);
        }
        let a = &new_assets[i];
        let wanted = match cached_changed(old_assets, a.id.as_str()) {
            None => true,
            Some(c) => c != a.changed,
        };
        let ghost pre_delta = delta_spec(old_assets@, new_assets@.subrange(0, i as int));
        if wanted {
            r.push(a.clone());
            proof {
                assert(r@ =~= pre_delta + seq![new_assets@[i as int]]);
            }
        } else {
            proof {
                assert(r@ =~= pre_delta + Seq::<DrupalFileAsset>::empty());
            }
        }
        i = i + 1;
    }
    proof {
        assert(new_assets@.subrange(0, n as int) =~= new_assets@);
    }
    r
}

proof fn lemma_old_entry_self(m: Seq<DrupalFileAsset>, i: int)
    requires
        forall|i1: int, i2: int| 0 <= i1 < i2 < m.len() ==> m[i1].id@ != m[i2].id@,
        0 <= i < m.len(),
    ensures
        old_entry(m, m[i].id@) == Some(m[i]),
    decreases m.len(),
{
    if m.last().id@ == m[i].id@ {
        assert(i == m.len() - 1) by {
            if i < m.len() - 1 {
                assert(m[i].id@ != m[m.len() - 1].id@);
            }
        }
    } else {
        assert(i < m.len() - 1);
        assert(m.drop_last()[i] == m[i]);
        lemma_old_entry_self(m.drop_last(), i);
    }
}

proof fn lemma_delta_all_unchanged(old: Seq<DrupalFileAsset>, s: Seq<DrupalFileAsset>)
    requires
        forall|i: int| 0 <= i < s.len() ==> !needs_download(old, #[trigger] s[i]),
    ensures
        delta_spec(old, s).len() == 0,
    decreases s.len(),
{
    if s.len() > 0 {
        assert(forall|i: int| 0 <= i < s.drop_last().len() ==> s.drop_last()[i] == s[i]);
        lemma_delta_all_unchanged(old, s.drop_last());
        assert(s[s.len() - 1] == s.last());
    }
}

/// Idempotence: a manifest with pairwise-distinct ids, compared against
/// itself, yields an empty delta — no record counts as changed against
/// itself.
pub proof fn lemma_delta_idempotent(m: Seq<DrupalFileAsset>)
    requires
        forall|i1: int, i2: int| 0 <= i1 < i2 < m.len() ==> m[i1].id@ != m[i2].id@,
    ensures
        delta_spec(m, m).len() == 0,
{
    assert forall|i: int| 0 <= i < m.len() implies !needs_download(m, #[trigger] m[i]) by {
        lemma_old_entry_self(m, i);
    }
    lemma_delta_all_unchanged(m, m);
}

proof fn lemma_old_entry_absent(old: Seq<DrupalFileAsset>, id: Seq<char>)
    requires
        forall|j: int| 0 <= j < old.len() ==> old[j].id@ != id,
    ensures
        old_entry(old, id) is None,
    decreases old.len(),
{
    if old.len() > 0 {
        assert(old[old.len() - 1].id@ != id);
        assert(forall|j: int| 0 <= j < old.drop_last().len() ==> old.drop_last()[j] == old[j]);
        lemma_old_entry_absent(old.drop_last(), id);
    }
}

proof fn lemma_delta_contains(old: Seq<DrupalFileAsset>, new: Seq<DrupalFileAsset>, i: int)
    requires
        0 <= i < new.len(),
        needs_download(old, new[i]),
    ensures
        delta_spec(old, new).contains(new[i]),
    decreases new.len(),
{
    if i == new.len() - 1 {
        let d = delta_spec(old, new);
        assert(new.last() == new[i]);
        assert(d[d.len() - 1] == new[i]);
    } else {
        assert(new.drop_last()[i] == new[i]);
        lemma_delta_contains(old, new.drop_last(), i);
        let dpre = delta_spec(old, new.drop_last());
        let k = choose|k: int| 0 <= k < dpre.len() && dpre[k] == new[i];
        assert(delta_spec(old, new)[k] == new[i]);
    }
}

/// Completeness: every record of `new` whose `id` is absent from `old`
/// appears in the delta.
pub proof fn lemma_delta_complete(old: Seq<DrupalFileAsset>, new: Seq<DrupalFileAsset>, i: int)
    requires
        0 <= i < new.len(),
        forall|j: int| 0 <= j < old.len() ==> old[j].id@ != new[i].id@,
    ensures
        delta_spec(old, new).contains(new[i]),
{
    lemma_old_entry_absent(old, new[i].id@);
    lemma_delta_contains(old, new, i);
}

} // verus!
