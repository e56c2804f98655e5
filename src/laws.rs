use vstd::prelude::*;

use crate::entity::{Entity, NewsView, PatchUserView, PostView, UserView};
use crate::news::edited;
use crate::posts::posts_of;
use crate::store::{
    has_key, inserted, inserted_all, lemma_insert_one, next_key, unique_keys, with_keys,
};
use crate::users::patched;

verus! {

/// A filtered sequence holds exactly the elements of the sequence that pass
/// the filter, and is no longer than it.
pub proof fn lemma_filter_exact<A>(s: Seq<A>, pred: spec_fn(A) -> bool)
    ensures
        forall|v: A| #[trigger] s.filter(pred).contains(v) <==> s.contains(v) && pred(v),
        s.filter(pred).len() <= s.len(),
    decreases s.len(),
{
    reveal(Seq::filter);
    if s.len() > 0 {
        let d = s.drop_last();
        lemma_filter_exact(d, pred);
        let sub = d.filter(pred);
        let f = s.filter(pred);
        assert(d.len() == s.len() - 1);
        assert forall|v: A| #[trigger] f.contains(v) <==> s.contains(v) && pred(v) by {
            if f.contains(v) {
                let j = choose|j: int| 0 <= j < f.len() && f[j] == v;
                if j < sub.len() {
                    assert(sub[j] == v);
                    assert(sub.contains(v));
                    let i = choose|i: int| 0 <= i < d.len() && d[i] == v;
                    assert(s[i] == v);
                } else {
                    assert(s[s.len() - 1] == v);
                }
            }
            if s.contains(v) && pred(v) {
                let i = choose|i: int| 0 <= i < s.len() && s[i] == v;
                if i < s.len() - 1 {
                    assert(d[i] == v);
                    assert(d.contains(v));
                    assert(sub.contains(v));
                    let j = choose|j: int| 0 <= j < sub.len() && sub[j] == v;
                    if pred(s.last()) {
                        assert(f == sub.push(s.last()));
                        assert(f[j] == v);
                    } else {
                        assert(f == sub);
                    }
                } else {
                    assert(f[f.len() - 1] == v);
                }
            }
        }
    }
}

/// Keys are handed out in order: inserting records one after another gives
/// them the keys `next_key(s)`, `next_key(s) + 1`, ... (so 1, 2, 3, ... from
/// an empty collection, and one past the largest key otherwise). No insertion
/// is lost, every record keeps its other fields, and no two records share a
/// key, whichever order the insertions were serialised in.
pub proof fn lemma_insert_keys<T: Entity>(s: Seq<T::V>, cs: Seq<T::V>)
    requires
        unique_keys::<T>(s),
        next_key::<T>(s) + cs.len() - 1 <= i32::MAX,
    ensures
        inserted_all::<T>(s, cs).len() == s.len() + cs.len(),
        inserted_all::<T>(s, cs).take(s.len() as int) == s,
        forall|k: int|
            0 <= k < cs.len() ==> #[trigger] inserted_all::<T>(s, cs)[s.len() + k] == T::rekey(
                cs[k],
                (next_key::<T>(s) + k) as i32,
            ),
        forall|k: int|
            0 <= k < cs.len() ==> T::key(#[trigger] inserted_all::<T>(s, cs)[s.len() + k])
                == next_key::<T>(s) + k,
        unique_keys::<T>(inserted_all::<T>(s, cs)),
        next_key::<T>(inserted_all::<T>(s, cs)) == next_key::<T>(s) + cs.len(),
    decreases cs.len(),
{
    if cs.len() == 0 {
        assert(s.take(s.len() as int) =~= s);
    } else {
        let d = cs.drop_last();
        lemma_insert_keys::<T>(s, d);
        let p = inserted_all::<T>(s, d);
        let r = inserted_all::<T>(s, cs);
        lemma_insert_one::<T>(p, cs.last());
        assert(r == inserted::<T>(p, cs.last()));
        assert(r.take(s.len() as int) =~= p.take(s.len() as int));
        assert forall|k: int| 0 <= k < cs.len() implies #[trigger] r[s.len() + k] == T::rekey(
            cs[k],
            (next_key::<T>(s) + k) as i32,
        ) by {
            if k < cs.len() - 1 {
                assert(r[s.len() + k] == p[s.len() + k]);
                assert(d[k] == cs[k]);
            }
        }
        assert forall|k: int| 0 <= k < cs.len() implies T::key(#[trigger] r[s.len() + k])
            == next_key::<T>(s) + k by {
            if k < cs.len() - 1 {
                assert(r[s.len() + k] == p[s.len() + k]);
            }
        }
    }
}

/// Reading back what was inserted: after an insertion, the one record with
/// the key it was given is the inserted record under that key.
pub proof fn lemma_get_after_insert<T: Entity>(s: Seq<T::V>, c: T::V)
    requires
        unique_keys::<T>(s),
        next_key::<T>(s) <= i32::MAX,
    ensures
        has_key::<T>(inserted::<T>(s, c), next_key::<T>(s) as i32),
        forall|v: T::V|
            #[trigger] inserted::<T>(s, c).contains(v) && T::key(v) == next_key::<T>(s) ==> v
                == T::rekey(c, next_key::<T>(s) as i32),
{
    let r = inserted::<T>(s, c);
    lemma_insert_one::<T>(s, c);
    let last = r.len() - 1;
    assert(T::key(r[last]) == next_key::<T>(s) as i32);
    assert forall|v: T::V| #[trigger] r.contains(v) && T::key(v) == next_key::<T>(s) implies v
        == T::rekey(c, next_key::<T>(s) as i32) by {
        let i = choose|i: int| 0 <= i < r.len() && r[i] == v;
        if i != last {
            assert(T::key(r[i]) != T::key(r[last]));
        }
    }
}

/// A patch sets only the fields it supplies: every field it leaves out keeps
/// its value, and the key never changes.
pub proof fn lemma_patch_keeps_other_fields(v: UserView, p: PatchUserView)
    ensures
        patched(v, p).id == v.id,
        patched(v, p).phone == v.phone,
        patched(v, p).website == v.website,
        patched(v, p).address == v.address,
        patched(v, p).company == v.company,
        p.name is None ==> patched(v, p).name == v.name,
        p.username is None ==> patched(v, p).username == v.username,
        p.email is None ==> patched(v, p).email == v.email,
        p.name matches Some(n) ==> patched(v, p).name == n,
        p.username matches Some(n) ==> patched(v, p).username == n,
        p.email matches Some(n) ==> patched(v, p).email == n,
{
}

/// Editing a news item changes its title, body and image only: its key and
/// status stay.
pub proof fn lemma_edit_keeps_other_fields(v: NewsView, from: NewsView)
    ensures
        edited(v, from).id == v.id,
        edited(v, from).status == v.status,
        edited(v, from).title == from.title,
        edited(v, from).body == from.body,
        edited(v, from).post_image == from.post_image,
{
}

/// Listing by keys returns exactly the records whose key was asked for, no
/// more and no fewer.
pub proof fn lemma_with_keys_exact<T: Entity>(s: Seq<T::V>, ids: Seq<i32>)
    ensures
        forall|v: T::V| #[trigger]
            with_keys::<T>(s, ids).contains(v) <==> s.contains(v) && ids.contains(T::key(v)),
        with_keys::<T>(s, ids).len() <= s.len(),
{
    lemma_filter_exact(s, |v: T::V| ids.contains(T::key(v)));
}

/// Listing the posts of one user returns exactly that user's posts, no more
/// and no fewer.
pub proof fn lemma_posts_of_exact(s: Seq<PostView>, user_id: i32)
    ensures
        forall|p: PostView| #[trigger]
            posts_of(s, user_id).contains(p) <==> s.contains(p) && p.user_id == user_id,
        posts_of(s, user_id).len() <= s.len(),
{
    lemma_filter_exact(s, |p: PostView| p.user_id == user_id);
}

} // verus!
