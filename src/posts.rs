use vstd::prelude::*;

use crate::entity::{DeleteResponse, Entity, Post, PostView};
use crate::error::{EntityKind, ServiceError};
use crate::store::{has_key, models, next_key, Store};

verus! {

/// The posts of `s` written by user `user_id`, in order.
pub open spec fn posts_of(s: Seq<PostView>, user_id: i32) -> Seq<PostView> {
    s.filter(|p: PostView| p.user_id == user_id)
}

/// Copies of the posts, in order: all of them, or those of one user.
pub fn list(store: &Store<Post>, user_id: Option<i32>) -> (r: Vec<Post>)
    ensures
        user_id is None ==> models(r@) == store@,
        user_id matches Some(u) ==> models(r@) == posts_of(store@, u),
{
    let all = store.list();
    match user_id {
        None => all,
        Some(u) => {
            let mut r: Vec<Post> = Vec::new();
            let mut i: usize = 0;
            while i < all.len()
                invariant
                    i <= all.len(),
                    models(all@) == store@,
                    models(r@) == posts_of(store@.take(i as int), u),
                decreases all.len() - i,
            {
                proof {
                    let t = store@.take(i + 1);
                    assert(t.drop_last() =~= store@.take(i as int));
                    assert(t.last() == store@[i as int]);
                    assert(store@[i as int] == all@[i as int]@);
                    reveal(Seq::filter);
                }
                if all[i].user_id == u {
                    let e = all[i].duplicate();
                    assert(models(r@.push(e)) =~= models(r@).push(e@));
                    r.push(e);
                }
                i = i + 1;
            }
            assert(store@.take(i as int) =~= store@);
            r
        },
    }
}

/// A copy of the post with key `id`.
pub fn get(store: &Store<Post>, id: i32) -> (r: Result<Post, ServiceError>)
    ensures
        r is Ok <==> has_key::<Post>(store@, id),
        r matches Ok(e) ==> e@.id == id && store@.contains(e@),
        r matches Err(e) ==> e == (ServiceError::NotFound { kind: EntityKind::Post, id }),
{
    match store.get(id) {
        Some(e) => Ok(e),
        None => Err(ServiceError::NotFound { kind: EntityKind::Post, id }),
    }
}

/// Stores `post` under the next key, whatever key it carries, and returns
/// the post as stored. The author's key is kept as given: it is not checked
/// against the users.
pub fn create(store: &mut Store<Post>, post: Post) -> (r: Result<Post, ServiceError>)
    requires
        old(store).wf(),
    ensures
        final(store).wf(),
        r is Ok <==> next_key::<Post>(old(store)@) <= i32::MAX,
        r matches Ok(e) ==> e@.id == next_key::<Post>(old(store)@) && e@ == (PostView {
            id: e@.id,
            ..post@
        }) && final(store)@ == old(store)@.push(e@),
        r matches Err(e) ==> e == (ServiceError::KeysExhausted { kind: EntityKind::Post })
            && final(store)@ == old(store)@,
{
    match store.insert(post) {
        Some(e) => Ok(e),
        None => Err(ServiceError::KeysExhausted { kind: EntityKind::Post }),
    }
}

/// Replaces, field by field, the post whose key is that of `post`; no post
/// is created where none has that key.
pub fn update(store: &mut Store<Post>, post: Post) -> (r: Result<Post, ServiceError>)
    requires
        old(store).wf(),
    ensures
        final(store).wf(),
        r is Ok <==> has_key::<Post>(old(store)@, post@.id),
        r matches Ok(e) ==> e@ == post@ && exists|i: int|
            0 <= i < old(store)@.len() && (#[trigger] old(store)@[i]).id == post@.id
                && final(store)@ == old(store)@.update(i, post@),
        r matches Err(e) ==> e == (ServiceError::NotFound { kind: EntityKind::Post, id: post@.id })
            && final(store)@ == old(store)@,
{
    let id = post.id;
    match store.replace(post) {
        Some(e) => Ok(e),
        None => Err(ServiceError::NotFound { kind: EntityKind::Post, id }),
    }
}

/// Removes the post with key `id`.
pub fn delete(store: &mut Store<Post>, id: i32) -> (r: Result<DeleteResponse, ServiceError>)
    requires
        old(store).wf(),
    ensures
        final(store).wf(),
        r is Ok <==> has_key::<Post>(old(store)@, id),
        r matches Ok(d) ==> d.success && d.message@ == "Post deleted"@ && exists|i: int|
            0 <= i < old(store)@.len() && (#[trigger] old(store)@[i]).id == id && final(store)@
                == old(store)@.remove(i),
        r matches Err(e) ==> e == (ServiceError::NotFound { kind: EntityKind::Post, id })
            && final(store)@ == old(store)@,
{
    if store.delete(id) {
        Ok(DeleteResponse { success: true, message: "Post deleted".to_owned() })
    } else {
        Err(ServiceError::NotFound { kind: EntityKind::Post, id })
    }
}

} // verus!
