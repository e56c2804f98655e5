use vstd::prelude::*;

use crate::entity::{DeleteResponse, Entity, PatchUserView, PatchUserRequest, User, UserView};
use crate::error::{EntityKind, ServiceError};
use crate::store::{has_key, models, next_key, with_keys, Store};

verus! {

/// `v` with the fields that `p` supplies set, and every other field kept.
pub open spec fn patched(v: UserView, p: PatchUserView) -> UserView {
    UserView {
        name: match p.name {
            Some(n) => n,
            None => v.name,
        },
        username: match p.username {
            Some(n) => n,
            None => v.username,
        },
        email: match p.email {
            Some(n) => n,
            None => v.email,
        },
        ..v
    }
}

/// Copies of the users whose key is one of `ids`, in order; all users where
/// `ids` is empty.
pub fn list(store: &Store<User>, ids: &Vec<i32>) -> (r: Vec<User>)
    ensures
        ids@.len() == 0 ==> models(r@) == store@,
        ids@.len() > 0 ==> models(r@) == with_keys::<User>(store@, ids@),
{
    if ids.len() == 0 {
        store.list()
    } else {
        store.list_with_keys(ids)
    }
}

/// A copy of the user with key `id`.
pub fn get(store: &Store<User>, id: i32) -> (r: Result<User, ServiceError>)
    ensures
        r is Ok <==> has_key::<User>(store@, id),
        r matches Ok(e) ==> e@.id == id && store@.contains(e@),
        r matches Err(e) ==> e == (ServiceError::NotFound { kind: EntityKind::User, id }),
{
    match store.get(id) {
        Some(e) => Ok(e),
        None => Err(ServiceError::NotFound { kind: EntityKind::User, id }),
    }
}

/// Stores `user` under the next key, whatever key it carries, and returns
/// the user as stored.
pub fn create(store: &mut Store<User>, user: User) -> (r: Result<User, ServiceError>)
    requires
        old(store).wf(),
    ensures
        final(store).wf(),
        r is Ok <==> next_key::<User>(old(store)@) <= i32::MAX,
        r matches Ok(e) ==> e@.id == next_key::<User>(old(store)@) && e@ == (UserView {
            id: e@.id,
            ..user@
        }) && final(store)@ == old(store)@.push(e@),
        r matches Err(e) ==> e == (ServiceError::KeysExhausted { kind: EntityKind::User })
            && final(store)@ == old(store)@,
{
    match store.insert(user) {
        Some(e) => Ok(e),
        None => Err(ServiceError::KeysExhausted { kind: EntityKind::User }),
    }
}

/// Sets the fields that `req` supplies on the user with key `req.id`, and
/// returns the user as stored.
pub fn patch(store: &mut Store<User>, req: PatchUserRequest) -> (r: Result<User, ServiceError>)
    requires
        old(store).wf(),
    ensures
        final(store).wf(),
        r is Ok <==> has_key::<User>(old(store)@, req@.id),
        r matches Ok(e) ==> exists|i: int|
            0 <= i < old(store)@.len() && (#[trigger] old(store)@[i]).id == req@.id && e@
                == patched(old(store)@[i], req@) && final(store)@ == old(store)@.update(i, e@),
        r matches Err(e) ==> e == (ServiceError::NotFound { kind: EntityKind::User, id: req@.id })
            && final(store)@ == old(store)@,
{
    let ghost o = store@;
    let ghost p = req@;
    let id = req.id;
    match store.get(id) {
        None => Err(ServiceError::NotFound { kind: EntityKind::User, id }),
        Some(cur) => {
            let ghost before = cur@;
            let mut changed = cur;
            match req.name {
                Some(n) => changed.name = n,
                None => {},
            }
            match req.username {
                Some(n) => changed.username = n,
                None => {},
            }
            match req.email {
                Some(n) => changed.email = n,
                None => {},
            }
            assert(changed@ == patched(before, p));
            match store.replace(changed) {
                Some(e) => {
                    proof {
                        let i = choose|i: int|
                            0 <= i < o.len() && o[i].id == id && store@ == o.update(i, changed@);
                        let j = choose|j: int| 0 <= j < o.len() && o[j] == before;
                        if i != j {
                            assert(User::key(o[i]) != User::key(o[j]));
                        }
                        assert(e@ == patched(o[i], p));
                    }
                    Ok(e)
                },
                None => Err(ServiceError::NotFound { kind: EntityKind::User, id }),
            }
        },
    }
}

/// Removes the user with key `id`. Posts that name the user are left as
/// they are.
pub fn delete(store: &mut Store<User>, id: i32) -> (r: Result<DeleteResponse, ServiceError>)
    requires
        old(store).wf(),
    ensures
        final(store).wf(),
        r is Ok <==> has_key::<User>(old(store)@, id),
        r matches Ok(d) ==> d.success && d.message@ == "User deleted"@ && exists|i: int|
            0 <= i < old(store)@.len() && (#[trigger] old(store)@[i]).id == id && final(store)@
                == old(store)@.remove(i),
        r matches Err(e) ==> e == (ServiceError::NotFound { kind: EntityKind::User, id })
            && final(store)@ == old(store)@,
{
    if store.delete(id) {
        Ok(DeleteResponse { success: true, message: "User deleted".to_owned() })
    } else {
        Err(ServiceError::NotFound { kind: EntityKind::User, id })
    }
}

} // verus!
