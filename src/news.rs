use vstd::prelude::*;

use crate::entity::{Entity, News, NewsView};
use crate::error::{EntityKind, ServiceError};
use crate::store::{has_key, models, next_key, with_keys, Store};

verus! {

/// `v` with title, body and image taken from `from`; its key and status kept.
pub open spec fn edited(v: NewsView, from: NewsView) -> NewsView {
    NewsView { title: from.title, body: from.body, post_image: from.post_image, ..v }
}

/// Copies of all news items, in order.
pub fn get_all(store: &Store<News>) -> (r: Vec<News>)
    ensures
        models(r@) == store@,
{
    store.list()
}

/// A copy of the news item with key `id`.
pub fn get(store: &Store<News>, id: i32) -> (r: Result<News, ServiceError>)
    ensures
        r is Ok <==> has_key::<News>(store@, id),
        r matches Ok(e) ==> e@.id == id && store@.contains(e@),
        r matches Err(e) ==> e == (ServiceError::NotFound { kind: EntityKind::News, id }),
{
    match store.get(id) {
        Some(e) => Ok(e),
        None => Err(ServiceError::NotFound { kind: EntityKind::News, id }),
    }
}

/// Copies of the news items whose key is one of `ids`, in order; keys that no
/// item has are passed over.
pub fn get_multiple(store: &Store<News>, ids: &Vec<i32>) -> (r: Vec<News>)
    ensures
        models(r@) == with_keys::<News>(store@, ids@),
{
    store.list_with_keys(ids)
}

/// Removes the news item with key `id`.
pub fn delete(store: &mut Store<News>, id: i32) -> (r: Result<(), ServiceError>)
    requires
        old(store).wf(),
    ensures
        final(store).wf(),
        r is Ok <==> has_key::<News>(old(store)@, id),
        r is Ok ==> exists|i: int|
            0 <= i < old(store)@.len() && old(store)@[i].id == id && final(store)@ == old(
                store,
            )@.remove(i),
        r matches Err(e) ==> e == (ServiceError::NotFound { kind: EntityKind::News, id })
            && final(store)@ == old(store)@,
{
    if store.delete(id) {
        Ok(())
    } else {
        Err(ServiceError::NotFound { kind: EntityKind::News, id })
    }
}

/// Sets title, body and image of the news item whose key is that of `news`,
/// keeping its status, and answers with `news` as given.
pub fn edit(store: &mut Store<News>, news: News) -> (r: Result<News, ServiceError>)
    requires
        old(store).wf(),
    ensures
        final(store).wf(),
        r is Ok <==> has_key::<News>(old(store)@, news@.id),
        r matches Ok(e) ==> e@ == news@ && exists|i: int|
            0 <= i < old(store)@.len() && (#[trigger] old(store)@[i]).id == news@.id
                && final(store)@ == old(store)@.update(i, edited(old(store)@[i], news@)),
        r matches Err(e) ==> e == (ServiceError::NotFound { kind: EntityKind::News, id: news@.id })
            && final(store)@ == old(store)@,
{
    let ghost o = store@;
    let id = news.id;
    match store.get(id) {
        None => Err(ServiceError::NotFound { kind: EntityKind::News, id }),
        Some(cur) => {
            let ghost before = cur@;
            let answer = news.duplicate();
            let changed = News {
                id: cur.id,
                title: news.title,
                body: news.body,
                post_image: news.post_image,
                status: cur.status,
            };
            assert(changed@ == edited(before, news@));
            match store.replace(changed) {
                Some(_) => {
                    proof {
                        let i = choose|i: int|
                            0 <= i < o.len() && o[i].id == id && store@ == o.update(i, changed@);
                        let j = choose|j: int| 0 <= j < o.len() && o[j] == before;
                        if i != j {
                            assert(News::key(o[i]) != News::key(o[j]));
                        }
                        assert(changed@ == edited(o[i], news@));
                    }
                    Ok(answer)
                },
                None => Err(ServiceError::NotFound { kind: EntityKind::News, id }),
            }
        },
    }
}

/// Stores `news` under the next key, whatever key it carries, and returns
/// the item as stored.
pub fn add(store: &mut Store<News>, news: News) -> (r: Result<News, ServiceError>)
    requires
        old(store).wf(),
    ensures
        final(store).wf(),
        r is Ok <==> next_key::<News>(old(store)@) <= i32::MAX,
        r matches Ok(e) ==> e@.id == next_key::<News>(old(store)@) && e@ == (NewsView {
            id: e@.id,
            ..news@
        }) && final(store)@ == old(store)@.push(e@),
        r matches Err(e) ==> e == (ServiceError::KeysExhausted { kind: EntityKind::News })
            && final(store)@ == old(store)@,
{
    match store.insert(news) {
        Some(e) => Ok(e),
        None => Err(ServiceError::KeysExhausted { kind: EntityKind::News }),
    }
}

} // verus!
