use vstd::prelude::*;

use crate::entity::{
    DeleteResponse, News, NewsView, PatchUserRequest, Post, PostView, User, UserView,
};
use crate::error::{EntityKind, ServiceError};
use crate::news::{self, edited};
use crate::posts::{self, posts_of};
use crate::store::{has_key, inserted, models, next_key, with_keys, Store};
use crate::users::{self, patched};

verus! {

/// The three collections of the service. Each is its own `Store`, so a
/// request on one never touches the others.
///
/// Requests that change a collection take `&mut self`, those that read it
/// take `&self`: a host that serves requests from several threads holds the
/// service behind a lock (a `RwLock`), so that every request runs whole on
/// the state that the previous one left, in one order. Nothing in a request
/// can fail midway, so a collection is never left half-changed.
pub struct MyGrpcService {
    pub news: Store<News>,
    pub posts: Store<Post>,
    pub users: Store<User>,
}

/// The news items the service starts with.
pub open spec fn seed_news_view() -> Seq<NewsView> {
    seq![
        NewsView { id: 1, title: "Note 1"@, body: "Content 1"@, post_image: "Post image 1"@, status: 0 },
        NewsView { id: 2, title: "Note 2"@, body: "Content 2"@, post_image: "Post image 2"@, status: 1 },
        NewsView { id: 3, title: "Note 3"@, body: "Content 3"@, post_image: "Post image 3"@, status: 1 },
        NewsView { id: 4, title: "Note 4"@, body: "Content 4"@, post_image: "Post image 4"@, status: 1 },
        NewsView { id: 5, title: "Note 5"@, body: "Content 5"@, post_image: "Post image 5"@, status: 1 },
    ]
}

/// The posts the service starts with: two of user 1.
pub open spec fn seed_posts_view() -> Seq<PostView> {
    seq![
        PostView { user_id: 1, id: 1, title: "Post 1"@, body: "Body 1"@ },
        PostView { user_id: 1, id: 2, title: "Post 2"@, body: "Body 2"@ },
    ]
}

/// The users the service starts with: one.
pub open spec fn seed_users_view() -> Seq<UserView> {
    seq![
        UserView {
            id: 1,
            name: "Leanne Graham"@,
            username: "Bret"@,
            email: "Sincere@april.biz"@,
            address: None,
            phone: "1-770-736-8031 x56442"@,
            website: "hildegard.org"@,
            company: None,
        },
    ]
}

/// Adds one news item under the next key.
fn seed_news(store: &mut Store<News>, title: &str, body: &str, image: &str, status: i32)
    requires
        old(store).wf(),
        next_key::<News>(old(store)@) <= i32::MAX,
    ensures
        final(store).wf(),
        final(store)@ == old(store)@.push(
            NewsView {
                id: next_key::<News>(old(store)@) as i32,
                title: title@,
                body: body@,
                post_image: image@,
                status,
            },
        ),
        next_key::<News>(final(store)@) == next_key::<News>(old(store)@) + 1,
{
    let item = News {
        id: 0,
        title: title.to_owned(),
        body: body.to_owned(),
        post_image: image.to_owned(),
        status,
    };
    let r = store.insert(item);
    assert(r is Some);
}

/// Adds one post under the next key.
fn seed_post(store: &mut Store<Post>, user_id: i32, title: &str, body: &str)
    requires
        old(store).wf(),
        next_key::<Post>(old(store)@) <= i32::MAX,
    ensures
        final(store).wf(),
        final(store)@ == old(store)@.push(
            PostView { user_id, id: next_key::<Post>(old(store)@) as i32, title: title@, body: body@ },
        ),
        next_key::<Post>(final(store)@) == next_key::<Post>(old(store)@) + 1,
{
    let post = Post { user_id, id: 0, title: title.to_owned(), body: body.to_owned() };
    let r = store.insert(post);
    assert(r is Some);
}

/// The news items 1 to 5.
pub fn seeded_news() -> (r: Store<News>)
    ensures
        r.wf(),
        r@ == seed_news_view(),
{
    let mut n: Store<News> = Store::new();
    seed_news(&mut n, "Note 1", "Content 1", "Post image 1", 0);
    seed_news(&mut n, "Note 2", "Content 2", "Post image 2", 1);
    seed_news(&mut n, "Note 3", "Content 3", "Post image 3", 1);
    seed_news(&mut n, "Note 4", "Content 4", "Post image 4", 1);
    seed_news(&mut n, "Note 5", "Content 5", "Post image 5", 1);
    assert(n@ =~= seed_news_view());
    n
}

/// The two posts of user 1.
pub fn seeded_posts() -> (r: Store<Post>)
    ensures
        r.wf(),
        r@ == seed_posts_view(),
{
    let mut p: Store<Post> = Store::new();
    seed_post(&mut p, 1, "Post 1", "Body 1");
    seed_post(&mut p, 1, "Post 2", "Body 2");
    assert(p@ =~= seed_posts_view());
    p
}

/// User 1.
pub fn seeded_users() -> (r: Store<User>)
    ensures
        r.wf(),
        r@ == seed_users_view(),
{
    let mut u: Store<User> = Store::new();
    let user = User {
        id: 0,
        name: "Leanne Graham".to_owned(),
        username: "Bret".to_owned(),
        email: "Sincere@april.biz".to_owned(),
        address: None,
        phone: "1-770-736-8031 x56442".to_owned(),
        website: "hildegard.org".to_owned(),
        company: None,
    };
    let r = u.insert(user);
    assert(r is Some);
    assert(u@ =~= seed_users_view());
    u
}

impl MyGrpcService {
    /// The invariant of the service: keys are unique in each collection.
    pub open spec fn wf(&self) -> bool {
        self.news.wf() && self.posts.wf() && self.users.wf()
    }

    /// The service with its starting records: news items 1 to 5, two posts
    /// of user 1, and user 1.
    pub fn new() -> (r: MyGrpcService)
        ensures
            r.wf(),
            r.news@ == seed_news_view(),
            r.posts@ == seed_posts_view(),
            r.users@ == seed_users_view(),
    {
        MyGrpcService { news: seeded_news(), posts: seeded_posts(), users: seeded_users() }
    }

    /// Copies of all news items, in order.
    pub fn get_all_news(&self) -> (r: Vec<News>)
        ensures
            models(r@) == self.news@,
    {
        news::get_all(&self.news)
    }

    /// A copy of the news item with key `id`.
    pub fn get_news(&self, id: i32) -> (r: Result<News, ServiceError>)
        ensures
            r is Ok <==> has_key::<News>(self.news@, id),
            r matches Ok(e) ==> e@.id == id && self.news@.contains(e@),
            r matches Err(e) ==> e == (ServiceError::NotFound { kind: EntityKind::News, id }),
    {
        news::get(&self.news, id)
    }

    /// Copies of the news items whose key is one of `ids`, in order.
    pub fn get_multiple_news(&self, ids: &Vec<i32>) -> (r: Vec<News>)
        ensures
            models(r@) == with_keys::<News>(self.news@, ids@),
    {
        news::get_multiple(&self.news, ids)
    }

    /// Removes the news item with key `id`.
    pub fn delete_news(&mut self, id: i32) -> (r: Result<(), ServiceError>)
        requires
            old(self).wf(),
        ensures
            final(self).wf(),
            final(self).posts@ == old(self).posts@,
            final(self).users@ == old(self).users@,
            r is Ok <==> has_key::<News>(old(self).news@, id),
            r is Ok ==> exists|i: int|
                0 <= i < old(self).news@.len() && (#[trigger] old(self).news@[i]).id == id
                    && final(self).news@ == old(self).news@.remove(i),
            r matches Err(e) ==> e == (ServiceError::NotFound { kind: EntityKind::News, id })
                && final(self).news@ == old(self).news@,
    {
        news::delete(&mut self.news, id)
    }

    /// Sets title, body and image of the news item whose key is that of
    /// `item`, keeping its status, and answers with `item` as given.
    pub fn edit_news(&mut self, item: News) -> (r: Result<News, ServiceError>)
        requires
            old(self).wf(),
        ensures
            final(self).wf(),
            final(self).posts@ == old(self).posts@,
            final(self).users@ == old(self).users@,
            r is Ok <==> has_key::<News>(old(self).news@, item@.id),
            r matches Ok(e) ==> e@ == item@ && exists|i: int|
                0 <= i < old(self).news@.len() && (#[trigger] old(self).news@[i]).id == item@.id
                    && final(self).news@ == old(self).news@.update(
                    i,
                    edited(old(self).news@[i], item@),
                ),
            r matches Err(e) ==> e == (ServiceError::NotFound {
                kind: EntityKind::News,
                id: item@.id,
            }) && final(self).news@ == old(self).news@,
    {
        news::edit(&mut self.news, item)
    }

    /// Stores `item` under the next key, whatever key it carries.
    pub fn add_news(&mut self, item: News) -> (r: Result<News, ServiceError>)
        requires
            old(self).wf(),
        ensures
            final(self).wf(),
            final(self).posts@ == old(self).posts@,
            final(self).users@ == old(self).users@,
            r is Ok <==> next_key::<News>(old(self).news@) <= i32::MAX,
            r matches Ok(e) ==> e@.id == next_key::<News>(old(self).news@) && e@ == (NewsView {
                id: e@.id,
                ..item@
            }) && final(self).news@ == old(self).news@.push(e@),
            r is Ok ==> final(self).news@ == inserted::<News>(old(self).news@, item@),
            r matches Err(e) ==> e == (ServiceError::KeysExhausted { kind: EntityKind::News })
                && final(self).news@ == old(self).news@,
    {
        news::add(&mut self.news, item)
    }

    /// Copies of the posts, in order: all of them, or those of one user.
    pub fn list_posts(&self, user_id: Option<i32>) -> (r: Vec<Post>)
        ensures
            user_id is None ==> models(r@) == self.posts@,
            user_id matches Some(u) ==> models(r@) == posts_of(self.posts@, u),
    {
        posts::list(&self.posts, user_id)
    }

    /// A copy of the post with key `id`.
    pub fn get_post(&self, id: i32) -> (r: Result<Post, ServiceError>)
        ensures
            r is Ok <==> has_key::<Post>(self.posts@, id),
            r matches Ok(e) ==> e@.id == id && self.posts@.contains(e@),
            r matches Err(e) ==> e == (ServiceError::NotFound { kind: EntityKind::Post, id }),
    {
        posts::get(&self.posts, id)
    }

    /// Stores `post` under the next key, whatever key it carries.
    pub fn create_post(&mut self, post: Post) -> (r: Result<Post, ServiceError>)
        requires
            old(self).wf(),
        ensures
            final(self).wf(),
            final(self).news@ == old(self).news@,
            final(self).users@ == old(self).users@,
            r is Ok <==> next_key::<Post>(old(self).posts@) <= i32::MAX,
            r matches Ok(e) ==> e@.id == next_key::<Post>(old(self).posts@) && e@ == (PostView {
                id: e@.id,
                ..post@
            }) && final(self).posts@ == old(self).posts@.push(e@),
            r is Ok ==> final(self).posts@ == inserted::<Post>(old(self).posts@, post@),
            r matches Err(e) ==> e == (ServiceError::KeysExhausted { kind: EntityKind::Post })
                && final(self).posts@ == old(self).posts@,
    {
        posts::create(&mut self.posts, post)
    }

    /// Replaces the post whose key is that of `post`; none is created.
    pub fn update_post(&mut self, post: Post) -> (r: Result<Post, ServiceError>)
        requires
            old(self).wf(),
        ensures
            final(self).wf(),
            final(self).news@ == old(self).news@,
            final(self).users@ == old(self).users@,
            r is Ok <==> has_key::<Post>(old(self).posts@, post@.id),
            r matches Ok(e) ==> e@ == post@ && exists|i: int|
                0 <= i < old(self).posts@.len() && (#[trigger] old(self).posts@[i]).id == post@.id
                    && final(self).posts@ == old(self).posts@.update(i, post@),
            r matches Err(e) ==> e == (ServiceError::NotFound {
                kind: EntityKind::Post,
                id: post@.id,
            }) && final(self).posts@ == old(self).posts@,
    {
        posts::update(&mut self.posts, post)
    }

    /// Removes the post with key `id`.
    pub fn delete_post(&mut self, id: i32) -> (r: Result<DeleteResponse, ServiceError>)
        requires
            old(self).wf(),
        ensures
            final(self).wf(),
            final(self).news@ == old(self).news@,
            final(self).users@ == old(self).users@,
            r is Ok <==> has_key::<Post>(old(self).posts@, id),
            r matches Ok(d) ==> d.success && d.message@ == "Post deleted"@ && exists|i: int|
                0 <= i < old(self).posts@.len() && (#[trigger] old(self).posts@[i]).id == id
                    && final(self).posts@ == old(self).posts@.remove(i),
            r matches Err(e) ==> e == (ServiceError::NotFound { kind: EntityKind::Post, id })
                && final(self).posts@ == old(self).posts@,
    {
        posts::delete(&mut self.posts, id)
    }

    /// Copies of the users whose key is one of `ids`, in order; all users
    /// where `ids` is empty.
    pub fn list_users(&self, ids: &Vec<i32>) -> (r: Vec<User>)
        ensures
            ids@.len() == 0 ==> models(r@) == self.users@,
            ids@.len() > 0 ==> models(r@) == with_keys::<User>(self.users@, ids@),
    {
        users::list(&self.users, ids)
    }

    /// A copy of the user with key `id`.
    pub fn get_user(&self, id: i32) -> (r: Result<User, ServiceError>)
        ensures
            r is Ok <==> has_key::<User>(self.users@, id),
            r matches Ok(e) ==> e@.id == id && self.users@.contains(e@),
            r matches Err(e) ==> e == (ServiceError::NotFound { kind: EntityKind::User, id }),
    {
        users::get(&self.users, id)
    }

    /// Stores `user` under the next key, whatever key it carries.
    pub fn create_user(&mut self, user: User) -> (r: Result<User, ServiceError>)
        requires
            old(self).wf(),
        ensures
            final(self).wf(),
            final(self).news@ == old(self).news@,
            final(self).posts@ == old(self).posts@,
            r is Ok <==> next_key::<User>(old(self).users@) <= i32::MAX,
            r matches Ok(e) ==> e@.id == next_key::<User>(old(self).users@) && e@ == (UserView {
                id: e@.id,
                ..user@
            }) && final(self).users@ == old(self).users@.push(e@),
            r is Ok ==> final(self).users@ == inserted::<User>(old(self).users@, user@),
            r matches Err(e) ==> e == (ServiceError::KeysExhausted { kind: EntityKind::User })
                && final(self).users@ == old(self).users@,
    {
        users::create(&mut self.users, user)
    }

    /// Sets the fields that `req` supplies on the user with key `req.id`.
    pub fn patch_user(&mut self, req: PatchUserRequest) -> (r: Result<User, ServiceError>)
        requires
            old(self).wf(),
        ensures
            final(self).wf(),
            final(self).news@ == old(self).news@,
            final(self).posts@ == old(self).posts@,
            r is Ok <==> has_key::<User>(old(self).users@, req@.id),
            r matches Ok(e) ==> exists|i: int|
                0 <= i < old(self).users@.len() && (#[trigger] old(self).users@[i]).id == req@.id
                    && e@ == patched(old(self).users@[i], req@) && final(self).users@
                    == old(self).users@.update(i, e@),
            r matches Err(e) ==> e == (ServiceError::NotFound {
                kind: EntityKind::User,
                id: req@.id,
            }) && final(self).users@ == old(self).users@,
    {
        users::patch(&mut self.users, req)
    }

    /// Removes the user with key `id`; the user's posts stay.
    pub fn delete_user(&mut self, id: i32) -> (r: Result<DeleteResponse, ServiceError>)
        requires
            old(self).wf(),
        ensures
            final(self).wf(),
            final(self).news@ == old(self).news@,
            final(self).posts@ == old(self).posts@,
            r is Ok <==> has_key::<User>(old(self).users@, id),
            r matches Ok(d) ==> d.success && d.message@ == "User deleted"@ && exists|i: int|
                0 <= i < old(self).users@.len() && (#[trigger] old(self).users@[i]).id == id
                    && final(self).users@ == old(self).users@.remove(i),
            r matches Err(e) ==> e == (ServiceError::NotFound { kind: EntityKind::User, id })
                && final(self).users@ == old(self).users@,
    {
        users::delete(&mut self.users, id)
    }
}

} // verus!
