use rust_grpc::entity::{Address, Company, News, PatchUserRequest, Post, User};
use rust_grpc::error::{EntityKind, ServiceError};
use rust_grpc::service::MyGrpcService;
use rust_grpc::store::Store;

fn post(user_id: i32, id: i32, title: &str, body: &str) -> Post {
    Post { user_id, id, title: title.into(), body: body.into() }
}

fn news(id: i32, title: &str, status: i32) -> News {
    News {
        id,
        title: title.into(),
        body: format!("{} body", title),
        post_image: format!("{} image", title),
        status,
    }
}

fn user(name: &str) -> User {
    User {
        id: 0,
        name: name.into(),
        username: "u".into(),
        email: "e@example.org".into(),
        address: None,
        phone: "1".into(),
        website: "w".into(),
        company: None,
    }
}

#[test]
fn test_list_posts() {
    let service = MyGrpcService::new();
    let posts = service.list_posts(None);
    assert_eq!(posts.len(), 2);
}

#[test]
fn test_get_post() {
    let service = MyGrpcService::new();
    let post = service.get_post(1).unwrap();
    assert_eq!(post.title, "Post 1");
}

#[test]
fn test_create_post() {
    let mut service = MyGrpcService::new();
    let new_post = post(1, 0, "New Post", "New Body");
    let post = service.create_post(new_post).unwrap();
    assert_eq!(post.title, "New Post");
    assert_eq!(post.id, 3);
}

#[test]
fn test_list_users() {
    let service = MyGrpcService::new();
    let users = service.list_users(&vec![]);
    assert_eq!(users.len(), 1);
}

#[test]
fn test_get_user() {
    let service = MyGrpcService::new();
    let user = service.get_user(1).unwrap();
    assert_eq!(user.name, "Leanne Graham");
}

#[test]
fn seeded_news_has_keys_one_to_five() {
    let service = MyGrpcService::new();
    let all = service.get_all_news();
    let ids: Vec<i32> = all.iter().map(|n| n.id).collect();
    assert_eq!(ids, vec![1, 2, 3, 4, 5]);
    assert_eq!(all[0].title, "Note 1");
    assert_eq!(all[0].status, 0);
    assert_eq!(all[4].post_image, "Post image 5");
    assert_eq!(all[4].status, 1);
}

#[test]
fn delete_news_missing_is_not_found() {
    let mut service = MyGrpcService::new();
    let err = service.delete_news(6).unwrap_err();
    assert_eq!(err, ServiceError::NotFound { kind: EntityKind::News, id: 6 });
    assert_eq!(err.message(), "News not found");
    assert_eq!(service.get_all_news().len(), 5);
}

#[test]
fn delete_news_then_get_fails() {
    let mut service = MyGrpcService::new();
    assert!(service.delete_news(3).is_ok());
    assert_eq!(service.get_all_news().len(), 4);
    assert_eq!(
        service.get_news(3).unwrap_err(),
        ServiceError::NotFound { kind: EntityKind::News, id: 3 }
    );
    assert!(service.delete_news(3).is_err());
    assert_eq!(service.get_all_news().len(), 4);
}

#[test]
fn patch_user_name_only() {
    let mut service = MyGrpcService::new();
    let req = PatchUserRequest { id: 1, name: Some("New Name".into()), username: None, email: None };
    let user = service.patch_user(req).unwrap();
    assert_eq!(user.name, "New Name");
    assert_eq!(user.username, "Bret");
    assert_eq!(user.email, "Sincere@april.biz");
    assert_eq!(user.phone, "1-770-736-8031 x56442");
    assert_eq!(service.get_user(1).unwrap().name, "New Name");
}

#[test]
fn patch_missing_user_is_not_found() {
    let mut service = MyGrpcService::new();
    let req = PatchUserRequest { id: 9, name: None, username: Some("x".into()), email: None };
    let err = service.patch_user(req).unwrap_err();
    assert_eq!(err, ServiceError::NotFound { kind: EntityKind::User, id: 9 });
    assert_eq!(err.message(), "User not found");
}

#[test]
fn keys_count_up_from_one() {
    let mut store: Store<News> = Store::new();
    for expected in 1..=4 {
        let stored = store.insert(news(100, "n", 0)).unwrap();
        assert_eq!(stored.id, expected);
    }
    assert_eq!(store.len(), 4);
}

#[test]
fn key_after_delete_is_one_past_largest() {
    let mut store: Store<News> = Store::new();
    store.insert(news(0, "a", 0)).unwrap();
    store.insert(news(0, "b", 0)).unwrap();
    store.insert(news(0, "c", 0)).unwrap();
    assert!(store.delete(2));
    assert_eq!(store.next_id(), Some(4));
    assert_eq!(store.insert(news(0, "d", 0)).unwrap().id, 4);
    assert!(store.delete(4));
    assert!(store.delete(3));
    assert_eq!(store.insert(news(0, "e", 0)).unwrap().id, 2);
    assert!(store.delete(1));
    assert!(store.delete(2));
    assert_eq!(store.insert(news(0, "f", 0)).unwrap().id, 1);
}

#[test]
fn inserted_record_reads_back() {
    let mut service = MyGrpcService::new();
    let mut u = user("Ervin Howell");
    u.id = 42;
    u.address = Some(Address {
        street: "Victor Plains".into(),
        suite: "Suite 879".into(),
        city: "Wisokyburgh".into(),
        zipcode: "90566-7771".into(),
    });
    u.company = Some(Company {
        name: "Deckow-Crist".into(),
        catch_phrase: "Proactive didactic contingency".into(),
        bs: "synergize scalable supply-chains".into(),
    });
    let stored = service.create_user(u).unwrap();
    assert_eq!(stored.id, 2);
    let back = service.get_user(2).unwrap();
    assert_eq!(back.name, "Ervin Howell");
    assert_eq!(back.address.unwrap().city, "Wisokyburgh");
    assert_eq!(back.company.unwrap().name, "Deckow-Crist");
}

#[test]
fn edit_news_keeps_status() {
    let mut service = MyGrpcService::new();
    let answer = service.edit_news(news(1, "Changed", 7)).unwrap();
    assert_eq!(answer.id, 1);
    assert_eq!(answer.title, "Changed");
    assert_eq!(answer.status, 7);
    let stored = service.get_news(1).unwrap();
    assert_eq!(stored.title, "Changed");
    assert_eq!(stored.body, "Changed body");
    assert_eq!(stored.post_image, "Changed image");
    assert_eq!(stored.status, 0);
    let err = service.edit_news(news(9, "x", 0)).unwrap_err();
    assert_eq!(err, ServiceError::NotFound { kind: EntityKind::News, id: 9 });
}

#[test]
fn add_news_ignores_given_key() {
    let mut service = MyGrpcService::new();
    let added = service.add_news(news(1, "Fresh", 2)).unwrap();
    assert_eq!(added.id, 6);
    assert_eq!(added.title, "Fresh");
    assert_eq!(added.status, 2);
    assert_eq!(service.get_news(1).unwrap().title, "Note 1");
    assert_eq!(service.get_all_news().len(), 6);
}

#[test]
fn get_multiple_news_skips_missing_keys() {
    let service = MyGrpcService::new();
    let found = service.get_multiple_news(&vec![4, 9, 2]);
    let ids: Vec<i32> = found.iter().map(|n| n.id).collect();
    assert_eq!(ids, vec![2, 4]);
    assert!(service.get_multiple_news(&vec![]).is_empty());
}

#[test]
fn list_posts_by_user() {
    let mut service = MyGrpcService::new();
    service.create_post(post(2, 0, "Other", "x")).unwrap();
    assert_eq!(service.list_posts(None).len(), 3);
    let of_one = service.list_posts(Some(1));
    assert_eq!(of_one.len(), 2);
    assert!(of_one.iter().all(|p| p.user_id == 1));
    let of_two = service.list_posts(Some(2));
    assert_eq!(of_two.len(), 1);
    assert_eq!(of_two[0].title, "Other");
    assert!(service.list_posts(Some(3)).is_empty());
}

#[test]
fn list_users_by_keys() {
    let mut service = MyGrpcService::new();
    service.create_user(user("Second")).unwrap();
    assert_eq!(service.list_users(&vec![]).len(), 2);
    let only = service.list_users(&vec![2]);
    assert_eq!(only.len(), 1);
    assert_eq!(only[0].name, "Second");
    assert!(service.list_users(&vec![7]).is_empty());
}

#[test]
fn update_post_replaces_fields() {
    let mut service = MyGrpcService::new();
    let updated = service.update_post(post(5, 2, "T", "B")).unwrap();
    assert_eq!(updated.user_id, 5);
    let back = service.get_post(2).unwrap();
    assert_eq!(back.title, "T");
    assert_eq!(back.body, "B");
    assert_eq!(back.user_id, 5);
    let err = service.update_post(post(1, 3, "T", "B")).unwrap_err();
    assert_eq!(err, ServiceError::NotFound { kind: EntityKind::Post, id: 3 });
    assert_eq!(err.message(), "Post not found");
    assert_eq!(service.list_posts(None).len(), 2);
}

#[test]
fn delete_post_and_user_answer() {
    let mut service = MyGrpcService::new();
    let d = service.delete_post(1).unwrap();
    assert!(d.success);
    assert_eq!(d.message, "Post deleted");
    assert_eq!(service.list_posts(None).len(), 1);
    assert!(service.delete_post(1).is_err());
    let d = service.delete_user(1).unwrap();
    assert!(d.success);
    assert_eq!(d.message, "User deleted");
    assert!(service.list_users(&vec![]).is_empty());
    assert_eq!(
        service.delete_user(1).unwrap_err(),
        ServiceError::NotFound { kind: EntityKind::User, id: 1 }
    );
    // posts of a deleted user stay
    assert_eq!(service.list_posts(Some(1)).len(), 1);
}

#[test]
fn many_inserts_get_distinct_keys() {
    let mut service = MyGrpcService::new();
    let mut ids = Vec::new();
    for i in 0..50 {
        ids.push(service.create_post(post(i, 0, "p", "b")).unwrap().id);
    }
    let expected: Vec<i32> = (3..53).collect();
    assert_eq!(ids, expected);
    assert_eq!(service.list_posts(None).len(), 52);
}

#[test]
fn exhausted_keys_message() {
    let e = ServiceError::KeysExhausted { kind: EntityKind::Post };
    assert_eq!(e.message(), "No Post id left");
}

#[test]
fn create_post_after_delete_takes_one_past_largest() {
    let mut service = MyGrpcService::new();
    assert!(service.delete_post(1).is_ok());
    let created = service.create_post(post(1, 0, "X", "Y")).unwrap();
    assert_eq!(created.id, 3);
}

#[test]
fn create_user_in_emptied_collection_restarts_at_one() {
    let mut service = MyGrpcService::new();
    assert!(service.delete_user(1).is_ok());
    let mut u = user("A");
    u.id = 9;
    let created = service.create_user(u).unwrap();
    assert_eq!(created.id, 1);
    assert_eq!(service.get_user(1).unwrap().name, "A");
}

#[test]
fn seeded_users_and_posts() {
    let service = MyGrpcService::new();
    let users = service.list_users(&vec![]);
    assert_eq!(users[0].id, 1);
    assert_eq!(users[0].username, "Bret");
    assert!(users[0].address.is_none());
    let posts = service.list_posts(None);
    assert_eq!(posts[1].id, 2);
    assert_eq!(posts[1].body, "Body 2");
    assert_eq!(posts[1].user_id, 1);
}
