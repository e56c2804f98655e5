use vstd::prelude::*;

verus! {

/// A record kept in a collection: it carries an integer key, which the
/// collection assigns, and can be copied out without aliasing.
pub trait Entity: Sized + View {
    /// The key of a record, read from its model.
    spec fn key(v: Self::V) -> i32;

    /// The model of a record whose key is replaced by `id`, every other field kept.
    spec fn rekey(v: Self::V, id: i32) -> Self::V;

    proof fn lemma_rekey(v: Self::V, id: i32)
        ensures
            Self::key(Self::rekey(v, id)) == id,
    ;

    fn id(&self) -> (r: i32)
        ensures
            r == Self::key(self@),
    ;

    fn assign_id(&mut self, id: i32)
        ensures
            final(self)@ == Self::rekey(old(self)@, id),
    ;

    fn duplicate(&self) -> (r: Self)
        ensures
            r@ == self@,
    ;
}

/// A news item; `status` is a small code that the service does not read.
#[derive(Debug)]
pub struct News {
    pub id: i32,
    pub title: String,
    pub body: String,
    pub post_image: String,
    pub status: i32,
}

/// The model of a news item.
pub struct NewsView {
    pub id: i32,
    pub title: Seq<char>,
    pub body: Seq<char>,
    pub post_image: Seq<char>,
    pub status: i32,
}

impl View for News {
    type V = NewsView;

    open spec fn view(&self) -> NewsView {
        NewsView {
            id: self.id,
            title: self.title@,
            body: self.body@,
            post_image: self.post_image@,
            status: self.status,
        }
    }
}

impl Entity for News {
    open spec fn key(v: NewsView) -> i32 {
        v.id
    }

    open spec fn rekey(v: NewsView, id: i32) -> NewsView {
        NewsView { id, ..v }
    }

    proof fn lemma_rekey(v: NewsView, id: i32) {
    }

    fn id(&self) -> (r: i32) {
        self.id
    }

    fn assign_id(&mut self, id: i32) {
        self.id = id;
    }

    fn duplicate(&self) -> (r: News) {
        News {
            id: self.id,
            title: self.title.clone(),
            body: self.body.clone(),
            post_image: self.post_image.clone(),
            status: self.status,
        }
    }
}

/// A post; `user_id` names its author, unchecked.
#[derive(Debug)]
pub struct Post {
    pub user_id: i32,
    pub id: i32,
    pub title: String,
    pub body: String,
}

/// The model of a post.
pub struct PostView {
    pub user_id: i32,
    pub id: i32,
    pub title: Seq<char>,
    pub body: Seq<char>,
}

impl View for Post {
    type V = PostView;

    open spec fn view(&self) -> PostView {
        PostView { user_id: self.user_id, id: self.id, title: self.title@, body: self.body@ }
    }
}

impl Entity for Post {
    open spec fn key(v: PostView) -> i32 {
        v.id
    }

    open spec fn rekey(v: PostView, id: i32) -> PostView {
        PostView { id, ..v }
    }

    proof fn lemma_rekey(v: PostView, id: i32) {
    }

    fn id(&self) -> (r: i32) {
        self.id
    }

    fn assign_id(&mut self, id: i32) {
        self.id = id;
    }

    fn duplicate(&self) -> (r: Post) {
        Post {
            user_id: self.user_id,
            id: self.id,
            title: self.title.clone(),
            body: self.body.clone(),
        }
    }
}

/// A postal address attached to a user.
#[derive(Debug)]
pub struct Address {
    pub street: String,
    pub suite: String,
    pub city: String,
    pub zipcode: String,
}

/// The model of an address.
pub struct AddressView {
    pub street: Seq<char>,
    pub suite: Seq<char>,
    pub city: Seq<char>,
    pub zipcode: Seq<char>,
}

impl View for Address {
    type V = AddressView;

    open spec fn view(&self) -> AddressView {
        AddressView {
            street: self.street@,
            suite: self.suite@,
            city: self.city@,
            zipcode: self.zipcode@,
        }
    }
}

impl Address {
    pub fn duplicate(&self) -> (r: Address)
        ensures
            r@ == self@,
    {
        Address {
            street: self.street.clone(),
            suite: self.suite.clone(),
            city: self.city.clone(),
            zipcode: self.zipcode.clone(),
        }
    }
}

/// The company a user works for.
#[derive(Debug)]
pub struct Company {
    pub name: String,
    pub catch_phrase: String,
    pub bs: String,
}

/// The model of a company.
pub struct CompanyView {
    pub name: Seq<char>,
    pub catch_phrase: Seq<char>,
    pub bs: Seq<char>,
}

impl View for Company {
    type V = CompanyView;

    open spec fn view(&self) -> CompanyView {
        CompanyView { name: self.name@, catch_phrase: self.catch_phrase@, bs: self.bs@ }
    }
}

impl Company {
    pub fn duplicate(&self) -> (r: Company)
        ensures
            r@ == self@,
    {
        Company {
            name: self.name.clone(),
            catch_phrase: self.catch_phrase.clone(),
            bs: self.bs.clone(),
        }
    }
}

/// A user, whose address and company may be absent.
#[derive(Debug)]
pub struct User {
    pub id: i32,
    pub name: String,
    pub username: String,
    pub email: String,
    pub address: Option<Address>,
    pub phone: String,
    pub website: String,
    pub company: Option<Company>,
}

/// The model of a user.
pub struct UserView {
    pub id: i32,
    pub name: Seq<char>,
    pub username: Seq<char>,
    pub email: Seq<char>,
    pub address: Option<AddressView>,
    pub phone: Seq<char>,
    pub website: Seq<char>,
    pub company: Option<CompanyView>,
}

impl View for User {
    type V = UserView;

    open spec fn view(&self) -> UserView {
        UserView {
            id: self.id,
            name: self.name@,
            username: self.username@,
            email: self.email@,
            address: match self.address {
                Some(a) => Some(a@),
                None => None,
            },
            phone: self.phone@,
            website: self.website@,
            company: match self.company {
                Some(c) => Some(c@),
                None => None,
            },
        }
    }
}

impl Entity for User {
    open spec fn key(v: UserView) -> i32 {
        v.id
    }

    open spec fn rekey(v: UserView, id: i32) -> UserView {
        UserView { id, ..v }
    }

    proof fn lemma_rekey(v: UserView, id: i32) {
    }

    fn id(&self) -> (r: i32) {
        self.id
    }

    fn assign_id(&mut self, id: i32) {
        self.id = id;
    }

    fn duplicate(&self) -> (r: User) {
        let address = match &self.address {
            Some(a) => Some(a.duplicate()),
            None => None,
        };
        let company = match &self.company {
            Some(c) => Some(c.duplicate()),
            None => None,
        };
        User {
            id: self.id,
            name: self.name.clone(),
            username: self.username.clone(),
            email: self.email.clone(),
            address,
            phone: self.phone.clone(),
            website: self.website.clone(),
            company,
        }
    }
}

/// What a successful deletion answers.
#[derive(Debug)]
pub struct DeleteResponse {
    pub success: bool,
    pub message: String,
}

/// A partial update of a user: the fields that are `Some` are set, the
/// others kept.
#[derive(Debug)]
pub struct PatchUserRequest {
    pub id: i32,
    pub name: Option<String>,
    pub username: Option<String>,
    pub email: Option<String>,
}

/// The model of a partial update of a user.
pub struct PatchUserView {
    pub id: i32,
    pub name: Option<Seq<char>>,
    pub username: Option<Seq<char>>,
    pub email: Option<Seq<char>>,
}

/// The model of an optional text.
pub open spec fn text_opt(o: Option<String>) -> Option<Seq<char>> {
    match o {
        Some(s) => Some(s@),
        None => None,
    }
}

impl View for PatchUserRequest {
    type V = PatchUserView;

    open spec fn view(&self) -> PatchUserView {
        PatchUserView {
            id: self.id,
            name: text_opt(self.name),
            username: text_opt(self.username),
            email: text_opt(self.email),
        }
    }
}

} // verus!
