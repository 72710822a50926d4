use vstd::prelude::*;

use crate::json::{encode_string, json_string_of};
use crate::store::{number_in, string_in, AttrModel, AttrValue, Item, ItemModel};

verus! {

/// The most items a listing holds.
pub const LIST_LIMIT: usize = 20;

pub const STATUS_OK: u16 = 200;

pub const STATUS_SERVER_ERROR: u16 = 500;

/// The collection that holds the users.
pub open spec fn users_table() -> Seq<char> {
    "users"@
}

/// The attribute that keys a user.
pub open spec fn key_attr() -> Seq<char> {
    "id"@
}

/// The fields of a create request, as the client sent them.
pub struct User {
    pub id: String,
    pub username: String,
    pub password: String,
    pub usertype: String,
}

/// A user as it is written to the store: the identifier and the type are
/// numbers, the name and the password strings.
pub struct UserResponse {
    pub id: AttrValue,
    pub username: AttrValue,
    pub usertype: AttrValue,
    pub password: AttrValue,
}

/// What a reply shows of a user: never the password.
pub struct PublicUser {
    pub id: String,
    pub username: String,
    pub usertype: String,
}

pub struct UserModel {
    pub id: Seq<char>,
    pub username: Seq<char>,
    pub usertype: Seq<char>,
}

impl View for PublicUser {
    type V = UserModel;

    open spec fn view(&self) -> UserModel {
        UserModel { id: self.id@, username: self.username@, usertype: self.usertype@ }
    }
}

/// An HTTP reply: a status code and a plain body.
pub struct Reply {
    pub status: u16,
    pub body: Seq<char>,
}

pub struct HttpReply {
    pub status: u16,
    pub body: String,
}

impl View for HttpReply {
    type V = Reply;

    open spec fn view(&self) -> Reply {
        Reply { status: self.status, body: self.body@ }
    }
}

/// One call on the store.
pub enum StoreCall {
    Scan { table: String, limit: usize },
    GetByKey { table: String, key_name: String, key: AttrValue },
    Put { table: String, item: Item },
    DeleteByKey { table: String, key_name: String, key: AttrValue },
}

/// The item that a create request stores.
pub open spec fn stored_item(u: User) -> ItemModel {
    seq![
        ("id"@, AttrModel::Num(u.id@)),
        ("username"@, AttrModel::Str(u.username@)),
        ("usertype"@, AttrModel::Num(u.usertype@)),
        ("password"@, AttrModel::Str(u.password@)),
    ]
}

/// The public fields of a stored item, when each is there with its type.
pub open spec fn user_of(item: ItemModel) -> Option<UserModel> {
    match (number_in(item, "id"@), string_in(item, "username"@), number_in(item, "usertype"@)) {
        (Some(id), Some(username), Some(usertype)) => Some(
            UserModel { id, username, usertype },
        ),
        _ => None,
    }
}

pub open spec fn well_formed(item: ItemModel) -> bool {
    user_of(item) is Some
}

/// The items that a listing shows: the first ones, up to the limit.
pub open spec fn listed(items: Seq<ItemModel>) -> Seq<ItemModel> {
    if items.len() <= LIST_LIMIT {
        items
    } else {
        items.take(LIST_LIMIT as int)
    }
}

pub open spec fn public_of(item: ItemModel) -> UserModel {
    match user_of(item) {
        Some(u) => u,
        None => UserModel { id: Seq::empty(), username: Seq::empty(), usertype: Seq::empty() },
    }
}

pub open spec fn field_json(name: Seq<char>, value: Seq<char>) -> Seq<char> {
    json_string_of(name) + seq![':'] + json_string_of(value)
}

/// The JSON object of a user: `{"id":..,"username":..,"usertype":..}`.
pub open spec fn user_json(u: UserModel) -> Seq<char> {
    seq!['{'] + field_json("id"@, u.id) + seq![','] + field_json("username"@, u.username) + seq![
        ',',
    ] + field_json("usertype"@, u.usertype) + seq!['}']
}

/// The objects of the users, separated by commas.
pub open spec fn users_joined(us: Seq<UserModel>) -> Seq<char>
    decreases us.len(),
{
    if us.len() == 0 {
        Seq::empty()
    } else if us.len() == 1 {
        user_json(us[0])
    } else {
        users_joined(us.drop_last()) + seq![','] + user_json(us.last())
    }
}

/// The JSON array of the users.
pub open spec fn users_json(us: Seq<UserModel>) -> Seq<char> {
    seq!['['] + users_joined(us) + seq![']']
}

pub open spec fn items_view(items: Seq<Item>) -> Seq<ItemModel> {
    items.map_values(|i: Item| i@)
}

pub open spec fn server_error(e: Seq<char>) -> Reply {
    Reply { status: STATUS_SERVER_ERROR, body: e }
}

/// The reply to a listing, from what the scan returned.
pub open spec fn list_reply(outcome: Result<Seq<ItemModel>, Seq<char>>) -> Reply {
    match outcome {
        Ok(items) => Reply {
            status: STATUS_OK,
            body: users_json(listed(items).map_values(|i: ItemModel| public_of(i))),
        },
        Err(e) => server_error(e),
    }
}

/// The reply to a lookup, from what the read by key returned. A read that
/// found nothing is not a case that `get` accepts; it is given here as a
/// server error with an empty body.
pub open spec fn get_reply(outcome: Result<Option<ItemModel>, Seq<char>>) -> Reply {
    match outcome {
        Ok(Some(item)) => Reply { status: STATUS_OK, body: user_json(public_of(item)) },
        Ok(None) => server_error(Seq::empty()),
        Err(e) => server_error(e),
    }
}

/// The reply to a write or a removal, from the text of the attributes that
/// the store handed back.
pub open spec fn write_reply(outcome: Result<Seq<char>, Seq<char>>) -> Reply {
    match outcome {
        Ok(previous) => Reply { status: STATUS_OK, body: previous },
        Err(e) => server_error(e),
    }
}

pub open spec fn text_outcome(outcome: Result<String, String>) -> Result<Seq<char>, Seq<char>> {
    match outcome {
        Ok(s) => Ok(s@),
        Err(e) => Err(e@),
    }
}

impl UserResponse {
    /// The stored form of a create request.
    pub fn from_user(u: User) -> (r: UserResponse)
        ensures
            r.id@ == AttrModel::Num(u.id@),
            r.username@ == AttrModel::Str(u.username@),
            r.usertype@ == AttrModel::Num(u.usertype@),
            r.password@ == AttrModel::Str(u.password@),
    {
        UserResponse {
            id: AttrValue::Num(u.id),
            username: AttrValue::Str(u.username),
            usertype: AttrValue::Num(u.usertype),
            password: AttrValue::Str(u.password),
        }
    }

    /// The item with the four attributes of the record.
    pub fn into_item(self) -> (r: Item)
        ensures
            r@ == seq![
                ("id"@, self.id@),
                ("username"@, self.username@),
                ("usertype"@, self.usertype@),
                ("password"@, self.password@),
            ],
    {
        let mut attrs: Vec<(String, AttrValue)> = Vec::new();
        attrs.push(("id".to_owned(), self.id));
        attrs.push(("username".to_owned(), self.username));
        attrs.push(("usertype".to_owned(), self.usertype));
        attrs.push(("password".to_owned(), self.password));
        let r = Item { attrs };
        assert(r@ =~= seq![
            ("id"@, self.id@),
            ("username"@, self.username@),
            ("usertype"@, self.usertype@),
            ("password"@, self.password@),
        ]);
        r
    }
}

/// The public fields of a stored item; `None` when one of them is missing
/// or stored with another type.
pub fn public_user(item: &Item) -> (r: Option<PublicUser>)
    ensures
        match r {
            Some(u) => user_of(item@) == Some(u@),
            None => user_of(item@) is None,
        },
{
    let id = item.number(&"id".to_owned());
    let username = item.string(&"username".to_owned());
    let usertype = item.number(&"usertype".to_owned());
    match (id, username, usertype) {
        (Some(id), Some(username), Some(usertype)) => Some(PublicUser { id, username, usertype }),
        _ => None,
    }
}

/// The JSON object of a user.
pub fn render_user(u: &PublicUser) -> (r: Result<String, String>)
    ensures
        r matches Ok(t) && t@ == user_json(u@),
{
    let mut out = String::new();
    out.append("{");
    out.append(encode_string("id")?.as_str());
    out.append(":");
    out.append(encode_string(u.id.as_str())?.as_str());
    out.append(",");
    out.append(encode_string("username")?.as_str());
    out.append(":");
    out.append(encode_string(u.username.as_str())?.as_str());
    out.append(",");
    out.append(encode_string("usertype")?.as_str());
    out.append(":");
    out.append(encode_string(u.usertype.as_str())?.as_str());
    out.append("}");
    proof {
        reveal_strlit("{");
        reveal_strlit(":");
        reveal_strlit(",");
        reveal_strlit("}");
    }
    assert(out@ =~= user_json(u@));
    Ok(out)
}

/// The JSON array of the users, in order.
pub fn render_users(us: &Vec<PublicUser>) -> (r: Result<String, String>)
    ensures
        r matches Ok(t) && t@ == users_json(us@.map_values(|u: PublicUser| u@)),
{
    let ghost models = us@.map_values(|u: PublicUser| u@);
    let mut out = String::new();
    let n = us.len();
    let mut i: usize = 0;
    proof {
        assert(models.take(0) =~= Seq::<UserModel>::empty());
    }
    while i < n
        invariant
            n == us.len(),
            models == us@.map_values(|u: PublicUser| u@),
            i <= n,
            out@ == users_joined(models.take(i as int)),
        decreases n - i,
    {
        let obj = render_user(&us[i])?;
        if i > 0 {
            out.append(",");
        }
        out.append(obj.as_str());
        proof {
            reveal_strlit(",");
            let next = models.take(i as int + 1);
            assert(next.drop_last() =~= models.take(i as int));
            assert(next.last() == us@[i as int]@);
            if i == 0 {
                assert(out@ =~= users_joined(next));
            } else {
                assert(out@ =~= users_joined(next));
            }
        }
        i = i + 1;
    }
    let mut r = String::new();
    r.append("[");
    r.append(out.as_str());
    r.append("]");
    proof {
        reveal_strlit("[");
        reveal_strlit("]");
        assert(models.take(n as int) =~= models);
    }
    assert(r@ =~= users_json(models));
    Ok(r)
}

/// The store call that a listing makes: a scan of the users, up to the limit.
pub fn list_call() -> (r: StoreCall)
    ensures
        r matches StoreCall::Scan { table, limit } && table@ == users_table() && limit
            == LIST_LIMIT,
{
    StoreCall::Scan { table: "users".to_owned(), limit: LIST_LIMIT }
}

/// `GET /users`: the users that the scan returned, at most the limit of them,
/// as a JSON array of their public fields; a failed scan gives a server error
/// with the failure's text.
pub fn list(outcome: Result<Vec<Item>, String>) -> (r: HttpReply)
    requires
        outcome matches Ok(items) ==> forall|i: int|
            0 <= i < listed(items_view(items@)).len() ==> well_formed(
                #[trigger] listed(items_view(items@))[i],
            ),
    ensures
        r@ == list_reply(
            match outcome {
                Ok(items) => Ok(items_view(items@)),
                Err(e) => Err(e@),
            },
        ),
{
    match outcome {
        Ok(items) => {
            let ghost shown = listed(items_view(items@));
            let n: usize = if items.len() <= LIST_LIMIT {
                items.len()
            } else {
                LIST_LIMIT
            };
            let mut users: Vec<PublicUser> = Vec::new();
            let mut i: usize = 0;
            while i < n
                invariant
                    n == shown.len(),
                    n <= items.len(),
                    shown == listed(items_view(items@)),
                    forall|j: int| 0 <= j < n ==> well_formed(#[trigger] shown[j]),
                    i <= n,
                    users@.map_values(|u: PublicUser| u@) =~= shown.take(i as int).map_values(
                        |it: ItemModel| public_of(it),
                    ),
                decreases n - i,
            {
                assert(shown[i as int] == items@[i as int]@);
                match public_user(&items[i]) {
                    Some(u) => {
                        assert(public_of(shown[i as int]) == u@);
                        users.push(u);
                        assert(shown.take(i as int + 1).map_values(|it: ItemModel| public_of(it))
                            =~= shown.take(i as int).map_values(|it: ItemModel| public_of(it)).push(
                            public_of(shown[i as int]),
                        ));
                    },
                    None => {
                        assert(well_formed(shown[i as int]));
                        assert(false);
                    },
                }
                i = i + 1;
            }
            assert(shown.take(n as int) =~= shown);
            match render_users(&users) {
                Ok(body) => HttpReply { status: STATUS_OK, body },
                Err(e) => HttpReply { status: STATUS_SERVER_ERROR, body: e },
            }
        },
        Err(e) => HttpReply { status: STATUS_SERVER_ERROR, body: e },
    }
}

/// The store call that a lookup makes: a read of the user keyed by `id`.
pub fn get_call(id: String) -> (r: StoreCall)
    ensures
        r matches StoreCall::GetByKey { table, key_name, key } && table@ == users_table()
            && key_name@ == key_attr() && key@ == AttrModel::Num(id@),
{
    StoreCall::GetByKey { table: "users".to_owned(), key_name: "id".to_owned(), key: AttrValue::Num(id) }
}

/// `GET /users/{id}`: the public fields of the item that the read returned,
/// as a JSON object; a failed read gives a server error with the failure's
/// text.
pub fn get(outcome: Result<Option<Item>, String>) -> (r: HttpReply)
    requires
        outcome matches Ok(found) ==> (found matches Some(item) && well_formed(item@)),
    ensures
        r@ == get_reply(
            match outcome {
                Ok(Some(item)) => Ok(Some(item@)),
                Ok(None) => Ok(None),
                Err(e) => Err(e@),
            },
        ),
{
    match outcome {
        Ok(Some(item)) => match public_user(&item) {
            Some(u) => match render_user(&u) {
                Ok(body) => HttpReply { status: STATUS_OK, body },
                Err(e) => HttpReply { status: STATUS_SERVER_ERROR, body: e },
            },
            None => HttpReply { status: STATUS_SERVER_ERROR, body: String::new() },
        },
        Ok(None) => HttpReply { status: STATUS_SERVER_ERROR, body: String::new() },
        Err(e) => HttpReply { status: STATUS_SERVER_ERROR, body: e },
    }
}

/// The store call that a create request makes: a write of the four fields,
/// which replaces any item with the same `id`.
pub fn create_call(user: User) -> (r: StoreCall)
    ensures
        r matches StoreCall::Put { table, item } && table@ == users_table() && item@
            == stored_item(user),
{
    let item = UserResponse::from_user(user).into_item();
    StoreCall::Put { table: "users".to_owned(), item }
}

/// `POST /users`: success with the text of the attributes that the write
/// handed back; a failed write gives a server error with the failure's text.
pub fn create(outcome: Result<String, String>) -> (r: HttpReply)
    ensures
        r@ == write_reply(text_outcome(outcome)),
{
    match outcome {
        Ok(previous) => HttpReply { status: STATUS_OK, body: previous },
        Err(e) => HttpReply { status: STATUS_SERVER_ERROR, body: e },
    }
}

/// The store call that a removal makes: a delete of the user keyed by `id`.
pub fn delete_call(id: String) -> (r: StoreCall)
    ensures
        r matches StoreCall::DeleteByKey { table, key_name, key } && table@ == users_table()
            && key_name@ == key_attr() && key@ == AttrModel::Num(id@),
{
    StoreCall::DeleteByKey {
        table: "users".to_owned(),
        key_name: "id".to_owned(),
        key: AttrValue::Num(id),
    }
}

/// `DELETE /users/{id}`: success with the text of the attributes that the
/// removal handed back; a failed removal gives a server error with the
/// failure's text.
pub fn delete(outcome: Result<String, String>) -> (r: HttpReply)
    ensures
        r@ == write_reply(text_outcome(outcome)),
{
    match outcome {
        Ok(previous) => HttpReply { status: STATUS_OK, body: previous },
        Err(e) => HttpReply { status: STATUS_SERVER_ERROR, body: e },
    }
}

} // verus!
