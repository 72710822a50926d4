use vstd::prelude::*;

use crate::store::{attr_in, AttrModel, ItemModel};
use crate::users::{
    get_reply, key_attr, list_reply, listed, server_error, stored_item, user_json, user_of,
    write_reply, LIST_LIMIT, STATUS_OK, STATUS_SERVER_ERROR, Reply, User, UserModel,
};

verus! {

/// The users collection as the store keeps it: each item under the value of
/// its key attribute.
pub type StoreModel = Map<AttrModel, ItemModel>;

/// The collection after a write: the item replaces any item with its key.
pub open spec fn put_item(s: StoreModel, item: ItemModel) -> StoreModel {
    match attr_in(item, key_attr()) {
        Some(k) => s.insert(k, item),
        None => s,
    }
}

/// What a read by key finds.
pub open spec fn item_at(s: StoreModel, key: AttrModel) -> Option<ItemModel> {
    if s.contains_key(key) {
        Some(s[key])
    } else {
        None
    }
}

/// The collection after a removal; removing an absent key changes nothing.
pub open spec fn delete_key(s: StoreModel, key: AttrModel) -> StoreModel {
    s.remove(key)
}

/// A user written by a create request is found by a read of its `id`, and
/// the reply to that read shows the name and the type as they were sent.
pub proof fn lemma_create_then_get(s: StoreModel, user: User)
    ensures
        item_at(put_item(s, stored_item(user)), AttrModel::Num(user.id@)) == Some(
            stored_item(user),
        ),
        user_of(stored_item(user)) == Some(
            UserModel { id: user.id@, username: user.username@, usertype: user.usertype@ },
        ),
        get_reply(Ok(Some(stored_item(user)))) == (Reply {
            status: STATUS_OK,
            body: user_json(
                UserModel { id: user.id@, username: user.username@, usertype: user.usertype@ },
            ),
        }),
{
    reveal_strlit("id");
    reveal_strlit("username");
    reveal_strlit("usertype");
    let item = stored_item(user);
    assert(item.drop_first()[0].0 == "username"@);
    assert(item.drop_first().drop_first()[0].0 == "usertype"@);
    assert("id"@ != "username"@);
    assert("id"@ != "usertype"@);
    assert("username"@[4] != "usertype"@[4]);
    assert("username"@ != "usertype"@);
    assert(attr_in(item.drop_first(), "username"@) == Some(AttrModel::Str(user.username@)));
    assert(attr_in(item.drop_first().drop_first(), "usertype"@) == Some(
        AttrModel::Num(user.usertype@),
    ));
    assert(attr_in(item.drop_first(), "usertype"@) == Some(AttrModel::Num(user.usertype@)));
    assert(attr_in(item, "id"@) == Some(AttrModel::Num(user.id@)));
    assert(attr_in(item, "username"@) == Some(AttrModel::Str(user.username@)));
    assert(attr_in(item, "usertype"@) == Some(AttrModel::Num(user.usertype@)));
}

/// A second removal of a key finds it gone and changes nothing, and a
/// removal is answered with success whenever the store carries it out,
/// whether or not the key was there.
pub proof fn lemma_delete_twice(s: StoreModel, id: Seq<char>, first: Seq<char>, second: Seq<char>)
    ensures
        !delete_key(s, AttrModel::Num(id)).contains_key(AttrModel::Num(id)),
        delete_key(delete_key(s, AttrModel::Num(id)), AttrModel::Num(id)) == delete_key(
            s,
            AttrModel::Num(id),
        ),
        write_reply(Ok(first)).status == STATUS_OK,
        write_reply(Ok(second)).status == STATUS_OK,
{
    assert(delete_key(delete_key(s, AttrModel::Num(id)), AttrModel::Num(id)) =~= delete_key(
        s,
        AttrModel::Num(id),
    ));
}

/// A listing never shows more items than the limit, however many the store
/// returned.
pub proof fn lemma_list_bounded(items: Seq<ItemModel>)
    ensures
        listed(items).len() <= LIST_LIMIT,
        items.len() <= LIST_LIMIT ==> listed(items) == items,
        list_reply(Ok(items)).status == STATUS_OK,
{
}

/// When the store fails, each of the four routes answers with a server error
/// whose body is the failure's text.
pub proof fn lemma_store_failure(e: Seq<char>)
    ensures
        list_reply(Err(e)) == server_error(e),
        get_reply(Err(e)) == server_error(e),
        write_reply(Err(e)) == server_error(e),
        server_error(e).status == STATUS_SERVER_ERROR,
        server_error(e).body == e,
{
}

} // verus!
