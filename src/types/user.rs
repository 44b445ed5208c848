//! Users and bots.
use crate::json::{
    as_bool, as_i64, as_str, keys_distinct, lemma_lookup_distinct, member, members_of,
    opt_member_str, opt_text, opt_view, optional, push_member, Json, JsonValue,
};
use vstd::prelude::*;

verus! {

/// The model of a user.
pub struct UserView {
    pub id: i64,
    pub is_bot: bool,
    pub first_name: Seq<char>,
    pub last_name: Option<Seq<char>>,
    pub username: Option<Seq<char>>,
    pub language_code: Option<Seq<char>>,
}

/// A user or a bot.
#[derive(Clone, Debug)]
pub struct User {
    pub id: i64,
    pub is_bot: bool,
    pub first_name: String,
    pub last_name: Option<String>,
    pub username: Option<String>,
    pub language_code: Option<String>,
}

impl View for User {
    type V = UserView;

    open spec fn view(&self) -> UserView {
        UserView {
            id: self.id,
            is_bot: self.is_bot,
            first_name: self.first_name@,
            last_name: opt_view(self.last_name),
            username: opt_view(self.username),
            language_code: opt_view(self.language_code),
        }
    }
}

/// The user a JSON object holds: `id`, `is_bot` and `first_name` are
/// required, the names and language code optional.
pub open spec fn user_of_json(j: Json) -> Option<UserView> {
    match (
        as_i64(member(j, "id"@)),
        as_bool(member(j, "is_bot"@)),
        as_str(member(j, "first_name"@)),
        opt_member_str(j, "last_name"@),
        opt_member_str(j, "username"@),
        opt_member_str(j, "language_code"@),
    ) {
        (Some(id), Some(is_bot), Some(first_name), Some(last_name), Some(username), Some(language_code)) =>
            Some(UserView { id, is_bot, first_name, last_name, username, language_code }),
        _ => None,
    }
}

/// The JSON of a user: the required members, then the options given.
pub open spec fn user_json(u: UserView) -> Json {
    Json::Object(
        seq![
            ("id"@, Json::Int(u.id as int)),
            ("is_bot"@, Json::Bool(u.is_bot)),
            ("first_name"@, Json::Str(u.first_name)),
        ] + optional("last_name"@, opt_text(u.last_name)) + optional(
            "username"@,
            opt_text(u.username),
        ) + optional("language_code"@, opt_text(u.language_code)),
    )
}

/// Every user, with any of its options present or absent, decodes from
/// its own JSON to the same user.
pub proof fn lemma_user_round_trip(u: UserView)
    ensures
        user_of_json(user_json(u)) == Some(u),
{
    reveal_strlit("id");
    reveal_strlit("is_bot");
    reveal_strlit("first_name");
    reveal_strlit("last_name");
    reveal_strlit("username");
    reveal_strlit("language_code");
    assert("id"@.len() == 2 && "is_bot"@.len() == 6 && "first_name"@.len() == 10
        && "last_name"@.len() == 9 && "username"@.len() == 8 && "language_code"@.len() == 13);
    let ms = user_json(u)->Object_0;
    assert(keys_distinct(ms));
    lemma_lookup_distinct(ms, "id"@);
    lemma_lookup_distinct(ms, "is_bot"@);
    lemma_lookup_distinct(ms, "first_name"@);
    lemma_lookup_distinct(ms, "last_name"@);
    lemma_lookup_distinct(ms, "username"@);
    lemma_lookup_distinct(ms, "language_code"@);
    assert(ms[0].0 == "id"@ && ms[1].0 == "is_bot"@ && ms[2].0 == "first_name"@);
    let a = optional("last_name"@, opt_text(u.last_name));
    let b = optional("username"@, opt_text(u.username));
    let c = optional("language_code"@, opt_text(u.language_code));
    assert forall|i: int| 0 <= i < ms.len() implies {
        &&& (ms[i].0 == "last_name"@ ==> u.last_name is Some && ms[i].1 == Json::Str(u.last_name->0))
        &&& (ms[i].0 == "username"@ ==> u.username is Some && ms[i].1 == Json::Str(u.username->0))
        &&& (ms[i].0 == "language_code"@ ==> u.language_code is Some && ms[i].1 == Json::Str(
            u.language_code->0,
        ))
    } by {
        if i >= 3 && i < 3 + a.len() {
            assert(ms[i] == a[i - 3]);
        } else if i >= 3 + a.len() && i < 3 + a.len() + b.len() {
            assert(ms[i] == b[i - 3 - a.len()]);
        } else if i >= 3 + a.len() + b.len() {
            assert(ms[i] == c[i - 3 - a.len() - b.len()]);
        }
    }
    if u.last_name is Some {
        assert(ms[3].0 == "last_name"@);
    }
    if u.username is Some {
        assert(ms[3 + a.len() as int].0 == "username"@);
    }
    if u.language_code is Some {
        assert(ms[3 + a.len() as int + b.len() as int].0 == "language_code"@);
    }
}

impl User {
    /// The JSON value of the user.
    pub fn to_json(&self) -> (r: JsonValue)
        ensures
            r@ == user_json(self@),
    {
        let mut m: Vec<(String, JsonValue)> = Vec::new();
        push_member(&mut m, "id", JsonValue::Int(self.id));
        push_member(&mut m, "is_bot", JsonValue::Bool(self.is_bot));
        push_member(&mut m, "first_name", JsonValue::Str(self.first_name.clone()));
        if let Some(s) = &self.last_name {
            push_member(&mut m, "last_name", JsonValue::Str(s.clone()));
        }
        if let Some(s) = &self.username {
            push_member(&mut m, "username", JsonValue::Str(s.clone()));
        }
        if let Some(s) = &self.language_code {
            push_member(&mut m, "language_code", JsonValue::Str(s.clone()));
        }
        assert(members_of(m@) =~= user_json(self@)->Object_0);
        JsonValue::Object(m)
    }

    /// The user a JSON value holds.
    pub fn from_json(j: &JsonValue) -> (r: Option<User>)
        ensures
            match user_of_json(j@) {
                Some(v) => r is Some && r->0@ == v,
                None => r is None,
            },
    {
        match (
            j.get_i64("id"),
            j.get_bool("is_bot"),
            j.get_str("first_name"),
            j.get_opt_str("last_name"),
            j.get_opt_str("username"),
            j.get_opt_str("language_code"),
        ) {
            (Some(id), Some(is_bot), Some(first_name), Some(last_name), Some(username), Some(language_code)) =>
                Some(User { id, is_bot, first_name, last_name, username, language_code }),
            _ => None,
        }
    }
}

} // verus!
