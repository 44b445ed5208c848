//! Games, with the media and high scores that go with them.
use crate::json::{
    as_i64, as_str, keys_distinct, lemma_lookup_distinct, member, members_of, opt_member_i64,
    opt_member_str, opt_view, push_member, Json, JsonValue,
};
use crate::types::text::{text_entities_of_json, Text, TextEntityError, TextView};
use crate::types::user::{lemma_user_round_trip, user_json, user_of_json, User, UserView};
use vstd::prelude::*;

verus! {

/// The model of a photo size.
pub struct PhotoSizeView {
    pub file_id: Seq<char>,
    pub file_unique_id: Seq<char>,
    pub width: i64,
    pub height: i64,
    pub file_size: Option<i64>,
}

/// One size of a photo or a thumbnail.
#[derive(Clone, Debug)]
pub struct PhotoSize {
    pub file_id: String,
    pub file_unique_id: String,
    pub width: i64,
    pub height: i64,
    pub file_size: Option<i64>,
}

impl View for PhotoSize {
    type V = PhotoSizeView;

    open spec fn view(&self) -> PhotoSizeView {
        PhotoSizeView {
            file_id: self.file_id@,
            file_unique_id: self.file_unique_id@,
            width: self.width,
            height: self.height,
            file_size: self.file_size,
        }
    }
}

/// The photo size a JSON object holds.
pub open spec fn photo_of_json(j: Json) -> Option<PhotoSizeView> {
    match (
        as_str(member(j, "file_id"@)),
        as_str(member(j, "file_unique_id"@)),
        as_i64(member(j, "width"@)),
        as_i64(member(j, "height"@)),
        opt_member_i64(j, "file_size"@),
    ) {
        (Some(file_id), Some(file_unique_id), Some(width), Some(height), Some(file_size)) => Some(
            PhotoSizeView { file_id, file_unique_id, width, height, file_size },
        ),
        _ => None,
    }
}

/// The photo sizes a list of JSON values holds, if each holds one.
pub open spec fn photos_of_json(items: Seq<Json>) -> Option<Seq<PhotoSizeView>>
    decreases items.len(),
{
    if items.len() == 0 {
        Some(seq![])
    } else {
        match (photos_of_json(items.drop_last()), photo_of_json(items.last())) {
            (Some(s), Some(p)) => Some(s.push(p)),
            _ => None,
        }
    }
}

impl PhotoSize {
    /// The photo size a JSON value holds.
    pub fn from_json(j: &JsonValue) -> (r: Option<PhotoSize>)
        ensures
            match photo_of_json(j@) {
                Some(v) => r is Some && r->0@ == v,
                None => r is None,
            },
    {
        match (
            j.get_str("file_id"),
            j.get_str("file_unique_id"),
            j.get_i64("width"),
            j.get_i64("height"),
            j.get_opt_i64("file_size"),
        ) {
            (Some(file_id), Some(file_unique_id), Some(width), Some(height), Some(file_size)) => Some(
                PhotoSize { file_id, file_unique_id, width, height, file_size },
            ),
            _ => None,
        }
    }
}

fn photos_from_json(items: &Vec<JsonValue>) -> (r: Option<Vec<PhotoSize>>)
    ensures
        match photos_of_json(items@.map_values(|j: JsonValue| j@)) {
            Some(s) => r is Some && r->0@.map_values(|p: PhotoSize| p@) == s,
            None => r is None,
        },
{
    let ghost js = items@.map_values(|j: JsonValue| j@);
    let mut out: Vec<PhotoSize> = Vec::new();
    let mut i: usize = 0;
    assert(js.take(0) =~= seq![]);
    assert(out@.map_values(|p: PhotoSize| p@) =~= seq![]);
    while i < items.len()
        invariant
            i <= items@.len(),
            js == items@.map_values(|j: JsonValue| j@),
            photos_of_json(js.take(i as int)) == Some(out@.map_values(|p: PhotoSize| p@)),
        decreases items.len() - i,
    {
        let ghost t = js.take(i as int + 1);
        proof {
            assert(t.drop_last() =~= js.take(i as int));
            assert(t.last() == items@[i as int]@);
        }
        match PhotoSize::from_json(&items[i]) {
            Some(p) => {
                let ghost before = out@;
                out.push(p);
                assert(out@.map_values(|p: PhotoSize| p@) =~= before.map_values(|p: PhotoSize| p@).push(p@));
            },
            None => {
                proof {
                    lemma_photos_none_stays(js, i as int + 1);
                }
                return None;
            },
        }
        i += 1;
    }
    assert(js.take(items@.len() as int) =~= js);
    Some(out)
}

proof fn lemma_photos_none_stays(items: Seq<Json>, k: int)
    requires
        0 <= k <= items.len(),
        photos_of_json(items.take(k)) is None,
    ensures
        photos_of_json(items) is None,
    decreases items.len() - k,
{
    if k < items.len() {
        assert(items.take(k + 1).drop_last() =~= items.take(k));
        lemma_photos_none_stays(items, k + 1);
    } else {
        assert(items.take(k) =~= items);
    }
}

/// The model of an animation.
pub struct AnimationView {
    pub file_id: Seq<char>,
    pub file_unique_id: Seq<char>,
    pub width: i64,
    pub height: i64,
    pub duration: i64,
    pub thumb: Option<PhotoSizeView>,
    pub file_name: Option<Seq<char>>,
    pub mime_type: Option<Seq<char>>,
    pub file_size: Option<i64>,
}

/// An animation: a GIF or an H.264/MPEG-4 AVC video without sound.
#[derive(Clone, Debug)]
pub struct Animation {
    pub file_id: String,
    pub file_unique_id: String,
    pub width: i64,
    pub height: i64,
    pub duration: i64,
    pub thumb: Option<PhotoSize>,
    pub file_name: Option<String>,
    pub mime_type: Option<String>,
    pub file_size: Option<i64>,
}

impl View for Animation {
    type V = AnimationView;

    open spec fn view(&self) -> AnimationView {
        AnimationView {
            file_id: self.file_id@,
            file_unique_id: self.file_unique_id@,
            width: self.width,
            height: self.height,
            duration: self.duration,
            thumb: match self.thumb {
                Some(p) => Some(p@),
                None => None,
            },
            file_name: opt_view(self.file_name),
            mime_type: opt_view(self.mime_type),
            file_size: self.file_size,
        }
    }
}

/// An optional photo member: absent or `null` gives `Some(None)`, a value
/// that is no photo size gives `None`.
pub open spec fn opt_photo(j: Json, k: Seq<char>) -> Option<Option<PhotoSizeView>> {
    match member(j, k) {
        None => Some(None),
        Some(Json::Null) => Some(None),
        Some(p) => match photo_of_json(p) {
            Some(v) => Some(Some(v)),
            None => None,
        },
    }
}

/// The animation a JSON object holds.
pub open spec fn animation_of_json(j: Json) -> Option<AnimationView> {
    match (
        as_str(member(j, "file_id"@)),
        as_str(member(j, "file_unique_id"@)),
        as_i64(member(j, "width"@)),
        as_i64(member(j, "height"@)),
        as_i64(member(j, "duration"@)),
        opt_photo(j, "thumb"@),
        opt_member_str(j, "file_name"@),
        opt_member_str(j, "mime_type"@),
        opt_member_i64(j, "file_size"@),
    ) {
        (
            Some(file_id),
            Some(file_unique_id),
            Some(width),
            Some(height),
            Some(duration),
            Some(thumb),
            Some(file_name),
            Some(mime_type),
            Some(file_size),
        ) => Some(
            AnimationView {
                file_id,
                file_unique_id,
                width,
                height,
                duration,
                thumb,
                file_name,
                mime_type,
                file_size,
            },
        ),
        _ => None,
    }
}

fn opt_photo_from_json(j: &JsonValue, key: &str) -> (r: Option<Option<PhotoSize>>)
    ensures
        match opt_photo(j@, key@) {
            Some(Some(v)) => r matches Some(Some(p)) && p@ == v,
            Some(None) => r matches Some(None),
            None => r is None,
        },
{
    match j.get(key) {
        None => Some(None),
        Some(JsonValue::Null) => Some(None),
        Some(p) => match PhotoSize::from_json(p) {
            Some(v) => Some(Some(v)),
            None => None,
        },
    }
}

impl Animation {
    /// The animation a JSON value holds.
    pub fn from_json(j: &JsonValue) -> (r: Option<Animation>)
        ensures
            match animation_of_json(j@) {
                Some(v) => r is Some && r->0@ == v,
                None => r is None,
            },
    {
        match (
            j.get_str("file_id"),
            j.get_str("file_unique_id"),
            j.get_i64("width"),
            j.get_i64("height"),
            j.get_i64("duration"),
            opt_photo_from_json(j, "thumb"),
            j.get_opt_str("file_name"),
            j.get_opt_str("mime_type"),
            j.get_opt_i64("file_size"),
        ) {
            (
                Some(file_id),
                Some(file_unique_id),
                Some(width),
                Some(height),
                Some(duration),
                Some(thumb),
                Some(file_name),
                Some(mime_type),
                Some(file_size),
            ) => Some(
                Animation {
                    file_id,
                    file_unique_id,
                    width,
                    height,
                    duration,
                    thumb,
                    file_name,
                    mime_type,
                    file_size,
                },
            ),
            _ => None,
        }
    }
}

/// The model of a game.
pub struct GameView {
    pub title: Seq<char>,
    pub description: Seq<char>,
    pub photo: Seq<PhotoSizeView>,
    pub text: Option<TextView>,
    pub animation: Option<AnimationView>,
}

/// A game; its short name identifies it.
#[derive(Clone, Debug)]
pub struct Game {
    pub title: String,
    pub description: String,
    pub photo: Vec<PhotoSize>,
    pub text: Option<Text>,
    pub animation: Option<Animation>,
}

impl View for Game {
    type V = GameView;

    open spec fn view(&self) -> GameView {
        GameView {
            title: self.title@,
            description: self.description@,
            photo: self.photo@.map_values(|p: PhotoSize| p@),
            text: match self.text {
                Some(t) => Some(t@),
                None => None,
            },
            animation: match self.animation {
                Some(a) => Some(a@),
                None => None,
            },
        }
    }
}

/// Why a game could not be read.
#[derive(Clone, Copy, Debug, PartialEq, Eq, Structural)]
pub enum GameError {
    /// A member is missing or has the wrong kind of value.
    Malformed,
    /// The entities of the text do not fit it.
    TextEntities(TextEntityError),
}

/// An optional animation member: absent or `null` gives `Some(None)`.
pub open spec fn opt_animation(j: Json) -> Option<Option<AnimationView>> {
    match member(j, "animation"@) {
        None => Some(None),
        Some(Json::Null) => Some(None),
        Some(a) => match animation_of_json(a) {
            Some(v) => Some(Some(v)),
            None => None,
        },
    }
}

/// The game a JSON object holds.  The text, when present, is joined with
/// the list `text_entities`, which must fit it.
pub open spec fn game_of_json(j: Json) -> Result<GameView, GameError> {
    match (
        as_str(member(j, "title"@)),
        as_str(member(j, "description"@)),
        member(j, "photo"@),
        opt_member_str(j, "text"@),
        opt_animation(j),
    ) {
        (Some(title), Some(description), Some(Json::Array(ps)), Some(text), Some(animation)) => match photos_of_json(ps) {
            None => Err(GameError::Malformed),
            Some(photo) => match text {
                None => Ok(GameView { title, description, photo, text: None, animation }),
                Some(data) => match text_entities_of_json(data, member(j, "text_entities"@)) {
                    Ok(entities) => Ok(
                        GameView {
                            title,
                            description,
                            photo,
                            text: Some(TextView { data, entities }),
                            animation,
                        },
                    ),
                    Err(e) => Err(GameError::TextEntities(e)),
                },
            },
        },
        _ => Err(GameError::Malformed),
    }
}

fn opt_animation_from_json(j: &JsonValue) -> (r: Option<Option<Animation>>)
    ensures
        match opt_animation(j@) {
            Some(Some(v)) => r matches Some(Some(a)) && a@ == v,
            Some(None) => r matches Some(None),
            None => r is None,
        },
{
    match j.get("animation") {
        None => Some(None),
        Some(JsonValue::Null) => Some(None),
        Some(a) => match Animation::from_json(a) {
            Some(v) => Some(Some(v)),
            None => None,
        },
    }
}

impl Game {
    /// The game a JSON value holds: its members are read first, then the
    /// text is joined with its entities.
    pub fn from_json(j: &JsonValue) -> (r: Result<Game, GameError>)
        ensures
            match (r, game_of_json(j@)) {
                (Ok(g), Ok(v)) => g@ == v,
                (Err(e), Err(f)) => e == f,
                _ => false,
            },
    {
        let photos = match j.get("photo") {
            Some(JsonValue::Array(ps)) => {
                proof {
                    crate::json::lemma_items_of(ps@);
                    assert(crate::json::items_of(ps@) =~= ps@.map_values(|x: JsonValue| x@));
                }
                Some(photos_from_json(ps))
            },
            _ => None,
        };
        match (
            j.get_str("title"),
            j.get_str("description"),
            photos,
            j.get_opt_str("text"),
            opt_animation_from_json(j),
        ) {
            (Some(title), Some(description), Some(photo), Some(text), Some(animation)) => match photo {
                None => Err(GameError::Malformed),
                Some(photo) => match text {
                    None => Ok(Game { title, description, photo, text: None, animation }),
                    Some(data) => match Text::from_raw(data, j.get("text_entities")) {
                        Ok(t) => Ok(Game { title, description, photo, text: Some(t), animation }),
                        Err(e) => Err(GameError::TextEntities(e)),
                    },
                },
            },
            _ => Err(GameError::Malformed),
        }
    }
}

/// The model of a high score.
pub struct GameHighScoreView {
    pub position: i64,
    pub user: UserView,
    pub score: i64,
}

/// One row of the high-score table of a game.
#[derive(Clone, Debug)]
pub struct GameHighScore {
    pub position: i64,
    pub user: User,
    pub score: i64,
}

impl View for GameHighScore {
    type V = GameHighScoreView;

    open spec fn view(&self) -> GameHighScoreView {
        GameHighScoreView { position: self.position, user: self.user@, score: self.score }
    }
}

/// The high score a JSON object holds.
pub open spec fn high_score_of_json(j: Json) -> Option<GameHighScoreView> {
    match (as_i64(member(j, "position"@)), member(j, "user"@), as_i64(member(j, "score"@))) {
        (Some(position), Some(u), Some(score)) => match user_of_json(u) {
            Some(user) => Some(GameHighScoreView { position, user, score }),
            None => None,
        },
        _ => None,
    }
}

/// The JSON of a high score.
pub open spec fn high_score_json(h: GameHighScoreView) -> Json {
    Json::Object(
        seq![
            ("position"@, Json::Int(h.position as int)),
            ("user"@, user_json(h.user)),
            ("score"@, Json::Int(h.score as int)),
        ],
    )
}

/// Every high score decodes from its own JSON to the same high score.
pub proof fn lemma_high_score_round_trip(h: GameHighScoreView)
    ensures
        high_score_of_json(high_score_json(h)) == Some(h),
{
    reveal_strlit("position");
    reveal_strlit("user");
    reveal_strlit("score");
    assert("position"@.len() == 8 && "user"@.len() == 4 && "score"@.len() == 5);
    let ms = high_score_json(h)->Object_0;
    assert(keys_distinct(ms));
    lemma_lookup_distinct(ms, "position"@);
    lemma_lookup_distinct(ms, "user"@);
    lemma_lookup_distinct(ms, "score"@);
    lemma_user_round_trip(h.user);
    assert(ms[0].0 == "position"@ && ms[1].0 == "user"@ && ms[2].0 == "score"@);
}

impl GameHighScore {
    /// The JSON value of the high score.
    pub fn to_json(&self) -> (r: JsonValue)
        ensures
            r@ == high_score_json(self@),
    {
        let mut m: Vec<(String, JsonValue)> = Vec::new();
        push_member(&mut m, "position", JsonValue::Int(self.position));
        push_member(&mut m, "user", self.user.to_json());
        push_member(&mut m, "score", JsonValue::Int(self.score));
        assert(members_of(m@) =~= high_score_json(self@)->Object_0);
        JsonValue::Object(m)
    }

    /// The high score a JSON value holds.
    pub fn from_json(j: &JsonValue) -> (r: Option<GameHighScore>)
        ensures
            match high_score_of_json(j@) {
                Some(v) => r is Some && r->0@ == v,
                None => r is None,
            },
    {
        match (j.get_i64("position"), j.get("user"), j.get_i64("score")) {
            (Some(position), Some(u), Some(score)) => match User::from_json(u) {
                Some(user) => Some(GameHighScore { position, user, score }),
                None => None,
            },
            _ => None,
        }
    }
}

} // verus!
