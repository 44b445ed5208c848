//! The transport envelope of an API call: verb, method name and body.
use crate::json::{int_text, json_text, push_int, render, JsonValue};
use vstd::prelude::*;

verus! {

/// The model of a file to be sent.
pub enum InputFileView {
    Id(Seq<char>),
    Url(Seq<char>),
    Bytes { name: Seq<char>, data: Seq<u8> },
}

/// A file to be sent: a file already known to the server, a URL the
/// server fetches, or raw bytes uploaded under a name.
#[derive(Debug)]
pub enum InputFile {
    Id(String),
    Url(String),
    Bytes { name: String, data: Vec<u8> },
}

impl View for InputFile {
    type V = InputFileView;

    open spec fn view(&self) -> InputFileView {
        match self {
            InputFile::Id(s) => InputFileView::Id(s@),
            InputFile::Url(s) => InputFileView::Url(s@),
            InputFile::Bytes { name, data } => InputFileView::Bytes { name: name@, data: data@ },
        }
    }
}

impl InputFile {
    /// A file already stored on the server, by its identifier.
    pub fn file_id(id: &str) -> (r: InputFile)
        ensures
            r@ == InputFileView::Id(id@),
    {
        InputFile::Id(String::from_str(id))
    }

    /// A file the server downloads from `url`.
    pub fn url(url: &str) -> (r: InputFile)
        ensures
            r@ == InputFileView::Url(url@),
    {
        InputFile::Url(String::from_str(url))
    }

    /// Raw bytes uploaded as a file called `name`.
    pub fn bytes(name: &str, data: Vec<u8>) -> (r: InputFile)
        ensures
            r@ == (InputFileView::Bytes { name: name@, data: data@ }),
    {
        InputFile::Bytes { name: String::from_str(name), data }
    }
}

/// The model of a form field's value.
pub enum FormValueView {
    Text(Seq<char>),
    File(InputFileView),
}

/// The value of one form field: inline text or an attached file.
#[derive(Debug)]
pub enum FormValue {
    Text(String),
    File(InputFile),
}

impl View for FormValue {
    type V = FormValueView;

    open spec fn view(&self) -> FormValueView {
        match self {
            FormValue::Text(s) => FormValueView::Text(s@),
            FormValue::File(f) => FormValueView::File(f@),
        }
    }
}

impl FormValue {
    /// The text, when the value is text.
    pub fn get_text(&self) -> (r: Option<&str>)
        ensures
            match self {
                FormValue::Text(s) => r is Some && r->0@ == s@,
                FormValue::File(_) => r is None,
            },
    {
        match self {
            FormValue::Text(s) => Some(s.as_str()),
            FormValue::File(_) => None,
        }
    }

    /// The file, when the value is a file.
    pub fn get_file(&self) -> (r: Option<&InputFile>)
        ensures
            match self {
                FormValue::Text(_) => r is None,
                FormValue::File(f) => r == Some(f),
            },
    {
        match self {
            FormValue::Text(_) => None,
            FormValue::File(f) => Some(f),
        }
    }
}

/// The map that a list of named fields describes; a later entry wins.
pub open spec fn entries_map(s: Seq<(String, FormValue)>) -> Map<Seq<char>, FormValueView>
    decreases s.len(),
{
    if s.len() == 0 {
        Map::empty()
    } else {
        entries_map(s.drop_last()).insert(s.last().0@, s.last().1@)
    }
}

/// No two entries carry the same name.
pub open spec fn names_unique(s: Seq<(String, FormValue)>) -> bool {
    forall|i: int, j: int| 0 <= i < j < s.len() ==> s[i].0@ != s[j].0@
}

proof fn lemma_entries_map_keys(s: Seq<(String, FormValue)>, k: Seq<char>)
    ensures
        entries_map(s).dom().finite(),
        entries_map(s).contains_key(k) <==> exists|i: int| 0 <= i < s.len() && s[i].0@ == k,
    decreases s.len(),
{
    if s.len() > 0 {
        lemma_entries_map_keys(s.drop_last(), k);
        if entries_map(s.drop_last()).contains_key(k) {
            let i = choose|i: int| 0 <= i < s.drop_last().len() && s.drop_last()[i].0@ == k;
            assert(s[i].0@ == k);
        }
        if exists|i: int| 0 <= i < s.len() && s[i].0@ == k {
            let i = choose|i: int| 0 <= i < s.len() && s[i].0@ == k;
            if i < s.len() - 1 {
                assert(s.drop_last()[i].0@ == k);
            }
        }
    }
}

proof fn lemma_entries_map_len(s: Seq<(String, FormValue)>)
    requires
        names_unique(s),
    ensures
        entries_map(s).len() == s.len(),
    decreases s.len(),
{
    if s.len() > 0 {
        let t = s.drop_last();
        assert(names_unique(t));
        lemma_entries_map_len(t);
        lemma_entries_map_keys(t, s.last().0@);
        if entries_map(t).contains_key(s.last().0@) {
            let i = choose|i: int| 0 <= i < t.len() && t[i].0@ == s.last().0@;
            assert(s[i].0@ == s[s.len() - 1].0@);
        }
    }
}

proof fn lemma_entries_map_remove(s: Seq<(String, FormValue)>, j: int)
    requires
        names_unique(s),
        0 <= j < s.len(),
    ensures
        entries_map(s.remove(j)) == entries_map(s).remove(s[j].0@),
    decreases s.len(),
{
    let k = s[j].0@;
    let t = s.drop_last();
    if j == s.len() - 1 {
        assert(s.remove(j) =~= t);
        lemma_entries_map_keys(t, k);
        if entries_map(t).contains_key(k) {
            let i = choose|i: int| 0 <= i < t.len() && t[i].0@ == k;
            assert(s[i].0@ == k);
        }
        assert(entries_map(s).remove(k) =~= entries_map(t));
    } else {
        assert(names_unique(t));
        lemma_entries_map_remove(t, j);
        assert(s.remove(j).drop_last() =~= t.remove(j));
        assert(s.remove(j).last() == s.last());
        assert(s.last().0@ != k);
        assert(entries_map(s.remove(j)) =~= entries_map(s).remove(k));
    }
}

/// A multipart form body: named fields, each text or a file.
#[derive(Debug)]
pub struct Form {
    fields: Vec<(String, FormValue)>,
}

impl View for Form {
    type V = Map<Seq<char>, FormValueView>;

    closed spec fn view(&self) -> Map<Seq<char>, FormValueView> {
        entries_map(self.fields@)
    }
}

impl Form {
    #[verifier::type_invariant]
    spec fn wf(&self) -> bool {
        names_unique(self.fields@)
    }

    /// A form without fields.
    pub fn new() -> (r: Form)
        ensures
            r@ == Map::<Seq<char>, FormValueView>::empty(),
    {
        Form { fields: Vec::new() }
    }

    fn position(&self, name: &String) -> (r: Option<usize>)
        ensures
            match r {
                Some(j) => j < self.fields@.len() && self.fields@[j as int].0@ == name@,
                None => forall|i: int| 0 <= i < self.fields@.len() ==> self.fields@[i].0@ != name@,
            },
    {
        let mut i: usize = 0;
        while i < self.fields.len()
            invariant
                i <= self.fields@.len(),
                forall|k: int| 0 <= k < i ==> self.fields@[k].0@ != name@,
            decreases self.fields.len() - i,
        {
            if self.fields[i].0 == *name {
                return Some(i);
            }
            i += 1;
        }
        None
    }

    /// Removes the field `name`, if there is one.
    pub fn remove_field(&mut self, name: &str)
        ensures
            final(self)@ == old(self)@.remove(name@),
    {
        let key = String::from_str(name);
        let mut taken = Form::new();
        core::mem::swap(self, &mut taken);
        proof {
            use_type_invariant(&taken);
        }
        let ghost before = taken@;
        match taken.position(&key) {
            Some(j) => {
                proof {
                    lemma_entries_map_remove(taken.fields@, j as int);
                }
                let Form { mut fields } = taken;
                let ghost entries = fields@;
                fields.remove(j);
                assert(fields@ =~= entries.remove(j as int));
                assert forall|a: int, b: int| 0 <= a < b < fields@.len() implies fields@[a].0@
                    != fields@[b].0@ by {
                    if a >= j {
                        assert(fields@[a] == entries[a + 1]);
                    }
                    if b >= j {
                        assert(fields@[b] == entries[b + 1]);
                    }
                }
                *self = Form { fields };
            },
            None => {
                proof {
                    lemma_entries_map_keys(taken.fields@, name@);
                }
                assert(taken@ =~= before.remove(name@));
                *self = taken;
            },
        }
    }

    /// Sets the field `name` to `value`, replacing an earlier value.
    pub fn insert_field(&mut self, name: &str, value: FormValue)
        ensures
            final(self)@ == old(self)@.insert(name@, value@),
    {
        self.remove_field(name);
        let mut taken = Form::new();
        core::mem::swap(self, &mut taken);
        proof {
            use_type_invariant(&taken);
        }
        let Form { mut fields } = taken;
        let ghost before = fields@;
        proof {
            lemma_entries_map_keys(before, name@);
        }
        fields.push((String::from_str(name), value));
        assert(fields@.drop_last() =~= before);
        assert forall|a: int, b: int| 0 <= a < b < fields@.len() implies fields@[a].0@
            != fields@[b].0@ by {
            if b == fields@.len() - 1 {
                assert(before[a] == fields@[a]);
            } else {
                assert(before[a] == fields@[a] && before[b] == fields@[b]);
            }
        }
        *self = Form { fields };
    }

    /// The number of fields.
    pub fn len(&self) -> (r: usize)
        ensures
            r == self@.len(),
    {
        proof {
            use_type_invariant(self);
            lemma_entries_map_len(self.fields@);
        }
        self.fields.len()
    }

    /// The value of the field `name`.
    pub fn get_field(&self, name: &str) -> (r: Option<&FormValue>)
        ensures
            match r {
                Some(v) => self@.contains_key(name@) && v@ == self@[name@],
                None => !self@.contains_key(name@),
            },
    {
        let key = String::from_str(name);
        proof {
            use_type_invariant(self);
            lemma_entries_map_keys(self.fields@, name@);
        }
        match self.position(&key) {
            Some(j) => {
                proof {
                    lemma_entries_map_value(self.fields@, j as int);
                }
                Some(&self.fields[j].1)
            },
            None => None,
        }
    }
}

proof fn lemma_entries_map_value(s: Seq<(String, FormValue)>, j: int)
    requires
        names_unique(s),
        0 <= j < s.len(),
    ensures
        entries_map(s).contains_key(s[j].0@),
        entries_map(s)[s[j].0@] == s[j].1@,
    decreases s.len(),
{
    if j < s.len() - 1 {
        let t = s.drop_last();
        assert(names_unique(t));
        lemma_entries_map_value(t, j);
        assert(t[j] == s[j]);
    }
}

/// The form text of a flag.
pub open spec fn bool_text(b: bool) -> Seq<char> {
    if b {
        "true"@
    } else {
        "false"@
    }
}

/// A flag as form text.
pub fn bool_str(b: bool) -> (r: &'static str)
    ensures
        r@ == bool_text(b),
{
    if b {
        "true"
    } else {
        "false"
    }
}

/// An integer as form text.
pub fn int_string(n: i64) -> (r: String)
    ensures
        r@ == int_text(n as int),
{
    let mut s = String::new();
    push_int(&mut s, n);
    assert(s@ =~= int_text(n as int));
    s
}

/// The HTTP verb of a request.
#[derive(Clone, Copy, Debug, PartialEq, Eq, Structural)]
pub enum RequestMethod {
    Get,
    Post,
}

/// The model of a request body.
pub enum BodyView {
    Empty,
    Json(Seq<char>),
    Form(Map<Seq<char>, FormValueView>),
}

/// The model of a request: the API method's name and the body.
pub struct RequestView {
    pub name: Seq<char>,
    pub body: BodyView,
}

/// The verb of a request with this body: GET without body, POST otherwise.
pub open spec fn method_of(body: BodyView) -> RequestMethod {
    match body {
        BodyView::Empty => RequestMethod::Get,
        _ => RequestMethod::Post,
    }
}

/// The body of a request: none, JSON text, or a multipart form.
#[derive(Debug)]
pub enum RequestBody {
    Empty,
    Json(String),
    Form(Form),
}

impl View for RequestBody {
    type V = BodyView;

    open spec fn view(&self) -> BodyView {
        match self {
            RequestBody::Empty => BodyView::Empty,
            RequestBody::Json(s) => BodyView::Json(s@),
            RequestBody::Form(f) => BodyView::Form(f@),
        }
    }
}

/// A call of one API method, ready for an HTTP transport.
#[derive(Debug)]
pub struct Request {
    method_name: String,
    body: RequestBody,
}

impl View for Request {
    type V = RequestView;

    closed spec fn view(&self) -> RequestView {
        RequestView { name: self.method_name@, body: self.body@ }
    }
}

impl Request {
    /// A call without parameters.
    pub fn empty(method_name: &str) -> (r: Request)
        ensures
            r@ == (RequestView { name: method_name@, body: BodyView::Empty }),
    {
        Request { method_name: String::from_str(method_name), body: RequestBody::Empty }
    }

    /// A call whose parameters are the JSON text of `payload`.
    pub fn json(method_name: &str, payload: &JsonValue) -> (r: Request)
        ensures
            r@ == (RequestView { name: method_name@, body: BodyView::Json(json_text(payload@)) }),
    {
        Request { method_name: String::from_str(method_name), body: RequestBody::Json(render(payload)) }
    }

    /// A call whose parameters are the fields of `form`.
    pub fn form(method_name: &str, form: Form) -> (r: Request)
        ensures
            r@ == (RequestView { name: method_name@, body: BodyView::Form(form@) }),
    {
        Request { method_name: String::from_str(method_name), body: RequestBody::Form(form) }
    }

    /// The verb: GET for a call without body, POST otherwise.
    pub fn get_method(&self) -> (r: RequestMethod)
        ensures
            r == method_of(self@.body),
    {
        match self.body {
            RequestBody::Empty => RequestMethod::Get,
            _ => RequestMethod::Post,
        }
    }

    /// The name of the API method called.
    pub fn get_method_name(&self) -> (r: &str)
        ensures
            r@ == self@.name,
    {
        self.method_name.as_str()
    }

    /// The URL of the call: `<base_url>/bot<token>/<method name>`.
    pub fn build_url(&self, base_url: &str, token: &str) -> (r: String)
        ensures
            r@ == base_url@ + seq!['/', 'b', 'o', 't'] + token@ + seq!['/'] + self@.name,
    {
        let mut url = String::from_str(base_url);
        url.append("/bot");
        url.append(token);
        url.append("/");
        url.append(self.method_name.as_str());
        proof {
            reveal_strlit("/bot");
            reveal_strlit("/");
        }
        assert(url@ =~= base_url@ + seq!['/', 'b', 'o', 't'] + token@ + seq!['/'] + self@.name);
        url
    }

    /// The body, consuming the request.
    pub fn into_body(self) -> (r: RequestBody)
        ensures
            r@ == self@.body,
    {
        self.body
    }
}

} // verus!
