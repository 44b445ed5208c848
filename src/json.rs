//! A JSON value tree and its text form.
use vstd::prelude::*;

verus! {

broadcast use vstd::std_specs::vec::group_vec_axioms;

/// A decimal number, `digits` divided by ten to the power `scale`.
#[derive(Clone, Copy, Debug, PartialEq, Eq, Structural)]
pub struct Decimal {
    pub digits: i64,
    pub scale: u8,
}

/// A JSON value.  Members of an object keep the order in which they were given.
pub enum JsonValue {
    Null,
    Bool(bool),
    Int(i64),
    Decimal(Decimal),
    Str(String),
    Array(Vec<JsonValue>),
    Object(Vec<(String, JsonValue)>),
}

/// The decimal digit `d` (0..=9) as a character.
pub open spec fn digit_char(d: int) -> char {
    if d == 0 {
        '0'
    } else if d == 1 {
        '1'
    } else if d == 2 {
        '2'
    } else if d == 3 {
        '3'
    } else if d == 4 {
        '4'
    } else if d == 5 {
        '5'
    } else if d == 6 {
        '6'
    } else if d == 7 {
        '7'
    } else if d == 8 {
        '8'
    } else {
        '9'
    }
}

/// The lower-case hexadecimal digit `d` (0..=15) as a character.
pub open spec fn hex_char(d: int) -> char {
    if d < 10 {
        digit_char(d)
    } else if d == 10 {
        'a'
    } else if d == 11 {
        'b'
    } else if d == 12 {
        'c'
    } else if d == 13 {
        'd'
    } else if d == 14 {
        'e'
    } else {
        'f'
    }
}

/// Decimal text of a natural number, without leading zeros.
pub open spec fn nat_text(n: nat) -> Seq<char>
    decreases n,
{
    if n < 10 {
        seq![digit_char(n as int)]
    } else {
        nat_text(n / 10) + seq![digit_char((n % 10) as int)]
    }
}

/// Decimal text of an integer, with a leading `-` when negative.
pub open spec fn int_text(n: int) -> Seq<char> {
    if n < 0 {
        seq!['-'] + nat_text((-n) as nat)
    } else {
        nat_text(n as nat)
    }
}

/// Relies on `String::push`: the character is appended at the end.
#[verifier::external_body]
fn push_char(s: &mut String, c: char)
    ensures
        final(s)@ == old(s)@.push(c),
{
    s.push(c)
}

fn digit(d: u64) -> (c: char)
    requires
        d < 10,
    ensures
        c == digit_char(d as int),
{
    match d {
        0 => '0',
        1 => '1',
        2 => '2',
        3 => '3',
        4 => '4',
        5 => '5',
        6 => '6',
        7 => '7',
        8 => '8',
        _ => '9',
    }
}

/// Appends the decimal text of `n`.
pub fn push_nat(out: &mut String, n: u64)
    ensures
        final(out)@ == old(out)@ + nat_text(n as nat),
    decreases n,
{
    if n >= 10 {
        push_nat(out, n / 10);
    }
    push_char(out, digit(n % 10));
    assert(final(out)@ =~= old(out)@ + nat_text(n as nat));
}

/// Appends the decimal text of `n`.
pub fn push_int(out: &mut String, n: i64)
    ensures
        final(out)@ == old(out)@ + int_text(n as int),
{
    if n < 0 {
        push_char(out, '-');
        let m: u64 = (-(n as i128)) as u64;
        push_nat(out, m);
        assert(final(out)@ =~= old(out)@ + int_text(n as int));
    } else {
        push_nat(out, n as u64);
    }
}

/// `n` zeros.
pub open spec fn zeros(n: nat) -> Seq<char> {
    Seq::new(n, |i: int| '0')
}

/// The digits of `|d|`, with leading zeros so that there are more than `scale`.
pub open spec fn padded_digits(d: int, scale: nat) -> Seq<char> {
    let t = nat_text((if d < 0 {
        -d
    } else {
        d
    }) as nat);
    if t.len() > scale {
        t
    } else {
        zeros((scale + 1 - t.len()) as nat) + t
    }
}

/// Decimal text of `d / 10^scale`, with exactly `scale` digits after the point.
pub open spec fn decimal_text(d: int, scale: nat) -> Seq<char> {
    if scale == 0 {
        int_text(d)
    } else {
        let p = padded_digits(d, scale);
        (if d < 0 {
            seq!['-']
        } else {
            seq![]
        }) + p.take(p.len() - scale) + seq!['.'] + p.skip(p.len() - scale)
    }
}

/// Appends the decimal text of `d`.
pub fn push_decimal(out: &mut String, d: Decimal)
    ensures
        final(out)@ == old(out)@ + decimal_text(d.digits as int, d.scale as nat),
{
    if d.scale == 0 {
        push_int(out, d.digits);
        return;
    }
    let ghost start = out@;
    if d.digits < 0 {
        push_char(out, '-');
    }
    let m: u64 = if d.digits < 0 {
        (-(d.digits as i128)) as u64
    } else {
        d.digits as u64
    };
    let mut t = String::new();
    push_nat(&mut t, m);
    assert(t@ =~= nat_text(m as nat));
    let len = t.unicode_len();
    let scale = d.scale as usize;
    let mut p = String::new();
    if len <= scale {
        let k = scale + 1 - len;
        let mut i: usize = 0;
        while i < k
            invariant
                i <= k,
                p@ =~= zeros(i as nat),
            decreases k - i,
        {
            push_char(&mut p, '0');
            i += 1;
        }
    }
    p.append(t.as_str());
    assert(p@ =~= padded_digits(d.digits as int, d.scale as nat));
    let plen = p.unicode_len();
    let cut = plen - scale;
    out.append(p.as_str().substring_char(0, cut));
    push_char(out, '.');
    out.append(p.as_str().substring_char(cut, plen));
    assert(p@.subrange(0, cut as int) =~= p@.take(cut as int));
    assert(p@.subrange(cut as int, plen as int) =~= p@.skip(cut as int));
    assert(out@ =~= start + decimal_text(d.digits as int, d.scale as nat));
}

/// The escaped form of one character inside a JSON string.
pub open spec fn escaped_char(c: char) -> Seq<char> {
    if c == '"' {
        seq!['\\', '"']
    } else if c == '\\' {
        seq!['\\', '\\']
    } else if c == '\n' {
        seq!['\\', 'n']
    } else if c == '\r' {
        seq!['\\', 'r']
    } else if c == '\t' {
        seq!['\\', 't']
    } else if c == '\u{8}' {
        seq!['\\', 'b']
    } else if c == '\u{c}' {
        seq!['\\', 'f']
    } else if (c as u32) < 0x20 {
        seq!['\\', 'u', '0', '0', hex_char((c as u32) as int / 16), hex_char((c as u32) as int % 16)]
    } else {
        seq![c]
    }
}

/// The escaped form of a character sequence, character by character.
pub open spec fn escaped_text(s: Seq<char>) -> Seq<char>
    decreases s.len(),
{
    if s.len() == 0 {
        seq![]
    } else {
        escaped_text(s.drop_last()) + escaped_char(s.last())
    }
}

/// A JSON string literal holding `s`.
pub open spec fn string_text(s: Seq<char>) -> Seq<char> {
    seq!['"'] + escaped_text(s) + seq!['"']
}

/// The model of a JSON value.
pub enum Json {
    Null,
    Bool(bool),
    Int(int),
    Decimal(int, nat),
    Str(Seq<char>),
    Array(Seq<Json>),
    Object(Seq<(Seq<char>, Json)>),
}

/// The text of a JSON value: no whitespace, members in their given order.
pub open spec fn json_text(v: Json) -> Seq<char>
    decreases v,
{
    match v {
        Json::Null => seq!['n', 'u', 'l', 'l'],
        Json::Bool(b) => if b {
            seq!['t', 'r', 'u', 'e']
        } else {
            seq!['f', 'a', 'l', 's', 'e']
        },
        Json::Int(n) => int_text(n),
        Json::Decimal(d, scale) => decimal_text(d, scale),
        Json::Str(s) => string_text(s),
        Json::Array(items) => seq!['['] + elements_text(items) + seq![']'],
        Json::Object(members) => seq!['{'] + members_text(members) + seq!['}'],
    }
}

/// Array elements separated by commas.
pub open spec fn elements_text(s: Seq<Json>) -> Seq<char>
    decreases s,
{
    if s.len() == 0 {
        seq![]
    } else if s.len() == 1 {
        json_text(s[0])
    } else {
        elements_text(s.drop_last()) + seq![','] + json_text(s[s.len() - 1])
    }
}

/// Object members `"key":value` separated by commas.
pub open spec fn members_text(s: Seq<(Seq<char>, Json)>) -> Seq<char>
    decreases s,
{
    if s.len() == 0 {
        seq![]
    } else if s.len() == 1 {
        string_text(s[0].0) + seq![':'] + json_text(s[0].1)
    } else {
        members_text(s.drop_last()) + seq![','] + string_text(s[s.len() - 1].0) + seq![':']
            + json_text(s[s.len() - 1].1)
    }
}

/// The text of one object member.
pub open spec fn member_text(m: (Seq<char>, Json)) -> Seq<char> {
    string_text(m.0) + seq![':'] + json_text(m.1)
}

/// The members' text read from the front: the first member, then a comma
/// and the rest.
pub proof fn lemma_members_text_front(ms: Seq<(Seq<char>, Json)>)
    requires
        ms.len() >= 1,
    ensures
        members_text(ms) == member_text(ms[0]) + if ms.len() == 1 {
            Seq::<char>::empty()
        } else {
            seq![','] + members_text(ms.skip(1))
        },
    decreases ms.len(),
{
    if ms.len() == 2 {
        assert(ms.drop_last() =~= seq![ms[0]]);
        assert(ms.skip(1) =~= seq![ms[1]]);
        assert(ms.drop_last()[0] == ms[0]);
        assert(ms.skip(1)[0] == ms[1]);
        assert(members_text(ms.drop_last()) == member_text(ms[0]));
        assert(members_text(ms.skip(1)) == member_text(ms[1]));
        assert(members_text(ms) =~= member_text(ms[0]) + seq![','] + members_text(ms.skip(1)));
    } else if ms.len() > 2 {
        let t = ms.drop_last();
        lemma_members_text_front(t);
        let u = ms.skip(1);
        assert(t.skip(1) =~= u.drop_last());
        assert(u[u.len() - 1] == ms[ms.len() - 1]);
        assert(t[0] == ms[0]);
        assert(members_text(t) == member_text(ms[0]) + seq![','] + members_text(u.drop_last()));
        assert(members_text(u) == members_text(u.drop_last()) + seq![','] + string_text(
            u[u.len() - 1].0,
        ) + seq![':'] + json_text(u[u.len() - 1].1));
        assert(members_text(ms) == members_text(t) + seq![','] + string_text(ms[ms.len() - 1].0)
            + seq![':'] + json_text(ms[ms.len() - 1].1));
        assert(members_text(ms) =~= member_text(ms[0]) + seq![','] + members_text(ms.skip(1)));
    }
}

/// The model of a JSON value tree.
pub open spec fn json_of(v: JsonValue) -> Json
    decreases v,
{
    match v {
        JsonValue::Null => Json::Null,
        JsonValue::Bool(b) => Json::Bool(b),
        JsonValue::Int(n) => Json::Int(n as int),
        JsonValue::Decimal(d) => Json::Decimal(d.digits as int, d.scale as nat),
        JsonValue::Str(s) => Json::Str(s@),
        JsonValue::Array(items) => Json::Array(items_of(items@)),
        JsonValue::Object(members) => Json::Object(members_of(members@)),
    }
}

/// The models of a sequence of values.
pub open spec fn items_of(s: Seq<JsonValue>) -> Seq<Json>
    decreases s,
{
    if s.len() == 0 {
        seq![]
    } else {
        items_of(s.drop_last()).push(json_of(s[s.len() - 1]))
    }
}

/// The models of a sequence of object members.
pub open spec fn members_of(s: Seq<(String, JsonValue)>) -> Seq<(Seq<char>, Json)>
    decreases s,
{
    if s.len() == 0 {
        seq![]
    } else {
        members_of(s.drop_last()).push((s[s.len() - 1].0@, json_of(s[s.len() - 1].1)))
    }
}

impl View for JsonValue {
    type V = Json;

    open spec fn view(&self) -> Json {
        json_of(*self)
    }
}

pub proof fn lemma_items_of(s: Seq<JsonValue>)
    ensures
        items_of(s).len() == s.len(),
        forall|i: int| 0 <= i < s.len() ==> #[trigger] items_of(s)[i] == json_of(s[i]),
    decreases s.len(),
{
    if s.len() > 0 {
        lemma_items_of(s.drop_last());
        assert forall|i: int| 0 <= i < s.len() implies #[trigger] items_of(s)[i] == json_of(s[i]) by {
            if i < s.len() - 1 {
                assert(s.drop_last()[i] == s[i]);
            }
        }
    }
}

pub proof fn lemma_members_of(s: Seq<(String, JsonValue)>)
    ensures
        members_of(s).len() == s.len(),
        forall|i: int|
            0 <= i < s.len() ==> #[trigger] members_of(s)[i] == (s[i].0@, json_of(s[i].1)),
    decreases s.len(),
{
    if s.len() > 0 {
        lemma_members_of(s.drop_last());
        assert forall|i: int| 0 <= i < s.len() implies #[trigger] members_of(s)[i] == (
        s[i].0@, json_of(s[i].1)) by {
            if i < s.len() - 1 {
                assert(s.drop_last()[i] == s[i]);
            }
        }
    }
}

fn hex(d: u32) -> (c: char)
    requires
        d < 16,
    ensures
        c == hex_char(d as int),
{
    if d < 10 {
        digit(d as u64)
    } else if d == 10 {
        'a'
    } else if d == 11 {
        'b'
    } else if d == 12 {
        'c'
    } else if d == 13 {
        'd'
    } else if d == 14 {
        'e'
    } else {
        'f'
    }
}

fn push_escaped_char(out: &mut String, c: char)
    ensures
        final(out)@ == old(out)@ + escaped_char(c),
{
    let ghost start = out@;
    if c == '"' {
        push_char(out, '\\');
        push_char(out, '"');
    } else if c == '\\' {
        push_char(out, '\\');
        push_char(out, '\\');
    } else if c == '\n' {
        push_char(out, '\\');
        push_char(out, 'n');
    } else if c == '\r' {
        push_char(out, '\\');
        push_char(out, 'r');
    } else if c == '\t' {
        push_char(out, '\\');
        push_char(out, 't');
    } else if c == '\u{8}' {
        push_char(out, '\\');
        push_char(out, 'b');
    } else if c == '\u{c}' {
        push_char(out, '\\');
        push_char(out, 'f');
    } else if (c as u32) < 0x20 {
        push_char(out, '\\');
        push_char(out, 'u');
        push_char(out, '0');
        push_char(out, '0');
        push_char(out, hex((c as u32) / 16));
        push_char(out, hex((c as u32) % 16));
    } else {
        push_char(out, c);
    }
    assert(out@ =~= start + escaped_char(c));
}

/// Appends `s` as a JSON string literal.
pub fn push_string(out: &mut String, s: &str)
    ensures
        final(out)@ == old(out)@ + string_text(s@),
{
    let ghost start = out@;
    push_char(out, '"');
    let n = s.unicode_len();
    let mut i: usize = 0;
    while i < n
        invariant
            n == s@.len(),
            i <= n,
            out@ == start + seq!['"'] + escaped_text(s@.take(i as int)),
        decreases n - i,
    {
        let c = s.get_char(i);
        push_escaped_char(out, c);
        proof {
            let t = s@.take(i as int + 1);
            assert(t.drop_last() =~= s@.take(i as int));
            assert(t.last() == c);
        }
        i += 1;
    }
    assert(s@.take(n as int) =~= s@);
    push_char(out, '"');
    assert(out@ =~= start + string_text(s@));
}

/// Appends the text of `v`.
pub fn push_value(out: &mut String, v: &JsonValue)
    ensures
        final(out)@ == old(out)@ + json_text(v@),
    decreases v,
{
    let ghost start = out@;
    match v {
        JsonValue::Null => {
            push_char(out, 'n');
            push_char(out, 'u');
            push_char(out, 'l');
            push_char(out, 'l');
        },
        JsonValue::Bool(b) => {
            if *b {
                push_char(out, 't');
                push_char(out, 'r');
                push_char(out, 'u');
                push_char(out, 'e');
            } else {
                push_char(out, 'f');
                push_char(out, 'a');
                push_char(out, 'l');
                push_char(out, 's');
                push_char(out, 'e');
            }
        },
        JsonValue::Int(n) => {
            push_int(out, *n);
        },
        JsonValue::Decimal(d) => {
            push_decimal(out, *d);
        },
        JsonValue::Str(s) => {
            push_string(out, s.as_str());
        },
        JsonValue::Array(items) => {
            push_char(out, '[');
            let mut i: usize = 0;
            while i < items.len()
                invariant
                    i <= items.len(),
                    *v == JsonValue::Array(*items),
                    out@ == start + seq!['['] + elements_text(items_of(items@.take(i as int))),
                decreases items.len() - i,
            {
                if i > 0 {
                    push_char(out, ',');
                }
                proof {
                    assert(decreases_to!(*items => items[i as int]));
                    assert(decreases_to!(*v => v->Array_0));
                    assert(decreases_to!(*v => items[i as int]));
                }
                push_value(out, &items[i]);
                proof {
                    let t = items@.take(i as int + 1);
                    assert(t.drop_last() =~= items@.take(i as int));
                    lemma_items_of(t);
                    let u = items_of(t);
                    assert(u.drop_last() =~= items_of(items@.take(i as int)));
                    assert(u[i as int] == json_of(items@[i as int]));
                    if i == 0 {
                        assert(elements_text(items_of(items@.take(0))) =~= seq![]);
                    }
                }
                i += 1;
            }
            assert(items@.take(items.len() as int) =~= items@);
            push_char(out, ']');
        },
        JsonValue::Object(members) => {
            push_char(out, '{');
            let mut i: usize = 0;
            while i < members.len()
                invariant
                    i <= members.len(),
                    *v == JsonValue::Object(*members),
                    out@ == start + seq!['{'] + members_text(members_of(members@.take(i as int))),
                decreases members.len() - i,
            {
                if i > 0 {
                    push_char(out, ',');
                }
                push_string(out, members[i].0.as_str());
                push_char(out, ':');
                proof {
                    assert(decreases_to!(*members => members[i as int]));
                    assert(decreases_to!(*v => v->Object_0));
                    assert(decreases_to!(members[i as int] => members[i as int].1));
                    assert(decreases_to!(*v => members[i as int].1));
                }
                push_value(out, &members[i].1);
                proof {
                    let t = members@.take(i as int + 1);
                    assert(t.drop_last() =~= members@.take(i as int));
                    lemma_members_of(t);
                    let u = members_of(t);
                    assert(u.drop_last() =~= members_of(members@.take(i as int)));
                    assert(u[i as int] == (members@[i as int].0@, json_of(members@[i as int].1)));
                    if i == 0 {
                        assert(members_text(members_of(members@.take(0))) =~= seq![]);
                    }
                }
                i += 1;
            }
            assert(members@.take(members.len() as int) =~= members@);
            push_char(out, '}');
        },
    }
    assert(out@ =~= start + json_text(v@));
}

/// The JSON text of a value.
pub fn render(v: &JsonValue) -> (r: String)
    ensures
        r@ == json_text(v@),
{
    let mut out = String::new();
    push_value(&mut out, v);
    assert(out@ =~= json_text(v@));
    out
}

/// The value of the last member named `k`.
pub open spec fn lookup(ms: Seq<(Seq<char>, Json)>, k: Seq<char>) -> Option<Json>
    decreases ms.len(),
{
    if ms.len() == 0 {
        None
    } else if ms.last().0 == k {
        Some(ms.last().1)
    } else {
        lookup(ms.drop_last(), k)
    }
}

/// No two members share a key.
pub open spec fn keys_distinct(ms: Seq<(Seq<char>, Json)>) -> bool {
    forall|a: int, b: int| 0 <= a < b < ms.len() ==> ms[a].0 != ms[b].0
}

/// With distinct keys, looking up a key finds its member, and looking up
/// any other key finds nothing.
pub proof fn lemma_lookup_distinct(ms: Seq<(Seq<char>, Json)>, k: Seq<char>)
    requires
        keys_distinct(ms),
    ensures
        forall|i: int| 0 <= i < ms.len() && ms[i].0 == k ==> lookup(ms, k) == Some(ms[i].1),
        (forall|i: int| 0 <= i < ms.len() ==> ms[i].0 != k) ==> lookup(ms, k) is None,
    decreases ms.len(),
{
    if ms.len() > 0 {
        let t = ms.drop_last();
        assert(keys_distinct(t));
        lemma_lookup_distinct(t, k);
        assert forall|i: int| 0 <= i < ms.len() && ms[i].0 == k implies lookup(ms, k) == Some(
            ms[i].1,
        ) by {
            if i < ms.len() - 1 {
                assert(t[i] == ms[i]);
            }
        }
        if forall|i: int| 0 <= i < ms.len() ==> ms[i].0 != k {
            assert forall|i: int| 0 <= i < t.len() implies t[i].0 != k by {
                assert(t[i] == ms[i]);
            }
        }
    }
}

/// The member `k` of an object; `None` for a missing member or a non-object.
pub open spec fn member(j: Json, k: Seq<char>) -> Option<Json> {
    match j {
        Json::Object(ms) => lookup(ms, k),
        _ => None,
    }
}

/// One member `k: v`, or none when `v` is absent.
pub open spec fn optional(k: Seq<char>, v: Option<Json>) -> Seq<(Seq<char>, Json)> {
    match v {
        Some(j) => seq![(k, j)],
        None => seq![],
    }
}

/// A present text as a JSON string.
pub open spec fn opt_str(o: Option<String>) -> Option<Json> {
    match o {
        Some(s) => Some(Json::Str(s@)),
        None => None,
    }
}

/// The view of an optional text.
pub open spec fn opt_view(o: Option<String>) -> Option<Seq<char>> {
    match o {
        Some(s) => Some(s@),
        None => None,
    }
}

/// A present text, given by its characters, as a JSON string.
pub open spec fn opt_text(o: Option<Seq<char>>) -> Option<Json> {
    match o {
        Some(s) => Some(Json::Str(s)),
        None => None,
    }
}

/// A present integer as a JSON number.
pub open spec fn opt_int(o: Option<i64>) -> Option<Json> {
    match o {
        Some(n) => Some(Json::Int(n as int)),
        None => None,
    }
}

/// A present flag as a JSON boolean.
pub open spec fn opt_bool(o: Option<bool>) -> Option<Json> {
    match o {
        Some(b) => Some(Json::Bool(b)),
        None => None,
    }
}

/// The text held by a JSON string.
pub open spec fn as_str(j: Option<Json>) -> Option<Seq<char>> {
    match j {
        Some(Json::Str(s)) => Some(s),
        _ => None,
    }
}

/// The integer held by a JSON number that fits in `i64`.
pub open spec fn as_i64(j: Option<Json>) -> Option<i64> {
    match j {
        Some(Json::Int(n)) => if i64::MIN <= n <= i64::MAX {
            Some(n as i64)
        } else {
            None
        },
        _ => None,
    }
}

/// The flag held by a JSON boolean.
pub open spec fn as_bool(j: Option<Json>) -> Option<bool> {
    match j {
        Some(Json::Bool(b)) => Some(b),
        _ => None,
    }
}

/// An optional member: absent or `null` gives `Some(None)`, a value of the
/// wrong kind gives `None`.
pub open spec fn opt_member_str(j: Json, k: Seq<char>) -> Option<Option<Seq<char>>> {
    match member(j, k) {
        None => Some(None),
        Some(Json::Null) => Some(None),
        Some(Json::Str(s)) => Some(Some(s)),
        _ => None,
    }
}

/// Whether `s` holds exactly the text `lit`.
pub fn str_is(s: &String, lit: &str) -> (r: bool)
    ensures
        r == (s@ == lit@),
{
    *s == String::from_str(lit)
}

/// A decimal as a JSON number.
pub open spec fn decimal_json(d: Decimal) -> Json {
    Json::Decimal(d.digits as int, d.scale as nat)
}

/// A present decimal as a JSON number.
pub open spec fn opt_decimal(o: Option<Decimal>) -> Option<Json> {
    match o {
        Some(d) => Some(decimal_json(d)),
        None => None,
    }
}

/// The decimal a JSON number holds: an integer has scale zero.
pub open spec fn decimal_of_json(j: Json) -> Option<Decimal> {
    match j {
        Json::Int(n) => if i64::MIN <= n <= i64::MAX {
            Some(Decimal { digits: n as i64, scale: 0 })
        } else {
            None
        },
        Json::Decimal(d, s) => if i64::MIN <= d <= i64::MAX && s <= u8::MAX {
            Some(Decimal { digits: d as i64, scale: s as u8 })
        } else {
            None
        },
        _ => None,
    }
}

/// The decimal member `k`.
pub open spec fn as_decimal(j: Option<Json>) -> Option<Decimal> {
    match j {
        Some(v) => decimal_of_json(v),
        None => None,
    }
}

/// An optional decimal member: absent and `null` give `Some(None)`, a
/// value of the wrong kind gives `None`.
pub open spec fn opt_member_decimal(j: Json, k: Seq<char>) -> Option<Option<Decimal>> {
    match member(j, k) {
        None => Some(None),
        Some(Json::Null) => Some(None),
        Some(v) => match decimal_of_json(v) {
            Some(d) => Some(Some(d)),
            None => None,
        },
    }
}

/// An optional integer member: absent and `null` give `Some(None)`, a
/// value of the wrong kind gives `None`.
pub open spec fn opt_member_i64(j: Json, k: Seq<char>) -> Option<Option<i64>> {
    match member(j, k) {
        None => Some(None),
        Some(Json::Null) => Some(None),
        Some(Json::Int(n)) => if i64::MIN <= n <= i64::MAX {
            Some(Some(n as i64))
        } else {
            None
        },
        _ => None,
    }
}

/// Appends the member `key: value`.
pub fn push_member(members: &mut Vec<(String, JsonValue)>, key: &str, value: JsonValue)
    ensures
        members_of(final(members)@) == members_of(old(members)@).push((key@, value@)),
{
    members.push((String::from_str(key), value));
    assert(final(members)@.drop_last() =~= old(members)@);
}

/// Appends the element `value`.
pub fn push_item(items: &mut Vec<JsonValue>, value: JsonValue)
    ensures
        items_of(final(items)@) == items_of(old(items)@).push(value@),
{
    items.push(value);
    assert(final(items)@.drop_last() =~= old(items)@);
}

impl JsonValue {
    /// The member `key` of an object.
    pub fn get(&self, key: &str) -> (r: Option<&JsonValue>)
        ensures
            match member(self@, key@) {
                Some(j) => r is Some && r->0@ == j,
                None => r is None,
            },
    {
        match self {
            JsonValue::Object(members) => {
                let k = String::from_str(key);
                let mut i: usize = members.len();
                proof {
                    assert(members@.take(i as int) =~= members@);
                }
                while i > 0
                    invariant
                        i <= members@.len(),
                        *self == JsonValue::Object(*members),
                        k@ == key@,
                        lookup(members_of(members@), key@) == lookup(
                            members_of(members@.take(i as int)),
                            key@,
                        ),
                    decreases i,
                {
                    let ghost t = members@.take(i as int);
                    proof {
                        assert(t.drop_last() =~= members@.take(i - 1));
                        assert(t[i - 1] == members@[i - 1]);
                        let u = members_of(t);
                        assert(u == members_of(members@.take(i - 1)).push(
                            (members@[i - 1].0@, json_of(members@[i - 1].1)),
                        ));
                        assert(u.drop_last() =~= members_of(members@.take(i - 1)));
                    }
                    if members[i - 1].0 == k {
                        return Some(&members[i - 1].1);
                    }
                    i -= 1;
                }
                None
            },
            _ => None,
        }
    }

    /// The text of a string member `key`.
    pub fn get_str(&self, key: &str) -> (r: Option<String>)
        ensures
            match as_str(member(self@, key@)) {
                Some(s) => r is Some && r->0@ == s,
                None => r is None,
            },
    {
        match self.get(key) {
            Some(JsonValue::Str(s)) => Some(s.clone()),
            _ => None,
        }
    }

    /// The integer member `key`.
    pub fn get_i64(&self, key: &str) -> (r: Option<i64>)
        ensures
            r == as_i64(member(self@, key@)),
    {
        match self.get(key) {
            Some(JsonValue::Int(n)) => Some(*n),
            _ => None,
        }
    }

    /// The boolean member `key`.
    pub fn get_bool(&self, key: &str) -> (r: Option<bool>)
        ensures
            r == as_bool(member(self@, key@)),
    {
        match self.get(key) {
            Some(JsonValue::Bool(b)) => Some(*b),
            _ => None,
        }
    }

    /// The decimal held by a number.
    pub fn as_decimal(&self) -> (r: Option<Decimal>)
        ensures
            r == decimal_of_json(self@),
    {
        match self {
            JsonValue::Int(n) => Some(Decimal { digits: *n, scale: 0 }),
            JsonValue::Decimal(d) => Some(*d),
            _ => None,
        }
    }

    /// The decimal member `key`.
    pub fn get_decimal(&self, key: &str) -> (r: Option<Decimal>)
        ensures
            r == as_decimal(member(self@, key@)),
    {
        match self.get(key) {
            Some(v) => v.as_decimal(),
            None => None,
        }
    }

    /// An optional decimal member `key`: absent and `null` both read as `None`.
    pub fn get_opt_decimal(&self, key: &str) -> (r: Option<Option<Decimal>>)
        ensures
            r == opt_member_decimal(self@, key@),
    {
        match self.get(key) {
            None => Some(None),
            Some(JsonValue::Null) => Some(None),
            Some(v) => match v.as_decimal() {
                Some(d) => Some(Some(d)),
                None => None,
            },
        }
    }

    /// An optional integer member `key`: absent and `null` both read as `None`.
    pub fn get_opt_i64(&self, key: &str) -> (r: Option<Option<i64>>)
        ensures
            r == opt_member_i64(self@, key@),
    {
        match self.get(key) {
            None => Some(None),
            Some(JsonValue::Null) => Some(None),
            Some(JsonValue::Int(n)) => Some(Some(*n)),
            _ => None,
        }
    }

    /// An optional string member `key`: absent and `null` both read as `None`.
    pub fn get_opt_str(&self, key: &str) -> (r: Option<Option<String>>)
        ensures
            match opt_member_str(self@, key@) {
                Some(Some(s)) => r matches Some(Some(t)) && t@ == s,
                Some(None) => r == Some(None::<String>),
                None => r is None,
            },
    {
        match self.get(key) {
            None => Some(None),
            Some(JsonValue::Null) => Some(None),
            Some(JsonValue::Str(s)) => Some(Some(s.clone())),
            _ => None,
        }
    }
}

} // verus!
