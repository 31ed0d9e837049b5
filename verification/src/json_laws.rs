//! JSON text can be read back: no two values are written alike.

use vstd::prelude::*;
use vstd::string::*;

use crate::json;
use crate::text;

verus! {

/// What is left of equal texts after an equal start is equal.
proof fn lemma_rest(start: Seq<char>, x: Seq<char>, y: Seq<char>)
    requires
        start + x == start + y,
    ensures
        x == y,
{
    assert(x =~= (start + x).skip(start.len() as int));
    assert(y =~= (start + y).skip(start.len() as int));
}

proof fn lemma_hex_digit(d: int, e: int)
    requires
        0 <= d < 16,
        0 <= e < 16,
        json::hex_digit(d) == json::hex_digit(e),
    ensures
        d == e,
{
}

/// No character is written so that it could be taken for another one, nor for
/// the end of the string.
proof fn lemma_escape(c: char, d: char, x: Seq<char>, y: Seq<char>)
    ensures
        json::escape(c).len() > 0,
        json::escape(c)[0] != '"',
        json::escape(c) + x == json::escape(d) + y ==> c == d && x == y,
{
    if json::escape(c) + x == json::escape(d) + y {
        let one = json::escape(c) + x;
        let other = json::escape(d) + y;
        assert(one[0] == json::escape(c)[0] && other[0] == json::escape(d)[0]);
        assert(c == d) by {
            if one[0] == '\\' {
                assert(json::escape(c).len() >= 2 && json::escape(d).len() >= 2);
                assert(one[1] == json::escape(c)[1] && other[1] == json::escape(d)[1]);
                if one[1] == 'u' {
                    assert(one[4] == json::escape(c)[4] && other[4] == json::escape(d)[4]);
                    assert(one[5] == json::escape(c)[5] && other[5] == json::escape(d)[5]);
                    lemma_hex_digit(c as int / 16, d as int / 16);
                    lemma_hex_digit(c as int % 16, d as int % 16);
                }
            }
        }
        lemma_rest(json::escape(c), x, y);
    }
}

proof fn lemma_escaped(a: Seq<char>, b: Seq<char>, x: Seq<char>, y: Seq<char>)
    requires
        json::escaped(a) + (seq!['"'] + x) == json::escaped(b) + (seq!['"'] + y),
    ensures
        a == b,
        x == y,
    decreases a.len(),
{
    let end_a = seq!['"'] + x;
    let end_b = seq!['"'] + y;
    let whole_a = json::escaped(a) + end_a;
    let whole_b = json::escaped(b) + end_b;
    if a.len() == 0 && b.len() == 0 {
        assert(whole_a =~= end_a);
        assert(whole_b =~= end_b);
        lemma_rest(seq!['"'], x, y);
        assert(a =~= b);
    } else if a.len() == 0 {
        lemma_escape(b[0], b[0], Seq::empty(), Seq::empty());
        assert(whole_a[0] == '"');
        assert(whole_b[0] == json::escape(b[0])[0]);
    } else if b.len() == 0 {
        lemma_escape(a[0], a[0], Seq::empty(), Seq::empty());
        assert(whole_b[0] == '"');
        assert(whole_a[0] == json::escape(a[0])[0]);
    } else {
        let rest_a = json::escaped(a.skip(1)) + end_a;
        let rest_b = json::escaped(b.skip(1)) + end_b;
        assert(whole_a =~= json::escape(a[0]) + rest_a);
        assert(whole_b =~= json::escape(b[0]) + rest_b);
        lemma_escape(a[0], b[0], rest_a, rest_b);
        lemma_escaped(a.skip(1), b.skip(1), x, y);
        assert(a =~= seq![a[0]] + a.skip(1));
        assert(b =~= seq![b[0]] + b.skip(1));
    }
}

proof fn lemma_string_reads_back(a: Seq<char>, b: Seq<char>, x: Seq<char>, y: Seq<char>)
    requires
        json::string_text(a) + x == json::string_text(b) + y,
    ensures
        a == b,
        x == y,
{
    let tail_a = json::escaped(a) + (seq!['"'] + x);
    let tail_b = json::escaped(b) + (seq!['"'] + y);
    assert(json::string_text(a) + x =~= seq!['"'] + tail_a);
    assert(json::string_text(b) + y =~= seq!['"'] + tail_b);
    lemma_rest(seq!['"'], tail_a, tail_b);
    lemma_escaped(a, b, x, y);
}

/// Whether the text is over or goes on with something other than a digit.
pub open spec fn ends_number(x: Seq<char>) -> bool {
    x.len() == 0 || !('0' <= x[0] <= '9')
}

proof fn lemma_decimal_digits(n: nat)
    ensures
        text::decimal(n).len() > 0,
        forall|i: int|
            0 <= i < text::decimal(n).len() ==> '0' <= #[trigger] text::decimal(n)[i] <= '9',
    decreases n,
{
    if n >= 10 {
        lemma_decimal_digits(n / 10);
    }
}

proof fn lemma_decimal(m: nat, n: nat)
    requires
        text::decimal(m) == text::decimal(n),
    ensures
        m == n,
    decreases m,
{
    lemma_decimal_digits(m / 10);
    lemma_decimal_digits(n / 10);
    let one = text::decimal(m);
    let other = text::decimal(n);
    assert(one.last() == text::digit_char(m % 10));
    assert(other.last() == text::digit_char(n % 10));
    assert(m % 10 == n % 10);
    if m >= 10 {
        assert(n >= 10);
        assert(one.drop_last() =~= text::decimal(m / 10));
        assert(other.drop_last() =~= text::decimal(n / 10));
        lemma_decimal(m / 10, n / 10);
    } else {
        assert(n < 10);
    }
}

proof fn lemma_decimal_reads_back(m: nat, n: nat, x: Seq<char>, y: Seq<char>)
    requires
        text::decimal(m) + x == text::decimal(n) + y,
        ends_number(x),
        ends_number(y),
    ensures
        m == n,
        x == y,
{
    let one = text::decimal(m) + x;
    let other = text::decimal(n) + y;
    lemma_decimal_digits(m);
    lemma_decimal_digits(n);
    let i = text::decimal(m).len() as int;
    let j = text::decimal(n).len() as int;
    if i < j {
        assert(other[i] == text::decimal(n)[i]);
        assert(one[i] == x[0]);
    }
    if j < i {
        assert(one[j] == text::decimal(m)[j]);
        assert(other[j] == y[0]);
    }
    assert(text::decimal(m) =~= one.take(i));
    assert(text::decimal(n) =~= other.take(j));
    lemma_decimal(m, n);
    lemma_rest(text::decimal(m), x, y);
}

/// A JSON value.
pub enum Json {
    Null,
    Flag(bool),
    Number(nat),
    Text(Seq<char>),
    List(Seq<Json>),
    Object(Seq<(Seq<char>, Json)>),
}

impl Json {
    /// The value as JSON text.
    pub open spec fn text(self) -> Seq<char>
        decreases self,
    {
        match self {
            Json::Null => "null"@,
            Json::Flag(b) => json::boolean(b),
            Json::Number(n) => text::decimal(n),
            Json::Text(s) => json::string_text(s),
            Json::List(items) => "["@ + items_text(items, true),
            Json::Object(members) => "{"@ + members_text(members, true),
        }
    }
}

/// What stands in front of an item or a member.
pub open spec fn lead(first: bool) -> Seq<char> {
    if first {
        Seq::empty()
    } else {
        ","@
    }
}

/// The items of a list from some item on, to the closing bracket.
pub open spec fn items_text(items: Seq<Json>, first: bool) -> Seq<char>
    decreases items,
{
    if items.len() == 0 {
        "]"@
    } else {
        lead(first) + (items[0].text() + items_text(items.subrange(1, items.len() as int), false))
    }
}

/// The members of an object from some member on, to the closing brace.
pub open spec fn members_text(members: Seq<(Seq<char>, Json)>, first: bool) -> Seq<char>
    decreases members,
{
    if members.len() == 0 {
        "}"@
    } else {
        lead(first) + (json::string_text(members[0].0) + (":"@ + (members[0].1.text()
            + members_text(members.subrange(1, members.len() as int), false))))
    }
}

/// What a value's text begins with tells what kind of value it is.
spec fn kind_of(c: char) -> int {
    if c == 'n' {
        0
    } else if c == 't' || c == 'f' {
        1
    } else if '0' <= c <= '9' {
        2
    } else if c == '"' {
        3
    } else if c == '[' {
        4
    } else {
        5
    }
}

impl Json {
    spec fn kind(self) -> int {
        match self {
            Json::Null => 0,
            Json::Flag(_) => 1,
            Json::Number(_) => 2,
            Json::Text(_) => 3,
            Json::List(_) => 4,
            Json::Object(_) => 5,
        }
    }
}

proof fn lemma_first(value: Json)
    ensures
        value.text().len() > 0,
        kind_of(value.text()[0]) == value.kind(),
        value.text()[0] != ']',
        value.text()[0] != '}',
        value.text()[0] != ',',
{
    reveal_strlit("null");
    reveal_strlit("true");
    reveal_strlit("false");
    reveal_strlit("[");
    reveal_strlit("{");
    match value {
        Json::Number(n) => {
            lemma_decimal_digits(n);
        },
        _ => {},
    }
}

proof fn lemma_items_end(items: Seq<Json>, first: bool, x: Seq<char>)
    ensures
        (items_text(items, first) + x).len() > 0,
        items.len() == 0 ==> (items_text(items, first) + x)[0] == ']',
        items.len() > 0 ==> (items_text(items, first) + x)[0] != ']',
        !first ==> ends_number(items_text(items, first) + x),
{
    reveal_strlit("]");
    reveal_strlit(",");
    if items.len() > 0 {
        lemma_first(items[0]);
    }
}

proof fn lemma_members_end(members: Seq<(Seq<char>, Json)>, first: bool, x: Seq<char>)
    ensures
        (members_text(members, first) + x).len() > 0,
        members.len() == 0 ==> (members_text(members, first) + x)[0] == '}',
        members.len() > 0 ==> (members_text(members, first) + x)[0] != '}',
        !first ==> ends_number(members_text(members, first) + x),
{
    reveal_strlit("}");
    reveal_strlit(",");
}

proof fn lemma_items_read_back(
    a: Seq<Json>,
    b: Seq<Json>,
    first: bool,
    x: Seq<char>,
    y: Seq<char>,
)
    requires
        items_text(a, first) + x == items_text(b, first) + y,
    ensures
        a == b,
        x == y,
    decreases a,
{
    lemma_items_end(a, first, x);
    lemma_items_end(b, first, y);
    if a.len() == 0 {
        lemma_rest("]"@, x, y);
        assert(a =~= b);
    } else {
        let more_a = a.subrange(1, a.len() as int);
        let more_b = b.subrange(1, b.len() as int);
        let tail_a = items_text(more_a, false) + x;
        let tail_b = items_text(more_b, false) + y;
        assert(items_text(a, first) + x =~= lead(first) + (a[0].text() + tail_a));
        assert(items_text(b, first) + y =~= lead(first) + (b[0].text() + tail_b));
        lemma_rest(lead(first), a[0].text() + tail_a, b[0].text() + tail_b);
        lemma_items_end(more_a, false, x);
        lemma_items_end(more_b, false, y);
        values_read_back(a[0], b[0], tail_a, tail_b);
        lemma_items_read_back(more_a, more_b, false, x, y);
        assert(a =~= seq![a[0]] + more_a);
        assert(b =~= seq![b[0]] + more_b);
    }
}

proof fn lemma_members_read_back(
    a: Seq<(Seq<char>, Json)>,
    b: Seq<(Seq<char>, Json)>,
    first: bool,
    x: Seq<char>,
    y: Seq<char>,
)
    requires
        members_text(a, first) + x == members_text(b, first) + y,
    ensures
        a == b,
        x == y,
    decreases a,
{
    lemma_members_end(a, first, x);
    lemma_members_end(b, first, y);
    if a.len() == 0 {
        lemma_rest("}"@, x, y);
        assert(a =~= b);
    } else {
        let more_a = a.subrange(1, a.len() as int);
        let more_b = b.subrange(1, b.len() as int);
        let tail_a = members_text(more_a, false) + x;
        let tail_b = members_text(more_b, false) + y;
        let value_a = ":"@ + (a[0].1.text() + tail_a);
        let value_b = ":"@ + (b[0].1.text() + tail_b);
        let member_a = json::string_text(a[0].0) + value_a;
        let member_b = json::string_text(b[0].0) + value_b;
        assert(members_text(a, first) + x =~= lead(first) + member_a);
        assert(members_text(b, first) + y =~= lead(first) + member_b);
        lemma_rest(lead(first), member_a, member_b);
        lemma_string_reads_back(a[0].0, b[0].0, value_a, value_b);
        lemma_rest(":"@, a[0].1.text() + tail_a, b[0].1.text() + tail_b);
        lemma_members_end(more_a, false, x);
        lemma_members_end(more_b, false, y);
        values_read_back(a[0].1, b[0].1, tail_a, tail_b);
        lemma_members_read_back(more_a, more_b, false, x, y);
        assert(a =~= seq![a[0]] + more_a);
        assert(b =~= seq![b[0]] + more_b);
    }
}

/// Where a text goes on with a value, there is only one value that it can go on
/// with, and only one place where that value ends. (What follows a number must
/// not go on with a digit.)
pub proof fn values_read_back(a: Json, b: Json, x: Seq<char>, y: Seq<char>)
    requires
        a.text() + x == b.text() + y,
        a is Number ==> ends_number(x),
        b is Number ==> ends_number(y),
    ensures
        a == b,
        x == y,
    decreases a,
{
    lemma_first(a);
    lemma_first(b);
    assert((a.text() + x)[0] == a.text()[0]);
    assert((b.text() + y)[0] == b.text()[0]);
    match (a, b) {
        (Json::Null, Json::Null) => {
            lemma_rest("null"@, x, y);
        },
        (Json::Flag(p), Json::Flag(q)) => {
            reveal_strlit("true");
            reveal_strlit("false");
            lemma_rest(json::boolean(p), x, y);
        },
        (Json::Number(m), Json::Number(n)) => {
            lemma_decimal_reads_back(m, n, x, y);
        },
        (Json::Text(s), Json::Text(t)) => {
            lemma_string_reads_back(s, t, x, y);
        },
        (Json::List(p), Json::List(q)) => {
            assert(a.text() + x =~= "["@ + (items_text(p, true) + x));
            assert(b.text() + y =~= "["@ + (items_text(q, true) + y));
            lemma_rest("["@, items_text(p, true) + x, items_text(q, true) + y);
            lemma_items_read_back(p, q, true, x, y);
        },
        (Json::Object(p), Json::Object(q)) => {
            assert(a.text() + x =~= "{"@ + (members_text(p, true) + x));
            assert(b.text() + y =~= "{"@ + (members_text(q, true) + y));
            lemma_rest("{"@, members_text(p, true) + x, members_text(q, true) + y);
            lemma_members_read_back(p, q, true, x, y);
        },
        _ => {},
    }
}

/// A text that is cut short is no value's text: where the text of `a` is the
/// start of the text of `b`, they are the same value and nothing was cut off.
/// (Of a number this does not hold: `1` is the start of `12`.)
pub proof fn cut_text_is_no_value(a: Json, b: Json, rest: Seq<char>)
    requires
        a.text() + rest == b.text(),
        !(b is Number),
    ensures
        a == b,
        rest.len() == 0,
{
    lemma_first(a);
    lemma_first(b);
    assert((a.text() + rest)[0] == a.text()[0]);
    let nothing = Seq::<char>::empty();
    assert(b.text() + nothing =~= b.text());
    values_read_back(a, b, rest, nothing);
}

} // verus!
