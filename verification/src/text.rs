//! Text building blocks: decimal numbers, joined lists, substring search and
//! the check for interior NUL bytes.

use vstd::prelude::*;
use vstd::string::*;

verus! {

/// The character that stands for the digit `d`.
pub open spec fn digit_char(d: nat) -> char {
    ('0' as int + d) as char
}

/// `n` in base ten, most significant digit first, without leading zeros.
pub open spec fn decimal(n: nat) -> Seq<char>
    decreases n,
{
    if n < 10 {
        seq![digit_char(n)]
    } else {
        decimal(n / 10).push(digit_char(n % 10))
    }
}

/// `n` in base ten, with a minus sign in front of a negative number.
pub open spec fn signed_decimal(n: int) -> Seq<char> {
    if n < 0 {
        seq!['-'] + decimal((-n) as nat)
    } else {
        decimal(n as nat)
    }
}

/// The items in order, with `separator` between neighbours.
pub open spec fn joined(items: Seq<Seq<char>>, separator: Seq<char>) -> Seq<char>
    decreases items.len(),
{
    if items.len() == 0 {
        Seq::empty()
    } else if items.len() == 1 {
        items[0]
    } else {
        items[0] + separator + joined(items.skip(1), separator)
    }
}

/// Whether `needle` occurs in `haystack` as a run of neighbouring characters.
pub open spec fn has_substring(haystack: Seq<char>, needle: Seq<char>) -> bool {
    exists|at: int| occurs_at(haystack, needle, at)
}

/// Whether `needle` occurs in `haystack` from position `at` on.
pub open spec fn occurs_at(haystack: Seq<char>, needle: Seq<char>, at: int) -> bool {
    &&& 0 <= at
    &&& at + needle.len() <= haystack.len()
    &&& haystack.subrange(at, at + needle.len()) == needle
}

/// Whether `position` is where the first zero byte of `bytes` stands.
pub open spec fn first_nul_at(bytes: Seq<u8>, position: int) -> bool {
    &&& 0 <= position < bytes.len()
    &&& bytes[position] == 0
    &&& forall|i: int| 0 <= i < position ==> bytes[i] != 0
}

/// Whether `bytes` holds no zero byte.
pub open spec fn nul_free(bytes: Seq<u8>) -> bool {
    forall|i: int| 0 <= i < bytes.len() ==> bytes[i] != 0
}

fn digit(d: u64) -> (r: &'static str)
    requires
        d < 10,
    ensures
        r@ == seq![digit_char(d as nat)],
{
    proof {
        reveal_strlit("0");
        reveal_strlit("1");
        reveal_strlit("2");
        reveal_strlit("3");
        reveal_strlit("4");
        reveal_strlit("5");
        reveal_strlit("6");
        reveal_strlit("7");
        reveal_strlit("8");
        reveal_strlit("9");
    }
    let r = match d {
        0 => "0",
        1 => "1",
        2 => "2",
        3 => "3",
        4 => "4",
        5 => "5",
        6 => "6",
        7 => "7",
        8 => "8",
        _ => "9",
    };
    assert(r@ =~= seq![digit_char(d as nat)]);
    r
}

/// Renders `n` in base ten.
pub fn decimal_text(n: u64) -> (r: String)
    ensures
        r@ == decimal(n as nat),
    decreases n,
{
    if n < 10 {
        digit(n).to_string()
    } else {
        let mut r = decimal_text(n / 10);
        r.append(digit(n % 10));
        assert(r@ =~= decimal(n as nat));
        r
    }
}

/// Renders `n` in base ten, with a minus sign in front of a negative number.
pub fn signed_decimal_text(n: i32) -> (r: String)
    ensures
        r@ == signed_decimal(n as int),
{
    let wide: i64 = n as i64;
    if wide < 0 {
        proof {
            reveal_strlit("-");
        }
        let mut r = "-".to_string();
        r.append(decimal_text((-wide) as u64).as_str());
        assert(r@ =~= signed_decimal(n as int));
        r
    } else {
        decimal_text(wide as u64)
    }
}

/// Joins the items with `separator` between neighbours.
pub fn join(items: &Vec<String>, separator: &str) -> (r: String)
    ensures
        r@ == joined(items.deep_view(), separator@),
{
    if items.len() == 0 {
        return String::new();
    }
    let ghost all = items.deep_view();
    let mut at: usize = items.len() - 1;
    let mut r = items[at].clone();
    assert(all.skip(at as int) =~= seq![r@]);
    while at > 0
        invariant
            at < items.len(),
            all == items.deep_view(),
            r@ == joined(all.skip(at as int), separator@),
        decreases at,
    {
        let ghost tail = r@;
        at = at - 1;
        let mut longer = items[at].clone();
        longer.append(separator);
        longer.append(r.as_str());
        proof {
            let here = all.skip(at as int);
            assert(here.skip(1) =~= all.skip(at + 1));
            assert(here[0] == items@[at as int]@);
            assert(here.len() > 1);
        }
        r = longer;
    }
    assert(all.skip(0) =~= all);
    r
}

fn chars_of(s: &str) -> (r: Vec<char>)
    ensures
        r@ == s@,
{
    let mut r: Vec<char> = Vec::new();
    for c in it: s.chars()
        invariant
            it.seq() == s@,
            r@ == s@.take(it.index() as int),
    {
        r.push(c);
        assert(s@.take(it.index() + 1) =~= s@.take(it.index() as int).push(c));
    }
    assert(s@.take(s@.len() as int) =~= s@);
    r
}

fn matches_at(haystack: &Vec<char>, needle: &Vec<char>, at: usize) -> (r: bool)
    requires
        at + needle.len() <= haystack.len(),
    ensures
        r == occurs_at(haystack@, needle@, at as int),
{
    let mut i: usize = 0;
    while i < needle.len()
        invariant
            i <= needle.len(),
            at + needle.len() <= haystack.len(),
            forall|j: int| 0 <= j < i ==> haystack@[at + j] == needle@[j],
        decreases needle.len() - i,
    {
        if haystack[at + i] != needle[i] {
            proof {
                if haystack@.subrange(at as int, at + needle@.len()) == needle@ {
                    assert(haystack@.subrange(at as int, at + needle@.len())[i as int]
                        == haystack@[at + i]);
                }
            }
            return false;
        }
        i = i + 1;
    }
    assert(haystack@.subrange(at as int, at + needle@.len()) =~= needle@);
    true
}

/// Whether `needle` occurs in `haystack`.
pub fn contains(haystack: &str, needle: &str) -> (r: bool)
    ensures
        r == has_substring(haystack@, needle@),
{
    let hay = chars_of(haystack);
    let pin = chars_of(needle);
    if pin.len() > hay.len() {
        return false;
    }
    let last: usize = hay.len() - pin.len();
    let mut at: usize = 0;
    while at <= last
        invariant
            hay@ == haystack@,
            pin@ == needle@,
            pin.len() <= hay.len(),
            last == hay.len() - pin.len(),
            at <= last + 1,
            forall|j: int| 0 <= j < at ==> !occurs_at(haystack@, needle@, j),
        decreases last + 1 - at,
    {
        if matches_at(&hay, &pin, at) {
            return true;
        }
        if at == last {
            return false;
        }
        at = at + 1;
    }
    false
}

/// Finds the first zero byte.
pub fn first_nul(bytes: &[u8]) -> (r: Option<usize>)
    ensures
        match r {
            Some(position) => first_nul_at(bytes@, position as int),
            None => nul_free(bytes@),
        },
{
    let mut i: usize = 0;
    while i < bytes.len()
        invariant
            i <= bytes.len(),
            forall|j: int| 0 <= j < i ==> bytes@[j] != 0,
        decreases bytes.len() - i,
    {
        if bytes[i] == 0 {
            return Some(i);
        }
        i = i + 1;
    }
    None
}

/// The number that digits stand for, most significant digit first.
pub open spec fn number(digits: Seq<char>) -> int
    decreases digits.len(),
{
    if digits.len() == 0 {
        0
    } else {
        10 * number(digits.drop_last()) + (digits.last() as int - '0' as int)
    }
}

/// A number in base ten consists of digits that stand for the number, and has
/// no leading zero unless it is zero.
pub proof fn decimal_stands_for_its_number(n: nat)
    ensures
        number(decimal(n)) == n,
        decimal(n).len() > 0,
        forall|i: int| 0 <= i < decimal(n).len() ==> '0' <= #[trigger] decimal(n)[i] <= '9',
        decimal(n).len() > 1 ==> decimal(n)[0] != '0',
    decreases n,
{
    if n < 10 {
        assert(decimal(n).drop_last() =~= Seq::empty());
        assert(number(Seq::<char>::empty()) == 0);
    } else {
        let rest = decimal(n / 10);
        decimal_stands_for_its_number(n / 10);
        assert(decimal(n).drop_last() =~= rest);
        assert(decimal(n)[0] == rest[0]);
        if rest.len() == 1 {
            assert(rest.drop_last() =~= Seq::empty());
            assert(number(Seq::<char>::empty()) == 0);
            assert(number(rest) == rest[0] as int - '0' as int);
        }
    }
}

/// A signed number is its absolute value in base ten, behind a minus sign where
/// it is negative and only there.
pub proof fn sign_stands_in_front(n: int)
    ensures
        n < 0 ==> signed_decimal(n).len() > 0 && signed_decimal(n)[0] == '-' && number(
            signed_decimal(n).skip(1),
        ) == -n,
        n >= 0 ==> number(signed_decimal(n)) == n && signed_decimal(n)[0] != '-',
{
    if n < 0 {
        decimal_stands_for_its_number((-n) as nat);
        assert(signed_decimal(n).skip(1) =~= decimal((-n) as nat));
    } else {
        decimal_stands_for_its_number(n as nat);
    }
}

/// Joined lists are joined: nothing makes nothing, one item makes itself, and
/// two lists, each with an item, make the first one's text, the separator and
/// the second one's text.
pub proof fn joined_lists_are_joined(
    one: Seq<Seq<char>>,
    other: Seq<Seq<char>>,
    item: Seq<char>,
    separator: Seq<char>,
)
    ensures
        joined(Seq::empty(), separator) == Seq::<char>::empty(),
        joined(seq![item], separator) == item,
        one.len() > 0 && other.len() > 0 ==> joined(one + other, separator) == joined(
            one,
            separator,
        ) + separator + joined(other, separator),
    decreases one.len(),
{
    if one.len() > 0 && other.len() > 0 {
        let all = one + other;
        if one.len() == 1 {
            assert(all.skip(1) =~= other);
            assert(joined(all, separator) =~= joined(one, separator) + separator + joined(
                other,
                separator,
            ));
        } else {
            joined_lists_are_joined(one.skip(1), other, item, separator);
            assert(all.skip(1) =~= one.skip(1) + other);
            assert(joined(all, separator) =~= joined(one, separator) + separator + joined(
                other,
                separator,
            ));
        }
    }
}

/// A text occurs in another one exactly where the other one is something before
/// it, the text, and something after it.
pub proof fn substring_has_surroundings(
    haystack: Seq<char>,
    needle: Seq<char>,
    before: Seq<char>,
    after: Seq<char>,
)
    ensures
        has_substring(before + needle + after, needle),
        has_substring(haystack, needle) ==> exists|x: Seq<char>, y: Seq<char>|
            haystack == #[trigger] (x + needle + y),
{
    let whole = before + needle + after;
    assert(whole.subrange(before.len() as int, before.len() + needle.len() as int) =~= needle);
    assert(occurs_at(whole, needle, before.len() as int));
    if has_substring(haystack, needle) {
        let at = choose|at: int| occurs_at(haystack, needle, at);
        let x = haystack.take(at);
        let y = haystack.skip(at + needle.len());
        assert(haystack =~= x + needle + y);
    }
}

/// Bytes hold no zero exactly where zero is not among them, and else the first
/// one has a position, and only one.
pub proof fn first_zero_has_one_position(bytes: Seq<u8>, i: int, j: int)
    ensures
        nul_free(bytes) <==> !bytes.contains(0),
        first_nul_at(bytes, i) ==> bytes.contains(0) && nul_free(bytes.take(i)),
        first_nul_at(bytes, i) && first_nul_at(bytes, j) ==> i == j,
{
    if !nul_free(bytes) {
        let k = choose|k: int| 0 <= k < bytes.len() && bytes[k] == 0;
        assert(bytes[k] == 0u8);
        assert(bytes.contains(0u8));
    }
}

} // verus!
