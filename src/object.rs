use vstd::prelude::*;
use crate::level::RawObject;

verus! {

pub open spec fn is_digit(c: char) -> bool {
    '0' <= c && c <= '9'
}

pub open spec fn digit_value(c: char) -> int {
    c as int - '0' as int
}

/// The value of a string of decimal digits, most significant first.
pub open spec fn digits_value(s: Seq<char>) -> int
    decreases s.len(),
{
    if s.len() == 0 {
        0
    } else {
        digits_value(s.drop_last()) * 10 + digit_value(s.last())
    }
}

pub open spec fn all_digits(s: Seq<char>) -> bool {
    s.len() >= 1 && forall|i: int| 0 <= i < s.len() ==> is_digit(#[trigger] s[i])
}

/// A decimal integer with an optional sign, when it fits in an `i32`.
pub open spec fn decimal_i32(s: Seq<char>) -> Option<i32> {
    let neg = s.len() > 0 && s[0] == '-';
    let body = if s.len() > 0 && (s[0] == '-' || s[0] == '+') {
        s.drop_first()
    } else {
        s
    };
    let v = if neg {
        -digits_value(body)
    } else {
        digits_value(body)
    };
    if all_digits(body) && i32::MIN <= v <= i32::MAX {
        Some(v as i32)
    } else {
        None
    }
}

proof fn lemma_digits_nonneg(s: Seq<char>)
    requires
        forall|i: int| 0 <= i < s.len() ==> is_digit(#[trigger] s[i]),
    ensures
        digits_value(s) >= 0,
    decreases s.len(),
{
    if s.len() > 0 {
        lemma_digits_nonneg(s.drop_last());
    }
}

/// Reads a decimal `i32`: an optional `+` or `-`, then one or more ASCII
/// digits, with no other character; `None` where the text is not that or
/// the value does not fit.
pub fn parse_decimal_i32(s: &str) -> (r: Option<i32>)
    ensures
        r == decimal_i32(s@),
{
    let n = s.unicode_len();
    if n == 0 {
        return None;
    }
    let first = s.get_char(0);
    let neg = first == '-';
    let start: usize = if first == '-' || first == '+' {
        1
    } else {
        0
    };
    let ghost body = if first == '-' || first == '+' {
        s@.drop_first()
    } else {
        s@
    };
    proof {
        assert(body =~= s@.subrange(start as int, n as int));
    }
    if start == n {
        return None;
    }
    let mut acc: i64 = 0;
    let mut i: usize = start;
    while i < n
        invariant
            n == s@.len(),
            start <= i <= n,
            start < n,
            body == s@.subrange(start as int, n as int),
            first == s@[0],
            neg == (first == '-'),
            body == (if first == '-' || first == '+' {
                s@.drop_first()
            } else {
                s@
            }),
            forall|k: int| 0 <= k < i - start ==> is_digit(#[trigger] body[k]),
            acc == digits_value(body.take(i - start)),
            0 <= acc <= 2147483648,
        decreases n - i,
    {
        let c = s.get_char(i);
        let ghost pre = body.take(i - start);
        proof {
            assert(body[i - start] == c);
            assert(body.take(i - start + 1).drop_last() =~= pre);
        }
        if !('0' <= c && c <= '9') {
            proof {
                assert(!is_digit(body[i - start]));
                assert(!all_digits(body));
            }
            return None;
        }
        let d = (c as u32 - '0' as u32) as i64;
        let next = acc * 10 + d;
        if next > 2147483648 {
            proof {
                let k = i - start + 1;
                assert(body.take(k).drop_last() =~= pre);
                assert(body.take(k).last() == c);
                assert(digit_value(c) == d);
                assert(digits_value(body.take(k)) == next);
                lemma_digits_grow(body, k);
                assert(first == s@[0]);
            }
            return None;
        }
        acc = next;
        i = i + 1;
    }
    proof {
        assert(body.take(n - start) =~= body);
    }
    if neg {
        Some((-acc) as i32)
    } else if acc <= 2147483647 {
        Some(acc as i32)
    } else {
        None
    }
}

/// Once the digits read so far exceed the `i32` range, every longer run of
/// digits does too, or holds a character that is not a digit.
proof fn lemma_digits_grow(body: Seq<char>, k: int)
    requires
        1 <= k <= body.len(),
        forall|t: int| 0 <= t < k ==> is_digit(#[trigger] body[t]),
        digits_value(body.take(k)) > 2147483648,
    ensures
        decimal_value_out_of_range(body),
    decreases body.len() - k,
{
    if k < body.len() {
        if is_digit(body[k]) {
            assert(body.take(k + 1).drop_last() =~= body.take(k));
            lemma_digits_nonneg(body.take(k));
            lemma_digits_grow(body, k + 1);
        } else {
        }
    } else {
        assert(body.take(k) =~= body);
    }
}

pub open spec fn decimal_value_out_of_range(body: Seq<char>) -> bool {
    !all_digits(body) || digits_value(body) > 2147483648
}

/// The value of the last property named `key`, if any.
pub open spec fn last_value(props: Seq<(Seq<char>, Seq<char>)>, key: Seq<char>) -> Option<
    Seq<char>,
>
    decreases props.len(),
{
    if props.len() == 0 {
        None
    } else if props.last().0 == key {
        Some(props.last().1)
    } else {
        last_value(props.drop_last(), key)
    }
}

pub open spec fn text_view(o: Option<String>) -> Option<Seq<char>> {
    match o {
        Some(t) => Some(t@),
        None => None,
    }
}

/// The object id that a record's id text gives: 0 where absent or not a
/// decimal `i32`.
pub open spec fn id_from(v: Option<Seq<char>>) -> i32 {
    match v {
        Some(t) => match decimal_i32(t) {
            Some(n) => n,
            None => 0,
        },
        None => 0,
    }
}

/// A flip flag: set only where the text is exactly `1`.
pub open spec fn flag_from(v: Option<Seq<char>>) -> bool {
    v == Some(seq!['1'])
}

/// The properties of a record that an object is built from, each taken
/// from its last occurrence: the id (`1`, parsed), the position (`2`, `3`),
/// the flip flags (`4`, `5`), the rotation (`6`), the uniform scale (`32`)
/// and the per-axis scales (`128`, `129`). Numbers other than the id stay
/// text, for the caller to read.
pub struct ObjectFields {
    pub id: i32,
    pub x: Option<String>,
    pub y: Option<String>,
    pub flip_x: bool,
    pub flip_y: bool,
    pub rotation: Option<String>,
    pub scale: Option<String>,
    pub scale_x: Option<String>,
    pub scale_y: Option<String>,
}

/// What `ObjectFields::from_raw` reads from a record's properties.
pub open spec fn fields_match(f: ObjectFields, props: Seq<(Seq<char>, Seq<char>)>) -> bool {
    &&& f.id == id_from(last_value(props, seq!['1']))
    &&& text_view(f.x) == last_value(props, seq!['2'])
    &&& text_view(f.y) == last_value(props, seq!['3'])
    &&& f.flip_x == flag_from(last_value(props, seq!['4']))
    &&& f.flip_y == flag_from(last_value(props, seq!['5']))
    &&& text_view(f.rotation) == last_value(props, seq!['6'])
    &&& text_view(f.scale) == last_value(props, seq!['3', '2'])
    &&& text_view(f.scale_x) == last_value(props, seq!['1', '2', '8'])
    &&& text_view(f.scale_y) == last_value(props, seq!['1', '2', '9'])
}

fn text_is(s: &str, t: &str) -> (b: bool)
    ensures
        b == (s@ == t@),
{
    let n = s.unicode_len();
    if n != t.unicode_len() {
        return false;
    }
    let mut i: usize = 0;
    while i < n
        invariant
            n == s@.len(),
            n == t@.len(),
            i <= n,
            forall|j: int| 0 <= j < i ==> s@[j] == t@[j],
        decreases n - i,
    {
        if s.get_char(i) != t.get_char(i) {
            return false;
        }
        i = i + 1;
    }
    proof {
        assert(s@ =~= t@);
    }
    true
}

proof fn lemma_last_value_step(
    props: Seq<(Seq<char>, Seq<char>)>,
    k: int,
    key: Seq<char>,
)
    requires
        0 <= k < props.len(),
    ensures
        last_value(props.take(k + 1), key) == if props[k].0 == key {
            Some(props[k].1)
        } else {
            last_value(props.take(k), key)
        },
{
    assert(props.take(k + 1).drop_last() =~= props.take(k));
}

/// The property keys that objects are built from are pairwise distinct.
proof fn lemma_keys_distinct()
    ensures
        seq!['1'] != seq!['2'],
        seq!['1'] != seq!['3'],
        seq!['1'] != seq!['4'],
        seq!['1'] != seq!['5'],
        seq!['1'] != seq!['6'],
        seq!['1'] != seq!['3', '2'],
        seq!['1'] != seq!['1', '2', '8'],
        seq!['1'] != seq!['1', '2', '9'],
        seq!['2'] != seq!['3'],
        seq!['2'] != seq!['4'],
        seq!['2'] != seq!['5'],
        seq!['2'] != seq!['6'],
        seq!['2'] != seq!['3', '2'],
        seq!['2'] != seq!['1', '2', '8'],
        seq!['2'] != seq!['1', '2', '9'],
        seq!['3'] != seq!['4'],
        seq!['3'] != seq!['5'],
        seq!['3'] != seq!['6'],
        seq!['3'] != seq!['3', '2'],
        seq!['3'] != seq!['1', '2', '8'],
        seq!['3'] != seq!['1', '2', '9'],
        seq!['4'] != seq!['5'],
        seq!['4'] != seq!['6'],
        seq!['4'] != seq!['3', '2'],
        seq!['4'] != seq!['1', '2', '8'],
        seq!['4'] != seq!['1', '2', '9'],
        seq!['5'] != seq!['6'],
        seq!['5'] != seq!['3', '2'],
        seq!['5'] != seq!['1', '2', '8'],
        seq!['5'] != seq!['1', '2', '9'],
        seq!['6'] != seq!['3', '2'],
        seq!['6'] != seq!['1', '2', '8'],
        seq!['6'] != seq!['1', '2', '9'],
        seq!['3', '2'] != seq!['1', '2', '8'],
        seq!['3', '2'] != seq!['1', '2', '9'],
        seq!['1', '2', '8'] != seq!['1', '2', '9'],
{
    assert(seq!['1'][0] != seq!['2'][0]);
    assert(seq!['1'][0] != seq!['3'][0]);
    assert(seq!['1'][0] != seq!['4'][0]);
    assert(seq!['1'][0] != seq!['5'][0]);
    assert(seq!['1'][0] != seq!['6'][0]);
    assert(seq!['1'].len() != seq!['3', '2'].len());
    assert(seq!['1'].len() != seq!['1', '2', '8'].len());
    assert(seq!['1'].len() != seq!['1', '2', '9'].len());
    assert(seq!['2'][0] != seq!['3'][0]);
    assert(seq!['2'][0] != seq!['4'][0]);
    assert(seq!['2'][0] != seq!['5'][0]);
    assert(seq!['2'][0] != seq!['6'][0]);
    assert(seq!['2'].len() != seq!['3', '2'].len());
    assert(seq!['2'].len() != seq!['1', '2', '8'].len());
    assert(seq!['2'].len() != seq!['1', '2', '9'].len());
    assert(seq!['3'][0] != seq!['4'][0]);
    assert(seq!['3'][0] != seq!['5'][0]);
    assert(seq!['3'][0] != seq!['6'][0]);
    assert(seq!['3'].len() != seq!['3', '2'].len());
    assert(seq!['3'].len() != seq!['1', '2', '8'].len());
    assert(seq!['3'].len() != seq!['1', '2', '9'].len());
    assert(seq!['4'][0] != seq!['5'][0]);
    assert(seq!['4'][0] != seq!['6'][0]);
    assert(seq!['4'].len() != seq!['3', '2'].len());
    assert(seq!['4'].len() != seq!['1', '2', '8'].len());
    assert(seq!['4'].len() != seq!['1', '2', '9'].len());
    assert(seq!['5'][0] != seq!['6'][0]);
    assert(seq!['5'].len() != seq!['3', '2'].len());
    assert(seq!['5'].len() != seq!['1', '2', '8'].len());
    assert(seq!['5'].len() != seq!['1', '2', '9'].len());
    assert(seq!['6'].len() != seq!['3', '2'].len());
    assert(seq!['6'].len() != seq!['1', '2', '8'].len());
    assert(seq!['6'].len() != seq!['1', '2', '9'].len());
    assert(seq!['3', '2'].len() != seq!['1', '2', '8'].len());
    assert(seq!['3', '2'].len() != seq!['1', '2', '9'].len());
    assert(seq!['1', '2', '8'][2] != seq!['1', '2', '9'][2]);
}

impl ObjectFields {
    /// Reads the object properties of a record, the last occurrence of each
    /// key winning; keys other than these are ignored.
    pub fn from_raw(raw: &RawObject) -> (f: ObjectFields)
        ensures
            fields_match(f, raw@),
    {
        let ghost props = raw@;
        let mut f = ObjectFields {
            id: 0,
            x: None,
            y: None,
            flip_x: false,
            flip_y: false,
            rotation: None,
            scale: None,
            scale_x: None,
            scale_y: None,
        };
        let n = raw.properties.len();
        let mut k: usize = 0;
        proof {
            assert(props.take(0).len() == 0);
        }
        while k < n
            invariant
                n == raw.properties@.len(),
                props == raw@,
                k <= n,
                fields_match(f, props.take(k as int)),
            decreases n - k,
        {
            let key = raw.properties[k].0.as_str();
            let val = raw.properties[k].1.as_str();
            proof {
                assert(props[k as int] == (key@, val@));
                lemma_last_value_step(props, k as int, seq!['1']);
                lemma_last_value_step(props, k as int, seq!['2']);
                lemma_last_value_step(props, k as int, seq!['3']);
                lemma_last_value_step(props, k as int, seq!['4']);
                lemma_last_value_step(props, k as int, seq!['5']);
                lemma_last_value_step(props, k as int, seq!['6']);
                lemma_last_value_step(props, k as int, seq!['3', '2']);
                lemma_last_value_step(props, k as int, seq!['1', '2', '8']);
                lemma_last_value_step(props, k as int, seq!['1', '2', '9']);
                reveal_strlit("1");
                reveal_strlit("2");
                reveal_strlit("3");
                reveal_strlit("4");
                reveal_strlit("5");
                reveal_strlit("6");
                reveal_strlit("32");
                reveal_strlit("128");
                reveal_strlit("129");
                lemma_keys_distinct();
                assert("1"@ =~= seq!['1']);
                assert("2"@ =~= seq!['2']);
                assert("3"@ =~= seq!['3']);
                assert("4"@ =~= seq!['4']);
                assert("5"@ =~= seq!['5']);
                assert("6"@ =~= seq!['6']);
                assert("32"@ =~= seq!['3', '2']);
                assert("128"@ =~= seq!['1', '2', '8']);
                assert("129"@ =~= seq!['1', '2', '9']);
            }
            if text_is(key, "1") {
                f.id = match parse_decimal_i32(val) {
                    Some(v) => v,
                    None => 0,
                };
            } else if text_is(key, "2") {
                f.x = Some(val.to_owned());
            } else if text_is(key, "3") {
                f.y = Some(val.to_owned());
            } else if text_is(key, "4") {
                f.flip_x = text_is(val, "1");
            } else if text_is(key, "5") {
                f.flip_y = text_is(val, "1");
            } else if text_is(key, "6") {
                f.rotation = Some(val.to_owned());
            } else if text_is(key, "32") {
                f.scale = Some(val.to_owned());
            } else if text_is(key, "128") {
                f.scale_x = Some(val.to_owned());
            } else if text_is(key, "129") {
                f.scale_y = Some(val.to_owned());
            }
            k = k + 1;
        }
        proof {
            assert(props.take(n as int) =~= props);
        }
        f
    }
}

} // verus!
