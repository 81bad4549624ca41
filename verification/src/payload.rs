//! JSON objects that are published as message payloads.

use vstd::prelude::*;

verus! {

/// The object type of `serde_json`.
#[verifier::external_type_specification]
#[verifier::external_body]
#[verifier::reject_recursive_types(K)]
#[verifier::reject_recursive_types(V)]
pub struct ExJsonMap<K, V>(serde_json::Map<K, V>);

/// The value type of `serde_json`.
#[verifier::external_type_specification]
#[verifier::external_body]
pub struct ExJsonValue(serde_json::Value);

/// What an object holds: each key with the JSON text of its value.
pub uninterp spec fn object_members(object: serde_json::Map<String, serde_json::Value>) -> Map<
    Seq<char>,
    Seq<char>,
>;

/// The compact JSON text of a value.
pub uninterp spec fn json_text(value: serde_json::Value) -> Seq<char>;

/// The members of an empty object.
pub open spec fn no_members() -> Map<Seq<char>, Seq<char>> {
    Map::empty()
}

/// How one character stands in a JSON string.
pub open spec fn json_char(c: char) -> Seq<char> {
    let code = c as u32 as int;
    if c == '"' {
        seq!['\\', '"']
    } else if c == '\\' {
        seq!['\\', '\\']
    } else if code >= 0x20 {
        seq![c]
    } else if code == 0x08 {
        seq!['\\', 'b']
    } else if code == 0x09 {
        seq!['\\', 't']
    } else if code == 0x0a {
        seq!['\\', 'n']
    } else if code == 0x0c {
        seq!['\\', 'f']
    } else if code == 0x0d {
        seq!['\\', 'r']
    } else {
        seq!['\\', 'u', '0', '0', hex_digit(code / 16), hex_digit(code % 16)]
    }
}

/// The lower-case hexadecimal digit of `d`.
pub open spec fn hex_digit(d: int) -> char {
    if d < 10 {
        crate::text::digit(d as nat)
    } else if d == 10 {
        'a'
    } else if d == 11 {
        'b'
    } else if d == 12 {
        'c'
    } else if d == 13 {
        'd'
    } else if d == 14 {
        'e'
    } else {
        'f'
    }
}

/// The characters of `text` one after the other, each as it stands in a JSON
/// string.
pub open spec fn json_chars(text: Seq<char>) -> Seq<char>
    decreases text.len(),
{
    if text.len() == 0 {
        seq![]
    } else {
        json_chars(text.drop_last()) + json_char(text.last())
    }
}

/// `text` as a JSON string, quotes included.
pub open spec fn json_string(text: Seq<char>) -> Seq<char> {
    seq!['"'] + json_chars(text) + seq!['"']
}

/// Whether `a` comes before `b` in the order of strings: character by character,
/// by code point, a proper prefix first.
pub open spec fn text_before(a: Seq<char>, b: Seq<char>) -> bool
    decreases a.len(),
{
    if b.len() == 0 {
        false
    } else if a.len() == 0 {
        true
    } else if a[0] == b[0] {
        text_before(a.drop_first(), b.drop_first())
    } else {
        (a[0] as u32) < (b[0] as u32)
    }
}

/// Whether `keys` lists the keys of `members`, each once, in the order of
/// strings.
pub open spec fn in_key_order(keys: Seq<Seq<char>>, members: Map<Seq<char>, Seq<char>>) -> bool {
    &&& forall|i: int, j: int|
        0 <= i < j < keys.len() ==> text_before(#[trigger] keys[i], #[trigger] keys[j])
    &&& forall|key: Seq<char>| #[trigger] members.contains_key(key) <==> keys.contains(key)
}

/// The members under `keys`, in that order, separated by commas.
pub open spec fn members_text(
    keys: Seq<Seq<char>>,
    members: Map<Seq<char>, Seq<char>>,
) -> Seq<char>
    decreases keys.len(),
{
    if keys.len() == 0 {
        seq![]
    } else {
        let member = json_string(keys.last()) + seq![':'] + members[keys.last()];
        if keys.len() == 1 {
            member
        } else {
            members_text(keys.drop_last(), members) + seq![','] + member
        }
    }
}

/// Whether `text` is the compact JSON text of an object with `members`.
pub open spec fn is_object_text(text: Seq<char>, members: Map<Seq<char>, Seq<char>>) -> bool {
    exists|keys: Seq<Seq<char>>| #[trigger]
        in_key_order(keys, members) && text == seq!['{'] + members_text(keys, members) + seq!['}']
}

/// Calls `serde_json::Map::new`. Taken on trust: the object has no members.
#[verifier::external_body]
fn new_object() -> (object: serde_json::Map<String, serde_json::Value>)
    ensures
        object_members(object) == no_members(),
{
    serde_json::Map::new()
}

/// Calls `serde_json::Map::insert` with a string value. Taken on trust: the
/// member under `key` becomes that string and the others stay; the string's JSON
/// text escapes the quote, the backslash and the control characters and nothing
/// else.
#[verifier::external_body]
fn insert_string(object: &mut serde_json::Map<String, serde_json::Value>, key: &str, value: &str)
    ensures
        object_members(*final(object)) == object_members(*old(object)).insert(
            key@,
            json_string(value@),
        ),
{
    object.insert(String::from(key), serde_json::Value::String(String::from(value)));
}

/// Calls `serde_json::Map::insert` with an unsigned number. Taken on trust: the
/// member under `key` becomes that number, written in decimal, and the others
/// stay.
#[verifier::external_body]
fn insert_unsigned(object: &mut serde_json::Map<String, serde_json::Value>, key: &str, value: u64)
    ensures
        object_members(*final(object)) == object_members(*old(object)).insert(
            key@,
            crate::text::decimal(value as nat),
        ),
{
    object.insert(String::from(key), serde_json::Value::from(value));
}

/// Makes a value of an object with `serde_json::Value::Object`. Taken on trust: in
/// the value's text the members stand in the order of their keys, separated by
/// commas and without spaces. That is how `serde_json` keeps objects unless its
/// `preserve_order` feature is switched on.
#[verifier::external_body]
fn object_value(object: serde_json::Map<String, serde_json::Value>) -> (value: serde_json::Value)
    ensures
        is_object_text(json_text(value), object_members(object)),
{
    serde_json::Value::Object(object)
}

/// Calls `to_string` of `serde_json::Value`. Taken on trust: the text depends on the
/// value alone. What it is for a given value is said where the value is made.
#[verifier::external_body]
pub(crate) fn value_text(value: &serde_json::Value) -> (text: String)
    ensures
        text@ == json_text(*value),
{
    value.to_string()
}

/// A JSON object under construction.
pub struct Payload {
    object: serde_json::Map<String, serde_json::Value>,
}

impl View for Payload {
    type V = Map<Seq<char>, Seq<char>>;

    closed spec fn view(&self) -> Map<Seq<char>, Seq<char>> {
        object_members(self.object)
    }
}

impl Payload {
    /// An object without members.
    pub fn new() -> (payload: Payload)
        ensures
            payload@ == no_members(),
    {
        Payload { object: new_object() }
    }

    /// Sets the member `key` to a string.
    pub fn set_text(&mut self, key: &str, value: &str)
        ensures
            final(self)@ == old(self)@.insert(key@, json_string(value@)),
    {
        insert_string(&mut self.object, key, value);
    }

    /// Sets the member `key` to a number.
    pub fn set_number(&mut self, key: &str, value: u64)
        ensures
            final(self)@ == old(self)@.insert(key@, crate::text::decimal(value as nat)),
    {
        insert_unsigned(&mut self.object, key, value);
    }

    /// The object as a JSON value.
    pub fn into_value(self) -> (value: serde_json::Value)
        ensures
            is_object_text(json_text(value), self@),
    {
        object_value(self.object)
    }

    /// The compact JSON text of the object.
    pub fn into_text(self) -> (text: String)
        ensures
            is_object_text(text@, self@),
    {
        value_text(&self.into_value())
    }
}

/// No text comes before itself, and two texts do not come before each other.
proof fn lemma_before_is_asymmetric(a: Seq<char>, b: Seq<char>)
    requires
        text_before(a, b),
    ensures
        !text_before(b, a),
        a != b,
    decreases a.len(),
{
    if a.len() > 0 && a[0] == b[0] {
        lemma_before_is_asymmetric(a.drop_first(), b.drop_first());
    }
}

/// Two lists in strictly ascending order with the same elements are the same
/// list.
proof fn lemma_ascending_lists_agree(first: Seq<Seq<char>>, second: Seq<Seq<char>>)
    requires
        forall|i: int, j: int|
            0 <= i < j < first.len() ==> text_before(#[trigger] first[i], #[trigger] first[j]),
        forall|i: int, j: int|
            0 <= i < j < second.len() ==> text_before(#[trigger] second[i], #[trigger] second[j]),
        forall|key: Seq<char>| #[trigger] first.contains(key) <==> second.contains(key),
    ensures
        first == second,
    decreases first.len(),
{
    if first.len() == 0 {
        if second.len() > 0 {
            assert(second.contains(second[0]));
            assert(first.contains(second[0]));
        }
        assert(first =~= second);
    } else {
        assert(first.contains(first[0]));
        let j = choose|j: int| 0 <= j < second.len() && second[j] == first[0];
        assert(second.contains(second[0]));
        assert(first.contains(second[0]));
        let i = choose|i: int| 0 <= i < first.len() && first[i] == second[0];
        if i > 0 {
            assert(text_before(first[0], first[i]));
            lemma_before_is_asymmetric(first[0], first[i]);
            assert(text_before(second[0], second[j]));
        }
        assert(first[0] == second[0]);
        let first_rest = first.drop_first();
        let second_rest = second.drop_first();
        assert forall|key: Seq<char>| #[trigger]
            first_rest.contains(key) <==> second_rest.contains(key) by {
            if first_rest.contains(key) {
                let k = choose|k: int| 0 <= k < first_rest.len() && first_rest[k] == key;
                assert(first[k + 1] == key);
                lemma_before_is_asymmetric(first[0], first[k + 1]);
                assert(first.contains(key));
                let m = choose|m: int| 0 <= m < second.len() && second[m] == key;
                assert(second_rest[m - 1] == key);
            }
            if second_rest.contains(key) {
                let k = choose|k: int| 0 <= k < second_rest.len() && second_rest[k] == key;
                assert(second[k + 1] == key);
                lemma_before_is_asymmetric(second[0], second[k + 1]);
                assert(second.contains(key));
                assert(first.contains(key));
                let m = choose|m: int| 0 <= m < first.len() && first[m] == key;
                assert(first_rest[m - 1] == key);
            }
        }
        lemma_ascending_lists_agree(first_rest, second_rest);
        assert(first =~= seq![first[0]] + first_rest);
        assert(second =~= seq![second[0]] + second_rest);
    }
}

/// An object has one text: the one that lists its members in key order.
pub proof fn law_object_text_is_unique(
    text: Seq<char>,
    keys: Seq<Seq<char>>,
    members: Map<Seq<char>, Seq<char>>,
)
    requires
        in_key_order(keys, members),
        is_object_text(text, members),
    ensures
        text == seq!['{'] + members_text(keys, members) + seq!['}'],
{
    let other = choose|other: Seq<Seq<char>>| #[trigger]
        in_key_order(other, members) && text == seq!['{'] + members_text(other, members)
            + seq!['}'];
    assert forall|key: Seq<char>| #[trigger] keys.contains(key) <==> other.contains(key) by {
        assert(members.contains_key(key) <==> keys.contains(key));
        assert(members.contains_key(key) <==> other.contains(key));
    }
    lemma_ascending_lists_agree(keys, other);
}

/// A member that comes after the others stands at the end of the text.
pub proof fn lemma_last_member(
    keys: Seq<Seq<char>>,
    key: Seq<char>,
    members: Map<Seq<char>, Seq<char>>,
)
    ensures
        members_text(keys.push(key), members) == (if keys.len() == 0 {
            json_string(key) + seq![':'] + members[key]
        } else {
            members_text(keys, members) + seq![','] + (json_string(key) + seq![':']
                + members[key])
        }),
{
    let all = keys.push(key);
    assert(all.drop_last() =~= keys);
    assert(all.last() == key);
}

proof fn lemma_json_chars_from_the_front(text: Seq<char>)
    requires
        text.len() > 0,
    ensures
        json_chars(text) == json_char(text[0]) + json_chars(text.drop_first()),
    decreases text.len(),
{
    if text.len() == 1 {
        assert(text.drop_last() =~= seq![]);
        assert(text.drop_first() =~= seq![]);
        assert(json_chars(text) =~= json_char(text[0]) + json_chars(text.drop_first()));
    } else {
        lemma_json_chars_from_the_front(text.drop_last());
        assert(text.drop_last().drop_first() =~= text.drop_first().drop_last());
        assert(json_chars(text) =~= json_char(text[0]) + json_chars(text.drop_first()));
    }
}

proof fn lemma_hex_digits_differ(a: int, b: int)
    requires
        0 <= a < 16,
        0 <= b < 16,
        hex_digit(a) == hex_digit(b),
    ensures
        a == b,
{
}

/// What stands for a character ends by itself.
proof fn lemma_json_char_ends(c: char, d: char, x: Seq<char>, y: Seq<char>)
    requires
        json_char(c) + x == json_char(d) + y,
    ensures
        c == d,
        x == y,
{
    let first = json_char(c) + x;
    let second = json_char(d) + y;
    assert(first[0] == json_char(c)[0]);
    assert(second[0] == json_char(d)[0]);
    if json_char(c).len() > 1 && json_char(d).len() > 1 {
        assert(first[1] == json_char(c)[1]);
        assert(second[1] == json_char(d)[1]);
        if json_char(c)[1] == 'u' {
            assert(first[4] == json_char(c)[4]);
            assert(first[5] == json_char(c)[5]);
            assert(second[4] == json_char(d)[4]);
            assert(second[5] == json_char(d)[5]);
            let m = c as u32 as int;
            let n = d as u32 as int;
            lemma_hex_digits_differ(m / 16, n / 16);
            lemma_hex_digits_differ(m % 16, n % 16);
            assert(m == n);
        }
    }
    assert(c == d);
    assert(x =~= first.skip(json_char(c).len() as int));
    assert(y =~= second.skip(json_char(d).len() as int));
}

proof fn lemma_json_chars_end(a: Seq<char>, b: Seq<char>, x: Seq<char>, y: Seq<char>)
    requires
        json_chars(a) + seq!['"'] + x == json_chars(b) + seq!['"'] + y,
    ensures
        a == b,
        x == y,
    decreases a.len(),
{
    let first = json_chars(a) + seq!['"'] + x;
    let second = json_chars(b) + seq!['"'] + y;
    if a.len() == 0 || b.len() == 0 {
        if a.len() > 0 {
            lemma_json_chars_from_the_front(a);
            assert(first[0] == json_char(a[0])[0]);
            assert(second[0] == '"');
        }
        if b.len() > 0 {
            lemma_json_chars_from_the_front(b);
            assert(second[0] == json_char(b[0])[0]);
            assert(first[0] == '"');
        }
        assert(a =~= b);
        assert(x =~= first.skip(1));
        assert(y =~= second.skip(1));
    } else {
        lemma_json_chars_from_the_front(a);
        lemma_json_chars_from_the_front(b);
        let first_rest = json_chars(a.drop_first()) + seq!['"'] + x;
        let second_rest = json_chars(b.drop_first()) + seq!['"'] + y;
        assert(first =~= json_char(a[0]) + first_rest);
        assert(second =~= json_char(b[0]) + second_rest);
        lemma_json_char_ends(a[0], b[0], first_rest, second_rest);
        lemma_json_chars_end(a.drop_first(), b.drop_first(), x, y);
        assert(a =~= seq![a[0]] + a.drop_first());
        assert(b =~= seq![b[0]] + b.drop_first());
    }
}

/// A JSON string ends at its closing quote: two texts that start with a JSON
/// string are the same only if the strings stand for the same text and the rest is
/// the same.
pub proof fn lemma_json_string_ends(a: Seq<char>, b: Seq<char>, x: Seq<char>, y: Seq<char>)
    requires
        json_string(a) + x == json_string(b) + y,
    ensures
        a == b,
        x == y,
{
    assert((json_string(a) + x).skip(1) =~= json_chars(a) + seq!['"'] + x);
    assert((json_string(b) + y).skip(1) =~= json_chars(b) + seq!['"'] + y);
    lemma_json_chars_end(a, b, x, y);
}

/// Different texts have different JSON strings: nothing is lost in escaping.
pub proof fn law_json_strings_tell_texts_apart(a: Seq<char>, b: Seq<char>)
    requires
        json_string(a) == json_string(b),
    ensures
        a == b,
{
    let nothing = Seq::<char>::empty();
    assert(json_string(a) + nothing =~= json_string(b) + nothing);
    lemma_json_string_ends(a, b, nothing, nothing);
}

/// A JSON string stands on one line: it holds no control characters.
pub proof fn law_json_strings_hold_no_control_characters(text: Seq<char>)
    ensures
        forall|i: int|
            0 <= i < json_string(text).len() ==> (#[trigger] json_string(text)[i]) as u32 >= 0x20,
    decreases text.len(),
{
    if text.len() > 0 {
        let before = text.drop_last();
        law_json_strings_hold_no_control_characters(before);
        assert forall|i: int| 0 <= i < json_chars(before).len() implies (
        #[trigger] json_chars(before)[i]) as u32 >= 0x20 by {
            assert(json_string(before)[i + 1] == json_chars(before)[i]);
        }
    }
}

/// A text whose characters need no escaping stands unchanged between the quotes.
pub proof fn law_plain_texts_stand_unchanged(text: Seq<char>)
    requires
        forall|i: int|
            0 <= i < text.len() ==> {
                &&& #[trigger] text[i] as u32 >= 0x20
                &&& text[i] != '"'
                &&& text[i] != '\\'
            },
    ensures
        json_chars(text) == text,
        json_string(text) == seq!['"'] + text + seq!['"'],
    decreases text.len(),
{
    if text.len() > 0 {
        law_plain_texts_stand_unchanged(text.drop_last());
        assert(text.last() == text[text.len() - 1]);
        assert(json_char(text.last()) =~= seq![text.last()]);
        assert(text =~= text.drop_last() + seq![text.last()]);
        assert(json_chars(text) =~= text);
    } else {
        assert(json_chars(text) =~= text);
    }
}

/// Texts are escaped part by part: what stands for two texts together is what stands for
/// the one and then what stands for the other.
pub proof fn law_texts_are_escaped_part_by_part(first: Seq<char>, second: Seq<char>)
    ensures
        json_chars(first + second) == json_chars(first) + json_chars(second),
    decreases second.len(),
{
    if second.len() == 0 {
        assert(first + second =~= first);
        assert(json_chars(first) + json_chars(second) =~= json_chars(first));
    } else {
        law_texts_are_escaped_part_by_part(first, second.drop_last());
        assert((first + second).drop_last() =~= first + second.drop_last());
        assert(json_chars(first + second) =~= json_chars(first) + json_chars(second));
    }
}

/// The quote and the backslash stand behind a backslash, control characters as a letter or
/// as their hexadecimal code behind one, and every other character for itself.
pub proof fn law_characters_are_escaped(c: char)
    ensures
        ({
            let written = json_chars(seq![c]);
            let code = c as int;
            &&& c == '"' || c == '\\' ==> written == seq!['\\', c]
            &&& code >= 0x20 && c != '"' && c != '\\' ==> written == seq![c]
            &&& code == 8 ==> written == seq!['\\', 'b']
            &&& code == 9 ==> written == seq!['\\', 't']
            &&& code == 10 ==> written == seq!['\\', 'n']
            &&& code == 12 ==> written == seq!['\\', 'f']
            &&& code == 13 ==> written == seq!['\\', 'r']
            &&& code < 0x20 && !(8 <= code <= 10) && !(12 <= code <= 13) ==> {
                &&& written.len() == 6
                &&& written.take(4) == seq!['\\', 'u', '0', '0']
                &&& written[4] as int == '0' as int + code / 16
                &&& code % 16 < 10 ==> written[5] as int == '0' as int + code % 16
                &&& code % 16 >= 10 ==> written[5] as int == 'a' as int + code % 16 - 10
            }
        }),
{
    let written = json_chars(seq![c]);
    assert(seq![c].drop_last() =~= seq![]);
    assert(json_chars(seq![]) =~= Seq::<char>::empty());
    assert(written =~= json_char(c));
    if written.len() == 6 {
        assert(written.take(4) =~= seq!['\\', 'u', '0', '0']);
    }
}

/// An object with no member is a pair of braces; one with a single member holds its key, a
/// colon and its value.
pub proof fn law_small_objects_are_written_out(text: Seq<char>, key: Seq<char>, value: Seq<char>)
    ensures
        is_object_text(text, Map::empty()) <==> text == seq!['{', '}'],
        is_object_text(text, Map::empty().insert(key, value)) <==> text == seq!['{', '"']
            + json_chars(key) + seq!['"', ':'] + value + seq!['}'],
{
    let none = Map::<Seq<char>, Seq<char>>::empty();
    let no_keys = Seq::<Seq<char>>::empty();
    assert(in_key_order(no_keys, none));
    assert(seq!['{'] + members_text(no_keys, none) + seq!['}'] =~= seq!['{', '}']);
    if is_object_text(text, none) {
        law_object_text_is_unique(text, no_keys, none);
    }
    let one = none.insert(key, value);
    let keys = seq![key];
    assert(keys[0] == key);
    assert(in_key_order(keys, one));
    let expected = seq!['{', '"'] + json_chars(key) + seq!['"', ':'] + value + seq!['}'];
    assert(seq!['{'] + members_text(keys, one) + seq!['}'] =~= expected);
    if is_object_text(text, one) {
        law_object_text_is_unique(text, keys, one);
    }
}

/// An object with two members holds the one whose key comes first, a comma, and the other.
pub proof fn law_members_are_separated_by_commas(
    text: Seq<char>,
    first: Seq<char>,
    first_value: Seq<char>,
    second: Seq<char>,
    second_value: Seq<char>,
)
    requires
        text_before(first, second),
        is_object_text(text, Map::empty().insert(first, first_value).insert(second, second_value)),
    ensures
        text == seq!['{', '"'] + json_chars(first) + seq!['"', ':'] + first_value + seq![',', '"']
            + json_chars(second) + seq!['"', ':'] + second_value + seq!['}'],
{
    let members = Map::empty().insert(first, first_value).insert(second, second_value);
    let keys = seq![first, second];
    lemma_before_is_asymmetric(first, second);
    assert(keys[0] == first && keys[1] == second);
    assert(in_key_order(keys, members));
    law_object_text_is_unique(text, keys, members);
    lemma_last_member(seq![], first, members);
    lemma_last_member(seq![first], second, members);
    assert(Seq::<Seq<char>>::empty().push(first) =~= seq![first]);
    assert(seq![first].push(second) =~= keys);
    assert(text =~= seq!['{', '"'] + json_chars(first) + seq!['"', ':'] + first_value + seq![
        ',',
        '"',
    ] + json_chars(second) + seq!['"', ':'] + second_value + seq!['}']);
}

/// Of two texts the one comes first whose character is smaller where they first differ, and
/// a text comes before what goes on from it.
pub proof fn law_texts_are_ordered_by_their_first_difference(
    common: Seq<char>,
    a: Seq<char>,
    b: Seq<char>,
)
    requires
        a.len() > 0 && b.len() > 0 ==> a[0] != b[0],
    ensures
        text_before(common + a, common + b) <==> b.len() > 0 && (a.len() == 0 || (a[0] as u32) < (
        b[0] as u32)),
    decreases common.len(),
{
    if common.len() == 0 {
        assert(common + a =~= a);
        assert(common + b =~= b);
    } else {
        assert((common + a).drop_first() =~= common.drop_first() + a);
        assert((common + b).drop_first() =~= common.drop_first() + b);
        assert((common + a)[0] == common[0] && (common + b)[0] == common[0]);
        law_texts_are_ordered_by_their_first_difference(common.drop_first(), a, b);
    }
}

} // verus!
