//! A JSON document as the application reads it: objects keep their entries
//! in order, numbers keep their decimal text.
use vstd::prelude::*;
use crate::text::text_eq;

verus! {

/// A JSON value.
#[derive(Debug)]
pub enum Json {
    Null,
    Bool(bool),
    /// A number, by its decimal text.
    Number(String),
    String(String),
    Array(Vec<Json>),
    /// An object, by its entries in order.
    Object(Vec<(String, Json)>),
}

/// The lower-case hexadecimal digit for `n` (below 16).
pub open spec fn hex_digit(n: u32) -> char {
    if n < 10 {
        (48 + n) as char
    } else {
        (97 + n - 10) as char
    }
}

/// How one character is written inside a JSON string: `"` and `\` and the
/// control characters below 0x20 are escaped (backspace, tab, line feed,
/// form feed and carriage return by name, the others as `\u00xx`), every
/// other character stands as it is.
pub open spec fn json_escaped_char(c: char) -> Seq<char> {
    let u = c as u32;
    if u == 0x22 {
        seq!['\\', '"']
    } else if u == 0x5c {
        seq!['\\', '\\']
    } else if u == 0x08 {
        seq!['\\', 'b']
    } else if u == 0x09 {
        seq!['\\', 't']
    } else if u == 0x0a {
        seq!['\\', 'n']
    } else if u == 0x0c {
        seq!['\\', 'f']
    } else if u == 0x0d {
        seq!['\\', 'r']
    } else if u < 0x20 {
        seq!['\\', 'u', '0', '0', hex_digit(u / 16), hex_digit(u % 16)]
    } else {
        seq![c]
    }
}

/// The characters of `text` as written inside a JSON string.
pub open spec fn json_escaped(text: Seq<char>) -> Seq<char>
    decreases text.len(),
{
    if text.len() == 0 {
        Seq::empty()
    } else {
        json_escaped(text.drop_last()) + json_escaped_char(text.last())
    }
}

/// The JSON string literal for `text`: the escaped text in double quotes.
pub open spec fn json_string_literal(text: Seq<char>) -> Seq<char> {
    seq!['"'] + json_escaped(text) + seq!['"']
}

/// `serde_json`'s rendering of a string value as JSON text
/// (`Display` for `serde_json::Value::String`, which escapes as
/// `json_escaped_char` says and writes the result in double quotes).
#[verifier::external_body]
pub(crate) fn json_quote(s: &str) -> (r: String)
    ensures
        r@ == json_string_literal(s@),
{
    serde_json::Value::String(s.to_string()).to_string()
}

/// The value of the first entry among `entries` whose key is `key`.
pub open spec fn entry_value(entries: Seq<(String, Json)>, key: Seq<char>) -> Option<Json>
    decreases entries.len(),
{
    if entries.len() == 0 {
        None
    } else if entries[0].0@ == key {
        Some(entries[0].1)
    } else {
        entry_value(entries.drop_first(), key)
    }
}

/// The compact JSON text of `j`: strings as `json_string_literal` writes
/// them, numbers by their decimal text, arrays and objects with their
/// elements and members in order, separated by commas, and no white space.
pub open spec fn json_text(j: Json) -> Seq<char>
    decreases j,
{
    match j {
        Json::Null => "null"@,
        Json::Bool(b) => if b {
            "true"@
        } else {
            "false"@
        },
        Json::Number(t) => t@,
        Json::String(s) => json_string_literal(s@),
        Json::Array(items) => "["@ + elements_text(items@) + "]"@,
        Json::Object(entries) => "{"@ + members_text(entries@) + "}"@,
    }
}

/// The texts of `items`, separated by commas.
pub open spec fn elements_text(items: Seq<Json>) -> Seq<char>
    decreases items,
{
    if items.len() == 0 {
        Seq::empty()
    } else if items.len() == 1 {
        json_text(items[0])
    } else {
        elements_text(items.drop_last()) + ","@ + json_text(items.last())
    }
}

/// The texts of the object members `entries`, each `"key":value`, separated by commas.
pub open spec fn members_text(entries: Seq<(String, Json)>) -> Seq<char>
    decreases entries,
{
    if entries.len() == 0 {
        Seq::empty()
    } else if entries.len() == 1 {
        json_string_literal(entries[0].0@) + ":"@ + json_text(entries[0].1)
    } else {
        members_text(entries.drop_last()) + ","@ + json_string_literal(entries.last().0@) + ":"@
            + json_text(entries.last().1)
    }
}

fn write_json(j: &Json, out: &mut String)
    ensures
        final(out)@ == old(out)@ + json_text(*j),
    decreases j,
{
    let ghost start = out@;
    match j {
        Json::Null => out.append("null"),
        Json::Bool(b) => if *b {
            out.append("true")
        } else {
            out.append("false")
        },
        Json::Number(t) => out.append(t.as_str()),
        Json::String(s) => {
            let quoted = json_quote(s.as_str());
            out.append(quoted.as_str());
        },
        Json::Array(items) => {
            out.append("[");
            let mut i: usize = 0;
            while i < items.len()
                invariant
                    i <= items@.len(),
                    out@ == start + "["@ + elements_text(items@.take(i as int)),
                    *j == Json::Array(*items),
                decreases items@.len() - i,
            {
                proof {
                    let next = items@.take(i + 1);
                    assert(next.drop_last() =~= items@.take(i as int));
                    assert(next.last() == items@[i as int]);
                    if i == 0 {
                        assert(next =~= seq![items@[0]]);
                    }
                }
                if i > 0 {
                    out.append(",");
                }
                proof {
                    assert(decreases_to!(*j => j->Array_0));
                    assert(decreases_to!(*items => items[i as int]));
                    assert(decreases_to!(*j => items[i as int]));
                }
                write_json(&items[i], out);
                i = i + 1;
            }
            assert(items@.take(items@.len() as int) =~= items@);
            out.append("]");
        },
        Json::Object(entries) => {
            out.append("{");
            let mut i: usize = 0;
            while i < entries.len()
                invariant
                    i <= entries@.len(),
                    out@ == start + "{"@ + members_text(entries@.take(i as int)),
                    *j == Json::Object(*entries),
                decreases entries@.len() - i,
            {
                proof {
                    let next = entries@.take(i + 1);
                    assert(next.drop_last() =~= entries@.take(i as int));
                    assert(next.last() == entries@[i as int]);
                    if i == 0 {
                        assert(next =~= seq![entries@[0]]);
                    }
                }
                if i > 0 {
                    out.append(",");
                }
                let key = json_quote(entries[i].0.as_str());
                out.append(key.as_str());
                out.append(":");
                proof {
                    assert(decreases_to!(*j => j->Object_0));
                    assert(decreases_to!(*entries => entries[i as int]));
                    assert(decreases_to!(entries[i as int] => entries[i as int].1));
                    assert(decreases_to!(*j => entries[i as int].1));
                }
                write_json(&entries[i].1, out);
                i = i + 1;
            }
            assert(entries@.take(entries@.len() as int) =~= entries@);
            out.append("}");
        },
    }
}

impl Json {
    /// The compact JSON text of this value.
    pub fn to_text(&self) -> (r: String)
        ensures
            r@ == json_text(*self),
    {
        let mut out = String::new();
        write_json(self, &mut out);
        out
    }

    /// The member `key` of an object; nothing for other values.
    pub open spec fn member(self, key: Seq<char>) -> Option<Json> {
        match self {
            Json::Object(entries) => entry_value(entries@, key),
            _ => None,
        }
    }

    /// The element at `index` of an array; nothing for other values.
    pub open spec fn element(self, index: int) -> Option<Json> {
        match self {
            Json::Array(items) => if 0 <= index < items@.len() {
                Some(items@[index])
            } else {
                None
            },
            _ => None,
        }
    }

    /// The text of a string value.
    pub open spec fn text(self) -> Option<Seq<char>> {
        match self {
            Json::String(s) => Some(s@),
            _ => None,
        }
    }

    /// Looks up the member `key` of an object.
    pub fn get_key(&self, key: &str) -> (r: Option<&Json>)
        ensures
            r matches Some(v) ==> self.member(key@) == Some(*v),
            r is None ==> self.member(key@) is None,
    {
        match self {
            Json::Object(entries) => {
                let mut i: usize = 0;
                assert(entries@.skip(0) =~= entries@);
                while i < entries.len()
                    invariant
                        i <= entries@.len(),
                        self.member(key@) == entry_value(entries@, key@),
                        entry_value(entries@, key@) == entry_value(entries@.skip(i as int), key@),
                    decreases entries@.len() - i,
                {
                    assert(entries@.skip(i as int).drop_first() =~= entries@.skip(i + 1));
                    if text_eq(entries[i].0.as_str(), key) {
                        assert(entries@.skip(i as int)[0] == entries@[i as int]);
                        assert(entry_value(entries@.skip(i as int), key@) == Some(entries@[i as int].1));
                        return Some(&entries[i].1);
                    }
                    i = i + 1;
                }
                None
            },
            _ => None,
        }
    }

    /// Looks up the element at `index` of an array.
    pub fn get_index(&self, index: usize) -> (r: Option<&Json>)
        ensures
            r matches Some(v) ==> self.element(index as int) == Some(*v),
            r is None ==> self.element(index as int) is None,
    {
        match self {
            Json::Array(items) => {
                if index < items.len() {
                    Some(&items[index])
                } else {
                    None
                }
            },
            _ => None,
        }
    }

    /// The text of a string value.
    pub fn as_str(&self) -> (r: Option<&str>)
        ensures
            r matches Some(t) ==> self.text() == Some(t@),
            r is None ==> self.text() is None,
    {
        match self {
            Json::String(s) => Some(s.as_str()),
            _ => None,
        }
    }

    /// The elements of an array.
    pub fn as_array(&self) -> (r: Option<&Vec<Json>>)
        ensures
            r == (match self {
                Json::Array(items) => Some(items),
                _ => None::<&Vec<Json>>,
            }),
    {
        match self {
            Json::Array(items) => Some(items),
            _ => None,
        }
    }
}

/// Looking a key up in an object finds the first entry with that key, and
/// finds nothing exactly when no entry has it.
pub proof fn lemma_entry_value_first_match(entries: Seq<(String, Json)>, key: Seq<char>)
    ensures
        entry_value(entries, key) is None <==> forall|k: int| 0 <= k < entries.len() ==> (#[trigger] entries[k]).0@ != key,
        entry_value(entries, key) matches Some(v) ==> exists|i: int|
            {
                &&& 0 <= i < entries.len()
                &&& (#[trigger] entries[i]).0@ == key
                &&& entries[i].1 == v
                &&& forall|k: int| 0 <= k < i ==> (#[trigger] entries[k]).0@ != key
            },
    decreases entries.len(),
{
    if entries.len() > 0 {
        let rest = entries.drop_first();
        lemma_entry_value_first_match(rest, key);
        if entries[0].0@ != key {
            assert forall|k: int| 0 <= k < rest.len() implies (#[trigger] rest[k]).0@ == entries[k + 1].0@ by {}
            if entry_value(rest, key) is None {
                assert forall|k: int| 0 <= k < entries.len() implies (#[trigger] entries[k]).0@ != key by {
                    if k > 0 {
                        assert(entries[k] == rest[k - 1]);
                    }
                }
            } else {
                let v = entry_value(rest, key)->0;
                let i = choose|i: int|
                    {
                        &&& 0 <= i < rest.len()
                        &&& (#[trigger] rest[i]).0@ == key
                        &&& rest[i].1 == v
                        &&& forall|k: int| 0 <= k < i ==> (#[trigger] rest[k]).0@ != key
                    };
                assert(entries[i + 1] == rest[i]);
                assert forall|k: int| 0 <= k < i + 1 implies (#[trigger] entries[k]).0@ != key by {
                    if k > 0 {
                        assert(entries[k] == rest[k - 1]);
                    }
                }
                let j = choose|j: int| 0 <= j < rest.len() && (#[trigger] rest[j]).0@ == key;
                assert(entries[j + 1] == rest[j]);
            }
        } else {
            assert(entries[0].0@ == key);
        }
    }
}

/// The literals: `null`, `true`, `false`, a number by its text, and a
/// string as its escaped characters in double quotes.
pub proof fn lemma_json_text_literals(b: bool, t: String, s: String)
    ensures
        json_text(Json::Null) == "null"@,
        json_text(Json::Bool(true)) == "true"@,
        json_text(Json::Bool(false)) == "false"@,
        json_text(Json::Number(t)) == t@,
        json_text(Json::String(s)) == seq!['"'] + json_escaped(s@) + seq!['"'],
{
}

proof fn lemma_elements_join(items: Seq<Json>)
    ensures
        elements_text(items) == crate::text::join_seq(items.map_values(|i: Json| json_text(i)), ","@),
    decreases items.len(),
{
    let m = items.map_values(|i: Json| json_text(i));
    if items.len() > 1 {
        lemma_elements_join(items.drop_last());
        assert(items.drop_last().map_values(|i: Json| json_text(i)) =~= m.drop_last());
    }
}

proof fn lemma_members_join(entries: Seq<(String, Json)>)
    ensures
        members_text(entries) == crate::text::join_seq(
            entries.map_values(|e: (String, Json)| json_string_literal(e.0@) + ":"@ + json_text(e.1)),
            ","@,
        ),
    decreases entries.len(),
{
    let m = entries.map_values(|e: (String, Json)| json_string_literal(e.0@) + ":"@ + json_text(e.1));
    if entries.len() > 1 {
        lemma_members_join(entries.drop_last());
        assert(entries.drop_last().map_values(
            |e: (String, Json)| json_string_literal(e.0@) + ":"@ + json_text(e.1),
        ) =~= m.drop_last());
        assert(m.last() == json_string_literal(entries.last().0@) + ":"@ + json_text(entries.last().1));
        assert(members_text(entries) =~= members_text(entries.drop_last()) + ","@ + m.last());
    } else if entries.len() == 1 {
        assert(members_text(entries) =~= m[0]);
    }
}

/// An array is written as its elements' texts joined by commas in brackets;
/// an object as its `"key":value` members joined by commas in braces.
pub proof fn lemma_json_text_containers(items: Vec<Json>, entries: Vec<(String, Json)>)
    ensures
        json_text(Json::Array(items)) == "["@ + crate::text::join_seq(
            items@.map_values(|i: Json| json_text(i)),
            ","@,
        ) + "]"@,
        json_text(Json::Object(entries)) == "{"@ + crate::text::join_seq(
            entries@.map_values(|e: (String, Json)| json_string_literal(e.0@) + ":"@ + json_text(e.1)),
            ","@,
        ) + "}"@,
{
    lemma_elements_join(items@);
    lemma_members_join(entries@);
}

/// Escaping works character by character, leaves every character from 0x20
/// on other than `"` and `\` as it is, and writes the special ones as JSON
/// requires.
pub proof fn lemma_json_escaping(a: Seq<char>, b: Seq<char>, c: char)
    ensures
        json_escaped(a + b) == json_escaped(a) + json_escaped(b),
        (c as u32) >= 0x20 && c != '"' && c != '\\' ==> json_escaped(seq![c]) == seq![c],
        c == '"' ==> json_escaped(seq![c]) == seq!['\\', '"'],
        c == '\\' ==> json_escaped(seq![c]) == seq!['\\', '\\'],
        c == '\n' ==> json_escaped(seq![c]) == seq!['\\', 'n'],
        c == '\t' ==> json_escaped(seq![c]) == seq!['\\', 't'],
        c == '\r' ==> json_escaped(seq![c]) == seq!['\\', 'r'],
        (c as u32) < 0x20 ==> json_escaped(seq![c]).len() >= 2 && json_escaped(seq![c])[0] == '\\',
    decreases b.len(),
{
    let one = seq![c];
    assert(one.drop_last() =~= Seq::<char>::empty());
    assert(one.last() == c);
    assert(json_escaped(one.drop_last()) =~= Seq::<char>::empty());
    assert(json_escaped(one) =~= json_escaped_char(c));
    if b.len() == 0 {
        assert(a + b =~= a);
        assert(json_escaped(b) =~= Seq::<char>::empty());
    } else {
        lemma_json_escaping(a, b.drop_last(), c);
        assert((a + b).drop_last() =~= a + b.drop_last());
        assert((a + b).last() == b.last());
    }
}

} // verus!
