//! Verified construction of JSON text: string escaping and decimal digits.
//!
//! The assertion builders assemble their JSON by concatenation; every piece
//! is pinned down by a spec function, so the exact text of each assertion is
//! part of the library's contracts.

use vstd::prelude::*;
use vstd::string::StrSliceExecFns;
use vstd::string::StringExecFns;

verus! {

/// The lower-case hexadecimal digit for a value below 16.
pub open spec fn spec_hex_digit(d: u32) -> Seq<char> {
    if d == 0 {
        "0"@
    } else if d == 1 {
        "1"@
    } else if d == 2 {
        "2"@
    } else if d == 3 {
        "3"@
    } else if d == 4 {
        "4"@
    } else if d == 5 {
        "5"@
    } else if d == 6 {
        "6"@
    } else if d == 7 {
        "7"@
    } else if d == 8 {
        "8"@
    } else if d == 9 {
        "9"@
    } else if d == 10 {
        "a"@
    } else if d == 11 {
        "b"@
    } else if d == 12 {
        "c"@
    } else if d == 13 {
        "d"@
    } else if d == 14 {
        "e"@
    } else {
        "f"@
    }
}

fn hex_digit_str(d: u32) -> (r: &'static str)
    requires
        d < 16,
    ensures
        r@ == spec_hex_digit(d),
{
    match d {
        0 => "0",
        1 => "1",
        2 => "2",
        3 => "3",
        4 => "4",
        5 => "5",
        6 => "6",
        7 => "7",
        8 => "8",
        9 => "9",
        10 => "a",
        11 => "b",
        12 => "c",
        13 => "d",
        14 => "e",
        _ => "f",
    }
}

/// How one character appears inside a JSON string literal: quotes,
/// backslashes and control characters are escaped, everything else is
/// emitted as itself.
pub open spec fn spec_escaped_char(c: char) -> Seq<char> {
    if c == '"' {
        "\\\""@
    } else if c == '\\' {
        "\\\\"@
    } else if c == '\n' {
        "\\n"@
    } else if c == '\r' {
        "\\r"@
    } else if c == '\t' {
        "\\t"@
    } else if (c as u32) < 32 {
        "\\u00"@ + spec_hex_digit((c as u32) / 16) + spec_hex_digit((c as u32) % 16)
    } else {
        Seq::<char>::empty().push(c)
    }
}

/// A whole character sequence, escaped for use inside a JSON string literal.
pub open spec fn spec_escape(s: Seq<char>) -> Seq<char>
    decreases s.len(),
{
    if s.len() == 0 {
        Seq::<char>::empty()
    } else {
        spec_escaped_char(s[0]) + spec_escape(s.drop_first())
    }
}

proof fn lemma_escape_snoc(s: Seq<char>, c: char)
    ensures
        spec_escape(s.push(c)) == spec_escape(s) + spec_escaped_char(c),
    decreases s.len(),
{
    if s.len() == 0 {
        assert(s =~= Seq::<char>::empty());
        assert(s.push(c)[0] == c);
        assert(s.push(c).drop_first() =~= Seq::<char>::empty());
        assert(spec_escape(Seq::<char>::empty()) == Seq::<char>::empty());
        assert(spec_escape(s.push(c)) == spec_escaped_char(c) + spec_escape(
            s.push(c).drop_first(),
        ));
        assert(spec_escape(s.push(c)) =~= spec_escape(s) + spec_escaped_char(c));
    } else {
        assert(s.push(c)[0] == s[0]);
        assert(s.push(c).drop_first() =~= s.drop_first().push(c));
        lemma_escape_snoc(s.drop_first(), c);
        assert(spec_escape(s.push(c)) =~= spec_escape(s) + spec_escaped_char(c));
    }
}

/// Escapes a string for use inside a JSON string literal.
pub fn escape_json(s: &str) -> (r: String)
    ensures
        r@ == spec_escape(s@),
{
    let n = s.unicode_len();
    let mut out = String::new();
    let mut i: usize = 0;
    while i < n
        invariant
            i <= n,
            n == s@.len(),
            out@ == spec_escape(s@.subrange(0, i as int)),
        decreases n - i,
    {
        let c = s.get_char(i);
        if c == '"' {
            out.append("\\\"");
        } else if c == '\\' {
            out.append("\\\\");
        } else if c == '\n' {
            out.append("\\n");
        } else if c == '\r' {
            out.append("\\r");
        } else if c == '\t' {
            out.append("\\t");
        } else if (c as u32) < 32 {
            out.append("\\u00");
            out.append(hex_digit_str((c as u32) / 16));
            out.append(hex_digit_str((c as u32) % 16));
        } else {
            let piece = s.substring_char(i, i + 1);
            assert(piece@ =~= Seq::<char>::empty().push(s@[i as int]));
            out.append(piece);
        }
        proof {
            lemma_escape_snoc(s@.subrange(0, i as int), s@[i as int]);
            assert(s@.subrange(0, i + 1 as int) =~= s@.subrange(0, i as int).push(s@[i as int]));
        }
        i = i + 1;
    }
    proof {
        assert(s@.subrange(0, n as int) =~= s@);
    }
    out
}

/// A JSON string literal holding `s`: the escaped text between two quotes.
pub open spec fn spec_json_string(s: Seq<char>) -> Seq<char> {
    "\""@ + spec_escape(s) + "\""@
}

/// Wraps a string as a JSON string literal.
pub fn json_string(s: &str) -> (r: String)
    ensures
        r@ == spec_json_string(s@),
{
    let mut out = String::from_str("\"");
    out.append(escape_json(s).as_str());
    out.append("\"");
    out
}

/// The decimal digit for a value below 10.
pub open spec fn spec_dec_digit(d: u32) -> Seq<char> {
    if d == 0 {
        "0"@
    } else if d == 1 {
        "1"@
    } else if d == 2 {
        "2"@
    } else if d == 3 {
        "3"@
    } else if d == 4 {
        "4"@
    } else if d == 5 {
        "5"@
    } else if d == 6 {
        "6"@
    } else if d == 7 {
        "7"@
    } else if d == 8 {
        "8"@
    } else {
        "9"@
    }
}

fn dec_digit_str(d: u32) -> (r: &'static str)
    requires
        d < 10,
    ensures
        r@ == spec_dec_digit(d),
{
    match d {
        0 => "0",
        1 => "1",
        2 => "2",
        3 => "3",
        4 => "4",
        5 => "5",
        6 => "6",
        7 => "7",
        8 => "8",
        _ => "9",
    }
}

/// The decimal rendering of a number, without sign or leading zeros.
pub open spec fn spec_dec(n: u32) -> Seq<char>
    decreases n,
{
    if n < 10 {
        spec_dec_digit(n)
    } else {
        spec_dec((n / 10) as u32) + spec_dec_digit(n % 10)
    }
}

/// Renders a byte-sized number in decimal.
pub fn u8_dec_string(n: u8) -> (r: String)
    ensures
        r@ == spec_dec(n as u32),
{
    let v = n as u32;
    if v < 10 {
        String::from_str(dec_digit_str(v))
    } else if v < 100 {
        let mut out = String::from_str(dec_digit_str(v / 10));
        out.append(dec_digit_str(v % 10));
        assert(spec_dec(v) == spec_dec(v / 10) + spec_dec_digit(v % 10));
        out
    } else {
        let mut out = String::from_str(dec_digit_str(v / 100));
        out.append(dec_digit_str((v / 10) % 10));
        out.append(dec_digit_str(v % 10));
        assert(spec_dec(v) == spec_dec(v / 10) + spec_dec_digit(v % 10));
        assert(spec_dec(v / 10) == spec_dec(v / 100) + spec_dec_digit((v / 10) % 10));
        assert(v / 100 < 10);
        out
    }
}

/// One JSON object member: the quoted key, a colon and a space, the value
/// text.
pub open spec fn spec_member(e: (Seq<char>, Seq<char>)) -> Seq<char> {
    spec_json_string(e.0) + ": "@ + e.1
}

/// The members of a JSON object, separated by a comma and a space.
pub open spec fn spec_members(entries: Seq<(Seq<char>, Seq<char>)>) -> Seq<char>
    decreases entries.len(),
{
    if entries.len() == 0 {
        Seq::<char>::empty()
    } else if entries.len() == 1 {
        spec_member(entries[0])
    } else {
        spec_member(entries[0]) + ", "@ + spec_members(entries.drop_first())
    }
}

/// A JSON object over (key, value-text) entries, in order.
pub open spec fn spec_json_object(entries: Seq<(Seq<char>, Seq<char>)>) -> Seq<char> {
    "{"@ + spec_members(entries) + "}"@
}

proof fn lemma_members_snoc(entries: Seq<(Seq<char>, Seq<char>)>, e: (Seq<char>, Seq<char>))
    requires
        entries.len() >= 1,
    ensures
        spec_members(entries.push(e)) == spec_members(entries) + ", "@ + spec_member(e),
    decreases entries.len(),
{
    if entries.len() == 1 {
        assert(entries.push(e)[0] == entries[0]);
        assert(entries.push(e).drop_first() =~= Seq::<(Seq<char>, Seq<char>)>::empty().push(e));
        assert(spec_members(Seq::<(Seq<char>, Seq<char>)>::empty().push(e)) == spec_member(e));
        assert(spec_members(entries.push(e)) =~= spec_members(entries) + ", "@ + spec_member(e));
    } else {
        assert(entries.push(e)[0] == entries[0]);
        assert(entries.push(e).drop_first() =~= entries.drop_first().push(e));
        lemma_members_snoc(entries.drop_first(), e);
        assert(spec_members(entries.push(e)) =~= spec_members(entries) + ", "@ + spec_member(e));
    }
}

/// Renders a JSON object from (key, value-text) entries: each key becomes a
/// JSON string, each value is emitted verbatim.
pub fn json_object(entries: &Vec<(String, String)>) -> (r: String)
    ensures
        r@ == spec_json_object(entries.deep_view()),
{
    let ghost g = entries.deep_view();
    let mut out = String::from_str("{");
    let mut i: usize = 0;
    while i < entries.len()
        invariant
            i <= entries.len(),
            g == entries.deep_view(),
            g.len() == entries.len(),
            forall|j: int|
                0 <= j < g.len() ==> g[j] == (entries@[j].0@, entries@[j].1@),
            out@ == "{"@ + spec_members(g.subrange(0, i as int)),
        decreases entries.len() - i,
    {
        if i > 0 {
            out.append(", ");
        }
        let key_text = json_string(entries[i].0.as_str());
        out.append(key_text.as_str());
        out.append(": ");
        out.append(entries[i].1.as_str());
        proof {
            assert(g.subrange(0, i + 1 as int) =~= g.subrange(0, i as int).push(g[i as int]));
            if i > 0 {
                lemma_members_snoc(g.subrange(0, i as int), g[i as int]);
            } else {
                assert(g.subrange(0, 0) =~= Seq::<(Seq<char>, Seq<char>)>::empty());
                assert(spec_members(g.subrange(0, 1)) == spec_member(g[0]));
            }
        }
        i = i + 1;
    }
    out.append("}");
    proof {
        assert(g.subrange(0, entries.len() as int) =~= g);
    }
    out
}

/// The items of a JSON array, separated by a comma and a space.
pub open spec fn spec_items(items: Seq<Seq<char>>) -> Seq<char>
    decreases items.len(),
{
    if items.len() == 0 {
        Seq::<char>::empty()
    } else if items.len() == 1 {
        items[0]
    } else {
        items[0] + ", "@ + spec_items(items.drop_first())
    }
}

/// A JSON array over item texts, in order.
pub open spec fn spec_json_array(items: Seq<Seq<char>>) -> Seq<char> {
    "["@ + spec_items(items) + "]"@
}

proof fn lemma_items_snoc(items: Seq<Seq<char>>, e: Seq<char>)
    requires
        items.len() >= 1,
    ensures
        spec_items(items.push(e)) == spec_items(items) + ", "@ + e,
    decreases items.len(),
{
    if items.len() == 1 {
        assert(items.push(e)[0] == items[0]);
        assert(items.push(e).drop_first() =~= Seq::<Seq<char>>::empty().push(e));
        assert(spec_items(Seq::<Seq<char>>::empty().push(e)) == e);
        assert(spec_items(items.push(e)) =~= spec_items(items) + ", "@ + e);
    } else {
        assert(items.push(e)[0] == items[0]);
        assert(items.push(e).drop_first() =~= items.drop_first().push(e));
        lemma_items_snoc(items.drop_first(), e);
        assert(spec_items(items.push(e)) =~= spec_items(items) + ", "@ + e);
    }
}

/// Renders a JSON array from item texts, each emitted verbatim.
pub fn json_array(items: &Vec<String>) -> (r: String)
    ensures
        r@ == spec_json_array(items.deep_view()),
{
    let ghost g = items.deep_view();
    let mut out = String::from_str("[");
    let mut i: usize = 0;
    while i < items.len()
        invariant
            i <= items.len(),
            g == items.deep_view(),
            g.len() == items.len(),
            forall|j: int| 0 <= j < g.len() ==> g[j] == items@[j]@,
            out@ == "["@ + spec_items(g.subrange(0, i as int)),
        decreases items.len() - i,
    {
        if i > 0 {
            out.append(", ");
        }
        out.append(items[i].as_str());
        proof {
            assert(g.subrange(0, i + 1 as int) =~= g.subrange(0, i as int).push(g[i as int]));
            if i > 0 {
                lemma_items_snoc(g.subrange(0, i as int), g[i as int]);
            } else {
                assert(g.subrange(0, 0) =~= Seq::<Seq<char>>::empty());
                assert(spec_items(g.subrange(0, 1)) == g[0]);
            }
        }
        i = i + 1;
    }
    out.append("]");
    proof {
        assert(g.subrange(0, items.len() as int) =~= g);
    }
    out
}


} // verus!
