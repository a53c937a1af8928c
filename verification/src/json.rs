//! JSON framing of the protocol payloads.
//!
//! The bodies the agent sends are built here character by character, against
//! an exact specification of the produced text: quoted strings with the
//! usual escapes, decimal numbers, booleans, and comma-joined lists.

use vstd::prelude::*;
use vstd::string::{StringExecFns, StrSliceExecFns};
use crate::text::{dec_str, dec_str_signed, append_u64_dec, append_i32_dec};

verus! {

/// The escape of one character inside a JSON string: quote, backslash and
/// the common control characters take a two-character escape, everything
/// else stands as it is.
pub open spec fn escape_char(c: char) -> Seq<char> {
    if c == '"' { seq!['\\', '"'] }
    else if c == '\\' { seq!['\\', '\\'] }
    else if c == '\n' { seq!['\\', 'n'] }
    else if c == '\r' { seq!['\\', 'r'] }
    else if c == '\t' { seq!['\\', 't'] }
    else { seq![c] }
}

/// The body of a JSON string: every character escaped in place.
pub open spec fn json_escape(s: Seq<char>) -> Seq<char>
    decreases s.len(),
{
    if s.len() == 0 {
        Seq::empty()
    } else {
        escape_char(s[0]) + json_escape(s.drop_first())
    }
}

/// A quoted, escaped JSON string.
pub open spec fn json_string(s: Seq<char>) -> Seq<char> {
    seq!['"'] + json_escape(s) + seq!['"']
}

/// A JSON boolean.
pub open spec fn json_bool(b: bool) -> Seq<char> {
    if b { "true"@ } else { "false"@ }
}

/// A JSON number for a nonnegative value.
pub open spec fn json_u64(n: nat) -> Seq<char> {
    dec_str(n)
}

/// A JSON number for a signed value.
pub open spec fn json_i32(n: int) -> Seq<char> {
    dec_str_signed(n)
}

/// Pieces joined with commas, as inside a JSON array or object.
pub open spec fn json_join(elems: Seq<Seq<char>>) -> Seq<char>
    decreases elems.len(),
{
    if elems.len() == 0 {
        Seq::empty()
    } else if elems.len() == 1 {
        elems[0]
    } else {
        elems[0] + seq![','] + json_join(elems.drop_first())
    }
}

/// A JSON array of the given pieces.
pub open spec fn json_array(elems: Seq<Seq<char>>) -> Seq<char> {
    seq!['['] + json_join(elems) + seq![']']
}

/// Appending one piece to a comma-joined list puts a comma before it
/// exactly when the list was not empty.
pub proof fn lemma_json_join_snoc(elems: Seq<Seq<char>>, e: Seq<char>)
    ensures
        elems.len() == 0 ==> json_join(elems.push(e)) == e,
        elems.len() > 0 ==> json_join(elems.push(e)) == json_join(elems) + seq![','] + e,
    decreases elems.len(),
{
    reveal_with_fuel(json_join, 3);
    let pushed = elems.push(e);
    if elems.len() == 0 {
        assert(pushed.len() == 1);
        assert(pushed[0] == e);
        assert(json_join(pushed) == e);
    } else if elems.len() == 1 {
        assert(pushed.len() == 2);
        assert(pushed.drop_first() =~= seq![e]);
        assert(json_join(pushed) == elems[0] + seq![','] + e);
        assert(json_join(elems) == elems[0]);
    } else {
        lemma_json_join_snoc(elems.drop_first(), e);
        assert(pushed.drop_first() =~= elems.drop_first().push(e));
        assert(json_join(pushed) == pushed[0] + seq![','] + json_join(pushed.drop_first()));
        assert(json_join(elems) + seq![','] + e =~= elems[0] + seq![','] + (json_join(
            elems.drop_first(),
        ) + seq![','] + e));
    }
}

/// Escaping a string one character longer appends that character's escape.
pub proof fn lemma_json_escape_snoc(s: Seq<char>, c: char)
    ensures
        json_escape(s.push(c)) == json_escape(s) + escape_char(c),
    decreases s.len(),
{
    reveal_with_fuel(json_escape, 2);
    let pushed = s.push(c);
    if s.len() == 0 {
        assert(pushed.len() == 1);
        assert(pushed[0] == c);
        assert(pushed.drop_first() =~= Seq::<char>::empty());
        assert(json_escape(pushed) =~= escape_char(c));
        assert(json_escape(s) + escape_char(c) =~= escape_char(c));
    } else {
        lemma_json_escape_snoc(s.drop_first(), c);
        assert(pushed.drop_first() =~= s.drop_first().push(c));
        assert(json_escape(s) + escape_char(c) =~= escape_char(s[0]) + (json_escape(
            s.drop_first(),
        ) + escape_char(c)));
    }
}

/// Appends the body of a JSON string: `s` with every character escaped.
fn append_escaped(out: &mut String, s: &str)
    ensures
        final(out)@ == old(out)@ + json_escape(s@),
{
    let n: usize = s.unicode_len();
    let mut i: usize = 0;
    while i < n
        invariant
            n == s@.len(),
            i <= n,
            out@ == old(out)@ + json_escape(s@.take(i as int)),
        decreases n - i,
    {
        let c: char = s.get_char(i);
        if c == '"' {
            out.append("\\\"");
            proof { reveal_strlit("\\\""); }
        } else if c == '\\' {
            out.append("\\\\");
            proof { reveal_strlit("\\\\"); }
        } else if c == '\n' {
            out.append("\\n");
            proof { reveal_strlit("\\n"); }
        } else if c == '\r' {
            out.append("\\r");
            proof { reveal_strlit("\\r"); }
        } else if c == '\t' {
            out.append("\\t");
            proof { reveal_strlit("\\t"); }
        } else {
            out.push(c);
        }
        proof {
            lemma_json_escape_snoc(s@.take(i as int), c);
            assert(s@.take(i as int + 1) =~= s@.take(i as int).push(c));
            assert(out@ =~= old(out)@ + json_escape(s@.take(i as int + 1)));
        }
        i = i + 1;
    }
    proof {
        assert(s@.take(n as int) =~= s@);
    }
}

/// Appends a quoted, escaped JSON string.
pub fn append_json_string(out: &mut String, s: &str)
    ensures
        final(out)@ == old(out)@ + json_string(s@),
{
    proof {
        reveal_strlit("\"");
    }
    out.append("\"");
    append_escaped(out, s);
    out.append("\"");
    assert(out@ =~= old(out)@ + json_string(s@));
}

/// Appends a JSON boolean.
pub fn append_json_bool(out: &mut String, b: bool)
    ensures
        final(out)@ == old(out)@ + json_bool(b),
{
    if b {
        out.append("true");
    } else {
        out.append("false");
    }
}

/// Appends a JSON number for a nonnegative value.
pub fn append_json_u64(out: &mut String, n: u64)
    ensures
        final(out)@ == old(out)@ + json_u64(n as nat),
{
    append_u64_dec(out, n);
}

/// Appends a JSON number for a signed value.
pub fn append_json_i32(out: &mut String, n: i32)
    ensures
        final(out)@ == old(out)@ + json_i32(n as int),
{
    append_i32_dec(out, n);
}

} // verus!
