//! Domain events and their JSON wire form.
//!
//! The host system hands the adapter tagged domain events; the adapter
//! forwards each one to its subscribers as a single JSON text frame. The
//! frame's exact text is specified by [`json_of`]: an object with the event's
//! tag under `"kind"` and its payload under `"value"`, the tag escaped as a
//! JSON string. Every event value has a JSON form, so serialization never
//! fails.

use vstd::prelude::*;
use vstd::string::StrSliceExecFns;
use vstd::string::StringExecFns;
use crate::text::chars_to_string;
use crate::text::dec_chars;
use crate::text::dec_seq;

verus! {

/// A domain occurrence as this adapter models it: a tag naming what
/// happened, and a numeric payload.
#[derive(Debug, Clone)]
pub struct EventKind {
    /// The tag naming the kind of occurrence.
    pub kind: String,
    /// The numeric payload carried with the occurrence.
    pub value: u64,
}

/// The lower-case hexadecimal digit character for `d`, which must be below
/// sixteen.
pub open spec fn hex_digit(d: nat) -> char
    recommends
        d < 16,
{
    if d == 0 {
        '0'
    } else if d == 1 {
        '1'
    } else if d == 2 {
        '2'
    } else if d == 3 {
        '3'
    } else if d == 4 {
        '4'
    } else if d == 5 {
        '5'
    } else if d == 6 {
        '6'
    } else if d == 7 {
        '7'
    } else if d == 8 {
        '8'
    } else if d == 9 {
        '9'
    } else if d == 10 {
        'a'
    } else if d == 11 {
        'b'
    } else if d == 12 {
        'c'
    } else if d == 13 {
        'd'
    } else if d == 14 {
        'e'
    } else {
        'f'
    }
}

/// How one character appears inside a JSON string literal: quotes and
/// backslashes get a backslash escape, control characters a `\u00XX` escape,
/// and every other character stands as itself.
pub open spec fn escape_char(c: char) -> Seq<char> {
    if c == '"' {
        seq!['\\', '"']
    } else if c == '\\' {
        seq!['\\', '\\']
    } else if (c as u32) < 32 {
        seq!['\\', 'u', '0', '0', hex_digit((c as u32) as nat / 16), hex_digit(
            (c as u32) as nat % 16,
        )]
    } else {
        seq![c]
    }
}

/// The body of the JSON string literal for `s`: each character escaped as
/// [`escape_char`] says, in order.
pub open spec fn escape_seq(s: Seq<char>) -> Seq<char>
    decreases s.len(),
{
    if s.len() == 0 {
        Seq::empty()
    } else {
        escape_char(s[0]) + escape_seq(s.drop_first())
    }
}

/// The JSON text frame for an event with tag `kind` and payload `value`.
pub open spec fn json_of(kind: Seq<char>, value: nat) -> Seq<char> {
    "{\"kind\":\""@ + escape_seq(kind) + "\",\"value\":"@ + dec_seq(value) + "}"@
}

proof fn lemma_escape_take_succ(s: Seq<char>, i: int)
    requires
        0 <= i < s.len(),
    ensures
        escape_seq(s.take(i + 1)) == escape_seq(s.take(i)) + escape_char(s[i]),
    decreases i,
{
    if i == 0 {
        assert(s.take(0) =~= Seq::<char>::empty());
        assert(s.take(1) =~= seq![s[0]]);
        assert(seq![s[0]].drop_first() =~= Seq::<char>::empty());
        assert(escape_char(s[0]) + Seq::<char>::empty() =~= escape_char(s[0]));
        assert(Seq::<char>::empty() + escape_char(s[0]) =~= escape_char(s[0]));
    } else {
        let t = s.drop_first();
        lemma_escape_take_succ(t, i - 1);
        assert(s.take(i + 1).drop_first() =~= t.take(i));
        assert(s.take(i).drop_first() =~= t.take(i - 1));
        assert(s.take(i + 1)[0] == s[0]);
        assert(s.take(i)[0] == s[0]);
        assert(t[i - 1] == s[i]);
        assert(escape_char(s[0]) + (escape_seq(t.take(i - 1)) + escape_char(s[i])) =~= (escape_char(
            s[0],
        ) + escape_seq(t.take(i - 1))) + escape_char(s[i]));
    }
}

fn hex_digit_char(d: u8) -> (c: char)
    requires
        d < 16,
    ensures
        c == hex_digit(d as nat),
{
    if d == 0 {
        '0'
    } else if d == 1 {
        '1'
    } else if d == 2 {
        '2'
    } else if d == 3 {
        '3'
    } else if d == 4 {
        '4'
    } else if d == 5 {
        '5'
    } else if d == 6 {
        '6'
    } else if d == 7 {
        '7'
    } else if d == 8 {
        '8'
    } else if d == 9 {
        '9'
    } else if d == 10 {
        'a'
    } else if d == 11 {
        'b'
    } else if d == 12 {
        'c'
    } else if d == 13 {
        'd'
    } else if d == 14 {
        'e'
    } else {
        'f'
    }
}

fn push_escaped(r: &mut Vec<char>, c: char)
    ensures
        final(r)@ == old(r)@ + escape_char(c),
{
    if c == '"' {
        r.push('\\');
        r.push('"');
        proof {
            assert(r@ =~= old(r)@ + escape_char(c));
        }
    } else if c == '\\' {
        r.push('\\');
        r.push('\\');
        proof {
            assert(r@ =~= old(r)@ + escape_char(c));
        }
    } else {
        let v = c as u32;
        if v < 32 {
            r.push('\\');
            r.push('u');
            r.push('0');
            r.push('0');
            r.push(hex_digit_char((v / 16) as u8));
            r.push(hex_digit_char((v % 16) as u8));
            proof {
                assert(r@ =~= old(r)@ + escape_char(c));
            }
        } else {
            r.push(c);
            proof {
                assert(r@ =~= old(r)@ + escape_char(c));
            }
        }
    }
}

/// The characters of the JSON string-literal body for `s`.
pub fn escaped_chars(s: &str) -> (r: Vec<char>)
    ensures
        r@ == escape_seq(s@),
{
    let n = s.unicode_len();
    let mut r: Vec<char> = Vec::new();
    let mut i: usize = 0;
    proof {
        assert(s@.take(0) =~= Seq::<char>::empty());
    }
    while i < n
        invariant
            n == s@.len(),
            i <= n,
            r@ == escape_seq(s@.take(i as int)),
        decreases n - i,
    {
        let c = s.get_char(i);
        push_escaped(&mut r, c);
        proof {
            lemma_escape_take_succ(s@, i as int);
        }
        i = i + 1;
    }
    proof {
        assert(s@.take(n as int) =~= s@);
    }
    r
}

/// The JSON text frame for `event`, exactly as [`json_of`] gives it.
///
/// Every event serializes: this function is total, so the adapter can never
/// meet an event whose serialization fails.
pub fn serialize_event(event: &EventKind) -> (r: String)
    ensures
        r@ == json_of(event.kind@, event.value as nat),
{
    let mut out = String::new();
    out.append("{\"kind\":\"");
    let esc = chars_to_string(escaped_chars(event.kind.as_str()));
    out.append(esc.as_str());
    out.append("\",\"value\":");
    let dec = chars_to_string(dec_chars(event.value));
    out.append(dec.as_str());
    out.append("}");
    proof {
        assert(out@ =~= json_of(event.kind@, event.value as nat));
    }
    out
}

} // verus!
