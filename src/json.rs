//! Writing JSON text: quoted strings with their escapes, and objects whose
//! members are given as key and already-written value.

use vstd::prelude::*;
use vstd::string::StrSliceExecFns;
use vstd::string::StringExecFns;

use crate::text::hex_digit;

verus! {

/// How one character stands inside a JSON string: quote and backslash are
/// escaped, the usual control characters get their short escape, the other
/// control characters a `\u00XX` escape, and everything else stands as it is.
pub open spec fn escape_char(c: char) -> Seq<char> {
    if c == '"' {
        seq!['\\', '"']
    } else if c == '\\' {
        seq!['\\', '\\']
    } else if c == '\n' {
        seq!['\\', 'n']
    } else if c == '\r' {
        seq!['\\', 'r']
    } else if c == '\t' {
        seq!['\\', 't']
    } else if c == '\x08' {
        seq!['\\', 'b']
    } else if c == '\x0c' {
        seq!['\\', 'f']
    } else if (c as u32) < 0x20 {
        seq!['\\', 'u', '0', '0', hex_digit(((c as u32) / 16) as int), hex_digit(((c as u32) % 16) as int)]
    } else {
        seq![c]
    }
}

/// The characters of `s`, each escaped.
pub open spec fn escaped(s: Seq<char>) -> Seq<char>
    decreases s.len(),
{
    if s.len() == 0 {
        Seq::empty()
    } else {
        escaped(s.drop_last()) + escape_char(s.last())
    }
}

/// `s` as a JSON string literal.
pub open spec fn quoted(s: Seq<char>) -> Seq<char> {
    seq!['"'] + escaped(s) + seq!['"']
}

/// One member of an object: the quoted key, a colon, and the value's text.
pub open spec fn member(field: (Seq<char>, Seq<char>)) -> Seq<char> {
    quoted(field.0) + seq![':'] + field.1
}

/// The members of `fields`, in order, separated by commas.
pub open spec fn members(fields: Seq<(Seq<char>, Seq<char>)>) -> Seq<char>
    decreases fields.len(),
{
    if fields.len() == 0 {
        Seq::empty()
    } else if fields.len() == 1 {
        member(fields[0])
    } else {
        members(fields.drop_last()) + seq![','] + member(fields.last())
    }
}

/// A JSON object with the given members.
pub open spec fn object(fields: Seq<(Seq<char>, Seq<char>)>) -> Seq<char> {
    seq!['{'] + members(fields) + seq!['}']
}

/// The view of a list of (key, value text) pairs.
pub open spec fn fields_view(fields: Seq<(String, String)>) -> Seq<(Seq<char>, Seq<char>)> {
    fields.map_values(|f: (String, String)| (f.0@, f.1@))
}

/// Appends the escaped form of the character `s@[i]`.
fn push_escaped_char(out: &mut String, s: &str, i: usize)
    requires
        i < s@.len() <= usize::MAX,
    ensures
        final(out)@ == old(out)@ + escape_char(s@[i as int]),
{
    let c = s.get_char(i);
    if c == '"' {
        proof {
            reveal_strlit("\\\"");
        }
        out.append("\\\"");
    } else if c == '\\' {
        proof {
            reveal_strlit("\\\\");
        }
        out.append("\\\\");
    } else if c == '\n' {
        proof {
            reveal_strlit("\\n");
        }
        out.append("\\n");
    } else if c == '\r' {
        proof {
            reveal_strlit("\\r");
        }
        out.append("\\r");
    } else if c == '\t' {
        proof {
            reveal_strlit("\\t");
        }
        out.append("\\t");
    } else if c == '\x08' {
        proof {
            reveal_strlit("\\b");
        }
        out.append("\\b");
    } else if c == '\x0c' {
        proof {
            reveal_strlit("\\f");
        }
        out.append("\\f");
    } else if (c as u32) < 0x20 {
        let code = c as u32;
        let digits = "0123456789abcdef";
        proof {
            reveal_strlit("\\u00");
            reveal_strlit("0123456789abcdef");
        }
        let high = (code / 16) as usize;
        let low = (code % 16) as usize;
        let h = digits.substring_char(high, high + 1);
        let l = digits.substring_char(low, low + 1);
        assert(h@ =~= seq![hex_digit((code / 16) as int)]);
        assert(l@ =~= seq![hex_digit((code % 16) as int)]);
        out.append("\\u00");
        out.append(h);
        out.append(l);
        assert(final(out)@ =~= old(out)@ + escape_char(c));
    } else {
        let one = s.substring_char(i, i + 1);
        assert(one@ =~= seq![c]);
        out.append(one);
    }
}

/// Appends `s` as a JSON string literal.
pub fn push_quoted(out: &mut String, s: &str)
    ensures
        final(out)@ == old(out)@ + quoted(s@),
{
    proof {
        reveal_strlit("\"");
    }
    let ghost start = out@;
    out.append("\"");
    let n = s.unicode_len();
    let mut i: usize = 0;
    while i < n
        invariant
            n == s@.len(),
            i <= n,
            out@ == start + seq!['"'] + escaped(s@.subrange(0, i as int)),
        decreases n - i,
    {
        push_escaped_char(out, s, i);
        proof {
            let t = s@.subrange(0, i + 1);
            assert(t.drop_last() =~= s@.subrange(0, i as int));
            assert(t.last() == s@[i as int]);
        }
        i = i + 1;
    }
    assert(s@.subrange(0, n as int) =~= s@);
    proof {
        reveal_strlit("\"");
    }
    out.append("\"");
    assert(final(out)@ =~= start + quoted(s@));
}

/// `s` as a JSON string literal.
pub fn quote(s: &str) -> (r: String)
    ensures
        r@ == quoted(s@),
{
    let mut out = String::new();
    push_quoted(&mut out, s);
    assert(out@ =~= quoted(s@));
    out
}

/// The JSON object whose members are `fields`, each a key and the text of
/// its value, in order.
pub fn write_object(fields: &Vec<(String, String)>) -> (r: String)
    ensures
        r@ == object(fields_view(fields@)),
{
    proof {
        reveal_strlit("{");
    }
    let ghost all = fields_view(fields@);
    let mut out = String::new();
    out.append("{");
    let mut i: usize = 0;
    while i < fields.len()
        invariant
            i <= fields@.len(),
            all == fields_view(fields@),
            out@ == seq!['{'] + members(all.take(i as int)),
        decreases fields@.len() - i,
    {
        proof {
            reveal_strlit(",");
            reveal_strlit(":");
        }
        let ghost before = out@;
        if i > 0 {
            out.append(",");
        }
        let ghost sep = out@;
        push_quoted(&mut out, fields[i].0.as_str());
        out.append(":");
        out.append(fields[i].1.as_str());
        proof {
            let t = all.take(i + 1);
            let f = (fields@[i as int].0@, fields@[i as int].1@);
            assert(t.drop_last() =~= all.take(i as int));
            assert(t.last() == f);
            assert(out@ =~= sep + member(f));
            if i == 0 {
                assert(members(t) == member(t[0]));
                assert(out@ =~= seq!['{'] + members(t));
            } else {
                assert(sep =~= before + seq![',']);
                assert(out@ =~= seq!['{'] + members(t));
            }
        }
        i = i + 1;
    }
    assert(all.take(fields@.len() as int) =~= all);
    proof {
        reveal_strlit("}");
    }
    out.append("}");
    assert(out@ =~= object(all));
    out
}

} // verus!
