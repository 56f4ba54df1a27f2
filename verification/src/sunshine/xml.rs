//! XML text for the answers of the HTTP interface.
use crate::text::str_chars;
use vstd::prelude::*;
use vstd::string::StringExecFns;

verus! {

/// What stands for one character in XML text.
pub open spec fn escape_char(c: char) -> Seq<char> {
    if c == '&' {
        "&amp;"@
    } else if c == '<' {
        "&lt;"@
    } else if c == '>' {
        "&gt;"@
    } else if c == '"' {
        "&quot;"@
    } else if c == '\'' {
        "&apos;"@
    } else {
        seq![c]
    }
}

/// A text with its XML special characters replaced by entities.
pub open spec fn escape(s: Seq<char>) -> Seq<char>
    decreases s.len(),
{
    if s.len() == 0 {
        Seq::empty()
    } else {
        escape(s.drop_last()) + escape_char(s.last())
    }
}

/// Replaces the XML special characters by entities.
pub fn xml_escape(input: &str) -> (r: String)
    ensures
        r@ == escape(input@),
{
    let chars = str_chars(input);
    let mut out = String::new();
    let mut i: usize = 0;
    while i < chars.len()
        invariant
            i <= chars.len(),
            chars@ == input@,
            out@ == escape(input@.take(i as int)),
        decreases chars.len() - i,
    {
        let c: char = chars[i];
        if c == '&' {
            out.append("&amp;");
        } else if c == '<' {
            out.append("&lt;");
        } else if c == '>' {
            out.append("&gt;");
        } else if c == '"' {
            out.append("&quot;");
        } else if c == '\'' {
            out.append("&apos;");
        } else {
            let ghost before = out@;
            out.push(c);
            assert(before.push(c) == before + seq![c]);
        }
        i = i + 1;
        assert(input@.take(i as int).drop_last() == input@.take(i - 1));
    }
    assert(input@.take(input@.len() as int) == input@);
    out
}

/// Escaping goes piece by piece.
pub proof fn escape_of_concat(a: Seq<char>, b: Seq<char>)
    ensures
        escape(a + b) == escape(a) + escape(b),
    decreases b.len(),
{
    if b.len() == 0 {
        assert(a + b == a);
        assert(escape(a) + Seq::<char>::empty() == escape(a));
    } else {
        escape_of_concat(a, b.drop_last());
        assert((a + b).drop_last() == a + b.drop_last());
        assert(escape(a) + (escape(b.drop_last()) + escape_char(b.last())) == escape(a) + escape(
            b.drop_last(),
        ) + escape_char(b.last()));
    }
}

/// Escaped text holds no character that could end a tag or an attribute value.
pub proof fn escaped_text_is_inert(s: Seq<char>, i: int)
    requires
        0 <= i < escape(s).len(),
    ensures
        escape(s)[i] != '<',
        escape(s)[i] != '>',
        escape(s)[i] != '"',
        escape(s)[i] != '\'',
    decreases s.len(),
{
    reveal_strlit("&amp;");
    reveal_strlit("&lt;");
    reveal_strlit("&gt;");
    reveal_strlit("&quot;");
    reveal_strlit("&apos;");
    let head = escape(s.drop_last());
    if i < head.len() {
        escaped_text_is_inert(s.drop_last(), i);
    } else {
        let k = i - head.len();
        assert(escape(s)[i] == escape_char(s.last())[k]);
        assert(escape_char(s.last()).len() <= 6);
        if k == 0 {
        } else if k == 1 {
        } else if k == 2 {
        } else if k == 3 {
        } else if k == 4 {
        } else {
            assert(k == 5);
        }
    }
}

/// No two texts have the same escaped form.
pub proof fn escape_is_injective(a: Seq<char>, b: Seq<char>)
    requires
        escape(a) == escape(b),
    ensures
        a == b,
    decreases a.len(),
{
    lemma_escape_len(a);
    lemma_escape_len(b);
    if a.len() == 0 || b.len() == 0 {
        assert(a == b);
    } else {
        lemma_escape_first(a);
        lemma_escape_first(b);
        let ea = escape_char(a[0]);
        let eb = escape_char(b[0]);
        let ra = escape(a.skip(1));
        let rb = escape(b.skip(1));
        assert(escape(a) == ea + ra && escape(b) == eb + rb);
        reveal_strlit("&amp;");
        reveal_strlit("&lt;");
        reveal_strlit("&gt;");
        reveal_strlit("&quot;");
        reveal_strlit("&apos;");
        assert((ea + ra)[0] == ea[0] && (eb + rb)[0] == eb[0]);
        if ea.len() > 1 && eb.len() > 1 {
            assert((ea + ra)[1] == ea[1] && (eb + rb)[1] == eb[1]);
            assert((ea + ra)[2] == ea[2] && (eb + rb)[2] == eb[2]);
        }
        assert(a[0] == b[0]);
        assert(ra == (ea + ra).skip(ea.len() as int));
        assert(rb == (eb + rb).skip(eb.len() as int));
        escape_is_injective(a.skip(1), b.skip(1));
        assert(a == seq![a[0]] + a.skip(1));
        assert(b == seq![b[0]] + b.skip(1));
    }
}

proof fn lemma_escape_first(s: Seq<char>)
    requires
        s.len() > 0,
    ensures
        escape(s) == escape_char(s[0]) + escape(s.skip(1)),
{
    let head = seq![s[0]];
    assert(s == head + s.skip(1));
    escape_of_concat(head, s.skip(1));
    assert(head.drop_last() == Seq::<char>::empty());
    assert(escape(head.drop_last()) == Seq::<char>::empty());
    assert(escape(head) == escape_char(s[0]));
}

proof fn lemma_escape_len(s: Seq<char>)
    ensures
        escape(s).len() >= s.len(),
    decreases s.len(),
{
    reveal_strlit("&amp;");
    reveal_strlit("&lt;");
    reveal_strlit("&gt;");
    reveal_strlit("&quot;");
    reveal_strlit("&apos;");
    if s.len() > 0 {
        lemma_escape_len(s.drop_last());
    }
}

/// The five special characters have their entities, and every other character stands for itself.
pub proof fn every_character_is_written(before: Seq<char>, c: char)
    ensures
        c == '&' ==> escape(before.push(c)) == escape(before) + "&amp;"@,
        c == '<' ==> escape(before.push(c)) == escape(before) + "&lt;"@,
        c == '>' ==> escape(before.push(c)) == escape(before) + "&gt;"@,
        c == '"' ==> escape(before.push(c)) == escape(before) + "&quot;"@,
        c == '\'' ==> escape(before.push(c)) == escape(before) + "&apos;"@,
        c != '&' && c != '<' && c != '>' && c != '"' && c != '\'' ==> escape(before.push(c))
            == escape(before).push(c),
{
    assert(before.push(c).drop_last() =~= before);
    assert(escape(before) + seq![c] =~= escape(before).push(c));
}

} // verus!
