//! Properties of the request encoding: a JSON string literal is
//! self-delimiting, so the text of a request determines its fields.

use vstd::prelude::*;
use crate::protocol::{escape_char, escaped, hex_digit, json_string, request_text};

verus! {

proof fn lemma_hex_digit_injective(d1: nat, d2: nat)
    requires
        d1 < 16,
        d2 < 16,
        hex_digit(d1) == hex_digit(d2),
    ensures
        d1 == d2,
{
}

proof fn lemma_escape_char_shape(c: char)
    ensures
        escape_char(c).len() >= 1,
        escape_char(c)[0] != '"',
        escape_char(c)[0] != '\\' ==> escape_char(c) == seq![c],
        escape_char(c)[0] == '\\' ==> escape_char(c).len() >= 2,
        escape_char(c)[0] == '\\' && escape_char(c)[1] == 'u' ==> escape_char(c).len() == 6,
        escape_char(c)[0] == '\\' && escape_char(c)[1] != 'u' ==> escape_char(c).len() == 2,
{
}

/// Characters escaped as `\u00xx`: the controls without a short escape.
spec fn long_escaped(c: char) -> bool {
    (c as u32) < 0x20 && c != '\x08' && c != '\t' && c != '\n' && c != '\x0C' && c != '\r'
}

proof fn lemma_long_escape(c: char)
    ensures
        escape_char(c).len() >= 2 && escape_char(c)[1] == 'u' <==> long_escaped(c),
        long_escaped(c) ==> escape_char(c)[4] == hex_digit((c as u32 / 16) as nat)
            && escape_char(c)[5] == hex_digit((c as u32 % 16) as nat),
{
}

proof fn lemma_escape_char_injective(a: char, b: char)
    requires
        escape_char(a) == escape_char(b),
    ensures
        a == b,
{
    let ea = escape_char(a);
    let eb = escape_char(b);
    lemma_escape_char_shape(a);
    lemma_escape_char_shape(b);
    if ea[0] != '\\' {
        assert(ea[0] == a);
        assert(eb[0] == b);
    } else if ea[1] != 'u' {
        lemma_long_escape(a);
        lemma_long_escape(b);
        assert(!long_escaped(a) && !long_escaped(b));
    } else {
        lemma_long_escape(a);
        lemma_long_escape(b);
        assert(long_escaped(a) && long_escaped(b));
        lemma_hex_digit_injective((a as u32 / 16) as nat, (b as u32 / 16) as nat);
        lemma_hex_digit_injective((a as u32 % 16) as nat, (b as u32 % 16) as nat);
        assert(a as u32 == b as u32);
    }
}

/// Escaped text followed by a closing quote: the quote marks the end.
proof fn lemma_escaped_delimited(a: Seq<char>, b: Seq<char>, x: Seq<char>, y: Seq<char>)
    requires
        escaped(a) + seq!['"'] + x == escaped(b) + seq!['"'] + y,
    ensures
        a == b,
        x == y,
    decreases a.len(),
{
    let l = escaped(a) + seq!['"'] + x;
    if a.len() == 0 {
        assert(l[0] == '"');
        if b.len() > 0 {
            lemma_escape_char_shape(b[0]);
            assert(escaped(b) + seq!['"'] + y =~= escape_char(b[0]) + (escaped(b.drop_first()) + seq!['"'] + y));
            assert(l[0] == escape_char(b[0])[0]);
        }
        assert(b.len() == 0);
        assert(a =~= b);
        assert(x =~= l.subrange(1, l.len() as int));
        assert(y =~= (escaped(b) + seq!['"'] + y).subrange(1, l.len() as int));
    } else {
        let ea = escape_char(a[0]);
        lemma_escape_char_shape(a[0]);
        let ra = escaped(a.drop_first()) + seq!['"'] + x;
        assert(l =~= ea + ra);
        if b.len() == 0 {
            assert(l[0] == '"');
            assert(l[0] == ea[0]);
        }
        assert(b.len() > 0);
        let eb = escape_char(b[0]);
        lemma_escape_char_shape(b[0]);
        let rb = escaped(b.drop_first()) + seq!['"'] + y;
        assert(l =~= eb + rb);
        assert(ea[0] == l[0] && eb[0] == l[0]);
        if ea[0] == '\\' {
            assert(ea[1] == l[1] && eb[1] == l[1]);
        }
        assert(ea.len() == eb.len());
        assert(ea =~= l.subrange(0, ea.len() as int));
        assert(eb =~= l.subrange(0, eb.len() as int));
        lemma_escape_char_injective(a[0], b[0]);
        assert(ra =~= l.subrange(ea.len() as int, l.len() as int));
        assert(rb =~= l.subrange(eb.len() as int, l.len() as int));
        lemma_escaped_delimited(a.drop_first(), b.drop_first(), x, y);
        assert(a =~= seq![a[0]] + a.drop_first());
        assert(b =~= seq![b[0]] + b.drop_first());
    }
}

/// A JSON string literal ends where it ends: whatever follows it cannot be
/// mistaken for part of it.
pub proof fn lemma_json_string_delimited(a: Seq<char>, b: Seq<char>, x: Seq<char>, y: Seq<char>)
    requires
        json_string(a) + x == json_string(b) + y,
    ensures
        a == b,
        x == y,
{
    let l = json_string(a) + x;
    assert(l =~= seq!['"'] + (escaped(a) + seq!['"'] + x));
    assert(json_string(b) + y =~= seq!['"'] + (escaped(b) + seq!['"'] + y));
    assert(escaped(a) + seq!['"'] + x =~= l.subrange(1, l.len() as int));
    assert(escaped(b) + seq!['"'] + y =~= l.subrange(1, l.len() as int));
    lemma_escaped_delimited(a, b, x, y);
}

proof fn lemma_strip_prefix(k: Seq<char>, x: Seq<char>, y: Seq<char>)
    requires
        k + x == k + y,
    ensures
        x == y,
{
    assert(x =~= (k + x).subrange(k.len() as int, (k + x).len() as int));
    assert(y =~= (k + y).subrange(k.len() as int, (k + y).len() as int));
}

proof fn lemma_strip_suffix(x: Seq<char>, y: Seq<char>, k: Seq<char>)
    requires
        x + k == y + k,
    ensures
        x == y,
{
    assert(x =~= (x + k).subrange(0, x.len() as int));
    assert(y =~= (y + k).subrange(0, y.len() as int));
}

proof fn lemma_layout(
    k1: Seq<char>,
    j1: Seq<char>,
    k2: Seq<char>,
    j2: Seq<char>,
    k3: Seq<char>,
    j3: Seq<char>,
    k4: Seq<char>,
    p: Seq<char>,
    k5: Seq<char>,
)
    ensures
        k1 + j1 + k2 + j2 + k3 + j3 + k4 + p + k5 == k1 + (j1 + (k2 + (j2 + (k3 + (j3 + (k4 + (p
            + k5))))))),
{
    assert(k1 + j1 + k2 + j2 + k3 + j3 + k4 + p + k5 =~= k1 + (j1 + (k2 + (j2 + (k3 + (j3 + (k4 + (p
        + k5))))))));
}

/// The params as they stand in a request's text.
pub open spec fn params_text(p: Option<Seq<char>>) -> Seq<char> {
    match p {
        Some(t) => t,
        None => "null"@,
    }
}

/// The text of a request determines its fields: two requests whose texts
/// are equal have the same id, version, method and params. (Params given as
/// the text `null` and absent params are written alike, so they are left
/// out.)
pub proof fn lemma_request_text_injective(
    id1: Seq<char>,
    rpc1: Seq<char>,
    m1: Seq<char>,
    p1: Option<Seq<char>>,
    id2: Seq<char>,
    rpc2: Seq<char>,
    m2: Seq<char>,
    p2: Option<Seq<char>>,
)
    requires
        request_text(id1, rpc1, m1, p1) == request_text(id2, rpc2, m2, p2),
        p1 != Some("null"@),
        p2 != Some("null"@),
    ensures
        id1 == id2,
        rpc1 == rpc2,
        m1 == m2,
        p1 == p2,
{
    let k1 = "{\"id\":"@;
    let k2 = ",\"jsonrpc\":"@;
    let k3 = ",\"method\":"@;
    let k4 = ",\"params\":"@;
    let k5 = "}"@;
    let t3a = k4 + (params_text(p1) + k5);
    let t3b = k4 + (params_text(p2) + k5);
    let t2a = k3 + (json_string(m1) + t3a);
    let t2b = k3 + (json_string(m2) + t3b);
    let t1a = k2 + (json_string(rpc1) + t2a);
    let t1b = k2 + (json_string(rpc2) + t2b);
    lemma_layout(k1, json_string(id1), k2, json_string(rpc1), k3, json_string(m1), k4, params_text(p1), k5);
    lemma_layout(k1, json_string(id2), k2, json_string(rpc2), k3, json_string(m2), k4, params_text(p2), k5);
    assert(request_text(id1, rpc1, m1, p1) == k1 + (json_string(id1) + t1a));
    assert(request_text(id2, rpc2, m2, p2) == k1 + (json_string(id2) + t1b));
    lemma_strip_prefix(k1, json_string(id1) + t1a, json_string(id2) + t1b);
    lemma_json_string_delimited(id1, id2, t1a, t1b);
    lemma_strip_prefix(k2, json_string(rpc1) + t2a, json_string(rpc2) + t2b);
    lemma_json_string_delimited(rpc1, rpc2, t2a, t2b);
    lemma_strip_prefix(k3, json_string(m1) + t3a, json_string(m2) + t3b);
    lemma_json_string_delimited(m1, m2, t3a, t3b);
    lemma_strip_prefix(k4, params_text(p1) + k5, params_text(p2) + k5);
    lemma_strip_suffix(params_text(p1), params_text(p2), k5);
}

} // verus!
