//! Decoding wire text into protocol messages.  The grammar is the one the
//! gateway exchanges: a two-character message code, fixed-width field
//! values whose widths the code determines, then tagged variable fields,
//! each terminated by `'|'`.

use vstd::prelude::*;
use vstd::string::StrSliceExecFns;
use vstd::string::StringExecFns;
use crate::session::SipError;
use crate::sipmsg::{Field, Message};
use crate::text::{char_index, lemma_char_index_at, str_eq};

verus! {

/// The fixed-field widths of each message code the gateway exchanges: the
/// status, login, item-information, patron-status, patron-information and
/// fee-paid requests, and the responses the gateway itself produces.
pub open spec fn spec_fixed_widths(code: Seq<char>) -> Option<Seq<int>> {
    if code == "99"@ {
        Some(seq![1int, 3, 4])
    } else if code == "98"@ {
        Some(seq![1int, 1, 1, 1, 1, 1, 3, 3, 18, 4])
    } else if code == "93"@ {
        Some(seq![1int, 1])
    } else if code == "94"@ {
        Some(seq![1int])
    } else if code == "17"@ {
        Some(seq![18int])
    } else if code == "23"@ {
        Some(seq![3int, 18])
    } else if code == "63"@ {
        Some(seq![3int, 18, 10])
    } else if code == "37"@ {
        Some(seq![18int, 2, 2, 3])
    } else if code == "38"@ {
        Some(seq![1int, 18])
    } else {
        None
    }
}

/// Split fixed-width values off the front of `t`, one per width; what
/// follows them is returned unconsumed.
pub open spec fn take_fixed(t: Seq<char>, ws: Seq<int>) -> Option<(Seq<Seq<char>>, Seq<char>)>
    decreases ws.len(),
{
    if ws.len() == 0 {
        Some((Seq::empty(), t))
    } else if ws[0] < 0 || t.len() < ws[0] {
        None
    } else {
        match take_fixed(t.subrange(ws[0], t.len() as int), ws.drop_first()) {
            Some(p) => Some((seq![t.subrange(0, ws[0])] + p.0, p.1)),
            None => None,
        }
    }
}

/// Parse the variable fields: each is a two-character tag, a value, and a
/// `'|'` terminator; the text must consist of exactly such fields.
pub open spec fn parse_fields(t: Seq<char>) -> Option<Seq<(Seq<char>, Seq<char>)>>
    decreases t.len(),
{
    if t.len() == 0 {
        Some(Seq::empty())
    } else {
        let cut = char_index(t, '|');
        if cut < 2 || cut >= t.len() {
            None
        } else {
            match parse_fields(t.subrange(cut + 1, t.len() as int)) {
                Some(rest) => Some(seq![(t.subrange(0, 2), t.subrange(2, cut))] + rest),
                None => None,
            }
        }
    }
}

/// What a full wire text denotes: its code, fixed field values, and
/// variable fields.
pub open spec fn spec_from_sip(t: Seq<char>) -> Option<
    (Seq<char>, Seq<Seq<char>>, Seq<(Seq<char>, Seq<char>)>),
> {
    if t.len() < 2 {
        None
    } else {
        let code = t.subrange(0, 2);
        match spec_fixed_widths(code) {
            None => None,
            Some(ws) => {
                match take_fixed(t.subrange(2, t.len() as int), ws) {
                    None => None,
                    Some(p) => {
                        match parse_fields(p.1) {
                            None => None,
                            Some(fs) => Some((code, p.0, fs)),
                        }
                    },
                }
            },
        }
    }
}

/// The views of a message's fixed field values.
pub open spec fn fixed_views(ffs: Seq<String>) -> Seq<Seq<char>> {
    ffs.map_values(|s: String| s@)
}

/// The views of a message's variable fields.
pub open spec fn fields_view(fs: Seq<Field>) -> Seq<(Seq<char>, Seq<char>)> {
    fs.map_values(|f: Field| (f.code@, f.value@))
}

/// Glue for the fixed-field loop: results found so far, prepended to
/// whatever the rest of the split yields.
spec fn glue_fixed(
    prefix: Seq<Seq<char>>,
    o: Option<(Seq<Seq<char>>, Seq<char>)>,
) -> Option<(Seq<Seq<char>>, Seq<char>)> {
    match o {
        Some(p) => Some((prefix + p.0, p.1)),
        None => None,
    }
}

/// Glue for the field loop: fields found so far, prepended to whatever the
/// rest of the parse yields.
spec fn glue_fields(
    prefix: Seq<(Seq<char>, Seq<char>)>,
    o: Option<Seq<(Seq<char>, Seq<char>)>>,
) -> Option<Seq<(Seq<char>, Seq<char>)>> {
    match o {
        Some(rest) => Some(prefix + rest),
        None => None,
    }
}

/// The fixed-field widths of a supported message code.
fn fixed_widths(code: &str) -> (r: Option<Vec<usize>>)
    ensures
        match r {
            Some(v) => spec_fixed_widths(code@) == Some(v@.map_values(|w: usize| w as int)),
            None => spec_fixed_widths(code@) is None,
        },
{
    let v: Vec<usize> = if str_eq(code, "99") {
        vec![1, 3, 4]
    } else if str_eq(code, "98") {
        vec![1, 1, 1, 1, 1, 1, 3, 3, 18, 4]
    } else if str_eq(code, "93") {
        vec![1, 1]
    } else if str_eq(code, "94") {
        vec![1]
    } else if str_eq(code, "17") {
        vec![18]
    } else if str_eq(code, "23") {
        vec![3, 18]
    } else if str_eq(code, "63") {
        vec![3, 18, 10]
    } else if str_eq(code, "37") {
        vec![18, 2, 2, 3]
    } else if str_eq(code, "38") {
        vec![1, 18]
    } else {
        return None;
    };
    proof {
        assert(spec_fixed_widths(code@) == Some(v@.map_values(|w: usize| w as int))) by {
            assert(spec_fixed_widths(code@) matches Some(ws) && ws =~= v@.map_values(
                |w: usize| w as int,
            ));
        }
    }
    Some(v)
}

/// Decode wire text (without the record terminator) into a message.  The
/// result is exactly what the grammar says the text denotes; text that the
/// grammar refuses — a short or unknown code, truncated fixed fields, or
/// malformed variable fields — is a protocol error.
#[verifier::loop_isolation(false)]
pub fn from_sip(text: &str) -> (r: Result<Message, SipError>)
    ensures
        match r {
            Ok(m) => spec_from_sip(text@) == Some(
                (m.code@, fixed_views(m.fixed_fields@), fields_view(m.fields@)),
            ),
            Err(e) => spec_from_sip(text@) is None && (e matches SipError::Protocol(_)),
        },
{
    let n = text.unicode_len();
    if n < 2 {
        return Err(SipError::Protocol(String::from_str("message too short")));
    }
    let code = text.substring_char(0, 2);
    let widths = match fixed_widths(code) {
        Some(w) => w,
        None => {
            return Err(SipError::Protocol(String::from_str("unknown message code")));
        },
    };
    let ghost ws = widths@.map_values(|w: usize| w as int);
    let ghost rem0 = text@.subrange(2, n as int);
    let mut fixed: Vec<String> = Vec::new();
    proof {
        assert(ws.skip(0) =~= ws);
        assert(fixed_views(fixed@) =~= Seq::<Seq<char>>::empty());
        let o = take_fixed(rem0, ws);
        match o {
            Some(p) => {
                assert(Seq::<Seq<char>>::empty() + p.0 =~= p.0);
            },
            None => {},
        }
    }
    let wn = widths.len();
    let mut k: usize = 0;
    let mut pos: usize = 2;
    while k < wn
        invariant
            k <= wn,
            2 <= pos <= n,
            n == text@.len(),
            wn == ws.len(),
            ws == widths@.map_values(|w: usize| w as int),
            rem0 == text@.subrange(2, n as int),
            take_fixed(rem0, ws) == glue_fixed(
                fixed_views(fixed@),
                take_fixed(text@.subrange(pos as int, n as int), ws.skip(k as int)),
            ),
        decreases wn - k,
    {
        let w = widths[k];
        let ghost rest_ws = ws.skip(k as int);
        let ghost cur = text@.subrange(pos as int, n as int);
        proof {
            assert(rest_ws[0] == ws[k as int]);
            assert(ws[k as int] == w as int);
            assert(rest_ws.drop_first() =~= ws.skip(k + 1));
        }
        if n - pos < w {
            proof {
                assert(cur.len() < rest_ws[0]);
                assert(take_fixed(cur, rest_ws) is None);
                assert(take_fixed(rem0, ws) is None);
            }
            return Err(SipError::Protocol(String::from_str("truncated fixed fields")));
        }
        let val = String::from_str(text.substring_char(pos, pos + w));
        proof {
            assert(cur.subrange(ws[k as int], cur.len() as int) =~= text@.subrange(
                pos + w,
                n as int,
            ));
            assert(cur.subrange(0, ws[k as int]) =~= text@.subrange(pos as int, pos + w));
            assert(cur.subrange(0, ws[k as int]) == val@);
        }
        fixed.push(val);
        proof {
            assert(fixed_views(fixed@) =~= fixed_views(fixed@.drop_last()) + seq![val@]);
            assert forall|p0: Seq<Seq<char>>, p1: Seq<char>|
                glue_fixed(fixed_views(fixed@.drop_last()), Some((seq![val@] + p0, p1)))
                    == glue_fixed(fixed_views(fixed@), Some((p0, p1))) by {
                assert(fixed_views(fixed@.drop_last()) + (seq![val@] + p0) =~= (fixed_views(
                    fixed@.drop_last(),
                ) + seq![val@]) + p0);
            }
        }
        pos = pos + w;
        k += 1;
    }
    proof {
        assert(ws.skip(wn as int).len() == 0);
        assert(take_fixed(text@.subrange(pos as int, n as int), ws.skip(wn as int)) == Some(
            (Seq::<Seq<char>>::empty(), text@.subrange(pos as int, n as int)),
        ));
        assert(fixed_views(fixed@) + Seq::<Seq<char>>::empty() =~= fixed_views(fixed@));
        assert(take_fixed(rem0, ws) == Some(
            (fixed_views(fixed@), text@.subrange(pos as int, n as int)),
        ));
    }
    let ghost rem1 = text@.subrange(pos as int, n as int);
    let mut fields: Vec<Field> = Vec::new();
    while pos < n
        invariant
            2 <= pos <= n,
            n == text@.len(),
            parse_fields(rem1) == glue_fields(
                fields_view(fields@),
                parse_fields(text@.subrange(pos as int, n as int)),
            ),
        decreases n - pos,
    {
        let ghost cur = text@.subrange(pos as int, n as int);
        let mut j: usize = pos;
        #[verifier::loop_isolation(true)]
        while j < n
            invariant
                pos <= j <= n,
                n == text@.len(),
                forall|p: int| pos <= p < j ==> text@[p] != '|',
            ensures
                pos <= j <= n,
                forall|p: int| pos <= p < j ==> text@[p] != '|',
                j == n || text@[j as int] == '|',
            decreases n - j,
        {
            if text.get_char(j) == '|' {
                break ;
            }
            j += 1;
        }
        proof {
            assert forall|q: int| 0 <= q < j - pos implies cur[q] != '|' by {
                assert(cur[q] == text@[pos + q]);
            }
            if j < n {
                assert(cur[j - pos] == text@[j as int]);
            }
            lemma_char_index_at(cur, '|', j - pos);
        }
        if j == n {
            proof {
                assert(char_index(cur, '|') >= cur.len());
                assert(parse_fields(cur) is None);
            }
            return Err(SipError::Protocol(String::from_str("unterminated field")));
        }
        if j - pos < 2 {
            proof {
                assert(parse_fields(cur) is None);
            }
            return Err(SipError::Protocol(String::from_str("field tag too short")));
        }
        let ghost cut = j - pos;
        let tag = text.substring_char(pos, pos + 2);
        let value = text.substring_char(pos + 2, j);
        proof {
            assert(cur.subrange(0, 2) =~= text@.subrange(pos as int, pos + 2));
            assert(cur.subrange(2, cut as int) =~= text@.subrange(pos + 2, j as int));
            assert(cur.subrange(cut + 1, cur.len() as int) =~= text@.subrange(j + 1, n as int));
        }
        fields.push(Field::new(tag, value));
        proof {
            assert(fields_view(fields@) =~= fields_view(fields@.drop_last()) + seq![
                (tag@, value@),
            ]);
            assert forall|rest: Seq<(Seq<char>, Seq<char>)>|
                glue_fields(fields_view(fields@.drop_last()), Some(seq![(tag@, value@)] + rest))
                    == glue_fields(fields_view(fields@), Some(rest)) by {
                assert(fields_view(fields@.drop_last()) + (seq![(tag@, value@)] + rest)
                    =~= (fields_view(fields@.drop_last()) + seq![(tag@, value@)]) + rest);
            }
        }
        pos = j + 1;
    }
    proof {
        assert(text@.subrange(pos as int, n as int).len() == 0);
        assert(parse_fields(text@.subrange(pos as int, n as int)) == Some(
            Seq::<(Seq<char>, Seq<char>)>::empty(),
        ));
        assert(fields_view(fields@) + Seq::<(Seq<char>, Seq<char>)>::empty() =~= fields_view(
            fields@,
        ));
        assert(parse_fields(rem1) == Some(fields_view(fields@)));
        assert(text@.subrange(0, 2) == code@);
    }
    Ok(Message::new(String::from_str(code), fixed, fields))
}

proof fn lemma_wire_fixed_first(ffs: Seq<String>)
    requires
        ffs.len() > 0,
    ensures
        crate::sipmsg::wire_fixed(ffs) == ffs[0]@ + crate::sipmsg::wire_fixed(ffs.drop_first()),
    decreases ffs.len(),
{
    if ffs.len() == 1 {
        assert(ffs.drop_last().len() == 0);
        assert(ffs.drop_first().len() == 0);
        assert(crate::sipmsg::wire_fixed(ffs.drop_last()) =~= Seq::<char>::empty());
        assert(crate::sipmsg::wire_fixed(ffs.drop_first()) =~= Seq::<char>::empty());
        assert(crate::sipmsg::wire_fixed(ffs) =~= ffs[0]@ + crate::sipmsg::wire_fixed(
            ffs.drop_first(),
        ));
    } else {
        lemma_wire_fixed_first(ffs.drop_last());
        assert(ffs.drop_last().drop_first() =~= ffs.drop_first().drop_last());
        assert(ffs.drop_first().last() == ffs.last());
        assert(ffs.drop_last()[0] == ffs[0]);
        let x = crate::sipmsg::wire_fixed(ffs.drop_first().drop_last());
        assert(crate::sipmsg::wire_fixed(ffs.drop_last()) == ffs[0]@ + x);
        assert(crate::sipmsg::wire_fixed(ffs.drop_first()) == x + ffs.last()@);
        assert((ffs[0]@ + x) + ffs.last()@ =~= ffs[0]@ + (x + ffs.last()@));
        assert(crate::sipmsg::wire_fixed(ffs) == (ffs[0]@ + x) + ffs.last()@);
    }
}

proof fn lemma_wire_fields_first(fs: Seq<Field>)
    requires
        fs.len() > 0,
    ensures
        crate::sipmsg::wire_fields(fs) == fs[0].code@ + fs[0].value@ + seq!['|']
            + crate::sipmsg::wire_fields(fs.drop_first()),
    decreases fs.len(),
{
    if fs.len() == 1 {
        assert(fs.drop_last().len() == 0);
        assert(fs.drop_first().len() == 0);
        assert(crate::sipmsg::wire_fields(fs.drop_last()) =~= Seq::<char>::empty());
        assert(crate::sipmsg::wire_fields(fs.drop_first()) =~= Seq::<char>::empty());
        assert(crate::sipmsg::wire_fields(fs) =~= fs[0].code@ + fs[0].value@ + seq!['|']
            + crate::sipmsg::wire_fields(fs.drop_first()));
    } else {
        lemma_wire_fields_first(fs.drop_last());
        assert(fs.drop_last().drop_first() =~= fs.drop_first().drop_last());
        assert(fs.drop_first().last() == fs.last());
        assert(fs.drop_last()[0] == fs[0]);
        let a = fs[0].code@ + fs[0].value@ + seq!['|'];
        let w1 = crate::sipmsg::wire_fields(fs.drop_first().drop_last());
        assert(crate::sipmsg::wire_fields(fs.drop_last()) == a + w1);
        assert(crate::sipmsg::wire_fields(fs.drop_first()) == w1 + fs.last().code@
            + fs.last().value@ + seq!['|']);
        assert(crate::sipmsg::wire_fields(fs) == (a + w1) + fs.last().code@ + fs.last().value@
            + seq!['|']);
        assert((a + w1) + fs.last().code@ + fs.last().value@ + seq!['|'] =~= a + (w1
            + fs.last().code@ + fs.last().value@ + seq!['|']));
    }
}

proof fn lemma_take_fixed_round(ffs: Seq<String>, ws: Seq<int>, q: Seq<char>)
    requires
        ws.len() == ffs.len(),
        forall|i: int| 0 <= i < ws.len() ==> ws[i] == (#[trigger] ffs[i])@.len(),
    ensures
        take_fixed(crate::sipmsg::wire_fixed(ffs) + q, ws) == Some((fixed_views(ffs), q)),
    decreases ffs.len(),
{
    let t = crate::sipmsg::wire_fixed(ffs) + q;
    if ffs.len() == 0 {
        assert(t =~= q);
        assert(fixed_views(ffs) =~= Seq::<Seq<char>>::empty());
    } else {
        lemma_wire_fixed_first(ffs);
        let w0 = ws[0];
        assert(t =~= ffs[0]@ + (crate::sipmsg::wire_fixed(ffs.drop_first()) + q));
        assert(t.len() >= w0);
        assert(t.subrange(0, w0) =~= ffs[0]@);
        assert(t.subrange(w0, t.len() as int) =~= crate::sipmsg::wire_fixed(ffs.drop_first())
            + q);
        assert forall|i: int| 0 <= i < ws.drop_first().len() implies ws.drop_first()[i] == (
        #[trigger] ffs.drop_first()[i])@.len() by {
            assert(ffs.drop_first()[i] == ffs[i + 1]);
        }
        lemma_take_fixed_round(ffs.drop_first(), ws.drop_first(), q);
        assert(seq![ffs[0]@] + fixed_views(ffs.drop_first()) =~= fixed_views(ffs));
    }
}

/// No `'|'` occurs in `s`.
pub open spec fn no_bar(s: Seq<char>) -> bool {
    forall|j: int| 0 <= j < s.len() ==> s[j] != '|'
}

proof fn lemma_parse_fields_round(fs: Seq<Field>)
    requires
        forall|i: int|
            0 <= i < fs.len() ==> (#[trigger] fs[i]).code@.len() == 2 && no_bar(fs[i].code@)
                && no_bar(fs[i].value@),
    ensures
        parse_fields(crate::sipmsg::wire_fields(fs)) == Some(fields_view(fs)),
    decreases fs.len(),
{
    let t = crate::sipmsg::wire_fields(fs);
    if fs.len() == 0 {
        assert(t.len() == 0);
        assert(fields_view(fs) =~= Seq::<(Seq<char>, Seq<char>)>::empty());
    } else {
        lemma_wire_fields_first(fs);
        let f0 = fs[0];
        let cut = 2 + f0.value@.len() as int;
        assert(t =~= f0.code@ + f0.value@ + seq!['|'] + crate::sipmsg::wire_fields(
            fs.drop_first(),
        ));
        assert forall|j: int| 0 <= j < cut implies t[j] != '|' by {
            if j < 2 {
                assert(t[j] == f0.code@[j]);
            } else {
                assert(t[j] == f0.value@[j - 2]);
            }
        }
        assert(t[cut] == '|');
        lemma_char_index_at(t, '|', cut);
        assert(2 <= cut < t.len());
        assert(t.subrange(0, 2) =~= f0.code@);
        assert(t.subrange(2, cut) =~= f0.value@);
        assert(t.subrange(cut + 1, t.len() as int) =~= crate::sipmsg::wire_fields(
            fs.drop_first(),
        ));
        lemma_parse_fields_round(fs.drop_first());
        assert(seq![(f0.code@, f0.value@)] + fields_view(fs.drop_first()) =~= fields_view(fs));
    }
}

/// A message the wire format can carry faithfully: its code is one the
/// gateway exchanges, each fixed field value has exactly the width the code
/// assigns it, and each variable field has a two-character tag and no field
/// terminator inside its tag or value.
pub open spec fn wire_wf(m: Message) -> bool {
    &&& spec_fixed_widths(m.code@) matches Some(ws) && ws.len() == m.fixed_fields@.len() && (
    forall|i: int| 0 <= i < ws.len() ==> ws[i] == (#[trigger] m.fixed_fields@[i])@.len())
    &&& forall|i: int|
        0 <= i < m.fields@.len() ==> (#[trigger] m.fields@[i]).code@.len() == 2 && no_bar(
            m.fields@[i].code@,
        ) && no_bar(m.fields@[i].value@)
}

/// Law: the wire encoding round-trips.  For any message the wire format
/// can carry, decoding the encoded wire text recovers exactly the original
/// code, fixed field values, and variable fields.
pub proof fn lemma_wire_round_trip(m: Message)
    requires
        wire_wf(m),
    ensures
        spec_from_sip(m.wire()) == Some(
            (m.code@, fixed_views(m.fixed_fields@), fields_view(m.fields@)),
        ),
{
    reveal_strlit("99");
    reveal_strlit("98");
    reveal_strlit("93");
    reveal_strlit("94");
    reveal_strlit("17");
    reveal_strlit("23");
    reveal_strlit("63");
    reveal_strlit("37");
    reveal_strlit("38");
    assert(m.code@.len() == 2);
    let t = m.wire();
    assert(t.len() >= 2);
    assert(t.subrange(0, 2) =~= m.code@);
    match spec_fixed_widths(m.code@) {
        Some(ws) => {
            assert(t.subrange(2, t.len() as int) =~= crate::sipmsg::wire_fixed(m.fixed_fields@)
                + crate::sipmsg::wire_fields(m.fields@));
            lemma_take_fixed_round(m.fixed_fields@, ws, crate::sipmsg::wire_fields(m.fields@));
            lemma_parse_fields_round(m.fields@);
        },
        None => {
            assert(false);
        },
    }
}

} // verus!
