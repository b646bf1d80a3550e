//! The wire format of a log record: a JSON object with exactly the keys
//! `error_level`, `message` and `stack_trace`, each holding a string.
use vstd::prelude::*;
use vstd::string::*;


verus! {

/// The character for one hexadecimal digit, lower case.
pub open spec fn hex_digit_char(d: int) -> char {
    if d == 0 {
        '0'
    } else if d == 1 {
        '1'
    } else if d == 2 {
        '2'
    } else if d == 3 {
        '3'
    } else if d == 4 {
        '4'
    } else if d == 5 {
        '5'
    } else if d == 6 {
        '6'
    } else if d == 7 {
        '7'
    } else if d == 8 {
        '8'
    } else if d == 9 {
        '9'
    } else if d == 10 {
        'a'
    } else if d == 11 {
        'b'
    } else if d == 12 {
        'c'
    } else if d == 13 {
        'd'
    } else if d == 14 {
        'e'
    } else {
        'f'
    }
}

/// The value of one hexadecimal digit character; 16 for any other character.
pub open spec fn hex_digit_val(c: char) -> int {
    if c == '0' {
        0
    } else if c == '1' {
        1
    } else if c == '2' {
        2
    } else if c == '3' {
        3
    } else if c == '4' {
        4
    } else if c == '5' {
        5
    } else if c == '6' {
        6
    } else if c == '7' {
        7
    } else if c == '8' {
        8
    } else if c == '9' {
        9
    } else if c == 'a' {
        10
    } else if c == 'b' {
        11
    } else if c == 'c' {
        12
    } else if c == 'd' {
        13
    } else if c == 'e' {
        14
    } else if c == 'f' {
        15
    } else {
        16
    }
}

/// How one character appears inside a JSON string: quote and backslash get a
/// backslash escape, control characters a `\u00XX` escape, and every other
/// character stands for itself.
pub open spec fn escaped_char(c: char) -> Seq<char> {
    if c == '"' {
        seq!['\\', '"']
    } else if c == '\\' {
        seq!['\\', '\\']
    } else if (c as u32) < 32 {
        seq!['\\', 'u', '0', '0', hex_digit_char(c as u32 as int / 16), hex_digit_char(
            c as u32 as int % 16,
        )]
    } else {
        seq![c]
    }
}

/// The body of a JSON string holding the text `s`.
pub open spec fn escape(s: Seq<char>) -> Seq<char>
    decreases s.len(),
{
    if s.len() == 0 {
        Seq::empty()
    } else {
        escaped_char(s[0]) + escape(s.skip(1))
    }
}

/// Puts the text `p` in front of the decoded part of an intermediate
/// decoding result.
pub open spec fn prepend_decoded(p: Seq<char>, r: Option<(Seq<char>, Seq<char>)>) -> Option<
    (Seq<char>, Seq<char>),
> {
    match r {
        Some(q) => Some((p + q.0, q.1)),
        None => None,
    }
}

/// Decodes a JSON string body from the front of `s`, up to and including the
/// closing quote. Returns the decoded text and what follows the quote, or
/// nothing if `s` does not begin with a well-formed string body. Only the
/// escapes that `escaped_char` produces are accepted.
pub open spec fn unescape_prefix(s: Seq<char>) -> Option<(Seq<char>, Seq<char>)>
    decreases s.len(),
{
    if s.len() == 0 {
        None
    } else if s[0] == '"' {
        Some((Seq::empty(), s.skip(1)))
    } else if s[0] == '\\' {
        if s.len() < 2 {
            None
        } else if s[1] == '"' {
            prepend_decoded(seq!['"'], unescape_prefix(s.skip(2)))
        } else if s[1] == '\\' {
            prepend_decoded(seq!['\\'], unescape_prefix(s.skip(2)))
        } else if s[1] == 'u' {
            if s.len() >= 6 && s[2] == '0' && s[3] == '0' && hex_digit_val(s[4]) < 16
                && hex_digit_val(s[5]) < 16 && hex_digit_val(s[4]) * 16 + hex_digit_val(s[5])
                < 32 {
                prepend_decoded(
                    seq![((hex_digit_val(s[4]) * 16 + hex_digit_val(s[5])) as u32) as char],
                    unescape_prefix(s.skip(6)),
                )
            } else {
                None
            }
        } else {
            None
        }
    } else {
        prepend_decoded(seq![s[0]], unescape_prefix(s.skip(1)))
    }
}

/// Encoding distributes over concatenation.
pub proof fn lemma_escape_append(a: Seq<char>, b: Seq<char>)
    ensures
        escape(a + b) == escape(a) + escape(b),
    decreases a.len(),
{
    if a.len() == 0 {
        assert(a + b =~= b);
        assert(escape(a) + escape(b) =~= escape(b));
    } else {
        assert((a + b).skip(1) =~= a.skip(1) + b);
        lemma_escape_append(a.skip(1), b);
        assert((a + b)[0] == a[0]);
        assert(escape(a + b) =~= escape(a) + escape(b));
    }
}

/// A hexadecimal digit survives the trip through its character.
proof fn lemma_hex_digit_roundtrip(d: int)
    requires
        0 <= d < 16,
    ensures
        hex_digit_val(hex_digit_char(d)) == d,
{
}

/// Decoding is the inverse of encoding: a string body built by `escape`,
/// closed by a quote and followed by anything, decodes to the original text
/// with that remainder.
pub proof fn lemma_unescape_escape(s: Seq<char>, tail: Seq<char>)
    ensures
        unescape_prefix(escape(s) + seq!['"'] + tail) == Some((s, tail)),
    decreases s.len(),
{
    let t = escape(s) + seq!['"'] + tail;
    if s.len() == 0 {
        assert(escape(s) =~= Seq::<char>::empty());
        assert(t =~= seq!['"'] + tail);
        assert(t[0] == '"');
        assert(t.skip(1) =~= tail);
    } else {
        let c = s[0];
        let rest = escape(s.skip(1)) + seq!['"'] + tail;
        lemma_unescape_escape(s.skip(1), tail);
        assert(escape(s) == escaped_char(c) + escape(s.skip(1)));
        assert(t =~= escaped_char(c) + rest);
        if c == '"' {
            assert(t[0] == '\\' && t[1] == '"');
            assert(t.skip(2) =~= rest);
            assert(seq!['"'] + s.skip(1) =~= s);
        } else if c == '\\' {
            assert(t[0] == '\\' && t[1] == '\\');
            assert(t.skip(2) =~= rest);
            assert(seq!['\\'] + s.skip(1) =~= s);
        } else if (c as u32) < 32 {
            let code = c as u32 as int;
            assert(0 <= code < 32);
            assert(t[0] == '\\' && t[1] == 'u' && t[2] == '0' && t[3] == '0');
            assert(t[4] == hex_digit_char(code / 16) && t[5] == hex_digit_char(code % 16));
            lemma_hex_digit_roundtrip(code / 16);
            lemma_hex_digit_roundtrip(code % 16);
            assert(code / 16 * 16 + code % 16 == code) by {
                vstd::arithmetic::div_mod::lemma_fundamental_div_mod(code, 16);
            }
            assert(hex_digit_val(t[4]) * 16 + hex_digit_val(t[5]) == code);
            assert(((code as u32) as char) == c) by {
                vstd::utf8::char_u32_cast(c, code as u32);
            }
            assert(t.skip(6) =~= rest);
            assert(seq![c] + s.skip(1) =~= s);
        } else {
            assert(t[0] == c);
            assert(c != '"' && c != '\\');
            assert(t.skip(1) =~= rest);
            assert(seq![c] + s.skip(1) =~= s);
        }
    }
}

/// The opening of the record object, up to the start of the severity label.
pub open spec fn json_head() -> Seq<char> {
    "{\"error_level\":\""@
}

/// The text between the severity label's closing quote and the start of the
/// message.
pub open spec fn key_message() -> Seq<char> {
    ",\"message\":\""@
}

/// The text between the message's closing quote and the start of the trace.
pub open spec fn key_stack_trace() -> Seq<char> {
    ",\"stack_trace\":\""@
}

/// The serialized form of a record: a JSON object with exactly the keys
/// `error_level`, `message` and `stack_trace`, in that order.
pub open spec fn record_json(level: Seq<char>, message: Seq<char>, trace: Seq<char>) -> Seq<
    char,
> {
    json_head() + escape(level) + "\""@ + key_message() + escape(message) + "\""@
        + key_stack_trace() + escape(trace) + "\""@ + "}"@
}

/// What remains of `s` after the prefix `p`, or nothing if `s` does not start
/// with `p`.
pub open spec fn strip_prefix(s: Seq<char>, p: Seq<char>) -> Option<Seq<char>> {
    if p.len() <= s.len() && s.take(p.len() as int) == p {
        Some(s.skip(p.len() as int))
    } else {
        None
    }
}

/// Parses the serialized form of a record back into its three fields. Exactly
/// the texts that `record_json` produces are accepted.
pub open spec fn spec_parse_record(s: Seq<char>) -> Option<(Seq<char>, Seq<char>, Seq<char>)> {
    match strip_prefix(s, json_head()) {
        Some(s1) => match unescape_prefix(s1) {
            Some((level, s2)) => match strip_prefix(s2, key_message()) {
                Some(s3) => match unescape_prefix(s3) {
                    Some((message, s4)) => match strip_prefix(s4, key_stack_trace()) {
                        Some(s5) => match unescape_prefix(s5) {
                            Some((trace, s6)) => if s6 == "}"@ {
                                Some((level, message, trace))
                            } else {
                                None
                            },
                            None => None,
                        },
                        None => None,
                    },
                    None => None,
                },
                None => None,
            },
            None => None,
        },
        None => None,
    }
}

/// Stripping a prefix that is there leaves the rest.
proof fn lemma_strip_prefix_concat(p: Seq<char>, r: Seq<char>)
    ensures
        strip_prefix(p + r, p) == Some(r),
{
    assert((p + r).take(p.len() as int) =~= p);
    assert((p + r).skip(p.len() as int) =~= r);
}

/// A record survives the trip through its serialized form: parsing what
/// `record_json` produced yields the three fields unchanged, for every level,
/// message and trace.
pub proof fn lemma_parse_record_json(level: Seq<char>, message: Seq<char>, trace: Seq<char>)
    ensures
        spec_parse_record(record_json(level, message, trace)) == Some((level, message, trace)),
{
    reveal_strlit("\"");
    assert("\""@ =~= seq!['"']);
    let s = record_json(level, message, trace);
    let tail1 = key_message() + escape(message) + seq!['"'] + (key_stack_trace() + escape(trace)
        + seq!['"'] + "}"@);
    let rest1 = escape(level) + seq!['"'] + tail1;
    assert(s =~= json_head() + rest1);
    lemma_strip_prefix_concat(json_head(), rest1);
    assert(strip_prefix(s, json_head()) == Some(rest1));
    lemma_unescape_escape(level, tail1);
    assert(unescape_prefix(rest1) == Some((level, tail1)));

    let tail2 = key_stack_trace() + escape(trace) + seq!['"'] + "}"@;
    let rest2 = escape(message) + seq!['"'] + tail2;
    assert(tail1 =~= key_message() + rest2);
    lemma_strip_prefix_concat(key_message(), rest2);
    assert(strip_prefix(tail1, key_message()) == Some(rest2));
    lemma_unescape_escape(message, tail2);
    assert(unescape_prefix(rest2) == Some((message, tail2)));

    let tail3 = "}"@;
    let rest3 = escape(trace) + seq!['"'] + tail3;
    assert(tail2 =~= key_stack_trace() + rest3);
    lemma_strip_prefix_concat(key_stack_trace(), rest3);
    assert(strip_prefix(tail2, key_stack_trace()) == Some(rest3));
    lemma_unescape_escape(trace, tail3);
    assert(unescape_prefix(rest3) == Some((trace, tail3)));
}

fn hex_digit(d: u32) -> (c: char)
    requires
        d < 16,
    ensures
        c == hex_digit_char(d as int),
{
    if d == 0 {
        '0'
    } else if d == 1 {
        '1'
    } else if d == 2 {
        '2'
    } else if d == 3 {
        '3'
    } else if d == 4 {
        '4'
    } else if d == 5 {
        '5'
    } else if d == 6 {
        '6'
    } else if d == 7 {
        '7'
    } else if d == 8 {
        '8'
    } else if d == 9 {
        '9'
    } else if d == 10 {
        'a'
    } else if d == 11 {
        'b'
    } else if d == 12 {
        'c'
    } else if d == 13 {
        'd'
    } else if d == 14 {
        'e'
    } else {
        'f'
    }
}

/// Appends the JSON string body for `s` to `out`.
fn append_escaped(out: &mut String, s: &str)
    ensures
        final(out)@ == old(out)@ + escape(s@),
{
    let ghost out0: Seq<char> = out@;
    let n = s.unicode_len();
    let mut i: usize = 0;
    while i < n
        invariant
            n == s@.len(),
            i <= n,
            out@ == out0 + escape(s@.take(i as int)),
        decreases n - i,
    {
        let ghost pre = out@;
        let c = s.get_char(i);
        let code = c as u32;
        if c == '"' {
            out.push('\\');
            out.push('"');
        } else if c == '\\' {
            out.push('\\');
            out.push('\\');
        } else if code < 32 {
            out.push('\\');
            out.push('u');
            out.push('0');
            out.push('0');
            out.push(hex_digit(code / 16));
            out.push(hex_digit(code % 16));
        } else {
            out.push(c);
        }
        proof {
            assert(out@ =~= pre + escaped_char(s@[i as int]));
            assert(s@.take(i as int + 1) =~= s@.take(i as int) + seq![s@[i as int]]);
            lemma_escape_append(s@.take(i as int), seq![s@[i as int]]);
            assert(seq![s@[i as int]].skip(1) =~= Seq::<char>::empty());
            assert(escape(Seq::<char>::empty()) == Seq::<char>::empty());
            assert(seq![s@[i as int]][0] == s@[i as int]);
            assert(escape(seq![s@[i as int]]) == escaped_char(s@[i as int]) + escape(
                seq![s@[i as int]].skip(1),
            ));
            assert(escape(seq![s@[i as int]]) =~= escaped_char(s@[i as int]));
            assert(out@ =~= out0 + escape(s@.take(i as int + 1)));
        }
        i += 1;
    }
    proof {
        assert(s@.take(n as int) =~= s@);
    }
}

/// Serializes the three fields of a record into its JSON object.
pub fn encode_record(level: &str, message: &str, trace: &str) -> (r: String)
    ensures
        r@ == record_json(level@, message@, trace@),
{
    let mut out = String::from_str("{\"error_level\":\"");
    append_escaped(&mut out, level);
    out.append("\"");
    out.append(",\"message\":\"");
    append_escaped(&mut out, message);
    out.append("\"");
    out.append(",\"stack_trace\":\"");
    append_escaped(&mut out, trace);
    out.append("\"");
    out.append("}");
    proof {
        assert(out@ =~= record_json(level@, message@, trace@));
    }
    out
}

fn hex_val(c: char) -> (d: u32)
    ensures
        d as int == hex_digit_val(c),
{
    if c == '0' {
        0
    } else if c == '1' {
        1
    } else if c == '2' {
        2
    } else if c == '3' {
        3
    } else if c == '4' {
        4
    } else if c == '5' {
        5
    } else if c == '6' {
        6
    } else if c == '7' {
        7
    } else if c == '8' {
        8
    } else if c == '9' {
        9
    } else if c == 'a' {
        10
    } else if c == 'b' {
        11
    } else if c == 'c' {
        12
    } else if c == 'd' {
        13
    } else if c == 'e' {
        14
    } else if c == 'f' {
        15
    } else {
        16
    }
}

fn control_char(code: u32) -> (c: char)
    requires
        code < 32,
    ensures
        c as u32 == code,
{
    (code as u8) as char
}

/// Composing two prepended texts prepends their concatenation.
proof fn lemma_prepend_compose(p: Seq<char>, c: char, r: Option<(Seq<char>, Seq<char>)>)
    ensures
        prepend_decoded(p, prepend_decoded(seq![c], r)) == prepend_decoded(p + seq![c], r),
{
    match r {
        Some(q) => {
            assert(p + (seq![c] + q.0) =~= (p + seq![c]) + q.0);
        },
        None => {},
    }
}

/// Whether `pat` stands in `s` at position `pos`.
fn match_at(s: &str, pos: usize, pat: &str) -> (b: bool)
    requires
        pos <= s@.len(),
    ensures
        b == (strip_prefix(s@.skip(pos as int), pat@) is Some),
{
    let n = s.unicode_len();
    let m = pat.unicode_len();
    if m > n - pos {
        return false;
    }
    let mut j: usize = 0;
    while j < m
        invariant
            n == s@.len(),
            m == pat@.len(),
            pos + m <= n,
            j <= m,
            forall|k: int| 0 <= k < j ==> s@[pos + k] == pat@[k],
        decreases m - j,
    {
        if s.get_char(pos + j) != pat.get_char(j) {
            proof {
                assert(s@.skip(pos as int).take(m as int)[j as int] == s@[pos + j]);
            }
            return false;
        }
        j += 1;
    }
    proof {
        assert(s@.skip(pos as int).take(m as int) =~= pat@);
    }
    true
}

/// Decodes a JSON string body of `s` beginning at `pos`, up to and including
/// its closing quote; returns the decoded text and the position after the
/// quote.
fn parse_string_at(s: &str, pos: usize) -> (r: Option<(String, usize)>)
    requires
        pos <= s@.len(),
    ensures
        match r {
            Some(v) => v.1 <= s@.len() && unescape_prefix(s@.skip(pos as int)) == Some(
                (v.0@, s@.skip(v.1 as int)),
            ),
            None => unescape_prefix(s@.skip(pos as int)) is None,
        },
{
    let n = s.unicode_len();
    let mut acc = String::new();
    let mut i: usize = pos;
    loop
        invariant
            n == s@.len(),
            pos <= i <= n,
            unescape_prefix(s@.skip(pos as int)) == prepend_decoded(
                acc@,
                unescape_prefix(s@.skip(i as int)),
            ),
        decreases n - i,
    {
        proof {
            assert(s@.skip(i as int).len() == n - i);
        }
        if i >= n {
            return None;
        }
        proof {
            assert(s@.skip(i as int)[0] == s@[i as int]);
        }
        let c = s.get_char(i);
        if c == '"' {
            proof {
                assert(s@.skip(i as int).skip(1) =~= s@.skip(i as int + 1));
                assert(acc@ + Seq::<char>::empty() =~= acc@);
            }
            return Some((acc, i + 1));
        } else if c == '\\' {
            if i + 1 >= n {
                return None;
            }
            proof {
                assert(s@.skip(i as int)[1] == s@[i as int + 1]);
            }
            let c2 = s.get_char(i + 1);
            if c2 == '"' {
                proof {
                    assert(s@.skip(i as int).skip(2) =~= s@.skip(i as int + 2));
                    lemma_prepend_compose(acc@, '"', unescape_prefix(s@.skip(i as int + 2)));
                }
                acc.push('"');
                i += 2;
            } else if c2 == '\\' {
                proof {
                    assert(s@.skip(i as int).skip(2) =~= s@.skip(i as int + 2));
                    lemma_prepend_compose(acc@, '\\', unescape_prefix(s@.skip(i as int + 2)));
                }
                acc.push('\\');
                i += 2;
            } else if c2 == 'u' {
                if n - i < 6 {
                    return None;
                }
                proof {
                    assert(s@.skip(i as int)[2] == s@[i as int + 2]);
                    assert(s@.skip(i as int)[3] == s@[i as int + 3]);
                    assert(s@.skip(i as int)[4] == s@[i as int + 4]);
                    assert(s@.skip(i as int)[5] == s@[i as int + 5]);
                }
                let c3 = s.get_char(i + 2);
                let c4 = s.get_char(i + 3);
                let d1 = hex_val(s.get_char(i + 4));
                let d2 = hex_val(s.get_char(i + 5));
                if !(c3 == '0' && c4 == '0' && d1 < 16 && d2 < 16 && d1 * 16 + d2 < 32) {
                    return None;
                }
                let code = d1 * 16 + d2;
                let ch = control_char(code);
                proof {
                    vstd::utf8::char_u32_cast(ch, code);
                    assert(s@.skip(i as int).skip(6) =~= s@.skip(i as int + 6));
                    lemma_prepend_compose(acc@, ch, unescape_prefix(s@.skip(i as int + 6)));
                }
                acc.push(ch);
                i += 6;
            } else {
                return None;
            }
        } else {
            proof {
                assert(s@.skip(i as int).skip(1) =~= s@.skip(i as int + 1));
                lemma_prepend_compose(acc@, c, unescape_prefix(s@.skip(i as int + 1)));
            }
            acc.push(c);
            i += 1;
        }
    }
}

/// Parses the JSON object of a record back into its three fields. Exactly the
/// texts that `encode_record` produces are accepted.
pub fn decode_record(s: &str) -> (r: Option<(String, String, String)>)
    ensures
        match spec_parse_record(s@) {
            Some(rec) => r matches Some(v) && v.0@ == rec.0 && v.1@ == rec.1 && v.2@ == rec.2,
            None => r is None,
        },
{
    let n = s.unicode_len();
    proof {
        assert(s@.skip(0) =~= s@);
    }
    let head = "{\"error_level\":\"";
    if !match_at(s, 0, head) {
        return None;
    }
    let p1 = head.unicode_len();
    let r1 = parse_string_at(s, p1);
    let (level, p2) = match r1 {
        Some(v) => v,
        None => {
            return None;
        },
    };
    let key_msg = ",\"message\":\"";
    if !match_at(s, p2, key_msg) {
        return None;
    }
    let p3 = p2 + key_msg.unicode_len();
    proof {
        assert(s@.skip(p2 as int).skip(key_message().len() as int) =~= s@.skip(p3 as int));
    }
    let r2 = parse_string_at(s, p3);
    let (message, p4) = match r2 {
        Some(v) => v,
        None => {
            return None;
        },
    };
    let key_trace = ",\"stack_trace\":\"";
    if !match_at(s, p4, key_trace) {
        return None;
    }
    let p5 = p4 + key_trace.unicode_len();
    proof {
        assert(s@.skip(p4 as int).skip(key_stack_trace().len() as int) =~= s@.skip(p5 as int));
    }
    let r3 = parse_string_at(s, p5);
    let (trace, p6) = match r3 {
        Some(v) => v,
        None => {
            return None;
        },
    };
    proof {
        reveal_strlit("}");
    }
    let tail_fits = n - p6 == 1;
    let tail_matches = match_at(s, p6, "}");
    if !tail_fits || !tail_matches {
        proof {
            assert(s@.skip(p6 as int).len() == n - p6);
            if s@.skip(p6 as int) == "}"@ {
                assert(s@.skip(p6 as int).take(1) =~= s@.skip(p6 as int));
                assert(strip_prefix(s@.skip(p6 as int), "}"@) is Some);
            }
            assert(s@.skip(p6 as int) != "}"@);
        }
        return None;
    }
    proof {
        assert(s@.skip(p6 as int) =~= s@.skip(p6 as int).take(1));
    }
    Some((level, message, trace))
}

} // verus!
