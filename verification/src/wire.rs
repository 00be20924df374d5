//! Text of the wire protocol: decimal rendering, JSON string escaping, and
//! the exact JSON documents and scripts the native side hands to the page.

use vstd::prelude::*;
use vstd::string::*;

use crate::msg::Outbound;

verus! {

/// The decimal digit character for `d` in `0..10`.
pub open spec fn digit_char(d: int) -> char {
    if d == 0 { '0' }
    else if d == 1 { '1' }
    else if d == 2 { '2' }
    else if d == 3 { '3' }
    else if d == 4 { '4' }
    else if d == 5 { '5' }
    else if d == 6 { '6' }
    else if d == 7 { '7' }
    else if d == 8 { '8' }
    else { '9' }
}

/// The shortest decimal rendering of `n`, most significant digit first.
pub open spec fn dec_digits(n: nat) -> Seq<char>
    decreases n,
{
    if n < 10 {
        seq![digit_char(n as int)]
    } else {
        dec_digits(n / 10).push(digit_char((n % 10) as int))
    }
}

fn digit_str(d: u32) -> (s: &'static str)
    requires
        d < 10,
    ensures
        s@ == seq![digit_char(d as int)],
{
    proof {
        reveal_strlit("0");
        reveal_strlit("1");
        reveal_strlit("2");
        reveal_strlit("3");
        reveal_strlit("4");
        reveal_strlit("5");
        reveal_strlit("6");
        reveal_strlit("7");
        reveal_strlit("8");
        reveal_strlit("9");
    }
    let s = match d {
        0 => "0",
        1 => "1",
        2 => "2",
        3 => "3",
        4 => "4",
        5 => "5",
        6 => "6",
        7 => "7",
        8 => "8",
        _ => "9",
    };
    proof {
        assert(s@ =~= seq![digit_char(d as int)]);
    }
    s
}

/// Renders `n` in decimal, without sign or padding.
pub fn u32_to_dec(n: u32) -> (s: String)
    ensures
        s@ == dec_digits(n as nat),
    decreases n,
{
    if n < 10 {
        String::from_str(digit_str(n))
    } else {
        let mut s = u32_to_dec(n / 10);
        s.append(digit_str(n % 10));
        proof {
            assert(s@ =~= dec_digits(n as nat));
        }
        s
    }
}

/// The lower-case hexadecimal digit character for `d` in `0..16`.
pub open spec fn hex_digit(d: int) -> char {
    if d == 0 { '0' }
    else if d == 1 { '1' }
    else if d == 2 { '2' }
    else if d == 3 { '3' }
    else if d == 4 { '4' }
    else if d == 5 { '5' }
    else if d == 6 { '6' }
    else if d == 7 { '7' }
    else if d == 8 { '8' }
    else if d == 9 { '9' }
    else if d == 10 { 'a' }
    else if d == 11 { 'b' }
    else if d == 12 { 'c' }
    else if d == 13 { 'd' }
    else if d == 14 { 'e' }
    else { 'f' }
}

fn hex_str(d: u32) -> (s: &'static str)
    requires
        d < 16,
    ensures
        s@ == seq![hex_digit(d as int)],
{
    proof {
        reveal_strlit("a");
        reveal_strlit("b");
        reveal_strlit("c");
        reveal_strlit("d");
        reveal_strlit("e");
        reveal_strlit("f");
    }
    if d < 10 {
        digit_str(d)
    } else {
        let s = match d {
            10 => "a",
            11 => "b",
            12 => "c",
            13 => "d",
            14 => "e",
            _ => "f",
        };
        proof {
            assert(s@ =~= seq![hex_digit(d as int)]);
        }
        s
    }
}

/// How one character is written inside a JSON string literal: quote and
/// backslash get a backslash escape, control characters a `\u00XX` escape,
/// every other character stands as itself.
pub open spec fn esc_char(c: char) -> Seq<char> {
    if c == '"' {
        seq!['\\', '"']
    } else if c == '\\' {
        seq!['\\', '\\']
    } else if (c as u32) < 32 {
        seq!['\\', 'u', '0', '0', hex_digit(c as u32 as int / 16), hex_digit(c as u32 as int % 16)]
    } else {
        seq![c]
    }
}

/// The body of the JSON string literal that denotes `t`.
pub open spec fn json_escape(t: Seq<char>) -> Seq<char>
    decreases t.len(),
{
    if t.len() == 0 {
        Seq::empty()
    } else {
        esc_char(t[0]) + json_escape(t.drop_first())
    }
}

proof fn lemma_json_escape_push(t: Seq<char>, c: char)
    ensures
        json_escape(t.push(c)) == json_escape(t) + esc_char(c),
    decreases t.len(),
{
    if t.len() == 0 {
        assert(t.push(c).drop_first() =~= t);
        assert(json_escape(t.push(c)) =~= json_escape(t) + esc_char(c));
    } else {
        assert(t.push(c).drop_first() =~= t.drop_first().push(c));
        lemma_json_escape_push(t.drop_first(), c);
        assert(json_escape(t.push(c)) =~= json_escape(t) + esc_char(c));
    }
}

/// Escapes `t` so that it can stand between quotes in a JSON document or in
/// a script literal handed to the page.
pub fn escape_json(t: &str) -> (out: String)
    ensures
        out@ == json_escape(t@),
{
    let n = t.unicode_len();
    let mut out = String::new();
    let mut i: usize = 0;
    while i < n
        invariant
            i <= n,
            n == t@.len(),
            out@ == json_escape(t@.subrange(0, i as int)),
        decreases n - i,
    {
        let c = t.get_char(i);
        if c == '"' {
            out.append("\\\"");
            proof {
                reveal_strlit("\\\"");
                assert("\\\""@ =~= esc_char(c));
            }
        } else if c == '\\' {
            out.append("\\\\");
            proof {
                reveal_strlit("\\\\");
                assert("\\\\"@ =~= esc_char(c));
            }
        } else if (c as u32) < 32 {
            let code = c as u32;
            out.append("\\u00");
            out.append(hex_str(code / 16));
            out.append(hex_str(code % 16));
            proof {
                reveal_strlit("\\u00");
                assert("\\u00"@ + seq![hex_digit(code as int / 16)] + seq![
                    hex_digit(code as int % 16),
                ] =~= esc_char(c));
            }
        } else {
            let piece = t.substring_char(i, i + 1);
            out.append(piece);
            proof {
                assert(t@.subrange(i as int, i as int + 1) =~= seq![t@[i as int]]);
            }
        }
        proof {
            lemma_json_escape_push(t@.subrange(0, i as int), t@[i as int]);
            assert(t@.subrange(0, i as int + 1) =~= t@.subrange(0, i as int).push(t@[i as int]));
        }
        i = i + 1;
    }
    proof {
        assert(t@.subrange(0, n as int) =~= t@);
    }
    out
}

/// The JSON string literal that denotes `t`, quotes included.
pub open spec fn quoted(t: Seq<char>) -> Seq<char> {
    seq!['"'] + json_escape(t) + seq!['"']
}

/// The script evaluated in the page to deliver one payload: a call of the
/// page-global intake function with the payload as a string literal.
pub open spec fn intake_script(payload: Seq<char>) -> Seq<char> {
    "onPluginMessageInternal("@ + quoted(payload) + ");"@
}

/// Builds the intake-function call for one serialized payload.
pub fn build_intake_script(payload: &str) -> (s: String)
    ensures
        s@ == intake_script(payload@),
{
    proof {
        reveal_strlit("\"");
    }
    let mut s = String::from_str("onPluginMessageInternal(");
    s.append("\"");
    let escaped = escape_json(payload);
    s.append(escaped.as_str());
    s.append("\"");
    s.append(");");
    proof {
        assert("\""@ =~= seq!['"']);
        assert(s@ =~= intake_script(payload@));
    }
    s
}

/// The `set_size` document: the native side's reply to `init`.
pub open spec fn set_size_json(width: u32, height: u32) -> Seq<char> {
    "{\"type\":\"set_size\",\"width\":"@ + dec_digits(width as nat) + ",\"height\":"@ + dec_digits(
        height as nat,
    ) + "}"@
}

/// Builds the `set_size` document for the given size.
pub fn build_set_size_json(width: u32, height: u32) -> (s: String)
    ensures
        s@ == set_size_json(width, height),
{
    let mut s = String::from_str("{\"type\":\"set_size\",\"width\":");
    let w = u32_to_dec(width);
    s.append(w.as_str());
    s.append(",\"height\":");
    let h = u32_to_dec(height);
    s.append(h.as_str());
    s.append("}");
    proof {
        assert(s@ =~= set_size_json(width, height));
    }
    s
}

/// `c` is a decimal digit.
pub open spec fn dec_digit_char(c: char) -> bool {
    48 <= c as u32 && c as u32 <= 57
}

/// The number of consecutive decimal digits in `s` from position `i` on.
pub open spec fn digit_run_len(s: Seq<char>, i: int) -> int
    decreases s.len() - i,
{
    if 0 <= i < s.len() && dec_digit_char(s[i]) {
        1 + digit_run_len(s, i + 1)
    } else {
        0
    }
}

/// Position right after the optional fraction that starts at `i`, or
/// nothing where a point is not followed by a digit.
pub open spec fn frac_end(s: Seq<char>, i: int) -> Option<int> {
    if 0 <= i < s.len() && s[i] == '.' {
        let df = digit_run_len(s, i + 1);
        if df > 0 {
            Some(i + 1 + df)
        } else {
            None
        }
    } else {
        Some(i)
    }
}

/// From `i` to the end of `s` stands an optional exponent: nothing at
/// all, or `e`/`E`, an optional sign, and one or more digits.
pub open spec fn exp_ok(s: Seq<char>, i: int) -> bool {
    if i == s.len() {
        true
    } else if 0 <= i < s.len() && (s[i] == 'e' || s[i] == 'E') {
        let j = if i + 1 < s.len() && (s[i + 1] == '+' || s[i + 1] == '-') {
            i + 2
        } else {
            i + 1
        };
        let de = digit_run_len(s, j);
        de > 0 && j + de == s.len()
    } else {
        false
    }
}

/// `s` is the text of one JSON number: an optional minus, an integer part
/// with no superfluous leading zero, an optional fraction, an optional
/// exponent, and nothing else.
pub open spec fn is_json_number(s: Seq<char>) -> bool {
    let start: int = if s.len() > 0 && s[0] == '-' {
        1int
    } else {
        0int
    };
    let di = digit_run_len(s, start);
    &&& di > 0
    &&& (di == 1 || s[start] != '0')
    &&& (match frac_end(s, start + di) {
        Some(k) => exp_ok(s, k),
        None => false,
    })
}

fn digit_run(s: &str, from: usize) -> (n: usize)
    requires
        from <= s@.len(),
    ensures
        n == digit_run_len(s@, from as int),
        from + n <= s@.len(),
{
    let len = s.unicode_len();
    let mut i = from;
    loop
        invariant
            from <= i <= len,
            len == s@.len(),
            digit_run_len(s@, from as int) == i - from + digit_run_len(s@, i as int),
        ensures
            from <= i <= len,
            digit_run_len(s@, from as int) == i - from,
        decreases len - i,
    {
        if i == len {
            break;
        }
        let c = s.get_char(i);
        let code = c as u32;
        if !(48 <= code && code <= 57) {
            break;
        }
        i = i + 1;
    }
    i - from
}

/// Decides whether `s` is the text of one JSON number, exactly as
/// `is_json_number` says.
pub fn check_json_number(s: &str) -> (r: bool)
    ensures
        r == is_json_number(s@),
{
    let len = s.unicode_len();
    let start: usize = if len > 0 && s.get_char(0) == '-' {
        1
    } else {
        0
    };
    let di = digit_run(s, start);
    if di == 0 {
        return false;
    }
    if di > 1 && s.get_char(start) == '0' {
        return false;
    }
    let mut i: usize = start + di;
    if i < len && s.get_char(i) == '.' {
        let df = digit_run(s, i + 1);
        if df == 0 {
            return false;
        }
        i = i + 1 + df;
    }
    if i == len {
        return true;
    }
    let c = s.get_char(i);
    if c != 'e' && c != 'E' {
        return false;
    }
    let j: usize = if i + 1 < len {
        let c1 = s.get_char(i + 1);
        if c1 == '+' || c1 == '-' {
            i + 2
        } else {
            i + 1
        }
    } else {
        i + 1
    };
    let de = digit_run(s, j);
    de > 0 && j + de == len
}

/// The `param_change` document: the native side reports an out-of-band
/// parameter change to the page. `value_text` must already be the text of a
/// JSON number; it stands in the document unquoted.
pub open spec fn param_change_json(param: Seq<char>, value_text: Seq<char>, text: Seq<char>) -> Seq<
    char,
> {
    "{\"type\":\"param_change\",\"param\":"@ + quoted(param) + ",\"value\":"@ + value_text
        + ",\"text\":"@ + quoted(text) + "}"@
}

/// Builds the `param_change` document. `value_text` must be JSON-number
/// text, so that the document is well-formed JSON.
pub fn build_param_change_json(param: &str, value_text: &str, text: &str) -> (s: String)
    requires
        is_json_number(value_text@),
    ensures
        s@ == param_change_json(param@, value_text@, text@),
{
    proof {
        reveal_strlit("\"");
    }
    let mut s = String::from_str("{\"type\":\"param_change\",\"param\":");
    s.append("\"");
    let p = escape_json(param);
    s.append(p.as_str());
    s.append("\"");
    s.append(",\"value\":");
    s.append(value_text);
    s.append(",\"text\":");
    s.append("\"");
    let t = escape_json(text);
    s.append(t.as_str());
    s.append("\"");
    s.append("}");
    proof {
        assert("\""@ =~= seq!['"']);
        assert(s@ =~= param_change_json(param@, value_text@, text@));
    }
    s
}

/// An outbound message whose document will be well-formed JSON: a
/// `param_change` must carry JSON-number text as its value.
pub open spec fn outbound_wf(m: Outbound) -> bool {
    match m {
        Outbound::SetSize { .. } => true,
        Outbound::ParamChange { value_text, .. } => is_json_number(value_text@),
    }
}

/// The JSON document that carries an outbound message.
pub open spec fn outbound_json(m: Outbound) -> Seq<char> {
    match m {
        Outbound::SetSize { width, height } => set_size_json(width, height),
        Outbound::ParamChange { param, value_text, text } => param_change_json(
            param@,
            value_text@,
            text@,
        ),
    }
}

/// Serializes an outbound message as the document the page expects.
pub fn build_outbound_json(m: &Outbound) -> (s: String)
    requires
        outbound_wf(*m),
    ensures
        s@ == outbound_json(*m),
{
    match m {
        Outbound::SetSize { width, height } => build_set_size_json(*width, *height),
        Outbound::ParamChange { param, value_text, text } => build_param_change_json(
            param.as_str(),
            value_text.as_str(),
            text.as_str(),
        ),
    }
}

} // verus!
