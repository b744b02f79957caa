//! The QMP wire format: one JSON document per line.
//!
//! Requests are JSON objects whose keys appear in sorted order
//! (`arguments`, `execute`, `id`), as the JSON library's default map renders
//! them; lines end with CR LF on the way out, and any trailing CR / LF
//! characters are removed on the way in.

use vstd::prelude::*;

use crate::error::Error;

verus! {

/// The lowercase hexadecimal digit of a value below 16.
pub open spec fn hex_digit(n: nat) -> char {
    if n < 10 {
        (48 + n) as char
    } else {
        (87 + n) as char
    }
}

/// The decimal digit of a value below 10.
pub open spec fn digit_char(n: nat) -> char {
    (48 + n) as char
}

/// How the JSON library writes one character inside a string literal:
/// quote and backslash are escaped, the control characters with a short
/// form use it, the other control characters use `\u00XX`, and every other
/// character is written as is.
pub open spec fn json_escape_char(c: char) -> Seq<char> {
    if c == '"' {
        seq!['\\', '"']
    } else if c == '\\' {
        seq!['\\', '\\']
    } else if c == '\u{8}' {
        seq!['\\', 'b']
    } else if c == '\t' {
        seq!['\\', 't']
    } else if c == '\n' {
        seq!['\\', 'n']
    } else if c == '\u{c}' {
        seq!['\\', 'f']
    } else if c == '\r' {
        seq!['\\', 'r']
    } else if (c as nat) < 32 {
        seq!['\\', 'u', '0', '0', hex_digit((c as nat) / 16), hex_digit((c as nat) % 16)]
    } else {
        seq![c]
    }
}

/// The escaped body of a JSON string literal.
pub open spec fn json_escape(s: Seq<char>) -> Seq<char>
    decreases s.len(),
{
    if s.len() == 0 {
        Seq::empty()
    } else {
        json_escape(s.drop_last()) + json_escape_char(s.last())
    }
}

/// The JSON string literal for `s`.
pub open spec fn json_string_literal(s: Seq<char>) -> Seq<char> {
    seq!['"'] + json_escape(s) + seq!['"']
}

/// The decimal digits of a number, most significant first.
pub open spec fn decimal(n: nat) -> Seq<char>
    decreases n,
{
    if n < 10 {
        seq![digit_char(n)]
    } else {
        decimal(n / 10).push(digit_char(n % 10))
    }
}

/// The string literals of `items`, separated by commas.
pub open spec fn joined_literals(items: Seq<Seq<char>>) -> Seq<char>
    decreases items.len(),
{
    if items.len() == 0 {
        Seq::empty()
    } else if items.len() == 1 {
        json_string_literal(items[0])
    } else {
        joined_literals(items.drop_last()) + ","@ + json_string_literal(items.last())
    }
}

/// The JSON array of the string literals of `items`.
pub open spec fn json_string_array(items: Seq<Seq<char>>) -> Seq<char> {
    "["@ + joined_literals(items) + "]"@
}

/// The text of an `execute` request: `args` is the JSON text of the
/// arguments, if there are any.
pub open spec fn execute_request_text(id: nat, command: Seq<char>, args: Option<Seq<char>>) -> Seq<
    char,
> {
    let tail = "\"execute\":"@ + json_string_literal(command) + ",\"id\":"@ + decimal(id) + "}"@;
    match args {
        Some(a) => "{\"arguments\":"@ + a + ","@ + tail,
        None => "{"@ + tail,
    }
}

/// The text of the `qmp_capabilities` request that enables `enable`.
pub open spec fn capabilities_request_text(id: nat, enable: Seq<Seq<char>>) -> Seq<char> {
    if enable.len() == 0 {
        execute_request_text(id, "qmp_capabilities"@, None)
    } else {
        execute_request_text(
            id,
            "qmp_capabilities"@,
            Some("{\"enable\":"@ + json_string_array(enable) + "}"@),
        )
    }
}

/// Whether a character ends a line on the wire.
pub open spec fn is_line_end(c: char) -> bool {
    c == '\r' || c == '\n'
}

/// A received line without its trailing CR / LF characters.
pub open spec fn trim_line_end(s: Seq<char>) -> Seq<char>
    decreases s.len(),
{
    if s.len() > 0 && is_line_end(s.last()) {
        trim_line_end(s.drop_last())
    } else {
        s
    }
}

/// A line as it is sent: the text followed by CR LF.
pub open spec fn framed(s: Seq<char>) -> Seq<char> {
    s + "\r\n"@
}

/// The JSON string literal of `s`, from `serde_json::to_string`.
///
/// Claims that serialising a `str` yields the literal that
/// [`json_string_literal`] describes (serde_json's `format_escaped_str`),
/// and that it never fails: the writer is an in-memory buffer.
#[verifier::external_body]
pub fn json_quote(s: &str) -> (r: String)
    ensures
        r@ == json_string_literal(s@),
{
    match serde_json::to_string(s) {
        Ok(text) => text,
        Err(_) => String::new(),
    }
}

/// The decimal digit `d`.
fn digit_text(d: u64) -> (s: &'static str)
    requires
        d < 10,
    ensures
        s@ == seq![digit_char(d as nat)],
{
    proof {
        reveal_strlit("0");
        reveal_strlit("1");
        reveal_strlit("2");
        reveal_strlit("3");
        reveal_strlit("4");
        reveal_strlit("5");
        reveal_strlit("6");
        reveal_strlit("7");
        reveal_strlit("8");
        reveal_strlit("9");
    }
    match d {
        0 => "0",
        1 => "1",
        2 => "2",
        3 => "3",
        4 => "4",
        5 => "5",
        6 => "6",
        7 => "7",
        8 => "8",
        _ => "9",
    }
}

/// The decimal representation of `n`.
pub fn decimal_text(n: u64) -> (s: String)
    ensures
        s@ == decimal(n as nat),
    decreases n,
{
    if n < 10 {
        String::from_str(digit_text(n))
    } else {
        let mut s = decimal_text(n / 10);
        let d = digit_text(n % 10);
        s.append(d);
        proof {
            assert(s@ =~= decimal((n / 10) as nat).push(digit_char((n % 10) as nat)));
        }
        s
    }
}

/// Build the text of an `execute` request with the given id; `args` is the
/// JSON text of the arguments.
pub fn build_execute_request(id: u64, command: &str, args: Option<&str>) -> (s: String)
    ensures
        s@ == execute_request_text(
            id as nat,
            command@,
            match args {
                Some(a) => Some(a@),
                None => None,
            },
        ),
{
    let mut s = match args {
        Some(a) => {
            let mut head = String::from_str("{\"arguments\":");
            head.append(a);
            head.append(",");
            head
        },
        None => String::from_str("{"),
    };
    let quoted = json_quote(command);
    let digits = decimal_text(id);
    s.append("\"execute\":");
    s.append(quoted.as_str());
    s.append(",\"id\":");
    s.append(digits.as_str());
    s.append("}");
    proof {
        let tail = "\"execute\":"@ + json_string_literal(command@) + ",\"id\":"@ + decimal(
            id as nat,
        ) + "}"@;
        match args {
            Some(a) => {
                assert(s@ =~= "{\"arguments\":"@ + a@ + ","@ + tail);
            },
            None => {
                assert(s@ =~= "{"@ + tail);
            },
        }
    }
    s
}

/// The JSON array of the string literals of `items`.
pub fn string_array_text(items: &[String]) -> (s: String)
    ensures
        s@ == json_string_array(items@.map_values(|x: String| x@)),
{
    let ghost views = items@.map_values(|x: String| x@);
    let mut s = String::from_str("[");
    let mut i: usize = 0;
    while i < items.len()
        invariant
            i <= items@.len(),
            views == items@.map_values(|x: String| x@),
            s@ == "["@ + joined_literals(views.take(i as int)),
        decreases items@.len() - i,
    {
        let ghost before = s@;
        if i > 0 {
            s.append(",");
        }
        let q = json_quote(items[i].as_str());
        s.append(q.as_str());
        proof {
            let t = views.take(i + 1);
            assert(t.drop_last() =~= views.take(i as int));
            assert(t.last() == items@[i as int]@);
            if i == 0 {
                assert(joined_literals(views.take(0)) =~= Seq::<char>::empty());
                assert(s@ =~= "["@ + joined_literals(t));
            } else {
                assert(s@ =~= "["@ + joined_literals(t));
            }
        }
        i = i + 1;
    }
    s.append("]");
    proof {
        assert(views.take(items@.len() as int) =~= views);
    }
    s
}

/// Build the text of the `qmp_capabilities` request that enables `enable`.
pub fn build_capabilities_request(id: u64, enable: &[String]) -> (s: String)
    ensures
        s@ == capabilities_request_text(id as nat, enable@.map_values(|x: String| x@)),
{
    if enable.len() == 0 {
        build_execute_request(id, "qmp_capabilities", None)
    } else {
        let mut args = String::from_str("{\"enable\":");
        let arr = string_array_text(enable);
        args.append(arr.as_str());
        args.append("}");
        build_execute_request(id, "qmp_capabilities", Some(args.as_str()))
    }
}

/// The line that carries `text` on the wire.
pub fn frame_line(text: &str) -> (s: String)
    ensures
        s@ == framed(text@),
{
    let mut s = String::from_str(text);
    s.append("\r\n");
    s
}

/// A received line without its trailing CR / LF characters.
pub fn trim_line(line: &str) -> (s: &str)
    ensures
        s@ == trim_line_end(line@),
{
    let n = line.unicode_len();
    let mut end = n;
    assert(line@.subrange(0, n as int) =~= line@);
    loop
        invariant
            end <= n,
            n == line@.len(),
            trim_line_end(line@) == trim_line_end(line@.subrange(0, end as int)),
        ensures
            end <= n,
            trim_line_end(line@) == line@.subrange(0, end as int),
        decreases end,
    {
        if end == 0 {
            assert(line@.subrange(0, 0) =~= Seq::<char>::empty());
            break;
        }
        let c = line.get_char(end - 1);
        if c != '\r' && c != '\n' {
            break;
        }
        assert(line@.subrange(0, end as int).drop_last() =~= line@.subrange(0, end - 1));
        end = end - 1;
    }
    line.substring_char(0, end)
}

/// The text of a line read from the peer: a read of zero bytes means the
/// peer closed the connection; otherwise the line without its trailing
/// CR / LF characters.
pub fn received_line(bytes_read: usize, line: &str) -> (r: Result<&str, Error>)
    ensures
        bytes_read == 0 ==> r matches Err(Error::Disconnected),
        bytes_read != 0 ==> (r matches Ok(text) && text@ == trim_line_end(line@)),
{
    if bytes_read == 0 {
        return Err(Error::Disconnected);
    }
    Ok(trim_line(line))
}

/// A line sent without trailing CR / LF characters of its own is received as
/// the same text.
pub proof fn law_frame_then_trim(text: Seq<char>)
    requires
        text.len() == 0 || !is_line_end(text.last()),
    ensures
        trim_line_end(framed(text)) == text,
{
    reveal_strlit("\r\n");
    assert("\r\n"@ =~= seq!['\r', '\n']);
    let f = framed(text);
    assert(f.last() == '\n');
    assert(f.drop_last() =~= text.push('\r'));
    assert(f.drop_last().last() == '\r');
    assert(f.drop_last().drop_last() =~= text);
    assert(trim_line_end(f) == trim_line_end(f.drop_last()));
    assert(trim_line_end(f.drop_last()) == trim_line_end(text));
}

/// A request is read back by the peer as the very text that was built: the
/// text ends with `}`, so framing and trimming give it back unchanged.
pub proof fn law_request_survives_framing(id: nat, command: Seq<char>, args: Option<Seq<char>>)
    ensures
        trim_line_end(framed(execute_request_text(id, command, args))) == execute_request_text(
            id,
            command,
            args,
        ),
{
    reveal_strlit("}");
    let t = execute_request_text(id, command, args);
    let tail = "\"execute\":"@ + json_string_literal(command) + ",\"id\":"@ + decimal(id) + "}"@;
    assert(tail.last() == '}');
    match args {
        Some(a) => assert(t == ("{\"arguments\":"@ + a + ","@) + tail),
        None => assert(t == "{"@ + tail),
    }
    assert(t.last() == '}');
    law_frame_then_trim(t);
}

/// JSON string literals never hold a raw line break, so no request text
/// ends with one.
pub proof fn law_escaped_text_has_no_line_end(s: Seq<char>)
    ensures
        forall|i: int| 0 <= i < json_escape(s).len() ==> !is_line_end(#[trigger] json_escape(s)[i]),
    decreases s.len(),
{
    if s.len() > 0 {
        law_escaped_text_has_no_line_end(s.drop_last());
        let a = json_escape(s.drop_last());
        let b = json_escape_char(s.last());
        assert forall|i: int| 0 <= i < b.len() implies !is_line_end(#[trigger] b[i]) by {
            let c = s.last();
            if (c as nat) < 32 && c != '\u{8}' && c != '\t' && c != '\n' && c != '\u{c}' && c
                != '\r' {
                let h1 = hex_digit((c as nat) / 16);
                let h2 = hex_digit((c as nat) % 16);
                assert((c as nat) / 16 < 16);
            }
        }
        assert forall|i: int| 0 <= i < json_escape(s).len() implies !is_line_end(
            #[trigger] json_escape(s)[i],
        ) by {
            if i < a.len() {
                assert(json_escape(s)[i] == a[i]);
            } else {
                assert(json_escape(s)[i] == b[i - a.len()]);
            }
        }
    }
}

} // verus!
