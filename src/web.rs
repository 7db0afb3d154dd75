use vstd::prelude::*;
use crate::method::{HttpMethod, method_token};

verus! {

/// The generic result envelope: `code == 0` and an empty message on success.
#[derive(Debug)]
pub struct CommonResult<T> {
    pub code: i32,
    pub msg: String,
    pub data: T,
}

impl<T> CommonResult<T> {
    pub open spec fn is_success(&self) -> bool {
        self.code == 0 && self.msg@.len() == 0
    }

    pub fn success(data: T) -> (r: Self)
        ensures
            r.is_success(),
            r.data == data,
    {
        CommonResult { code: 0, msg: String::new(), data }
    }
}

/// The captcha-style envelope: `rep_code == "0000"` on success.
#[derive(Debug)]
pub struct CaptchaResponse<T> {
    pub rep_code: String,
    pub rep_msg: String,
    pub rep_data: T,
}

impl<T> CaptchaResponse<T> {
    pub open spec fn is_success(&self) -> bool {
        self.rep_code@ == "0000"@
    }

    pub fn success(data: T) -> (r: Self)
        ensures
            r.is_success(),
            r.rep_msg@ == "mock success"@,
            r.rep_data == data,
    {
        CaptchaResponse {
            rep_code: "0000".to_owned(),
            rep_msg: "mock success".to_owned(),
            rep_data: data,
        }
    }
}

/// What the generic mock handler echoes back for a request it answers.
#[derive(Debug)]
pub struct MockEcho {
    pub mock: bool,
    pub path: String,
    pub method: String,
}

/// The answer of every route that has no implementation of its own: a
/// successful envelope that echoes the request's path and method.
pub fn generic_ok(path: &str, method: HttpMethod) -> (r: CommonResult<MockEcho>)
    ensures
        r.is_success(),
        r.data.mock,
        r.data.path@ == path@,
        r.data.method@ == method_token(method),
{
    CommonResult::success(
        MockEcho { mock: true, path: path.to_owned(), method: method.as_str().to_owned() },
    )
}

/// How a reply body is to be sent.
#[derive(Clone, Copy, Debug, PartialEq, Eq, Structural)]
pub enum BodyKind {
    PlainText,
    Json,
}

/// A reply whose body is fixed text.
#[derive(Debug)]
pub struct TextReply {
    pub status: u16,
    pub kind: BodyKind,
    pub body: String,
}

/// The health check: status 200 and the plain text `ok`, whatever the configuration.
pub fn health() -> (r: TextReply)
    ensures
        r.status == 200,
        r.kind == BodyKind::PlainText,
        r.body@ == "ok"@,
{
    TextReply { status: 200, kind: BodyKind::PlainText, body: "ok".to_owned() }
}

/// The lower-case hexadecimal digit of `n`, below 16.
pub open spec fn hex_digit(n: u32) -> char {
    if n == 0 {
        '0'
    } else if n == 1 {
        '1'
    } else if n == 2 {
        '2'
    } else if n == 3 {
        '3'
    } else if n == 4 {
        '4'
    } else if n == 5 {
        '5'
    } else if n == 6 {
        '6'
    } else if n == 7 {
        '7'
    } else if n == 8 {
        '8'
    } else if n == 9 {
        '9'
    } else if n == 10 {
        'a'
    } else if n == 11 {
        'b'
    } else if n == 12 {
        'c'
    } else if n == 13 {
        'd'
    } else if n == 14 {
        'e'
    } else {
        'f'
    }
}

/// `c` as it stands inside a JSON string: quote and backslash are escaped,
/// and a control character becomes `\u00XX`.
pub open spec fn json_escape_char(c: char) -> Seq<char> {
    if c == '"' {
        seq!['\\', '"']
    } else if c == '\\' {
        seq!['\\', '\\']
    } else if (c as u32) < 0x20 {
        seq!['\\', 'u', '0', '0', hex_digit((c as u32) / 16), hex_digit((c as u32) % 16)]
    } else {
        seq![c]
    }
}

pub open spec fn json_escape(s: Seq<char>) -> Seq<char>
    decreases s.len(),
{
    if s.len() == 0 {
        s
    } else {
        json_escape(s.drop_last()) + json_escape_char(s.last())
    }
}

/// The fixed text of the catch-all body that precedes the path.
pub open spec fn not_found_lead() -> Seq<char> {
    "{\"code\":404,\"message\":\"gateway route not found: "@
}

/// The JSON body of the catch-all reply for `path`.
pub open spec fn not_found_body(path: Seq<char>) -> Seq<char> {
    not_found_lead() + json_escape(path) + "\"}"@
}

/// The hexadecimal digit of `n` as text.
fn hex_str(n: u32) -> (r: &'static str)
    requires
        n < 16,
    ensures
        r@ == seq![hex_digit(n)],
{
    if n == 0 {
        proof {
            reveal_strlit("0");
        }
        "0"
    } else if n == 1 {
        proof {
            reveal_strlit("1");
        }
        "1"
    } else if n == 2 {
        proof {
            reveal_strlit("2");
        }
        "2"
    } else if n == 3 {
        proof {
            reveal_strlit("3");
        }
        "3"
    } else if n == 4 {
        proof {
            reveal_strlit("4");
        }
        "4"
    } else if n == 5 {
        proof {
            reveal_strlit("5");
        }
        "5"
    } else if n == 6 {
        proof {
            reveal_strlit("6");
        }
        "6"
    } else if n == 7 {
        proof {
            reveal_strlit("7");
        }
        "7"
    } else if n == 8 {
        proof {
            reveal_strlit("8");
        }
        "8"
    } else if n == 9 {
        proof {
            reveal_strlit("9");
        }
        "9"
    } else if n == 10 {
        proof {
            reveal_strlit("a");
        }
        "a"
    } else if n == 11 {
        proof {
            reveal_strlit("b");
        }
        "b"
    } else if n == 12 {
        proof {
            reveal_strlit("c");
        }
        "c"
    } else if n == 13 {
        proof {
            reveal_strlit("d");
        }
        "d"
    } else if n == 14 {
        proof {
            reveal_strlit("e");
        }
        "e"
    } else {
        proof {
            reveal_strlit("f");
        }
        "f"
    }
}

/// Appends `s`, escaped for a JSON string, to `out`.
fn push_json_escaped(out: &mut String, s: &str)
    ensures
        final(out)@ == old(out)@ + json_escape(s@),
{
    let n = s.unicode_len();
    let mut i: usize = 0;
    let ghost start = out@;
    assert(s@.subrange(0, 0) =~= Seq::<char>::empty());
    while i < n
        invariant
            n == s@.len(),
            i <= n,
            out@ == start + json_escape(s@.subrange(0, i as int)),
        decreases n - i,
    {
        let piece = s.substring_char(i, i + 1);
        let c = s.get_char(i);
        assert(s@.subrange(0, i + 1).drop_last() =~= s@.subrange(0, i as int));
        assert(piece@ =~= seq![c]);
        if c == '"' {
            proof {
                reveal_strlit("\\\"");
            }
            out.append("\\\"");
        } else if c == '\\' {
            proof {
                reveal_strlit("\\\\");
            }
            out.append("\\\\");
        } else if (c as u32) < 0x20 {
            proof {
                reveal_strlit("\\u00");
            }
            out.append("\\u00");
            out.append(hex_str((c as u32) / 16));
            out.append(hex_str((c as u32) % 16));
        } else {
            out.append(piece);
        }
        assert(out@ =~= start + json_escape(s@.subrange(0, i + 1)));
        i = i + 1;
    }
    assert(s@.subrange(0, n as int) =~= s@);
}

/// The catch-all reply: status 404 and a JSON body that names the path.
pub fn fallback_not_found(path: &str) -> (r: TextReply)
    ensures
        r.status == 404,
        r.kind == BodyKind::Json,
        r.body@ == not_found_body(path@),
{
    let mut body = "{\"code\":404,\"message\":\"gateway route not found: ".to_owned();
    push_json_escaped(&mut body, path);
    body.append("\"}");
    TextReply { status: 404, kind: BodyKind::Json, body }
}

/// A path with no quote, backslash or control character appears verbatim in
/// the catch-all body, right after the message's fixed text.
pub proof fn lemma_not_found_names_path(path: Seq<char>)
    requires
        forall|i: int|
            0 <= i < path.len() ==> #[trigger] path[i] != '"' && path[i] != '\\' && (path[i] as u32)
                >= 0x20,
    ensures
        not_found_body(path).subrange(
            not_found_lead().len() as int,
            (not_found_lead().len() + path.len()) as int,
        ) == path,
{
    lemma_escape_plain(path);
    let pre = not_found_lead();
    assert((pre + path + "\"}"@).subrange(pre.len() as int, (pre.len() + path.len()) as int)
        =~= path);
}

proof fn lemma_escape_plain(s: Seq<char>)
    requires
        forall|i: int|
            0 <= i < s.len() ==> #[trigger] s[i] != '"' && s[i] != '\\' && (s[i] as u32) >= 0x20,
    ensures
        json_escape(s) == s,
    decreases s.len(),
{
    if s.len() > 0 {
        let d = s.drop_last();
        assert forall|i: int| 0 <= i < d.len() implies #[trigger] d[i] != '"' && d[i] != '\\' && (
        d[i] as u32) >= 0x20 by {
            assert(d[i] == s[i]);
        }
        lemma_escape_plain(d);
        assert(s[s.len() - 1] != '"' && s[s.len() - 1] != '\\' && (s[s.len() - 1] as u32) >= 0x20);
        assert(d + seq![s.last()] =~= s);
    }
}

} // verus!
