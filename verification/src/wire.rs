//! What travels between the resolver and a backend: one request line per
//! candidate, and a reply that is a line of text (process backend) or a
//! number (plugin backend).
use vstd::prelude::*;
use vstd::utf8::{encode_utf8, encode_utf8_decode_utf8};

verus! {

/// The characters with the Unicode property `White_Space`.
pub open spec fn is_white_space(c: char) -> bool {
    let u = c as u32;
    ||| 0x09 <= u <= 0x0D
    ||| u == 0x20
    ||| u == 0x85
    ||| u == 0xA0
    ||| u == 0x1680
    ||| 0x2000 <= u <= 0x200A
    ||| u == 0x2028
    ||| u == 0x2029
    ||| u == 0x202F
    ||| u == 0x205F
    ||| u == 0x3000
}

/// `s` without the white space it begins with.
pub open spec fn trim_start(s: Seq<char>) -> Seq<char>
    decreases s.len(),
{
    if s.len() > 0 && is_white_space(s.first()) {
        trim_start(s.drop_first())
    } else {
        s
    }
}

/// `s` without the white space it ends with.
pub open spec fn trim_end(s: Seq<char>) -> Seq<char>
    decreases s.len(),
{
    if s.len() > 0 && is_white_space(s.last()) {
        trim_end(s.drop_last())
    } else {
        s
    }
}

/// `s` without the white space around it.
pub open spec fn trimmed(s: Seq<char>) -> Seq<char> {
    trim_end(trim_start(s))
}

/// A text that holds no line feed.
pub open spec fn single_line(s: Seq<char>) -> bool {
    forall|i: int| 0 <= i < s.len() ==> s[i] != '\n'
}

/// The request that carries the candidate whose JSON text is `json`.
pub open spec fn framed(json: Seq<char>) -> Seq<char> {
    json.push('\n')
}

/// The reply that accepts a candidate.
pub open spec fn accept_token() -> Seq<char> {
    seq!['t', 'r', 'u', 'e']
}

/// The reply that rejects a candidate.
pub open spec fn reject_token() -> Seq<char> {
    seq!['f', 'a', 'l', 's', 'e']
}

/// What a reply line of the process backend says: accept, reject, or
/// nothing that the protocol knows.
pub open spec fn line_verdict(line: Seq<char>) -> Option<bool> {
    if trimmed(line) == accept_token() {
        Some(true)
    } else if trimmed(line) == reject_token() {
        Some(false)
    } else {
        None
    }
}

/// What a return code of the plugin backend says: 1 accepts, 0 rejects,
/// every other code is a violation.
pub open spec fn code_verdict(code: u32) -> Option<bool> {
    if code == 1 {
        Some(true)
    } else if code == 0 {
        Some(false)
    } else {
        None
    }
}

/// `str::trim` of the standard library: the slice of `text` that is left
/// when leading and trailing characters with the property `White_Space`
/// are removed.
#[verifier::external_body]
fn trim<'a>(text: &'a str) -> (r: &'a str)
    ensures
        r@ == trimmed(text@),
{
    text.trim()
}

/// Whether two texts hold the same characters.
pub fn same_text(a: &str, b: &str) -> (same: bool)
    ensures
        same == (a@ == b@),
{
    let x = a.as_bytes();
    let y = b.as_bytes();
    if x.len() != y.len() {
        return false;
    }
    let mut i: usize = 0;
    while i < x.len()
        invariant
            i <= x.len(),
            x.len() == y.len(),
            x@ == encode_utf8(a@),
            y@ == encode_utf8(b@),
            forall|k: int| 0 <= k < i ==> x@[k] == y@[k],
        decreases x.len() - i,
    {
        if x[i] != y[i] {
            return false;
        }
        i += 1;
    }
    proof {
        assert(x@ =~= y@);
        encode_utf8_decode_utf8(a@);
        encode_utf8_decode_utf8(b@);
    }
    true
}

/// Whether `text` holds no line feed.
pub fn is_single_line(text: &str) -> (ok: bool)
    ensures
        ok == single_line(text@),
{
    let mut ok = true;
    for c in it: text.chars()
        invariant
            it.seq() == text@,
            ok == single_line(text@.take(it.index())),
    {
        proof {
            let seen = text@.take(it.index());
            assert(text@.take(it.index() + 1) =~= seen.push(c));
            assert(!single_line(seen) ==> !single_line(seen.push(c))) by {
                if !single_line(seen) {
                    let i = choose|i: int| 0 <= i < seen.len() && seen[i] == '\n';
                    assert(seen.push(c)[i] == '\n');
                }
            }
            assert(c == '\n' ==> seen.push(c)[seen.len() as int] == '\n');
        }
        if c == '\n' {
            ok = false;
        }
    }
    proof {
        assert(text@.take(text@.len() as int) =~= text@);
    }
    ok
}

/// Reads a reply line of the process backend.  The line is trimmed of the
/// white space around it; `true` accepts, `false` rejects, and any other
/// text, the empty one too, is handed back as the error.
pub fn parse_reply(line: &str) -> (r: Result<bool, String>)
    ensures
        match line_verdict(line@) {
            Some(verdict) => r == Ok::<bool, String>(verdict),
            None => r matches Err(got) && got@ == trimmed(line@),
        },
{
    let text = trim(line);
    proof {
        reveal_strlit("true");
        reveal_strlit("false");
        assert("true"@ =~= accept_token());
        assert("false"@ =~= reject_token());
    }
    if same_text(text, "true") {
        Ok(true)
    } else if same_text(text, "false") {
        Ok(false)
    } else {
        Err(text.to_owned())
    }
}

/// Reads a return code of the plugin backend.
pub fn decode_code(code: u32) -> (r: Option<bool>)
    ensures
        r == code_verdict(code),
{
    if code == 1 {
        Some(true)
    } else if code == 0 {
        Some(false)
    } else {
        None
    }
}

} // verus!
