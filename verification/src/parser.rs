//! The request parser: turns the text lines of one connection into a typed
//! command. The wire protocol is line-oriented pseudo-HTTP; the first line
//! carrying a recognized route decides the command, and a recognized route
//! with missing or short parameters is a malformed request. Move text in a
//! `submitMove` path is percent-decoded.

use vstd::prelude::*;
use crate::strings::starts_with;
use crate::strings::str_starts_with;
use crate::strings::seg_end;
use crate::strings::find_seg_end;
use crate::strings::push_char;
use crate::registry::BrokerError;
use crate::token::TOKEN_LEN;

verus! {

/// A parsed request, as the handler consumes it.
#[derive(Debug, PartialEq, Eq)]
pub enum Command {
    NewGame,
    JoinWhite { token: String },
    JoinBlack { token: String },
    SubmitMove { token: String, mv: String },
    GetPosition { token: String },
    Unrecognized,
}

/// The model of a parsed request.
pub ghost enum CmdModel {
    NewGame,
    JoinWhite { token: Seq<char> },
    JoinBlack { token: Seq<char> },
    SubmitMove { token: Seq<char>, mv: Seq<char> },
    GetPosition { token: Seq<char> },
    Unrecognized,
}

impl View for Command {
    type V = CmdModel;

    open spec fn view(&self) -> CmdModel {
        match self {
            Command::NewGame => CmdModel::NewGame,
            Command::JoinWhite { token } => CmdModel::JoinWhite { token: token@ },
            Command::JoinBlack { token } => CmdModel::JoinBlack { token: token@ },
            Command::SubmitMove { token, mv } => CmdModel::SubmitMove {
                token: token@,
                mv: mv@,
            },
            Command::GetPosition { token } => CmdModel::GetPosition { token: token@ },
            Command::Unrecognized => CmdModel::Unrecognized,
        }
    }
}

/// A hexadecimal digit.
pub open spec fn is_hex_digit(c: char) -> bool {
    (48 <= c as u32 && c as u32 <= 57) || (97 <= c as u32 && c as u32 <= 102) || (65 <= c as u32
        && c as u32 <= 70)
}

/// The value of a hexadecimal digit.
pub open spec fn hex_val(c: char) -> int {
    if 48 <= c as u32 && c as u32 <= 57 {
        c as u32 - 48
    } else if 97 <= c as u32 && c as u32 <= 102 {
        c as u32 - 87
    } else {
        c as u32 - 55
    }
}

/// The character a `%xy` escape stands for.
pub open spec fn escaped_char(a: char, b: char) -> char {
    ((hex_val(a) * 16 + hex_val(b)) as u8) as char
}

/// Percent-decoding of `s` from position `i`, appending to `acc`: a `%` must
/// begin a well-formed two-digit escape, every other character stands for
/// itself. `None` on a dangling or non-hexadecimal escape.
pub open spec fn pct_decode_from(s: Seq<char>, i: int, acc: Seq<char>) -> Option<Seq<char>>
    decreases s.len() - i,
{
    if i < 0 || i >= s.len() {
        Some(acc)
    } else if s[i] == '%' {
        if i + 3 <= s.len() && is_hex_digit(s[i + 1]) && is_hex_digit(s[i + 2]) {
            pct_decode_from(s, i + 3, acc.push(escaped_char(s[i + 1], s[i + 2])))
        } else {
            None
        }
    } else {
        pct_decode_from(s, i + 1, acc.push(s[i]))
    }
}

/// Percent-decoding of a whole segment.
pub open spec fn pct_decode(s: Seq<char>) -> Option<Seq<char>> {
    pct_decode_from(s, 0, Seq::empty())
}

fn is_hex_exec(c: char) -> (r: bool)
    ensures
        r == is_hex_digit(c),
{
    let u = c as u32;
    (48 <= u && u <= 57) || (97 <= u && u <= 102) || (65 <= u && u <= 70)
}

fn hex_val_exec(c: char) -> (r: u8)
    requires
        is_hex_digit(c),
    ensures
        r as int == hex_val(c),
{
    let u = c as u32;
    if 48 <= u && u <= 57 {
        (u - 48) as u8
    } else if 97 <= u && u <= 102 {
        (u - 87) as u8
    } else {
        (u - 55) as u8
    }
}

/// Percent-decodes `s`, exact with respect to `pct_decode`.
pub fn percent_decode(s: &str) -> (r: Option<String>)
    ensures
        match r {
            Some(d) => pct_decode(s@) == Some(d@),
            None => pct_decode(s@) is None,
        },
{
    let n = s.unicode_len();
    let mut out = String::new();
    let mut i: usize = 0;
    while i < n
        invariant
            i <= n,
            n == s@.len(),
            pct_decode(s@) == pct_decode_from(s@, i as int, out@),
        decreases n - i,
    {
        let c = s.get_char(i);
        if c == '%' {
            if n - i >= 3 {
                let a = s.get_char(i + 1);
                let b = s.get_char(i + 2);
                if is_hex_exec(a) && is_hex_exec(b) {
                    let v: u8 = hex_val_exec(a) * 16 + hex_val_exec(b);
                    push_char(&mut out, v as char);
                    i += 3;
                } else {
                    return None;
                }
            } else {
                return None;
            }
        } else {
            push_char(&mut out, c);
            i += 1;
        }
    }
    Some(out)
}

/// The path segment at `p` when it has exactly the width of a token.
pub open spec fn token_at(l: Seq<char>, p: int) -> Option<Seq<char>> {
    let e = seg_end(l, p);
    if e - p == TOKEN_LEN {
        Some(l.subrange(p, e))
    } else {
        None
    }
}

/// What one line means: `None` when it carries no recognized route, and
/// otherwise the command it parses to, or `MalformedRequest` when its
/// parameters are missing, too short or badly escaped.
pub open spec fn parse_line(l: Seq<char>) -> Option<Result<CmdModel, BrokerError>> {
    if starts_with(l, "GET /newGame/"@) {
        Some(Ok(CmdModel::NewGame))
    } else if starts_with(l, "GET /joinWhite/"@) {
        match token_at(l, "GET /joinWhite/"@.len() as int) {
            Some(t) => Some(Ok(CmdModel::JoinWhite { token: t })),
            None => Some(Err(BrokerError::MalformedRequest)),
        }
    } else if starts_with(l, "GET /joinBlack/"@) {
        match token_at(l, "GET /joinBlack/"@.len() as int) {
            Some(t) => Some(Ok(CmdModel::JoinBlack { token: t })),
            None => Some(Err(BrokerError::MalformedRequest)),
        }
    } else if starts_with(l, "GET /getPosition/"@) {
        match token_at(l, "GET /getPosition/"@.len() as int) {
            Some(t) => Some(Ok(CmdModel::GetPosition { token: t })),
            None => Some(Err(BrokerError::MalformedRequest)),
        }
    } else if starts_with(l, "GET /submitMove/"@) {
        Some(parse_submit(l, "GET /submitMove/"@.len() as int))
    } else {
        None
    }
}

/// The `submitMove` path: a token segment, a `/`, then a non-empty
/// percent-encoded move segment.
pub open spec fn parse_submit(l: Seq<char>, p: int) -> Result<CmdModel, BrokerError> {
    match token_at(l, p) {
        None => Err(BrokerError::MalformedRequest),
        Some(t) => {
            let e = seg_end(l, p);
            if e < l.len() && l[e] == '/' {
                let me = seg_end(l, e + 1);
                if me > e + 1 {
                    match pct_decode(l.subrange(e + 1, me)) {
                        Some(m) => Ok(CmdModel::SubmitMove { token: t, mv: m }),
                        None => Err(BrokerError::MalformedRequest),
                    }
                } else {
                    Err(BrokerError::MalformedRequest)
                }
            } else {
                Err(BrokerError::MalformedRequest)
            }
        },
    }
}

/// What a whole request means: the first line carrying a recognized route
/// decides; a request with no such line is the (successful) no-op.
pub open spec fn parse_lines_from(ls: Seq<Seq<char>>, i: int) -> Result<CmdModel, BrokerError>
    decreases ls.len() - i,
{
    if i < 0 || i >= ls.len() {
        Ok(CmdModel::Unrecognized)
    } else {
        match parse_line(ls[i]) {
            None => parse_lines_from(ls, i + 1),
            Some(r) => r,
        }
    }
}

/// The meaning of a request's lines.
pub open spec fn parse_request_spec(ls: Seq<Seq<char>>) -> Result<CmdModel, BrokerError> {
    parse_lines_from(ls, 0)
}

/// Maps an executable parse result to its model.
pub open spec fn cmd_res_view(r: Result<Command, BrokerError>) -> Result<CmdModel, BrokerError> {
    match r {
        Ok(c) => Ok(c@),
        Err(e) => Err(e),
    }
}

/// Maps an executable line-parse result to its model.
pub open spec fn line_res_view(r: Option<Result<Command, BrokerError>>) -> Option<
    Result<CmdModel, BrokerError>,
> {
    match r {
        None => None,
        Some(Ok(c)) => Some(Ok(c@)),
        Some(Err(e)) => Some(Err(e)),
    }
}

/// Extracts the token-width path segment at `p`, exact with respect to
/// `token_at`.
fn extract_token(s: &str, p: usize) -> (r: Option<String>)
    requires
        p <= s@.len(),
    ensures
        match r {
            Some(t) => token_at(s@, p as int) == Some(t@),
            None => token_at(s@, p as int) is None,
        },
{
    let e = find_seg_end(s, p);
    if e - p == TOKEN_LEN {
        let t = s.substring_char(p, e);
        Some(t.to_owned())
    } else {
        None
    }
}

/// Parses one line, exact with respect to `parse_line`.
fn parse_one_line(l: &String) -> (r: Option<Result<Command, BrokerError>>)
    ensures
        line_res_view(r) == parse_line(l@),
{
    let s = l.as_str();
    if str_starts_with(s, "GET /newGame/") {
        Some(Ok(Command::NewGame))
    } else if str_starts_with(s, "GET /joinWhite/") {
        proof {
            reveal_strlit("GET /joinWhite/");
        }
        match extract_token(s, 15) {
            Some(t) => Some(Ok(Command::JoinWhite { token: t })),
            None => Some(Err(BrokerError::MalformedRequest)),
        }
    } else if str_starts_with(s, "GET /joinBlack/") {
        proof {
            reveal_strlit("GET /joinBlack/");
        }
        match extract_token(s, 15) {
            Some(t) => Some(Ok(Command::JoinBlack { token: t })),
            None => Some(Err(BrokerError::MalformedRequest)),
        }
    } else if str_starts_with(s, "GET /getPosition/") {
        proof {
            reveal_strlit("GET /getPosition/");
        }
        match extract_token(s, 17) {
            Some(t) => Some(Ok(Command::GetPosition { token: t })),
            None => Some(Err(BrokerError::MalformedRequest)),
        }
    } else if str_starts_with(s, "GET /submitMove/") {
        proof {
            reveal_strlit("GET /submitMove/");
        }
        match extract_token(s, 16) {
            None => Some(Err(BrokerError::MalformedRequest)),
            Some(t) => {
                let e = find_seg_end(s, 16);
                let n = s.unicode_len();
                if e < n && s.get_char(e) == '/' {
                    let me = find_seg_end(s, e + 1);
                    if me > e + 1 {
                        let sub = s.substring_char(e + 1, me);
                        match percent_decode(sub) {
                            Some(m) => Some(Ok(Command::SubmitMove { token: t, mv: m })),
                            None => Some(Err(BrokerError::MalformedRequest)),
                        }
                    } else {
                        Some(Err(BrokerError::MalformedRequest))
                    }
                } else {
                    Some(Err(BrokerError::MalformedRequest))
                }
            },
        }
    } else {
        None
    }
}

/// Parses a request's lines, exact with respect to `parse_request_spec`:
/// short or missing parameters on a recognized route are reported as
/// `MalformedRequest`, never read out of bounds.
pub fn parse_request(lines: &Vec<String>) -> (r: Result<Command, BrokerError>)
    ensures
        cmd_res_view(r) == parse_request_spec(lines.deep_view()),
{
    let n = lines.len();
    let mut i: usize = 0;
    while i < n
        invariant
            i <= n,
            n == lines@.len(),
            lines.deep_view().len() == n,
            parse_request_spec(lines.deep_view()) == parse_lines_from(
                lines.deep_view(),
                i as int,
            ),
        decreases n - i,
    {
        proof {
            assert(lines.deep_view()[i as int] == lines@[i as int]@);
        }
        match parse_one_line(&lines[i]) {
            None => {
                i += 1;
            },
            Some(res) => {
                return res;
            },
        }
    }
    Ok(Command::Unrecognized)
}

} // verus!
