//! Per-request orchestration: parse the request lines, dispatch to the
//! registry, and render one complete, well-formed response. The response is
//! always a status line, a `Content-Length` header holding the exact byte
//! length of the body, a blank line, and the body — also on every failure.

use vstd::prelude::*;
use vstd::utf8::encode_utf8;
use crate::strings::dec_of;
use crate::strings::to_dec;
use crate::parser::Command;
use crate::parser::CmdModel;
use crate::parser::parse_request;
use crate::parser::parse_request_spec;
use crate::parser::cmd_res_view;
use crate::registry::BrokerError;
use crate::registry::SessionRegistry;
use crate::registry::SessionModel;
use crate::registry::fresh_session;
use crate::registry::join_white_spec;
use crate::registry::join_black_spec;
use crate::registry::submit_spec;
use crate::registry::get_position_spec;
use crate::token::valid_token;

verus! {

/// The full response for a body: status line, exact byte length, body.
pub open spec fn response_of(body: Seq<char>) -> Seq<char> {
    "HTTP/1.1 200 OK\r\nContent-Length: "@ + dec_of(encode_utf8(body).len()) + "\r\n\r\n"@ + body
}

/// The body text reporting a failure.
pub open spec fn err_text(e: BrokerError) -> Seq<char> {
    match e {
        BrokerError::MalformedRequest => "MalformedRequest"@,
        BrokerError::InvalidToken => "InvalidToken"@,
        BrokerError::AlreadyClaimed => "AlreadyClaimed"@,
        BrokerError::GameOver => "GameOver"@,
        BrokerError::IllegalMove => "IllegalMove"@,
    }
}

/// The body exposing both tokens of a new session.
pub open spec fn new_game_body(w: Seq<char>, b: Seq<char>) -> Seq<char> {
    "{\"white_id\":\""@ + w + "\",\"black_id\":\""@ + b + "\"}"@
}

/// The body reporting a join outcome.
pub open spec fn join_body(res: Result<(), BrokerError>) -> Seq<char> {
    match res {
        Ok(u) => "OK"@,
        Err(e) => err_text(e),
    }
}

/// The body reporting a position outcome.
pub open spec fn pos_body(res: Result<Seq<char>, BrokerError>) -> Seq<char> {
    match res {
        Ok(p) => p,
        Err(e) => err_text(e),
    }
}

/// The failure body for `e`, exact with respect to `err_text`.
pub fn err_body(e: &BrokerError) -> (r: String)
    ensures
        r@ == err_text(*e),
{
    match e {
        BrokerError::MalformedRequest => "MalformedRequest".to_owned(),
        BrokerError::InvalidToken => "InvalidToken".to_owned(),
        BrokerError::AlreadyClaimed => "AlreadyClaimed".to_owned(),
        BrokerError::GameOver => "GameOver".to_owned(),
        BrokerError::IllegalMove => "IllegalMove".to_owned(),
    }
}

/// Renders the complete response for `body`, exact with respect to
/// `response_of`; the length header counts the body's bytes.
pub fn render_response(body: &String) -> (r: String)
    ensures
        r@ == response_of(body@),
{
    let blen = body.as_str().as_bytes().len();
    let num = to_dec(blen);
    let mut r = "HTTP/1.1 200 OK\r\nContent-Length: ".to_owned();
    r.append(num.as_str());
    r.append("\r\n\r\n");
    r.append(body.as_str());
    r
}

fn new_game_body_exec(w: &String, b: &String) -> (r: String)
    ensures
        r@ == new_game_body(w@, b@),
{
    let mut r = "{\"white_id\":\"".to_owned();
    r.append(w.as_str());
    r.append("\",\"black_id\":\"");
    r.append(b.as_str());
    r.append("\"}");
    r
}

/// Handles one request against the registry and returns the response to
/// write back. Every case — including every failure — yields a complete
/// response; the registry changes exactly as the command's transition says.
pub fn handle_request(reg: &mut SessionRegistry, lines: &Vec<String>) -> (r: String)
    requires
        old(reg).wf(),
    ensures
        final(reg).wf(),
        ({
            let p = parse_request_spec(lines.deep_view());
            match p {
                Err(e) => final(reg)@ == old(reg)@ && r@ == response_of(err_text(e)),
                Ok(c) => match c {
                    CmdModel::Unrecognized => final(reg)@ == old(reg)@ && r@ == response_of(
                        Seq::<char>::empty(),
                    ),
                    CmdModel::NewGame => exists|w: Seq<char>, b: Seq<char>|
                        {
                            &&& valid_token(w)
                            &&& valid_token(b)
                            &&& w != b
                            &&& final(reg)@ == old(reg)@.push(#[trigger] fresh_session(w, b))
                            &&& r@ == response_of(new_game_body(w, b))
                        },
                    CmdModel::JoinWhite { token } => final(reg)@ == join_white_spec(
                        old(reg)@,
                        token,
                    ).0 && r@ == response_of(join_body(join_white_spec(old(reg)@, token).1)),
                    CmdModel::JoinBlack { token } => final(reg)@ == join_black_spec(
                        old(reg)@,
                        token,
                    ).0 && r@ == response_of(join_body(join_black_spec(old(reg)@, token).1)),
                    CmdModel::SubmitMove { token, mv } => final(reg)@ == submit_spec(
                        old(reg)@,
                        token,
                        mv,
                    ).0 && r@ == response_of(pos_body(submit_spec(old(reg)@, token, mv).1)),
                    CmdModel::GetPosition { token } => final(reg)@ == old(reg)@ && r@
                        == response_of(pos_body(get_position_spec(old(reg)@, token))),
                },
            }
        }),
{
    match parse_request(lines) {
        Err(e) => {
            let body = err_body(&e);
            render_response(&body)
        },
        Ok(c) => match c {
            Command::Unrecognized => {
                let body = String::new();
                render_response(&body)
            },
            Command::NewGame => {
                let tokens = reg.create_session();
                let body = new_game_body_exec(&tokens.0, &tokens.1);
                let resp = render_response(&body);
                proof {
                    assert(exists|w: Seq<char>, b: Seq<char>|
                        {
                            &&& valid_token(w)
                            &&& valid_token(b)
                            &&& w != b
                            &&& reg@ == old(reg)@.push(#[trigger] fresh_session(w, b))
                            &&& resp@ == response_of(new_game_body(w, b))
                        }) by {
                        assert({
                            &&& valid_token(tokens.0@)
                            &&& valid_token(tokens.1@)
                            &&& tokens.0@ != tokens.1@
                            &&& reg@ == old(reg)@.push(fresh_session(tokens.0@, tokens.1@))
                            &&& resp@ == response_of(new_game_body(tokens.0@, tokens.1@))
                        });
                    }
                }
                resp
            },
            Command::JoinWhite { token } => {
                let res = reg.join_white(&token);
                let body = match res {
                    Ok(u) => "OK".to_owned(),
                    Err(e) => err_body(&e),
                };
                render_response(&body)
            },
            Command::JoinBlack { token } => {
                let res = reg.join_black(&token);
                let body = match res {
                    Ok(u) => "OK".to_owned(),
                    Err(e) => err_body(&e),
                };
                render_response(&body)
            },
            Command::SubmitMove { token, mv } => {
                let res = reg.submit_move(&token, mv.as_str());
                let body = match res {
                    Ok(p) => p,
                    Err(e) => err_body(&e),
                };
                render_response(&body)
            },
            Command::GetPosition { token } => {
                let res = reg.get_position(&token);
                let body = match res {
                    Ok(p) => p,
                    Err(e) => err_body(&e),
                };
                render_response(&body)
            },
        },
    }
}

} // verus!
