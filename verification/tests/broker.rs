use chess_broker::handler::handle_request;
use chess_broker::handler::render_response;
use chess_broker::parser::parse_request;
use chess_broker::parser::percent_decode;
use chess_broker::parser::Command;
use chess_broker::registry::BrokerError;
use chess_broker::registry::GameSession;
use chess_broker::registry::SessionRegistry;
use chess_broker::registry::SessionStatus;
use chess_broker::strings::to_dec;
use chess_broker::token::alphabet_char;
use chess_broker::token::generate_id;

fn initial_fen() -> &'static str {
    "rnbqkbnr/pppppppp/8/8/8/8/PPPPPPPP/RNBQKBNR w KQkq - 0 1"
}

#[test]
fn alphabet_table() {
    let charset: Vec<char> = "ABCDEFGHIJKLMNOPQRSTUVWXYZabcdefghijklmnopqrstuvwxyz0123456789"
        .chars()
        .collect();
    assert_eq!(charset.len(), 62);
    for i in 0..62 {
        assert_eq!(alphabet_char(i), charset[i], "index {}", i);
    }
}

#[test]
fn token_shape() {
    for _ in 0..50 {
        let t = generate_id();
        assert_eq!(t.len(), 10);
        assert!(t.chars().all(|c| c.is_ascii_alphanumeric()));
    }
}

#[test]
fn create_session_distinct_tokens() {
    let mut reg = SessionRegistry::new();
    for _ in 0..20 {
        let (w, b) = reg.create_session();
        assert_ne!(w, b);
        assert_eq!(w.len(), 10);
        assert_eq!(b.len(), 10);
    }
}

#[test]
fn game_session_new_distinct() {
    let s = GameSession::new();
    assert_ne!(s.id_white, s.id_black);
    assert_eq!(s.id_white.len(), 10);
    assert_eq!(s.id_black.len(), 10);
}

#[test]
fn has_token_finds_both_tokens() {
    let mut reg = SessionRegistry::new();
    assert!(!reg.has_token(&"AAAAAAAAAA".to_string()));
    let (w, b) = reg.create_session();
    assert!(reg.has_token(&w));
    assert!(reg.has_token(&b));
    assert!(!reg.has_token(&"AAAAAAAAAA".to_string()));
}

#[test]
fn join_unknown_token_fails() {
    let mut reg = SessionRegistry::new();
    reg.create_session();
    assert_eq!(
        reg.join_white(&"AAAAAAAAAA".to_string()),
        Err(BrokerError::InvalidToken)
    );
    assert_eq!(
        reg.join_black(&"AAAAAAAAAA".to_string()),
        Err(BrokerError::InvalidToken)
    );
}

#[test]
fn join_flow() {
    let mut reg = SessionRegistry::new();
    let (w, b) = reg.create_session();
    assert_eq!(reg.join_white(&w), Ok(()));
    assert_eq!(reg.join_white(&w), Err(BrokerError::AlreadyClaimed));
    assert_eq!(reg.join_white(&b), Err(BrokerError::InvalidToken));
    assert_eq!(reg.join_black(&w), Err(BrokerError::InvalidToken));
    assert_eq!(reg.join_black(&b), Ok(()));
    assert_eq!(reg.join_black(&b), Err(BrokerError::AlreadyClaimed));
}

#[test]
fn lifecycle_status() {
    let mut reg = SessionRegistry::new();
    let (w, b) = reg.create_session();
    assert_eq!(reg.sessions[0].status(), SessionStatus::Created);
    assert_eq!(reg.join_white(&w), Ok(()));
    assert_eq!(reg.sessions[0].status(), SessionStatus::PartiallyJoined);
    assert_eq!(reg.join_black(&b), Ok(()));
    assert_eq!(reg.sessions[0].status(), SessionStatus::Joined);
    assert_eq!(reg.submit_move(&w, "e4").is_ok(), true);
    assert_eq!(reg.sessions[0].status(), SessionStatus::InProgress);
}

#[test]
fn fresh_session_initial_position() {
    let mut reg = SessionRegistry::new();
    let (w, b) = reg.create_session();
    assert_eq!(reg.get_position(&w), Ok(initial_fen().to_string()));
    assert_eq!(reg.get_position(&b), Ok(initial_fen().to_string()));
}

#[test]
fn submit_move_updates_position() {
    let mut reg = SessionRegistry::new();
    let (w, _b) = reg.create_session();
    let p1 = reg.submit_move(&w, "e4").unwrap();
    assert_eq!(
        p1,
        "rnbqkbnr/pppppppp/8/8/4P3/8/PPPP1PPP/RNBQKBNR b KQkq - 0 1"
    );
    assert_eq!(reg.get_position(&w), Ok(p1.clone()));
}

#[test]
fn illegal_move_leaves_position_unchanged() {
    let mut reg = SessionRegistry::new();
    let (w, _b) = reg.create_session();
    reg.submit_move(&w, "e4").unwrap();
    let before = reg.get_position(&w).unwrap();
    assert_eq!(reg.submit_move(&w, "Qh5"), Err(BrokerError::IllegalMove));
    assert_eq!(reg.submit_move(&w, "e9"), Err(BrokerError::IllegalMove));
    assert_eq!(reg.get_position(&w).unwrap(), before);
}

#[test]
fn submit_with_unknown_token_fails() {
    let mut reg = SessionRegistry::new();
    reg.create_session();
    assert_eq!(
        reg.submit_move(&"ZZZZZZZZZZ".to_string(), "e4"),
        Err(BrokerError::InvalidToken)
    );
    assert_eq!(
        reg.get_position(&"ZZZZZZZZZZ".to_string()),
        Err(BrokerError::InvalidToken)
    );
}

#[test]
fn two_half_moves_reflected() {
    let mut reg = SessionRegistry::new();
    let (w, b) = reg.create_session();
    reg.submit_move(&w, "e4").unwrap();
    let p = reg.submit_move(&b, "e5").unwrap();
    let expected = "rnbqkbnr/pppp1ppp/8/4p3/4P3/8/PPPP1PPP/RNBQKBNR w KQkq - 0 1";
    assert_eq!(p, expected.to_string());
    assert_eq!(reg.get_position(&w), Ok(expected.to_string()));
}

#[test]
fn terminated_session_rejects_moves() {
    let mut reg = SessionRegistry::new();
    let (w, b) = reg.create_session();
    reg.submit_move(&w, "f3").unwrap();
    reg.submit_move(&b, "e5").unwrap();
    reg.submit_move(&w, "g4").unwrap();
    reg.submit_move(&b, "Qh4#").unwrap();
    assert_eq!(reg.sessions[0].status(), SessionStatus::Terminated);
    let frozen = reg.get_position(&w).unwrap();
    assert_eq!(reg.submit_move(&w, "a3"), Err(BrokerError::GameOver));
    assert_eq!(reg.submit_move(&b, "a6"), Err(BrokerError::GameOver));
    assert_eq!(reg.get_position(&w).unwrap(), frozen);
}

#[test]
fn parse_routes() {
    let lines = vec!["GET /newGame/ HTTP/1.1".to_string()];
    assert_eq!(parse_request(&lines), Ok(Command::NewGame));

    let lines = vec![
        "Host: example".to_string(),
        "GET /joinWhite/ABCDEFGHIJ HTTP/1.1".to_string(),
    ];
    assert_eq!(
        parse_request(&lines),
        Ok(Command::JoinWhite {
            token: "ABCDEFGHIJ".to_string()
        })
    );

    let lines = vec!["GET /joinBlack/0123456789".to_string()];
    assert_eq!(
        parse_request(&lines),
        Ok(Command::JoinBlack {
            token: "0123456789".to_string()
        })
    );

    let lines = vec!["GET /submitMove/ABCDEFGHIJ/e4 HTTP/1.1".to_string()];
    assert_eq!(
        parse_request(&lines),
        Ok(Command::SubmitMove {
            token: "ABCDEFGHIJ".to_string(),
            mv: "e4".to_string()
        })
    );

    let lines = vec!["GET /getPosition/ABCDEFGHIJ".to_string()];
    assert_eq!(
        parse_request(&lines),
        Ok(Command::GetPosition {
            token: "ABCDEFGHIJ".to_string()
        })
    );

    let lines = vec!["POST /newGame/".to_string(), "Accept: text".to_string()];
    assert_eq!(parse_request(&lines), Ok(Command::Unrecognized));

    let lines: Vec<String> = vec![];
    assert_eq!(parse_request(&lines), Ok(Command::Unrecognized));
}

#[test]
fn first_recognized_line_wins() {
    let lines = vec![
        "GET /unknownRoute/x".to_string(),
        "GET /joinWhite/ABCDEFGHIJ".to_string(),
        "GET /newGame/".to_string(),
    ];
    assert_eq!(
        parse_request(&lines),
        Ok(Command::JoinWhite {
            token: "ABCDEFGHIJ".to_string()
        })
    );
}

#[test]
fn parse_malformed() {
    let cases = [
        "GET /joinWhite/",
        "GET /joinWhite/abc HTTP/1.1",
        "GET /joinWhite/ABCDEFGHIJK",
        "GET /joinBlack/",
        "GET /getPosition/",
        "GET /getPosition/short",
        "GET /submitMove/ABCDEFGHIJ",
        "GET /submitMove/ABCDEFGHIJ/",
        "GET /submitMove/ABCDEFGHIJ/ HTTP/1.1",
        "GET /submitMove/short/e4",
        "GET /submitMove/ABCDEFGHIJ/e%ZZ",
    ];
    for l in cases {
        let lines = vec![l.to_string()];
        assert_eq!(
            parse_request(&lines),
            Err(BrokerError::MalformedRequest),
            "{}",
            l
        );
    }
}

#[test]
fn percent_decoding() {
    assert_eq!(percent_decode("e4"), Some("e4".to_string()));
    assert_eq!(percent_decode("O%2DO"), Some("O-O".to_string()));
    assert_eq!(percent_decode("%41%62"), Some("Ab".to_string()));
    assert_eq!(percent_decode(""), Some("".to_string()));
    assert_eq!(percent_decode("%4"), None);
    assert_eq!(percent_decode("%GG"), None);
    assert_eq!(percent_decode("100%"), None);
}

#[test]
fn submit_move_with_escaped_text() {
    let lines = vec!["GET /submitMove/ABCDEFGHIJ/O%2DO HTTP/1.1".to_string()];
    assert_eq!(
        parse_request(&lines),
        Ok(Command::SubmitMove {
            token: "ABCDEFGHIJ".to_string(),
            mv: "O-O".to_string()
        })
    );
}

#[test]
fn decimal_rendering() {
    assert_eq!(to_dec(0), "0".to_string());
    assert_eq!(to_dec(7), "7".to_string());
    assert_eq!(to_dec(10), "10".to_string());
    assert_eq!(to_dec(56), "56".to_string());
    assert_eq!(to_dec(90210), "90210".to_string());
}

#[test]
fn response_shape() {
    assert_eq!(
        render_response(&"hello".to_string()),
        "HTTP/1.1 200 OK\r\nContent-Length: 5\r\n\r\nhello"
    );
    assert_eq!(
        render_response(&"".to_string()),
        "HTTP/1.1 200 OK\r\nContent-Length: 0\r\n\r\n"
    );
}

#[test]
fn handler_unrecognized_and_malformed() {
    let mut reg = SessionRegistry::new();
    let r = handle_request(&mut reg, &vec!["something odd".to_string()]);
    assert_eq!(r, "HTTP/1.1 200 OK\r\nContent-Length: 0\r\n\r\n");
    let r = handle_request(&mut reg, &vec!["GET /joinWhite/".to_string()]);
    assert_eq!(
        r,
        "HTTP/1.1 200 OK\r\nContent-Length: 16\r\n\r\nMalformedRequest"
    );
}

#[test]
fn handler_end_to_end() {
    let mut reg = SessionRegistry::new();

    let r = handle_request(&mut reg, &vec!["GET /newGame/ HTTP/1.1".to_string()]);
    let body_at = r.find("\r\n\r\n").unwrap() + 4;
    let body = &r[body_at..];
    assert!(body.starts_with("{\"white_id\":\""));
    let w = body[13..23].to_string();
    let b = body[37..47].to_string();
    assert_ne!(w, b);

    let r = handle_request(
        &mut reg,
        &vec![format!("GET /joinWhite/{} HTTP/1.1", w)],
    );
    assert_eq!(r, "HTTP/1.1 200 OK\r\nContent-Length: 2\r\n\r\nOK");

    let r = handle_request(
        &mut reg,
        &vec![format!("GET /joinBlack/{} HTTP/1.1", b)],
    );
    assert_eq!(r, "HTTP/1.1 200 OK\r\nContent-Length: 2\r\n\r\nOK");

    let r = handle_request(&mut reg, &vec![format!("GET /getPosition/{}", w)]);
    let fen = initial_fen();
    assert_eq!(
        r,
        format!("HTTP/1.1 200 OK\r\nContent-Length: {}\r\n\r\n{}", fen.len(), fen)
    );

    let r = handle_request(&mut reg, &vec![format!("GET /submitMove/{}/e4", w)]);
    let fen = "rnbqkbnr/pppppppp/8/8/4P3/8/PPPP1PPP/RNBQKBNR b KQkq - 0 1";
    assert_eq!(
        r,
        format!("HTTP/1.1 200 OK\r\nContent-Length: {}\r\n\r\n{}", fen.len(), fen)
    );

    let r = handle_request(&mut reg, &vec![format!("GET /submitMove/{}/e9", w)]);
    assert_eq!(r, "HTTP/1.1 200 OK\r\nContent-Length: 11\r\n\r\nIllegalMove");

    let r = handle_request(&mut reg, &vec![format!("GET /joinWhite/{}", w)]);
    assert_eq!(r, "HTTP/1.1 200 OK\r\nContent-Length: 14\r\n\r\nAlreadyClaimed");

    let r = handle_request(&mut reg, &vec!["GET /getPosition/AAAAAAAAAA".to_string()]);
    assert_eq!(r, "HTTP/1.1 200 OK\r\nContent-Length: 12\r\n\r\nInvalidToken");
}
