//! The boundary to the external board engine (the `chess` crate).
//!
//! The engine owns the chess rules: which moves are legal, when a game has
//! ended, and how a position is written out. A `chess::Game` is a value built
//! from the standard starting position by a sequence of accepted moves, so
//! everything the broker asks of the engine is a function of that move
//! history. The history itself is named by `board_hist`, and the answers the
//! engine gives are named by `san_ok`, `fen_after` and `over_after`; the
//! wrappers below state how each call relates to those names.

use vstd::prelude::*;

verus! {

#[verifier::external_type_specification]
#[verifier::external_body]
pub struct ExGame(chess::Game);

/// The move history a game carries: the texts of the moves the engine has
/// accepted, in order, starting from the standard initial position.
pub uninterp spec fn board_hist(g: chess::Game) -> Seq<Seq<char>>;

/// Whether the engine accepts the move text `mv` in the position reached by
/// the history `hist`.
pub uninterp spec fn san_ok(hist: Seq<Seq<char>>, mv: Seq<char>) -> bool;

/// The position serialization (FEN) the engine writes for the position
/// reached by the history `hist`.
pub uninterp spec fn fen_after(hist: Seq<Seq<char>>) -> Seq<char>;

/// Whether the engine reports the game as ended (checkmate, stalemate or a
/// draw) after the history `hist`.
pub uninterp spec fn over_after(hist: Seq<Seq<char>>) -> bool;

/// The serialization of the standard initial chess position.
pub open spec fn initial_fen() -> Seq<char> {
    "rnbqkbnr/pppppppp/8/8/8/8/PPPPPPPP/RNBQKBNR w KQkq - 0 1"@
}

/// Relies on `chess::Game::new`: a fresh game at the standard starting
/// position with no moves made; `Game::result` on it is `None`, and its
/// `Board` serializes to the standard initial FEN.
#[verifier::external_body]
pub(crate) fn board_new() -> (g: chess::Game)
    ensures
        board_hist(g) == Seq::<Seq<char>>::empty(),
        !over_after(board_hist(g)),
        fen_after(board_hist(g)) == initial_fen(),
{
    chess::Game::new()
}

/// Relies on `chess::ChessMove::from_san` and `chess::Game::make_move`:
/// whether a move text is accepted is decided by the game's position (a
/// function of its history) and the text alone; on success the move is
/// appended to the game's history, on failure the game is unchanged.
#[verifier::external_body]
pub(crate) fn board_apply(g: &mut chess::Game, mv: &str) -> (r: bool)
    ensures
        r == san_ok(board_hist(*old(g)), mv@),
        r ==> board_hist(*final(g)) == board_hist(*old(g)).push(mv@),
        !r ==> board_hist(*final(g)) == board_hist(*old(g)),
{
    let pos = g.current_position();
    match chess::ChessMove::from_san(&pos, mv) {
        Ok(m) => g.make_move(m),
        Err(_) => false,
    }
}

/// Relies on `chess::Game::current_position` and the `Display` impl of
/// `chess::Board`, which writes the FEN of the current position: a function
/// of the game's history alone.
#[verifier::external_body]
pub(crate) fn board_fen(g: &chess::Game) -> (r: String)
    ensures
        r@ == fen_after(board_hist(*g)),
{
    g.current_position().to_string()
}

/// Relies on `chess::Game::result`: `Some` exactly when the game has ended,
/// decided by the game's history alone (the broker never offers draws or
/// resigns, so only played moves can end a game).
#[verifier::external_body]
pub(crate) fn board_over(g: &chess::Game) -> (r: bool)
    ensures
        r == over_after(board_hist(*g)),
{
    g.result().is_some()
}

} // verus!
