//! Game sessions and the registry that owns them.
//!
//! A session holds two distinct per-color tokens, an engine board handle and
//! its lifecycle flags. Token uniqueness across sessions is probabilistic
//! only — the documented policy, with a negligible collision risk at ten
//! random alphanumeric characters — so a token resolves to the first session
//! holding it, and every operation is stated exactly by a spec-level
//! transition function over the registry's model (a sequence of
//! `SessionModel`).

use vstd::prelude::*;
use crate::engine::board_hist;
use crate::engine::over_after;
use crate::engine::san_ok;
use crate::engine::fen_after;
use crate::engine::initial_fen;
use crate::engine::board_new;
use crate::engine::board_apply;
use crate::engine::board_fen;
use crate::engine::board_over;
use crate::token::valid_token;
use crate::token::generate_id;
use crate::token::alter_first;

verus! {

/// The failure kinds the broker reports to clients. `InternalIO` failures
/// never reach the library: they stay with the connection that suffered them.
#[derive(Clone, Copy, Debug, PartialEq, Eq, Structural)]
pub enum BrokerError {
    MalformedRequest,
    InvalidToken,
    AlreadyClaimed,
    GameOver,
    IllegalMove,
}

/// A session's lifecycle state, read off its flags and move history.
#[derive(Clone, Copy, Debug, PartialEq, Eq, Structural)]
pub enum SessionStatus {
    Created,
    PartiallyJoined,
    Joined,
    InProgress,
    Terminated,
}

/// The mathematical model of one session.
pub ghost struct SessionModel {
    pub white: Seq<char>,
    pub black: Seq<char>,
    pub white_joined: bool,
    pub black_joined: bool,
    pub terminated: bool,
    pub hist: Seq<Seq<char>>,
}

/// A freshly created session: both slots unclaimed, no moves, not over.
pub open spec fn fresh_session(w: Seq<char>, b: Seq<char>) -> SessionModel {
    SessionModel {
        white: w,
        black: b,
        white_joined: false,
        black_joined: false,
        terminated: false,
        hist: Seq::empty(),
    }
}

/// A single match: two color tokens, one engine board, lifecycle flags.
pub struct GameSession {
    pub id_white: String,
    pub id_black: String,
    pub board: chess::Game,
    pub white_joined: bool,
    pub black_joined: bool,
    pub terminated: bool,
    pub moved: bool,
}

impl View for GameSession {
    type V = SessionModel;

    open spec fn view(&self) -> SessionModel {
        SessionModel {
            white: self.id_white@,
            black: self.id_black@,
            white_joined: self.white_joined,
            black_joined: self.black_joined,
            terminated: self.terminated,
            hist: board_hist(self.board),
        }
    }
}

/// A well-formed session model: two valid, distinct tokens, and the
/// terminal flag agreeing with what the engine reports of the history.
pub open spec fn session_model_wf(m: SessionModel) -> bool {
    &&& valid_token(m.white)
    &&& valid_token(m.black)
    &&& m.white != m.black
    &&& m.terminated == over_after(m.hist)
}

impl GameSession {
    /// Well-formed: the model is, and the `moved` flag tracks the history.
    pub open spec fn wf(&self) -> bool {
        &&& session_model_wf(self@)
        &&& self.moved == (board_hist(self.board).len() > 0)
    }

    /// The session's lifecycle state, as its model shows it.
    pub open spec fn spec_status(m: SessionModel) -> SessionStatus {
        if m.terminated {
            SessionStatus::Terminated
        } else if m.hist.len() > 0 {
            SessionStatus::InProgress
        } else if m.white_joined && m.black_joined {
            SessionStatus::Joined
        } else if m.white_joined || m.black_joined {
            SessionStatus::PartiallyJoined
        } else {
            SessionStatus::Created
        }
    }

    /// A standalone session: two fresh distinct tokens and a new board.
    pub fn new() -> (s: Self)
        ensures
            s.wf(),
            s@ == fresh_session(s@.white, s@.black),
    {
        let w = generate_id();
        let mut b = generate_id();
        if b == w {
            b = alter_first(&b);
        }
        let s = GameSession {
            id_white: w,
            id_black: b,
            board: board_new(),
            white_joined: false,
            black_joined: false,
            terminated: false,
            moved: false,
        };
        s
    }

    /// Reads off the lifecycle state.
    pub fn status(&self) -> (st: SessionStatus)
        requires
            self.wf(),
        ensures
            st == Self::spec_status(self@),
    {
        if self.terminated {
            SessionStatus::Terminated
        } else if self.moved {
            SessionStatus::InProgress
        } else if self.white_joined && self.black_joined {
            SessionStatus::Joined
        } else if self.white_joined || self.black_joined {
            SessionStatus::PartiallyJoined
        } else {
            SessionStatus::Created
        }
    }
}

/// `t` is one of the two tokens of `m`.
pub open spec fn token_in(m: SessionModel, t: Seq<char>) -> bool {
    m.white == t || m.black == t
}

/// The first session holding `t`, searching from index `i`.
pub open spec fn lookup_from(rs: Seq<SessionModel>, t: Seq<char>, i: int) -> Option<int>
    decreases rs.len() - i,
{
    if i < 0 || i >= rs.len() {
        None
    } else if token_in(rs[i], t) {
        Some(i)
    } else {
        lookup_from(rs, t, i + 1)
    }
}

/// The session `t` identifies, if any.
pub open spec fn lookup(rs: Seq<SessionModel>, t: Seq<char>) -> Option<int> {
    lookup_from(rs, t, 0)
}

pub proof fn lemma_lookup_from_props(rs: Seq<SessionModel>, t: Seq<char>, i: int)
    requires
        0 <= i <= rs.len(),
    ensures
        match lookup_from(rs, t, i) {
            Some(k) => i <= k < rs.len() && token_in(rs[k], t) && (forall|j: int|
                i <= j < k ==> !token_in(#[trigger] rs[j], t)),
            None => forall|j: int| i <= j < rs.len() ==> !token_in(#[trigger] rs[j], t),
        },
    decreases rs.len() - i,
{
    if i < rs.len() && !token_in(rs[i], t) {
        lemma_lookup_from_props(rs, t, i + 1);
    }
}

/// What `lookup` finds: the unique session holding `t`, if one does.
pub proof fn lemma_lookup(rs: Seq<SessionModel>, t: Seq<char>)
    ensures
        match lookup(rs, t) {
            Some(k) => 0 <= k < rs.len() && token_in(rs[k], t) && (forall|j: int|
                0 <= j < k ==> !token_in(#[trigger] rs[j], t)),
            None => forall|j: int| 0 <= j < rs.len() ==> !token_in(#[trigger] rs[j], t),
        },
{
    lemma_lookup_from_props(rs, t, 0);
}

pub proof fn lemma_lookup_first(rs: Seq<SessionModel>, t: Seq<char>, n: int)
    requires
        0 <= n < rs.len(),
        token_in(rs[n], t),
        forall|j: int| 0 <= j < n ==> !token_in(#[trigger] rs[j], t),
    ensures
        lookup(rs, t) == Some(n),
{
    lemma_lookup_first_from(rs, t, n, 0);
}

proof fn lemma_lookup_first_from(rs: Seq<SessionModel>, t: Seq<char>, n: int, i: int)
    requires
        0 <= i <= n < rs.len(),
        token_in(rs[n], t),
        forall|j: int| i <= j < n ==> !token_in(#[trigger] rs[j], t),
    ensures
        lookup_from(rs, t, i) == Some(n),
    decreases n - i,
{
    if i < n {
        lemma_lookup_first_from(rs, t, n, i + 1);
    }
}

/// Two registries whose sessions carry the same tokens agree on lookup.
pub proof fn lemma_lookup_same_tokens(rs1: Seq<SessionModel>, rs2: Seq<SessionModel>, t: Seq<char>)
    requires
        rs1.len() == rs2.len(),
        forall|i: int| 0 <= i < rs1.len() ==> (#[trigger] rs2[i]).white == rs1[i].white
            && rs2[i].black == rs1[i].black,
    ensures
        lookup(rs1, t) == lookup(rs2, t),
{
    lemma_lookup_same_tokens_from(rs1, rs2, t, 0);
}

proof fn lemma_lookup_same_tokens_from(
    rs1: Seq<SessionModel>,
    rs2: Seq<SessionModel>,
    t: Seq<char>,
    i: int,
)
    requires
        rs1.len() == rs2.len(),
        0 <= i <= rs1.len(),
        forall|k: int| 0 <= k < rs1.len() ==> (#[trigger] rs2[k]).white == rs1[k].white
            && rs2[k].black == rs1[k].black,
    ensures
        lookup_from(rs1, t, i) == lookup_from(rs2, t, i),
    decreases rs1.len() - i,
{
    if i >= 0 && i < rs1.len() && !token_in(rs1[i], t) {
        lemma_lookup_same_tokens_from(rs1, rs2, t, i + 1);
    }
}

/// The registry transition for `joinWhite`: the new registry and the result.
/// An unknown or wrong-slot token is `InvalidToken`; a second claim on the
/// white slot is `AlreadyClaimed`; otherwise the slot is confirmed.
pub open spec fn join_white_spec(rs: Seq<SessionModel>, t: Seq<char>) -> (
    Seq<SessionModel>,
    Result<(), BrokerError>,
) {
    match lookup(rs, t) {
        None => (rs, Err(BrokerError::InvalidToken)),
        Some(i) => {
            if rs[i].white != t {
                (rs, Err(BrokerError::InvalidToken))
            } else if rs[i].white_joined {
                (rs, Err(BrokerError::AlreadyClaimed))
            } else {
                (
                    rs.update(
                        i,
                        SessionModel {
                            white_joined: true,
                            white: rs[i].white,
                            black: rs[i].black,
                            black_joined: rs[i].black_joined,
                            terminated: rs[i].terminated,
                            hist: rs[i].hist,
                        },
                    ),
                    Ok(()),
                )
            }
        },
    }
}

/// The registry transition for `joinBlack`, the mirror of `join_white_spec`.
pub open spec fn join_black_spec(rs: Seq<SessionModel>, t: Seq<char>) -> (
    Seq<SessionModel>,
    Result<(), BrokerError>,
) {
    match lookup(rs, t) {
        None => (rs, Err(BrokerError::InvalidToken)),
        Some(i) => {
            if rs[i].black != t {
                (rs, Err(BrokerError::InvalidToken))
            } else if rs[i].black_joined {
                (rs, Err(BrokerError::AlreadyClaimed))
            } else {
                (
                    rs.update(
                        i,
                        SessionModel {
                            black_joined: true,
                            white: rs[i].white,
                            black: rs[i].black,
                            white_joined: rs[i].white_joined,
                            terminated: rs[i].terminated,
                            hist: rs[i].hist,
                        },
                    ),
                    Ok(()),
                )
            }
        },
    }
}

/// The registry transition for `submitMove`: an unknown token is
/// `InvalidToken`; a terminated session is `GameOver` and nothing changes; a
/// move the engine refuses is `IllegalMove` and nothing changes; a move it
/// accepts extends the session's history, refreshes the terminal flag and
/// returns the new position. A session accepts moves through either of its
/// tokens as soon as it exists: joining confirms a seat but does not gate
/// moves, and the engine alone judges whose turn it is.
pub open spec fn submit_spec(rs: Seq<SessionModel>, t: Seq<char>, m: Seq<char>) -> (
    Seq<SessionModel>,
    Result<Seq<char>, BrokerError>,
) {
    match lookup(rs, t) {
        None => (rs, Err(BrokerError::InvalidToken)),
        Some(i) => {
            if rs[i].terminated {
                (rs, Err(BrokerError::GameOver))
            } else if san_ok(rs[i].hist, m) {
                (
                    rs.update(
                        i,
                        SessionModel {
                            hist: rs[i].hist.push(m),
                            terminated: over_after(rs[i].hist.push(m)),
                            white: rs[i].white,
                            black: rs[i].black,
                            white_joined: rs[i].white_joined,
                            black_joined: rs[i].black_joined,
                        },
                    ),
                    Ok(fen_after(rs[i].hist.push(m))),
                )
            } else {
                (rs, Err(BrokerError::IllegalMove))
            }
        },
    }
}

/// The answer to `getPosition`: the engine's serialization of the session's
/// current position, or `InvalidToken`. Read-only.
pub open spec fn get_position_spec(rs: Seq<SessionModel>, t: Seq<char>) -> Result<
    Seq<char>,
    BrokerError,
> {
    match lookup(rs, t) {
        None => Err(BrokerError::InvalidToken),
        Some(i) => Ok(fen_after(rs[i].hist)),
    }
}

/// Maps an executable position result to its model.
pub open spec fn pos_res_view(r: Result<String, BrokerError>) -> Result<Seq<char>, BrokerError> {
    match r {
        Ok(s) => Ok(s@),
        Err(e) => Err(e),
    }
}

/// The registry: owns every session; all operations go through it.
pub struct SessionRegistry {
    pub sessions: Vec<GameSession>,
}

impl View for SessionRegistry {
    type V = Seq<SessionModel>;

    open spec fn view(&self) -> Seq<SessionModel> {
        Seq::new(self.sessions@.len() as nat, |i: int| self.sessions@[i]@)
    }
}

impl SessionRegistry {
    /// Well-formed: every session is. Tokens are unique only
    /// probabilistically (the documented policy), so a session is looked up
    /// by the first match on either of its tokens.
    pub open spec fn wf(&self) -> bool {
        forall|i: int| 0 <= i < self.sessions@.len() ==> (#[trigger] self.sessions@[i]).wf()
    }

    /// An empty registry.
    pub fn new() -> (r: Self)
        ensures
            r.wf(),
            r@ == Seq::<SessionModel>::empty(),
    {
        let r = SessionRegistry { sessions: Vec::new() };
        proof {
            assert(r@ =~= Seq::<SessionModel>::empty());
        }
        r
    }

    /// Whether some session holds `t` as one of its tokens.
    pub fn has_token(&self, t: &String) -> (r: bool)
        ensures
            r == (lookup(self@, t@) is Some),
    {
        let n = self.sessions.len();
        let mut i: usize = 0;
        while i < n
            invariant
                0 <= i <= n,
                n == self.sessions@.len(),
                forall|j: int| 0 <= j < i ==> !token_in(#[trigger] self@[j], t@),
            decreases n - i,
        {
            let s = &self.sessions[i];
            if s.id_white == *t || s.id_black == *t {
                proof {
                    assert(token_in(self@[i as int], t@));
                    lemma_lookup(self@, t@);
                }
                return true;
            }
            i += 1;
        }
        proof {
            lemma_lookup(self@, t@);
        }
        false
    }

    /// Finds the session `t` identifies.
    fn find_session(&self, t: &String) -> (r: Option<usize>)
        ensures
            match r {
                Some(i) => i < self.sessions@.len() && lookup(self@, t@) == Some(i as int),
                None => lookup(self@, t@) is None,
            },
    {
        let n = self.sessions.len();
        let mut i: usize = 0;
        while i < n
            invariant
                0 <= i <= n,
                n == self.sessions@.len(),
                forall|j: int| 0 <= j < i ==> !token_in(#[trigger] self@[j], t@),
            decreases n - i,
        {
            let s = &self.sessions[i];
            if s.id_white == *t || s.id_black == *t {
                proof {
                    assert(token_in(self@[i as int], t@));
                    lemma_lookup_first(self@, t@, i as int);
                }
                return Some(i);
            }
            i += 1;
        }
        proof {
            lemma_lookup(self@, t@);
        }
        None
    }

    /// Creates a session: two fresh random tokens, distinct from each
    /// other, and a board at the initial position. Never fails. Uniqueness
    /// against earlier sessions is probabilistic only (the documented
    /// policy): whenever the tokens are new to the registry, `getPosition`
    /// with either of them yields the initial FEN.
    pub fn create_session(&mut self) -> (r: (String, String))
        requires
            old(self).wf(),
        ensures
            final(self).wf(),
            valid_token(r.0@),
            valid_token(r.1@),
            r.0@ != r.1@,
            final(self)@ == old(self)@.push(fresh_session(r.0@, r.1@)),
            lookup(old(self)@, r.0@) is None ==> get_position_spec(final(self)@, r.0@)
                == Ok::<Seq<char>, BrokerError>(initial_fen()),
            lookup(old(self)@, r.1@) is None ==> get_position_spec(final(self)@, r.1@)
                == Ok::<Seq<char>, BrokerError>(initial_fen()),
    {
        let w = generate_id();
        let mut b = generate_id();
        if b == w {
            b = alter_first(&b);
        }
        let board = board_new();
        proof {
            assert(fen_after(Seq::<Seq<char>>::empty()) == initial_fen());
        }
        let session = GameSession {
            id_white: w.clone(),
            id_black: b.clone(),
            board,
            white_joined: false,
            black_joined: false,
            terminated: false,
            moved: false,
        };
        let ghost old_model = self@;
        let ghost m = session@;
        self.sessions.push(session);
        proof {
            assert(self@ =~= old_model.push(m));
            let n = old_model.len() as int;
            if lookup(old_model, w@) is None {
                lemma_lookup(old_model, w@);
                lemma_lookup_first(self@, w@, n);
            }
            if lookup(old_model, b@) is None {
                lemma_lookup(old_model, b@);
                lemma_lookup_first(self@, b@, n);
            }
        }
        (w, b)
    }

    /// Confirms the white seat of the session `t` names as its white token.
    pub fn join_white(&mut self, t: &String) -> (r: Result<(), BrokerError>)
        requires
            old(self).wf(),
        ensures
            final(self).wf(),
            final(self)@ == join_white_spec(old(self)@, t@).0,
            r == join_white_spec(old(self)@, t@).1,
    {
        match self.find_session(t) {
            None => Err(BrokerError::InvalidToken),
            Some(i) => {
                if !(self.sessions[i].id_white == *t) {
                    Err(BrokerError::InvalidToken)
                } else if self.sessions[i].white_joined {
                    Err(BrokerError::AlreadyClaimed)
                } else {
                    let ghost old_model = self@;
                    let mut s = self.sessions.remove(i);
                    s.white_joined = true;
                    self.sessions.insert(i, s);
                    proof {
                        assert(self@ =~= old_model.update(
                            i as int,
                            join_white_spec(old_model, t@).0[i as int],
                        ));
                        lemma_lookup_same_tokens(old_model, self@, t@);
                        assert(self.wf()) by {
                            assert(forall|k: int|
                                0 <= k < self.sessions@.len() ==> (#[trigger] self.sessions@[k]).wf());
                        }
                    }
                    Ok(())
                }
            },
        }
    }

    /// Confirms the black seat of the session `t` names as its black token.
    pub fn join_black(&mut self, t: &String) -> (r: Result<(), BrokerError>)
        requires
            old(self).wf(),
        ensures
            final(self).wf(),
            final(self)@ == join_black_spec(old(self)@, t@).0,
            r == join_black_spec(old(self)@, t@).1,
    {
        match self.find_session(t) {
            None => Err(BrokerError::InvalidToken),
            Some(i) => {
                if !(self.sessions[i].id_black == *t) {
                    Err(BrokerError::InvalidToken)
                } else if self.sessions[i].black_joined {
                    Err(BrokerError::AlreadyClaimed)
                } else {
                    let ghost old_model = self@;
                    let mut s = self.sessions.remove(i);
                    s.black_joined = true;
                    self.sessions.insert(i, s);
                    proof {
                        assert(self@ =~= old_model.update(
                            i as int,
                            join_black_spec(old_model, t@).0[i as int],
                        ));
                        lemma_lookup_same_tokens(old_model, self@, t@);
                    }
                    Ok(())
                }
            },
        }
    }

    /// Forwards a move to the engine for the session `t` identifies, commits
    /// the new position on success and reports the new serialization.
    pub fn submit_move(&mut self, t: &String, mv: &str) -> (r: Result<String, BrokerError>)
        requires
            old(self).wf(),
        ensures
            final(self).wf(),
            final(self)@ == submit_spec(old(self)@, t@, mv@).0,
            pos_res_view(r) == submit_spec(old(self)@, t@, mv@).1,
    {
        match self.find_session(t) {
            None => Err(BrokerError::InvalidToken),
            Some(i) => {
                if self.sessions[i].terminated {
                    Err(BrokerError::GameOver)
                } else {
                    let ghost old_model = self@;
                    let mut s = self.sessions.remove(i);
                    let accepted = board_apply(&mut s.board, mv);
                    if accepted {
                        s.moved = true;
                        s.terminated = board_over(&s.board);
                        let fen = board_fen(&s.board);
                        self.sessions.insert(i, s);
                        proof {
                            assert(self@ =~= old_model.update(
                                i as int,
                                submit_spec(old_model, t@, mv@).0[i as int],
                            ));
                            lemma_lookup_same_tokens(old_model, self@, t@);
                        }
                        Ok(fen)
                    } else {
                        self.sessions.insert(i, s);
                        proof {
                            assert(self@ =~= old_model);
                        }
                        Err(BrokerError::IllegalMove)
                    }
                }
            },
        }
    }

    /// Returns the engine's serialization of the current position of the
    /// session `t` identifies. Read-only.
    pub fn get_position(&self, t: &String) -> (r: Result<String, BrokerError>)
        ensures
            pos_res_view(r) == get_position_spec(self@, t@),
    {
        match self.find_session(t) {
            None => Err(BrokerError::InvalidToken),
            Some(i) => {
                let fen = board_fen(&self.sessions[i].board);
                Ok(fen)
            },
        }
    }
}

} // verus!
