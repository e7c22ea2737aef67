//! The laws of the registry, proved once and for all over its transition
//! functions. Each proof function states one guarantee of the broker; their
//! `requires` hold only the case split of the law itself.

use vstd::prelude::*;
use crate::registry::SessionModel;
use crate::registry::BrokerError;
use crate::registry::token_in;
use crate::registry::lookup;
use crate::registry::lemma_lookup;
use crate::registry::lemma_lookup_first;
use crate::registry::lemma_lookup_same_tokens;
use crate::registry::fresh_session;
use crate::registry::join_white_spec;
use crate::registry::join_black_spec;
use crate::registry::submit_spec;
use crate::registry::get_position_spec;
use crate::engine::san_ok;
use crate::engine::fen_after;

verus! {

/// Joining as white: an unknown or wrong-slot token fails with
/// `InvalidToken`; a valid, unclaimed white token succeeds and confirms only
/// that seat; a repeated claim fails with `AlreadyClaimed`. Failures leave
/// the registry unchanged.
pub proof fn law_join_white(rs: Seq<SessionModel>, t: Seq<char>)
    ensures
        match lookup(rs, t) {
            None => join_white_spec(rs, t).0 == rs && join_white_spec(rs, t).1 == Err::<
                (),
                BrokerError,
            >(BrokerError::InvalidToken),
            Some(i) => {
                &&& (rs[i].white != t ==> join_white_spec(rs, t).0 == rs && join_white_spec(
                    rs,
                    t,
                ).1 == Err::<(), BrokerError>(BrokerError::InvalidToken))
                &&& (rs[i].white == t && rs[i].white_joined ==> join_white_spec(rs, t).0 == rs
                    && join_white_spec(rs, t).1 == Err::<(), BrokerError>(
                    BrokerError::AlreadyClaimed,
                ))
                &&& (rs[i].white == t && !rs[i].white_joined ==> join_white_spec(rs, t).1 == Ok::<
                    (),
                    BrokerError,
                >(()) && join_white_spec(rs, t).0[i].white_joined && (forall|j: int|
                    0 <= j < rs.len() && j != i ==> join_white_spec(rs, t).0[j] == rs[j]))
            },
        },
{
    lemma_lookup(rs, t);
}

/// Joining as black, the mirror of `law_join_white`.
pub proof fn law_join_black(rs: Seq<SessionModel>, t: Seq<char>)
    ensures
        match lookup(rs, t) {
            None => join_black_spec(rs, t).0 == rs && join_black_spec(rs, t).1 == Err::<
                (),
                BrokerError,
            >(BrokerError::InvalidToken),
            Some(i) => {
                &&& (rs[i].black != t ==> join_black_spec(rs, t).0 == rs && join_black_spec(
                    rs,
                    t,
                ).1 == Err::<(), BrokerError>(BrokerError::InvalidToken))
                &&& (rs[i].black == t && rs[i].black_joined ==> join_black_spec(rs, t).0 == rs
                    && join_black_spec(rs, t).1 == Err::<(), BrokerError>(
                    BrokerError::AlreadyClaimed,
                ))
                &&& (rs[i].black == t && !rs[i].black_joined ==> join_black_spec(rs, t).1 == Ok::<
                    (),
                    BrokerError,
                >(()) && join_black_spec(rs, t).0[i].black_joined && (forall|j: int|
                    0 <= j < rs.len() && j != i ==> join_black_spec(rs, t).0[j] == rs[j]))
            },
        },
{
    lemma_lookup(rs, t);
}

/// A session created with tokens the registry has not seen is discoverable
/// by either of its two tokens, and its stored position is the engine's
/// serialization of the empty history — the initial position.
pub proof fn law_created_discoverable(rs: Seq<SessionModel>, w: Seq<char>, b: Seq<char>)
    requires
        lookup(rs, w) is None,
        lookup(rs, b) is None,
    ensures
        lookup(rs.push(fresh_session(w, b)), w) == Some(rs.len() as int),
        lookup(rs.push(fresh_session(w, b)), b) == Some(rs.len() as int),
        get_position_spec(rs.push(fresh_session(w, b)), w) == Ok::<Seq<char>, BrokerError>(
            fen_after(Seq::empty()),
        ),
        get_position_spec(rs.push(fresh_session(w, b)), b) == Ok::<Seq<char>, BrokerError>(
            fen_after(Seq::empty()),
        ),
{
    let post = rs.push(fresh_session(w, b));
    lemma_lookup(rs, w);
    lemma_lookup(rs, b);
    lemma_lookup_first(post, w, rs.len() as int);
    lemma_lookup_first(post, b, rs.len() as int);
}

/// Submitting with a token no session holds fails with `InvalidToken` and
/// changes nothing.
pub proof fn law_submit_unknown(rs: Seq<SessionModel>, t: Seq<char>, m: Seq<char>)
    requires
        lookup(rs, t) is None,
    ensures
        submit_spec(rs, t, m).0 == rs,
        submit_spec(rs, t, m).1 == Err::<Seq<char>, BrokerError>(BrokerError::InvalidToken),
        get_position_spec(rs, t) == Err::<Seq<char>, BrokerError>(BrokerError::InvalidToken),
{
}

/// A move the engine accepts extends exactly the owning session's history;
/// the returned position is the new serialization, and `getPosition` with
/// the same token afterwards reflects exactly that move. Other sessions are
/// untouched.
pub proof fn law_submit_legal(rs: Seq<SessionModel>, t: Seq<char>, m: Seq<char>, i: int)
    requires
        lookup(rs, t) == Some(i),
        !rs[i].terminated,
        san_ok(rs[i].hist, m),
    ensures
        submit_spec(rs, t, m).1 == Ok::<Seq<char>, BrokerError>(fen_after(rs[i].hist.push(m))),
        submit_spec(rs, t, m).0[i].hist == rs[i].hist.push(m),
        get_position_spec(submit_spec(rs, t, m).0, t) == Ok::<Seq<char>, BrokerError>(
            fen_after(rs[i].hist.push(m)),
        ),
        forall|j: int| 0 <= j < rs.len() && j != i ==> submit_spec(rs, t, m).0[j] == rs[j],
{
    lemma_lookup(rs, t);
    let post = submit_spec(rs, t, m).0;
    lemma_lookup_same_tokens(rs, post, t);
}

/// A move the engine refuses fails with `IllegalMove` and leaves the
/// registry — in particular the stored position — unchanged.
pub proof fn law_submit_illegal(rs: Seq<SessionModel>, t: Seq<char>, m: Seq<char>, i: int)
    requires
        lookup(rs, t) == Some(i),
        !rs[i].terminated,
        !san_ok(rs[i].hist, m),
    ensures
        submit_spec(rs, t, m).0 == rs,
        submit_spec(rs, t, m).1 == Err::<Seq<char>, BrokerError>(BrokerError::IllegalMove),
        get_position_spec(submit_spec(rs, t, m).0, t) == get_position_spec(rs, t),
{
    lemma_lookup(rs, t);
}

/// A move against a terminated session always fails with `GameOver` and
/// leaves the registry — in particular the stored position — unchanged.
pub proof fn law_submit_terminated(rs: Seq<SessionModel>, t: Seq<char>, m: Seq<char>, i: int)
    requires
        lookup(rs, t) == Some(i),
        rs[i].terminated,
    ensures
        submit_spec(rs, t, m).0 == rs,
        submit_spec(rs, t, m).1 == Err::<Seq<char>, BrokerError>(BrokerError::GameOver),
        get_position_spec(submit_spec(rs, t, m).0, t) == get_position_spec(rs, t),
{
    lemma_lookup(rs, t);
}

/// `getPosition` answers exactly for the session the token identifies, and
/// fails with `InvalidToken` exactly when no session holds the token.
pub proof fn law_get_position(rs: Seq<SessionModel>, t: Seq<char>)
    ensures
        match lookup(rs, t) {
            None => get_position_spec(rs, t) == Err::<Seq<char>, BrokerError>(
                BrokerError::InvalidToken,
            ) && (forall|j: int| 0 <= j < rs.len() ==> !token_in(#[trigger] rs[j], t)),
            Some(i) => get_position_spec(rs, t) == Ok::<Seq<char>, BrokerError>(
                fen_after(rs[i].hist),
            ) && token_in(rs[i], t),
        },
{
    lemma_lookup(rs, t);
}

} // verus!

