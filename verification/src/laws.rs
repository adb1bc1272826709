use crate::error::Error;
use crate::resolver::{Action, Attempt, EventView, Machine, Phase};
use crate::udp::{DgramSocket, UdpEndpoint};
use vstd::prelude::*;

verus! {

/// How an establishment went: the action that ended it, and the candidates
/// that were tried, in the order in which they were tried.
pub struct Run {
    pub last: Action,
    pub tried: Seq<UdpEndpoint>,
}

/// The action that asks for the candidate in flight to be tried.
pub open spec fn in_flight(m: Machine) -> Action {
    Action::Attempt(m.candidates[m.next as int].spec_protocol(), m.candidates[m.next as int])
}

/// Plays an establishment to its end against collaborators that answer the
/// attempt on the candidate at `i` with `world[i]`.
pub open spec fn play(m: Machine, action: Action, world: Seq<Attempt>) -> Run
    decreases world.len() - m.next,
{
    if action is Attempt && m.phase == Phase::Attempting && m.next < world.len() {
        let (after, reply) = m.advance(EventView::Attempted(world[m.next as int]));
        let rest = if m.next < after.next <= world.len() {
            play(after, reply, world)
        } else {
            Run { last: reply, tried: Seq::empty() }
        };
        Run { last: rest.last, tried: seq![m.candidates[m.next as int]] + rest.tried }
    } else {
        Run { last: action, tried: Seq::empty() }
    }
}

/// A whole establishment, for a waiting caller or (`deferred`) for a
/// continuation, from the moment resolution has given `candidates`.
pub open spec fn establish(deferred: bool, candidates: Seq<UdpEndpoint>, world: Seq<Attempt>) -> Run {
    let (m, action) = Machine::start(deferred).advance(EventView::Resolved(candidates));
    play(m, action, world)
}

/// What the one who asked gets to see of the action that ended an
/// establishment, however it reaches them.
pub open spec fn outcome(action: Action) -> Option<Result<(DgramSocket, UdpEndpoint), Error>> {
    match action {
        Action::Deliver(r) => Some(r),
        Action::Post(e) => Some(Err(e)),
        _ => None,
    }
}

/// The action that ends an establishment at candidate `ep` when the attempt
/// on it did not end in a failed connect.
pub open spec fn settle(deferred: bool, ep: UdpEndpoint, attempt: Attempt) -> Action {
    match attempt {
        Attempt::Connected(socket) => Action::Deliver(Ok((socket, ep))),
        Attempt::SocketFailed(code) => if deferred {
            Action::Post(Error::Construction(code))
        } else {
            Action::Deliver(Err(Error::Construction(code)))
        },
        Attempt::ConnectFailed(code) => Action::Ignore,
    }
}

/// From a candidate in flight, failed connects lead on to the first
/// candidate `k` whose attempt ends otherwise: that attempt ends the
/// establishment, and the candidates from the one in flight up to `k` were
/// tried, each once and in order.
pub proof fn lemma_play_settles(m: Machine, world: Seq<Attempt>, k: int)
    requires
        m.phase == Phase::Attempting,
        world.len() == m.candidates.len(),
        m.next <= k < m.candidates.len(),
        forall|i: int| m.next <= i < k ==> world[i] is ConnectFailed,
        !(world[k] is ConnectFailed),
    ensures
        play(m, in_flight(m), world) == (Run {
            last: settle(m.deferred, m.candidates[k], world[k]),
            tried: m.candidates.subrange(m.next as int, k + 1),
        }),
    decreases k - m.next,
{
    let (after, reply) = m.advance(EventView::Attempted(world[m.next as int]));
    let here = seq![m.candidates[m.next as int]];
    if m.next == k {
        assert(after.next == m.next);
        assert(here + Seq::<UdpEndpoint>::empty() =~= m.candidates.subrange(m.next as int, k + 1));
    } else {
        assert(world[m.next as int] is ConnectFailed);
        assert(after.next == m.next + 1);
        assert(reply == in_flight(after));
        lemma_play_settles(after, world, k);
        assert(here + m.candidates.subrange(after.next as int, k + 1) =~= m.candidates.subrange(
            m.next as int,
            k + 1,
        ));
    }
}

/// From a candidate in flight, if every connect from there on fails, every
/// candidate left is tried, each once and in order, and the establishment
/// ends in an error: for a waiting caller the error of the last connect,
/// for a continuation "host not found".
pub proof fn lemma_play_exhausts(m: Machine, world: Seq<Attempt>)
    requires
        m.phase == Phase::Attempting,
        world.len() == m.candidates.len(),
        m.next < m.candidates.len(),
        forall|i: int| m.next <= i < world.len() ==> world[i] is ConnectFailed,
    ensures
        play(m, in_flight(m), world) == (Run {
            last: if m.deferred {
                Action::Post(Error::HostNotFound)
            } else {
                Action::Deliver(Err(Error::Connect(world[world.len() - 1]->ConnectFailed_0)))
            },
            tried: m.candidates.subrange(m.next as int, m.candidates.len() as int),
        }),
    decreases m.candidates.len() - m.next,
{
    let (after, reply) = m.advance(EventView::Attempted(world[m.next as int]));
    let here = seq![m.candidates[m.next as int]];
    let len = m.candidates.len() as int;
    assert(world[m.next as int] is ConnectFailed);
    assert(after.next == m.next + 1);
    if m.next + 1 == len {
        assert(after.phase == Phase::Failed);
        assert(play(after, reply, world) == (Run { last: reply, tried: Seq::empty() }));
        assert(here + Seq::<UdpEndpoint>::empty() =~= m.candidates.subrange(m.next as int, len));
    } else {
        assert(reply == in_flight(after));
        lemma_play_exhausts(after, world);
        assert(here + m.candidates.subrange(after.next as int, len) =~= m.candidates.subrange(
            m.next as int,
            len,
        ));
    }
}

/// Two establishments over the same candidates, one for a waiting caller
/// and one for a continuation, with the same candidate in flight: if some
/// attempt from there on ends otherwise than in a failed connect (`j` is
/// one), both try the same candidates and end in the same outcome.
pub proof fn lemma_play_agrees(blocking: Machine, deferred: Machine, world: Seq<Attempt>, j: int)
    requires
        blocking.phase == Phase::Attempting,
        deferred.phase == Phase::Attempting,
        !blocking.deferred,
        deferred.deferred,
        blocking.candidates == deferred.candidates,
        blocking.next == deferred.next,
        world.len() == blocking.candidates.len(),
        blocking.next <= j < world.len(),
        !(world[j] is ConnectFailed),
    ensures
        outcome(play(blocking, in_flight(blocking), world).last) == outcome(
            play(deferred, in_flight(deferred), world).last,
        ),
        play(blocking, in_flight(blocking), world).tried == play(
            deferred,
            in_flight(deferred),
            world,
        ).tried,
    decreases world.len() - blocking.next,
{
    let at = blocking.next as int;
    let (b_after, b_reply) = blocking.advance(EventView::Attempted(world[at]));
    let (d_after, d_reply) = deferred.advance(EventView::Attempted(world[at]));
    if world[at] is ConnectFailed {
        assert(at < j);
        assert(b_reply == in_flight(b_after));
        assert(d_reply == in_flight(d_after));
        lemma_play_agrees(b_after, d_after, world, j);
    } else {
        assert(b_after.next == blocking.next);
        assert(d_after.next == deferred.next);
    }
}

/// Where the first candidate that does not fail to connect is candidate `k`
/// and it connects, the establishment hands out the connected socket with
/// the endpoint of candidate `k`, and the candidates tried are those up to
/// and including `k`: none after it.
pub proof fn law_first_success_wins(
    deferred: bool,
    candidates: Seq<UdpEndpoint>,
    world: Seq<Attempt>,
    k: int,
)
    requires
        world.len() == candidates.len(),
        0 <= k < candidates.len(),
        forall|i: int| 0 <= i < k ==> world[i] is ConnectFailed,
        world[k] is Connected,
    ensures
        establish(deferred, candidates, world).last == Action::Deliver(
            Ok((world[k]->Connected_0, candidates[k])),
        ),
        establish(deferred, candidates, world).tried == candidates.take(k + 1),
{
    let (m, action) = Machine::start(deferred).advance(EventView::Resolved(candidates));
    assert(action == in_flight(m));
    lemma_play_settles(m, world, k);
    assert(candidates.subrange(0, k + 1) =~= candidates.take(k + 1));
}

/// Where a socket cannot be opened for candidate `k`, after failed connects
/// to all before it, the establishment ends with that construction error
/// and tries no candidate after `k`.
pub proof fn law_construction_failure_aborts(
    deferred: bool,
    candidates: Seq<UdpEndpoint>,
    world: Seq<Attempt>,
    k: int,
)
    requires
        world.len() == candidates.len(),
        0 <= k < candidates.len(),
        forall|i: int| 0 <= i < k ==> world[i] is ConnectFailed,
        world[k] is SocketFailed,
    ensures
        outcome(establish(deferred, candidates, world).last) == Some(
            Err::<(DgramSocket, UdpEndpoint), Error>(
                Error::Construction(world[k]->SocketFailed_0),
            ),
        ),
        establish(deferred, candidates, world).tried == candidates.take(k + 1),
{
    let (m, action) = Machine::start(deferred).advance(EventView::Resolved(candidates));
    assert(action == in_flight(m));
    lemma_play_settles(m, world, k);
    assert(candidates.subrange(0, k + 1) =~= candidates.take(k + 1));
}

/// Where there are candidates and the connect to each of them fails, a
/// waiting caller gets the error of the last candidate, and every candidate
/// was tried once, in order.
pub proof fn law_last_error_wins(candidates: Seq<UdpEndpoint>, world: Seq<Attempt>)
    requires
        world.len() == candidates.len(),
        candidates.len() > 0,
        forall|i: int| 0 <= i < world.len() ==> world[i] is ConnectFailed,
    ensures
        establish(false, candidates, world).last == Action::Deliver(
            Err(Error::Connect(world[world.len() - 1]->ConnectFailed_0)),
        ),
        establish(false, candidates, world).tried == candidates,
{
    let (m, action) = Machine::start(false).advance(EventView::Resolved(candidates));
    assert(action == in_flight(m));
    lemma_play_exhausts(m, world);
    assert(candidates.subrange(0, candidates.len() as int) =~= candidates);
}

/// Where there are candidates and the connect to each of them fails, a
/// continuation gets "host not found", posted, and every candidate was
/// tried once, in order.
pub proof fn law_deferred_exhaustion(candidates: Seq<UdpEndpoint>, world: Seq<Attempt>)
    requires
        world.len() == candidates.len(),
        candidates.len() > 0,
        forall|i: int| 0 <= i < world.len() ==> world[i] is ConnectFailed,
    ensures
        establish(true, candidates, world).last == Action::Post(Error::HostNotFound),
        establish(true, candidates, world).tried == candidates,
{
    let (m, action) = Machine::start(true).advance(EventView::Resolved(candidates));
    assert(action == in_flight(m));
    lemma_play_exhausts(m, world);
    assert(candidates.subrange(0, candidates.len() as int) =~= candidates);
}

/// With no candidate the outcome is "host not found", and nothing is tried.
pub proof fn law_empty_is_host_not_found(deferred: bool, world: Seq<Attempt>)
    ensures
        outcome(establish(deferred, Seq::empty(), world).last) == Some(
            Err::<(DgramSocket, UdpEndpoint), Error>(Error::HostNotFound),
        ),
        establish(deferred, Seq::empty(), world).tried == Seq::<UdpEndpoint>::empty(),
{
}

/// A waiting caller and a continuation get the same outcome, after the same
/// attempts, from the same candidates and the same collaborators, unless
/// there are candidates and the connect to each of them fails.
pub proof fn law_forms_agree(candidates: Seq<UdpEndpoint>, world: Seq<Attempt>)
    requires
        world.len() == candidates.len(),
        candidates.len() == 0 || exists|j: int|
            0 <= j < world.len() && !(#[trigger] world[j] is ConnectFailed),
    ensures
        outcome(establish(false, candidates, world).last) == outcome(
            establish(true, candidates, world).last,
        ),
        establish(false, candidates, world).tried == establish(true, candidates, world).tried,
{
    if candidates.len() > 0 {
        let j = choose|j: int| 0 <= j < world.len() && !(#[trigger] world[j] is ConnectFailed);
        let (b, b_action) = Machine::start(false).advance(EventView::Resolved(candidates));
        let (d, d_action) = Machine::start(true).advance(EventView::Resolved(candidates));
        assert(b_action == in_flight(b));
        assert(d_action == in_flight(d));
        lemma_play_agrees(b, d, world, j);
    }
}

/// A failed resolution ends the establishment with the resolution error,
/// and no candidate is tried.
pub proof fn law_resolution_failure(deferred: bool, code: i32)
    ensures
        outcome(Machine::start(deferred).advance(EventView::ResolveFailed(code)).1) == Some(
            Err::<(DgramSocket, UdpEndpoint), Error>(Error::Resolution(code)),
        ),
        Machine::start(deferred).advance(EventView::ResolveFailed(code)).0.phase == Phase::Failed,
{
}

/// An establishment for a continuation hands an outcome out directly only
/// when a connect has completed with success; every other end, a failed
/// resolution among them, is posted.
pub proof fn law_continuation_deferred(m: Machine, event: EventView)
    requires
        m.deferred,
    ensures
        m.advance(event).1 is Deliver ==> m.phase == Phase::Attempting && event matches EventView::Attempted(
            Attempt::Connected(_),
        ),
        m.advance(event).0.deferred,
{
}

/// A step keeps the state well formed, as long as resolution hands out
/// only candidates that have a protocol.
pub proof fn law_advance_keeps_wf(m: Machine, event: EventView)
    requires
        m.wf(),
        event matches EventView::Resolved(candidates) ==> forall|i: int|
            0 <= i < candidates.len() ==> (#[trigger] candidates[i]).is_ip(),
    ensures
        m.advance(event).0.wf(),
{
}

/// An establishment hands out one outcome and no more: a step hands one
/// out exactly when it ends the establishment, a connected socket exactly
/// when it ends in success, and after the end every event is ignored.
pub proof fn law_one_outcome(m: Machine, event: EventView)
    ensures
        outcome(m.advance(event).1) is Some <==> !m.is_over() && m.advance(event).0.is_over(),
        outcome(m.advance(event).1) matches Some(Ok(_)) <==> !m.is_over() && m.advance(
            event,
        ).0.phase == Phase::Succeeded,
        m.is_over() ==> m.advance(event) == (m, Action::Ignore),
{
}

} // verus!
