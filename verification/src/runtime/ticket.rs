//! Tickets that wait for results computed by Node.js: a registry of the tickets that wait,
//! with the results that arrived for them.

use vstd::prelude::*;

use std::collections::HashMap;
use std::task::Waker;

verus! {

broadcast use vstd::std_specs::hash::group_hash_axioms;

/// The waker of an asynchronous task.
#[verifier::external_type_specification]
#[verifier::external_body]
pub struct ExWaker(Waker);

/// Wakes the task of a waker, by `Waker::wake_by_ref`. Nothing is stated of it: it only
/// schedules the task to be polled again.
#[verifier::external_body]
fn wake(waker: &Waker) {
    waker.wake_by_ref();
}

/// Identifies a ticket.
#[derive(Debug, Clone, Copy, PartialEq, Eq, Hash, Structural)]
pub struct TicketId(pub u32);

/// A ticket waits for a result from Node.js. Its id is passed to the Node.js function, which
/// hands the result back under that id.
pub struct Ticket {
    pub id: TicketId,
}

/// A ticket that waits, with the result that arrived for it, if any.
pub struct StringTicket {
    pub waker: Waker,
    pub result: Option<String>,
}

/// The registry of tickets.
pub struct TicketRegistry {
    pub next_id: u32,
    pub string_tickets: HashMap<u32, StringTicket>,
}

/// The content of an optional string.
pub open spec fn opt_string_view(o: Option<String>) -> Option<Seq<char>> {
    match o {
        Some(s) => Some(s@),
        None => None,
    }
}

/// The tickets that wait, by id, with the result that arrived for each.
pub open spec fn waiting_results(m: Map<u32, StringTicket>) -> Map<u32, Option<Seq<char>>> {
    Map::new(|k: u32| m.contains_key(k), |k: u32| opt_string_view(m[k].result))
}

/// The tickets after a ticket registers to wait: it waits with no result.
pub open spec fn registered(m: Map<u32, Option<Seq<char>>>, id: u32) -> Map<u32, Option<Seq<char>>> {
    m.insert(id, None)
}

/// The tickets after a result arrives for a waiting ticket.
pub open spec fn received(m: Map<u32, Option<Seq<char>>>, id: u32, result: Seq<char>) -> Map<
    u32,
    Option<Seq<char>>,
> {
    m.insert(id, Some(result))
}

/// Taking the result of a waiting ticket: the result, which the ticket then stops waiting
/// for; or none, and the ticket waits on.
pub open spec fn take_outcome(m: Map<u32, Option<Seq<char>>>, id: u32) -> (
    Option<Seq<char>>,
    Map<u32, Option<Seq<char>>>,
) {
    match m[id] {
        Some(s) => (Some(s), m.remove(id)),
        None => (None, m),
    }
}

impl TicketRegistry {
    /// The tickets that wait, by id, with their results.
    pub open spec fn results(&self) -> Map<u32, Option<Seq<char>>> {
        waiting_results(self.string_tickets@)
    }

    /// The wakers of the tickets that wait, by id.
    pub open spec fn wakers(&self) -> Map<u32, Waker> {
        Map::new(|k: u32| self.string_tickets@.contains_key(k), |k: u32| self.string_tickets@[k].waker)
    }

    /// A registry where no ticket was issued.
    pub fn new() -> (r: Self)
        ensures
            r.next_id == 0,
            r.results() == Map::<u32, Option<Seq<char>>>::empty(),
    {
        let r = TicketRegistry { next_id: 0, string_tickets: HashMap::new() };
        assert(r.results() =~= Map::<u32, Option<Seq<char>>>::empty());
        r
    }

    /// Issues a new ticket, with the next id.
    pub fn issue(&mut self) -> (t: Ticket)
        requires
            old(self).next_id < u32::MAX,
        ensures
            t.id.0 == old(self).next_id,
            final(self).next_id == old(self).next_id + 1,
            final(self).results() == old(self).results(),
    {
        let id = self.next_id;
        self.next_id += 1;
        Ticket { id: TicketId(id) }
    }

    /// Registers a ticket which got a waker; it then waits with no result.
    pub fn register_ticket(&mut self, id: TicketId, waker: Waker) -> (t: Ticket)
        ensures
            t.id == id,
            final(self).next_id == old(self).next_id,
            final(self).results() == registered(old(self).results(), id.0),
            final(self).wakers() == old(self).wakers().insert(id.0, waker),
    {
        self.string_tickets.insert(id.0, StringTicket { waker, result: None });
        assert(self.results() =~= registered(old(self).results(), id.0));
        assert(self.wakers() =~= old(self).wakers().insert(id.0, waker));
        Ticket { id }
    }

    /// Takes the result of a waiting ticket: where one arrived, the ticket stops waiting.
    pub fn take_result(&mut self, id: TicketId) -> (r: Option<String>)
        requires
            old(self).results().contains_key(id.0),
        ensures
            opt_string_view(r) == take_outcome(old(self).results(), id.0).0,
            final(self).results() == take_outcome(old(self).results(), id.0).1,
            r is Some ==> final(self).wakers() == old(self).wakers().remove(id.0),
            r is None ==> final(self).string_tickets@ == old(self).string_tickets@,
            final(self).next_id == old(self).next_id,
    {
        let ticket = match self.string_tickets.remove(&id.0) {
            Some(t) => t,
            None => {
                assert(false);
                return None;
            },
        };
        match ticket.result {
            Some(result) => {
                assert(self.results() =~= old(self).results().remove(id.0));
                assert(self.wakers() =~= old(self).wakers().remove(id.0));
                Some(result)
            },
            None => {
                let ghost t = ticket;
                self.string_tickets.insert(id.0, ticket);
                assert(self.string_tickets@ =~= old(self).string_tickets@);
                assert(self.results() =~= old(self).results());
                None
            },
        }
    }

    /// Hands the result from Node.js to a waiting ticket and wakes its task.
    pub fn receive_result(&mut self, id: TicketId, result: String)
        requires
            old(self).results().contains_key(id.0),
        ensures
            final(self).results() == received(old(self).results(), id.0, result@),
            final(self).wakers() == old(self).wakers(),
            final(self).next_id == old(self).next_id,
    {
        let ghost r = result@;
        let ticket = match self.string_tickets.remove(&id.0) {
            Some(t) => t,
            None => {
                assert(false);
                return ;
            },
        };
        let waiting = StringTicket { waker: ticket.waker, result: Some(result) };
        wake(&waiting.waker);
        self.string_tickets.insert(id.0, waiting);
        assert(self.results() =~= received(old(self).results(), id.0, r));
        assert(self.wakers() =~= old(self).wakers());
    }

    /// Polls a ticket: its result where one arrived, and the ticket stops waiting; else the
    /// ticket waits, with the given waker, also where it did not wait before.
    pub fn poll_ticket(&mut self, id: TicketId, waker: Waker) -> (r: Option<String>)
        ensures
            opt_string_view(r) == (if old(self).results().contains_key(id.0) {
                take_outcome(old(self).results(), id.0).0
            } else {
                None
            }),
            r is Some ==> final(self).results() == old(self).results().remove(id.0)
                && final(self).wakers() == old(self).wakers().remove(id.0),
            r is None ==> final(self).results() == registered(old(self).results(), id.0)
                && final(self).wakers() == old(self).wakers().insert(id.0, waker),
            final(self).next_id == old(self).next_id,
    {
        if !self.string_tickets.contains_key(&id.0) {
            self.register_ticket(id, waker);
            return None;
        }
        let ghost before = *self;
        match self.take_result(id) {
            Some(result) => Some(result),
            None => {
                assert(self.wakers() =~= before.wakers());
                assert(self.results() =~= before.results());
                self.register_ticket(id, waker);
                None
            },
        }
    }
}

/// Taking the result of a ticket after a result arrived for it gives that result, and the
/// ticket stops waiting.
pub proof fn law_take_after_receive(m: Map<u32, Option<Seq<char>>>, id: u32, result: Seq<char>)
    ensures
        take_outcome(received(m, id, result), id) == (Some(result), m.remove(id)),
{
    assert(received(m, id, result).remove(id) =~= m.remove(id));
}

/// Taking the result of a ticket that just registered gives nothing, and the ticket keeps
/// waiting.
pub proof fn law_take_after_register(m: Map<u32, Option<Seq<char>>>, id: u32)
    ensures
        take_outcome(registered(m, id), id) == (None::<Seq<char>>, registered(m, id)),
        registered(m, id).contains_key(id),
{
}

/// Registering a ticket again drops a result that arrived for it before.
pub proof fn law_register_discards_result(m: Map<u32, Option<Seq<char>>>, id: u32, result: Seq<char>)
    ensures
        registered(received(m, id, result), id) == registered(m, id),
{
    assert(registered(received(m, id, result), id) =~= registered(m, id));
}

} // verus!
