//! What every task has in common: its channels, its retries and its loop.

use vstd::prelude::*;

verus! {

#[verifier::external_type_specification]
#[verifier::external_body]
#[verifier::reject_recursive_types(T)]
pub struct ExReceiver<T>(tokio::sync::mpsc::Receiver<T>);

#[verifier::external_type_specification]
#[verifier::external_body]
#[verifier::reject_recursive_types(T)]
pub struct ExSender<T>(tokio::sync::mpsc::Sender<T>);

/// Why the registry of shared clients gave no client.
#[derive(Debug)]
pub enum RegistryError<E> {
    /// The client could not be made.
    Init { source: E },
    /// The same credentials were used with incompatible client types.
    TypeMismatch,
}

/// What is to be done about a failed attempt.
#[derive(Debug, Clone, Copy, PartialEq, Eq, Structural)]
pub enum Retry {
    /// Try again, as long as the strategy allows.
    Transient,
    /// Give up.
    Permanent,
}

/// A task between two events. `H` is the handle of a running event handler.
#[derive(Debug)]
pub struct Running<H> {
    pub handlers: Vec<H>,
}

/// A task that may receive its next event.
#[derive(Debug)]
pub struct Listening<H> {
    pub handlers: Vec<H>,
}

/// A task that has an event to start a handler for.
#[derive(Debug)]
pub struct Dispatching<E, H> {
    pub event: E,
    pub handlers: Vec<H>,
}

/// What a look at the cancellation decides.
#[derive(Debug)]
pub enum Checked<H> {
    Listen(Listening<H>),
    /// Wait for these handlers, then end.
    Stop(Vec<H>),
}

/// What the input channel decides.
#[derive(Debug)]
pub enum Received<E, H> {
    Dispatch(Dispatching<E, H>),
    /// Wait for these handlers, then end.
    Stop(Vec<H>),
}

/// The handlers that are not known to have finished, in order.
pub open spec fn unfinished<H>(handlers: Seq<H>, finished: Seq<bool>) -> Seq<H>
    decreases handlers.len(),
{
    if handlers.len() == 0 {
        Seq::empty()
    } else {
        let last = handlers.len() - 1;
        let rest = unfinished(handlers.drop_last(), finished);
        if last < finished.len() && finished[last] {
            rest
        } else {
            rest.push(handlers.last())
        }
    }
}

/// What a task's loop has come to.
pub enum Loop<H> {
    /// It goes on with these handlers.
    Running(Seq<H>),
    /// It waits for these handlers, then ends.
    Stopped(Seq<H>),
}

/// One turn of the loop: whether the task was found cancelled, what it received,
/// the handler that was started for that, and which handlers were then found
/// finished.
pub struct Turn<E, H> {
    pub cancelled: bool,
    pub event: Option<E>,
    pub handler: H,
    pub finished: Seq<bool>,
}

impl<H> Loop<H> {
    /// The handlers of a task, or those that it waits for.
    pub open spec fn handlers(self) -> Seq<H> {
        match self {
            Loop::Running(handlers) => handlers,
            Loop::Stopped(handlers) => handlers,
        }
    }
}

/// What a look at the cancellation makes of a task with these handlers.
pub open spec fn looked<H>(handlers: Seq<H>, cancelled: bool) -> Loop<H> {
    if cancelled {
        Loop::Stopped(handlers)
    } else {
        Loop::Running(handlers)
    }
}

/// What the input channel makes of a task with these handlers.
pub open spec fn listened<E, H>(handlers: Seq<H>, event: Option<E>) -> Loop<H> {
    match event {
        Some(_) => Loop::Running(handlers),
        None => Loop::Stopped(handlers),
    }
}

impl<H> Checked<H> {
    /// What the loop has come to.
    pub open spec fn state(self) -> Loop<H> {
        match self {
            Checked::Listen(listening) => Loop::Running(listening.handlers@),
            Checked::Stop(handlers) => Loop::Stopped(handlers@),
        }
    }
}

impl<E, H> Received<E, H> {
    /// What the loop has come to.
    pub open spec fn state(self) -> Loop<H> {
        match self {
            Received::Dispatch(dispatching) => Loop::Running(dispatching.handlers@),
            Received::Stop(handlers) => Loop::Stopped(handlers@),
        }
    }
}

impl<H> Running<H> {
    /// A task without handlers.
    pub fn new() -> (task: Self)
        ensures
            task.handlers@ == Seq::<H>::empty(),
    {
        Running { handlers: Vec::new() }
    }

    /// A cancelled task stops; any other listens for its next event.
    pub fn checked(self, cancelled: bool) -> (next: Checked<H>)
        ensures
            next.state() == looked(self.handlers@, cancelled),
    {
        if cancelled {
            Checked::Stop(self.handlers)
        } else {
            Checked::Listen(Listening { handlers: self.handlers })
        }
    }

    /// Forgets the handlers that have finished. `finished` says of each handler
    /// whether it has; one that it does not speak of is kept.
    pub fn retain_unfinished(self, finished: &Vec<bool>) -> (task: Self)
        ensures
            task.handlers@ == unfinished(self.handlers@, finished@),
    {
        let mut kept: Vec<H> = Vec::new();
        let ghost held = self.handlers@;
        let count: usize = self.handlers.len();
        let mut at: usize = 0;
        for handler in walk: self.handlers.into_iter()
            invariant
                walk.seq() == held,
                at == walk.index(),
                kept@ == unfinished(held.take(at as int), finished@),
                count == held.len(),
        {
            proof {
                assert(held.take(at as int + 1).drop_last() == held.take(at as int));
            }
            if !(at < finished.len() && finished[at]) {
                kept.push(handler);
            }
            at = at + 1;
        }
        proof {
            assert(held.take(held.len() as int) == held);
        }
        Running { handlers: kept }
    }
}

impl<H> Listening<H> {
    /// An event is dispatched; a closed channel stops the task.
    pub fn received<E>(self, event: Option<E>) -> (next: Received<E, H>)
        ensures
            next.state() == listened(self.handlers@, event),
            next matches Received::Dispatch(dispatching) ==> event == Some(dispatching.event),
    {
        match event {
            Some(event) => Received::Dispatch(Dispatching { event, handlers: self.handlers }),
            None => Received::Stop(self.handlers),
        }
    }
}

impl<E, H> Dispatching<E, H> {
    /// Remembers the handler that was started for the event.
    pub fn started(self, handler: H) -> (task: Running<H>)
        ensures
            task.handlers@ == self.handlers@.push(handler),
    {
        let mut handlers = self.handlers;
        handlers.push(handler);
        Running { handlers }
    }
}

/// A handler that has not finished is never forgotten, and no handler appears
/// out of nothing.
pub proof fn law_unfinished_are_kept<H>(handlers: Seq<H>, finished: Seq<bool>, at: int)
    requires
        0 <= at < handlers.len(),
    ensures
        !(at < finished.len() && finished[at]) ==> unfinished(handlers, finished).contains(
            handlers[at],
        ),
        forall|handler: H|
            unfinished(handlers, finished).contains(handler) ==> handlers.contains(handler),
    decreases handlers.len(),
{
    let last = handlers.len() - 1;
    let rest = unfinished(handlers.drop_last(), finished);
    let all = unfinished(handlers, finished);
    if at < last {
        law_unfinished_are_kept(handlers.drop_last(), finished, at);
        if rest.contains(handlers[at]) {
            let place = choose|i: int| 0 <= i < rest.len() && rest[i] == handlers[at];
            assert(all[place] == handlers[at]);
        }
    } else if all.len() > rest.len() {
        assert(all[all.len() - 1] == handlers[at]);
    }
    lemma_unfinished_come_from(handlers, finished);
}

proof fn lemma_unfinished_come_from<H>(handlers: Seq<H>, finished: Seq<bool>)
    ensures
        forall|handler: H|
            unfinished(handlers, finished).contains(handler) ==> handlers.contains(handler),
    decreases handlers.len(),
{
    if handlers.len() > 0 {
        let before = handlers.drop_last();
        lemma_unfinished_come_from(before, finished);
        assert forall|handler: H|
            unfinished(handlers, finished).contains(handler) implies handlers.contains(
            handler,
        ) by {
            let rest = unfinished(before, finished);
            let all = unfinished(handlers, finished);
            let place = choose|i: int| 0 <= i < all.len() && all[i] == handler;
            if place < rest.len() {
                assert(rest[place] == handler);
                assert(rest.contains(handler));
                assert(before.contains(handler));
                let origin = choose|i: int| 0 <= i < before.len() && before[i] == handler;
                assert(handlers[origin] == handler);
            } else {
                assert(handlers[handlers.len() - 1] == handler);
            }
        }
    }
}

/// What a turn makes of a task with these handlers.
pub open spec fn turned<E, H>(handlers: Seq<H>, turn: Turn<E, H>) -> Loop<H> {
    match looked(handlers, turn.cancelled) {
        Loop::Stopped(handlers) => Loop::Stopped(handlers),
        Loop::Running(handlers) => match listened(handlers, turn.event) {
            Loop::Stopped(handlers) => Loop::Stopped(handlers),
            Loop::Running(handlers) => Loop::Running(
                unfinished(handlers.push(turn.handler), turn.finished),
            ),
        },
    }
}

/// What a task has come to after these turns. A task that has stopped takes no
/// further turn.
pub open spec fn looped<E, H>(turns: Seq<Turn<E, H>>) -> Loop<H>
    decreases turns.len(),
{
    if turns.len() == 0 {
        Loop::Running(Seq::empty())
    } else {
        match looped(turns.drop_last()) {
            Loop::Running(handlers) => turned(handlers, turns.last()),
            Loop::Stopped(handlers) => Loop::Stopped(handlers),
        }
    }
}

/// Whether a turn starts a handler.
pub open spec fn dispatches<E, H>(turn: Turn<E, H>) -> bool {
    !turn.cancelled && turn.event is Some
}

/// Whether a turn on a task with these handlers finds `handler` finished.
pub open spec fn finds_finished<E, H>(handlers: Seq<H>, turn: Turn<E, H>, handler: H) -> bool {
    exists|i: int|
        {
            &&& 0 <= i < turn.finished.len()
            &&& i <= handlers.len()
            &&& #[trigger] turn.finished[i]
            &&& handlers.push(turn.handler)[i] == handler
        }
}

/// No handler is lost: whatever turns a task takes, a handler that it started and
/// never found finished is among those that it has, and among those that it
/// waits for in the end.
pub proof fn law_started_handlers_are_kept<E, H>(turns: Seq<Turn<E, H>>, at: int)
    requires
        0 <= at < turns.len(),
        looped(turns.take(at)) is Running,
        dispatches(turns[at]),
        forall|k: int|
            at <= k < turns.len() ==> !finds_finished(
                looped(turns.take(k)).handlers(),
                #[trigger] turns[k],
                turns[at].handler,
            ),
    ensures
        looped(turns).handlers().contains(turns[at].handler),
    decreases turns.len(),
{
    let before = turns.drop_last();
    let last = turns.len() - 1;
    let handler = turns[at].handler;
    let held = looped(before).handlers();
    assert(turns.take(last) == before);
    assert(!finds_finished(held, turns[last], handler));
    if at < last {
        assert(before.take(at) == turns.take(at));
        assert forall|k: int| at <= k < before.len() implies !finds_finished(
            looped(before.take(k)).handlers(),
            #[trigger] before[k],
            before[at].handler,
        ) by {
            assert(before.take(k) == turns.take(k));
            assert(before[k] == turns[k]);
        }
        law_started_handlers_are_kept(before, at);
    }
    if looped(before) is Running && dispatches(turns[last]) {
        let all = held.push(turns[last].handler);
        let place = if at < last {
            choose|i: int| 0 <= i < held.len() && held[i] == handler
        } else {
            held.len() as int
        };
        assert(all[place] == handler);
        if place < turns[last].finished.len() {
            assert(!turns[last].finished[place]);
        }
        law_unfinished_are_kept(all, turns[last].finished, place);
    }
}

/// A task stops where it is cancelled or its channel is closed, and nowhere
/// else.
pub proof fn law_only_cancellation_or_closing_stops<E, H>(turns: Seq<Turn<E, H>>)
    ensures
        looped(turns) is Stopped <==> exists|k: int|
            0 <= k < turns.len() && !dispatches(#[trigger] turns[k]),
    decreases turns.len(),
{
    if turns.len() > 0 {
        let before = turns.drop_last();
        law_only_cancellation_or_closing_stops(before);
        if looped(before) is Stopped {
            let k = choose|k: int| 0 <= k < before.len() && !dispatches(#[trigger] before[k]);
            assert(!dispatches(turns[k]));
        } else {
            assert forall|k: int| 0 <= k < before.len() implies dispatches(#[trigger] turns[k]) by {
                assert(dispatches(before[k]));
            }
        }
    }
}

/// A task begins without handlers.
pub proof fn law_task_begins_without_handlers<H>(task: Running<H>)
    requires
        call_ensures(Running::<H>::new, (), task),
    ensures
        task.handlers@.len() == 0,
{
}

/// A look at the cancellation changes no handler: a cancelled task waits for all
/// that it has, any other listens with all that it has.
pub proof fn law_checking_keeps_handlers<H>(
    task: Running<H>,
    cancelled: bool,
    next: Checked<H>,
)
    requires
        call_ensures(Running::<H>::checked, (task, cancelled), next),
    ensures
        cancelled ==> (next matches Checked::Stop(waited) && waited@ == task.handlers@),
        !cancelled ==> (next matches Checked::Listen(listening) && listening.handlers@
            == task.handlers@),
{
}

/// A task that listens dispatches the very event that it received, and waits for
/// all of its handlers where the channel is closed.
pub proof fn law_receiving_keeps_handlers<E, H>(
    listening: Listening<H>,
    event: Option<E>,
    next: Received<E, H>,
)
    requires
        call_ensures(Listening::<H>::received::<E>, (listening, event), next),
    ensures
        event is Some ==> {
            &&& next matches Received::Dispatch(dispatching)
            &&& event == Some(dispatching.event)
            &&& dispatching.handlers@ == listening.handlers@
        },
        event is None ==> (next matches Received::Stop(waited) && waited@ == listening.handlers@),
{
}

/// A started handler comes behind those that a task already has.
pub proof fn law_started_handler_comes_last<E, H>(
    dispatching: Dispatching<E, H>,
    handler: H,
    task: Running<H>,
)
    requires
        call_ensures(Dispatching::<E, H>::started, (dispatching, handler), task),
    ensures
        task.handlers@.len() == dispatching.handlers@.len() + 1,
        task.handlers@.last() == handler,
        forall|i: int|
            0 <= i < dispatching.handlers@.len() ==> #[trigger] task.handlers@[i]
                == dispatching.handlers@[i],
{
}

/// A clean-up forgets exactly the handlers that it finds finished, and keeps the
/// others in order.
pub proof fn law_clean_up_forgets_the_finished<H>(
    task: Running<H>,
    finished: Vec<bool>,
    cleaned: Running<H>,
)
    requires
        call_ensures(Running::<H>::retain_unfinished, (task, &finished), cleaned),
        task.handlers@.no_duplicates(),
    ensures
        forall|i: int|
            0 <= i < task.handlers@.len() ==> cleaned.handlers@.contains(
                #[trigger] task.handlers@[i],
            ) == !(i < finished@.len() && finished@[i]),
        forall|handler: H|
            cleaned.handlers@.contains(handler) ==> task.handlers@.contains(handler),
        cleaned.handlers@.no_duplicates(),
        forall|a: int, b: int|
            0 <= a < b < cleaned.handlers@.len() ==> task.handlers@.index_of(
                #[trigger] cleaned.handlers@[a],
            ) < task.handlers@.index_of(#[trigger] cleaned.handlers@[b]),
{
    let handlers = task.handlers@;
    lemma_unfinished_places(handlers, finished@);
    lemma_unfinished_come_from(handlers, finished@);
    let kept = cleaned.handlers@;
    let places = unfinished_places(handlers, finished@);
    assert forall|i: int| 0 <= i < handlers.len() implies kept.contains(#[trigger] handlers[i])
        == !(i < finished@.len() && finished@[i]) by {
        if i < finished@.len() && finished@[i] {
            if kept.contains(handlers[i]) {
                let at = choose|at: int| 0 <= at < kept.len() && kept[at] == handlers[i];
                assert(handlers[places[at]] == handlers[i]);
            }
        } else {
            law_unfinished_are_kept(handlers, finished@, i);
        }
    }
    assert forall|a: int, b: int| 0 <= a < b < kept.len() implies handlers.index_of(
        #[trigger] kept[a],
    ) < handlers.index_of(#[trigger] kept[b]) by {
        assert(handlers.contains(kept[a]) && handlers.contains(kept[b]));
        assert(handlers[places[a]] == kept[a] && handlers[places[b]] == kept[b]);
        assert(places[a] < places[b]);
    }
    assert forall|a: int, b: int| 0 <= a < kept.len() && 0 <= b < kept.len() && a != b implies kept[a]
        != kept[b] by {
        if a < b {
            assert(handlers.index_of(kept[a]) < handlers.index_of(kept[b]));
        } else {
            assert(handlers.index_of(kept[b]) < handlers.index_of(kept[a]));
        }
    }
}

/// Where the handlers that are not known to have finished stand.
spec fn unfinished_places<H>(handlers: Seq<H>, finished: Seq<bool>) -> Seq<int>
    decreases handlers.len(),
{
    if handlers.len() == 0 {
        Seq::empty()
    } else {
        let last = handlers.len() - 1;
        let rest = unfinished_places(handlers.drop_last(), finished);
        if last < finished.len() && finished[last] {
            rest
        } else {
            rest.push(last)
        }
    }
}

/// Those places rise, and hold the handlers that are kept.
proof fn lemma_unfinished_places<H>(handlers: Seq<H>, finished: Seq<bool>)
    ensures
        unfinished_places(handlers, finished).len() == unfinished(handlers, finished).len(),
        forall|a: int|
            0 <= a < unfinished(handlers, finished).len() ==> {
                let place = #[trigger] unfinished_places(handlers, finished)[a];
                &&& 0 <= place < handlers.len()
                &&& !(place < finished.len() && finished[place])
                &&& handlers[place] == unfinished(handlers, finished)[a]
            },
        forall|a: int, b: int|
            0 <= a < b < unfinished(handlers, finished).len() ==> (#[trigger] unfinished_places(
                handlers,
                finished,
            )[a]) < (#[trigger] unfinished_places(handlers, finished)[b]),
    decreases handlers.len(),
{
    if handlers.len() > 0 {
        let before = handlers.drop_last();
        lemma_unfinished_places(before, finished);
        let places = unfinished_places(handlers, finished);
        let rest = unfinished_places(before, finished);
        assert forall|a: int| 0 <= a < unfinished(handlers, finished).len() implies {
            let place = #[trigger] places[a];
            &&& 0 <= place < handlers.len()
            &&& !(place < finished.len() && finished[place])
            &&& handlers[place] == unfinished(handlers, finished)[a]
        } by {
            if a < rest.len() {
                assert(places[a] == rest[a]);
                assert(before[rest[a]] == handlers[rest[a]]);
            }
        }
        assert forall|a: int, b: int| 0 <= a < b < places.len() implies (#[trigger] places[a]) < (
        #[trigger] places[b]) by {
            assert(places[a] == rest[a]);
            if b < rest.len() {
                assert(places[b] == rest[b]);
            }
        }
    }
}

} // verus!
