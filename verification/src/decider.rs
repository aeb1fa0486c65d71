//! What a consumer of the library supplies: events, the evolver that folds
//! them into a state, and the decider that turns a command into new events.

use vstd::prelude::*;

pub mod repository;

verus! {

/// A value that can be copied: a clone of it has the same view.
pub trait CloneKeepsView: View + Clone + Sized {
    /// Cloning keeps the view.
    proof fn lemma_clone_keeps_view(a: Self, b: Self)
        requires
            cloned::<Self>(a, b),
        ensures
            a@ == b@,
    ;
}

/// An immutable fact about one entity. Contracts speak of an event by its view.
pub trait Event: CloneKeepsView {
    /// Identifies the entity that the event is about.
    type EntityId;

    /// The tag of an event, by its view.
    spec fn spec_event_type(event: Self::V) -> Seq<char>;

    /// The entity id of an event, by its view.
    spec fn spec_id(event: Self::V) -> Self::EntityId;

    /// A stable tag that names the kind of event.
    fn event_type(&self) -> (tag: String)
        ensures
            tag@ == Self::spec_event_type(self@),
    ;

    /// The id of the entity that the event is about.
    fn get_id(&self) -> (id: Self::EntityId)
        ensures
            id == Self::spec_id(self@),
    ;
}

/// The views of a sequence of values, in order.
pub open spec fn views<T: View>(items: Seq<T>) -> Seq<T::V> {
    items.map_values(|item: T| item@)
}

/// The views of two sequences, one after the other, are the views of their concatenation.
pub proof fn lemma_views_concat<T: View>(first: Seq<T>, second: Seq<T>)
    ensures
        views(first + second) == views(first) + views(second),
{
    assert(views(first + second) =~= views(first) + views(second));
}

/// Folds events into a state, one at a time.
pub trait Evolver {
    type State: View;

    type Evt: Event;

    /// The state before any event, as a view.
    spec fn spec_init() -> <Self::State as View>::V;

    /// The state that follows `state` once `event` has happened, over views.
    spec fn spec_evolve(
        state: <Self::State as View>::V,
        event: <Self::Evt as View>::V,
    ) -> <Self::State as View>::V;

    /// Applies one event to a state. Total: every event leads to a state.
    fn evolve(state: Self::State, event: &Self::Evt) -> (next: Self::State)
        ensures
            next@ == Self::spec_evolve(state@, event@),
    ;

    /// The state of an entity of which nothing is known yet.
    fn init() -> (state: Self::State)
        ensures
            state@ == Self::spec_init(),
    ;
}

/// The state reached from `state` by applying `events` from first to last.
pub open spec fn fold_events<Ev: Evolver>(
    state: <Ev::State as View>::V,
    events: Seq<<Ev::Evt as View>::V>,
) -> <Ev::State as View>::V
    decreases events.len(),
{
    if events.len() == 0 {
        state
    } else {
        Ev::spec_evolve(fold_events::<Ev>(state, events.drop_last()), events.last())
    }
}

/// The state reached from the initial state by replaying `events`.
pub open spec fn replay<Ev: Evolver>(events: Seq<<Ev::Evt as View>::V>) -> <Ev::State as View>::V {
    fold_events::<Ev>(Ev::spec_init(), events)
}

/// Folding two batches one after the other is folding their concatenation.
pub proof fn lemma_fold_concat<Ev: Evolver>(
    state: <Ev::State as View>::V,
    first: Seq<<Ev::Evt as View>::V>,
    second: Seq<<Ev::Evt as View>::V>,
)
    ensures
        fold_events::<Ev>(state, first + second) == fold_events::<Ev>(
            fold_events::<Ev>(state, first),
            second,
        ),
    decreases second.len(),
{
    if second.len() == 0 {
        assert(first + second =~= first);
    } else {
        lemma_fold_concat::<Ev>(state, first, second.drop_last());
        assert((first + second).drop_last() =~= first + second.drop_last());
        assert((first + second).last() == second.last());
    }
}

/// Applies `events`, from first to last, to `state`.
pub fn fold_state<Ev: Evolver>(state: Ev::State, events: &Vec<Ev::Evt>) -> (folded: Ev::State)
    ensures
        folded@ == fold_events::<Ev>(state@, views(events@)),
{
    let ghost start = state@;
    let mut current = state;
    let mut i: usize = 0;
    while i < events.len()
        invariant
            i <= events.len(),
            current@ == fold_events::<Ev>(start, views(events@.take(i as int))),
        decreases events.len() - i,
    {
        proof {
            let upto = views(events@.take(i as int + 1));
            assert(upto.drop_last() =~= views(events@.take(i as int)));
            assert(upto.last() == events@[i as int]@);
        }
        current = Ev::evolve(current, &events[i]);
        i = i + 1;
    }
    proof {
        assert(events@.take(i as int) =~= events@);
    }
    current
}

/// What a decider answered, with the events taken by their views.
pub open spec fn outcome_view<E: View, X>(outcome: Result<Vec<E>, X>) -> Result<Seq<E::V>, X> {
    match outcome {
        Ok(events) => Ok(views(events@)),
        Err(e) => Err(e),
    }
}

/// Decides, against a state that it only reads, which events a command brings about.
pub trait Decider: Evolver {
    type Cmd;

    type DomainErr;

    /// Whether `outcome` is an answer that `decide` may give to `cmd` in `state`.
    spec fn decides(
        state: <Self::State as View>::V,
        cmd: Self::Cmd,
        outcome: Result<Seq<<Self::Evt as View>::V>, Self::DomainErr>,
    ) -> bool;

    /// The events that `cmd` brings about in `state`, or the reason why it is refused.
    /// No event at all is a valid answer.
    fn decide(state: &Self::State, cmd: &Self::Cmd) -> (outcome: Result<
        Vec<Self::Evt>,
        Self::DomainErr,
    >)
        ensures
            Self::decides(state@, *cmd, outcome_view(outcome)),
    ;
}

/// A decider that is handed its dependencies (id generators, clocks,
/// validators) in a context.
pub trait DeciderWithContext: Evolver {
    type Ctx;

    type Cmd;

    type DomainErr;

    /// Whether `outcome` is an answer that `decide` may give to `cmd` in
    /// `state`, with the dependencies in `ctx`.
    spec fn decides(
        ctx: Self::Ctx,
        state: <Self::State as View>::V,
        cmd: Self::Cmd,
        outcome: Result<Seq<<Self::Evt as View>::V>, Self::DomainErr>,
    ) -> bool;

    /// The events that `cmd` brings about in `state`, or the reason why it is refused.
    /// No event at all is a valid answer.
    fn decide(ctx: &Self::Ctx, state: &Self::State, cmd: &Self::Cmd) -> (outcome: Result<
        Vec<Self::Evt>,
        Self::DomainErr,
    >)
        ensures
            Self::decides(*ctx, state@, *cmd, outcome_view(outcome)),
    ;
}

/// A command, with the state it is decided against.
pub trait Command {
    type State;
}

} // verus!
