//! A finite-state machine driven by a transition table: each state lists
//! the events it accepts and the state each leads to. A callback hears of
//! every transition, with the new state and the old one.
use vstd::prelude::*;
use vstd::std_specs::cmp::PartialEqSpec;

verus! {

/// The state that event `e` leads to from state `s`: the first row of `s`,
/// then the first entry of `e` in it.
pub open spec fn next_state<State: PartialEq, Event: PartialEq>(
    table: Seq<(State, Seq<(Event, State)>)>,
    s: State,
    e: Event,
) -> Option<State>
    decreases table.len(),
{
    if table.len() == 0 {
        None
    } else if s.eq_spec(&table[0].0) {
        entry_for(table[0].1, e)
    } else {
        next_state(table.drop_first(), s, e)
    }
}

/// The state that the first entry of event `e` in a row leads to.
pub open spec fn entry_for<Event: PartialEq, State>(row: Seq<(Event, State)>, e: Event) -> Option<State>
    decreases row.len(),
{
    if row.len() == 0 {
        None
    } else if e.eq_spec(&row[0].0) {
        Some(row[0].1)
    } else {
        entry_for(row.drop_first(), e)
    }
}

/// The rows of a transition table as sequences.
pub open spec fn table_view<State, Event>(t: Seq<(State, Vec<(Event, State)>)>) -> Seq<(State, Seq<(Event, State)>)> {
    t.map_values(|r: (State, Vec<(Event, State)>)| (r.0, r.1@))
}

/// A state machine over states `State` and events `Event`, calling
/// `on_state_change(new, old)` on every transition.
pub struct Fsm<State, Event, F: Fn(State, State)> {
    current_state: State,
    transitions: Vec<(State, Vec<(Event, State)>)>,
    on_state_change: F,
}

impl<State: Clone + PartialEq, Event: PartialEq, F: Fn(State, State)> Fsm<State, Event, F> {
    /// The current state.
    pub closed spec fn current(&self) -> State {
        self.current_state
    }

    /// The transition table.
    pub closed spec fn table(&self) -> Seq<(State, Seq<(Event, State)>)> {
        table_view(self.transitions@)
    }

    /// The callback told of each transition.
    pub closed spec fn callback(&self) -> F {
        self.on_state_change
    }

    /// Whether the callback accepts every pair of states.
    pub closed spec fn callback_ready(&self) -> bool {
        forall|n: State, o: State| call_requires(self.on_state_change, (n, o))
    }

    /// A machine in `initial_state` with the given table and callback.
    pub fn new(
        initial_state: State,
        transitions: Vec<(State, Vec<(Event, State)>)>,
        on_state_change: F,
    ) -> (r: Self)
        ensures
            r.current() == initial_state,
            r.table() == table_view(transitions@),
            r.callback() == on_state_change,
            (forall|n: State, o: State| call_requires(on_state_change, (n, o))) ==> r.callback_ready(),
    {
        Fsm { current_state: initial_state, transitions, on_state_change }
    }

    /// A copy of the current state.
    pub fn state(&self) -> (r: State)
        ensures
            cloned(self.current(), r),
    {
        self.current_state.clone()
    }

    /// Takes the transition of `event` from the current state, if the
    /// table has one, and then calls the callback once with (copies of) the
    /// new and the old state; without a transition the callback is not
    /// called. Gives whether the transition was taken.
    pub fn transition(&mut self, event: Event) -> (taken: bool)
        requires
            State::obeys_eq_spec(),
            Event::obeys_eq_spec(),
            old(self).callback_ready(),
        ensures
            taken == next_state(old(self).table(), old(self).current(), event) is Some,
            taken ==> cloned(next_state(old(self).table(), old(self).current(), event)->0, final(self).current()),
            !taken ==> final(self).current() == old(self).current(),
            taken ==> exists|n: State, o: State|
                #![trigger call_ensures(old(self).callback(), (n, o), ())]
                cloned(final(self).current(), n) && cloned(old(self).current(), o)
                    && call_ensures(old(self).callback(), (n, o), ()),
            final(self).table() == old(self).table(),
            final(self).callback() == old(self).callback(),
            final(self).callback_ready() == old(self).callback_ready(),
    {
        let n = self.transitions.len();
        let mut i: usize = 0;
        assert(self.table().subrange(0, n as int) =~= self.table());
        while i < n
            invariant
                n == self.transitions@.len(),
                self.table().len() == n,
                i <= n,
                next_state(self.table(), self.current(), event) == next_state(
                    self.table().subrange(i as int, n as int),
                    self.current(),
                    event,
                ),
                State::obeys_eq_spec(),
                Event::obeys_eq_spec(),
                self.table() == old(self).table(),
                self.current() == old(self).current(),
                self.callback() == old(self).callback(),
                self.callback_ready() == old(self).callback_ready(),
                old(self).callback_ready(),
            decreases n - i,
        {
            let ghost rest = self.table().subrange(i as int, n as int);
            assert(rest.drop_first() =~= self.table().subrange(i + 1, n as int));
            assert(rest[0] == self.table()[i as int]);
            if self.current_state == self.transitions[i].0 {
                let row = &self.transitions[i].1;
                assert(row@ == self.table()[i as int].1);
                let m = row.len();
                let mut j: usize = 0;
                assert(row@.subrange(0, m as int) =~= row@);
                while j < m
                    invariant
                        m == row@.len(),
                        j <= m,
                        entry_for(row@, event) == entry_for(row@.subrange(j as int, m as int), event),
                        next_state(old(self).table(), old(self).current(), event) == entry_for(row@, event),
                        Event::obeys_eq_spec(),
                        self.table() == old(self).table(),
                        self.current() == old(self).current(),
                        self.callback() == old(self).callback(),
                        self.callback_ready() == old(self).callback_ready(),
                        old(self).callback_ready(),
                    decreases m - j,
                {
                    let ghost rrest = row@.subrange(j as int, m as int);
                    assert(rrest.drop_first() =~= row@.subrange(j + 1, m as int));
                    assert(rrest[0] == row@[j as int]);
                    if event == row[j].0 {
                        let next = row[j].1.clone();
                        let old_state = self.current_state.clone();
                        let for_callback = next.clone();
                        self.current_state = next;
                        let ghost n0 = for_callback;
                        let ghost o0 = old_state;
                        (self.on_state_change)(for_callback, old_state);
                        assert(call_ensures(old(self).callback(), (n0, o0), ()));
                        return true;
                    }
                    j = j + 1;
                }
                return false;
            }
            i = i + 1;
        }
        false
    }

    /// Sets the current state without a transition or a callback.
    pub fn force_state(&mut self, state: State)
        ensures
            final(self).current() == state,
            final(self).table() == old(self).table(),
            final(self).callback() == old(self).callback(),
            old(self).callback_ready() ==> final(self).callback_ready(),
    {
        self.current_state = state;
    }
}

} // verus!
