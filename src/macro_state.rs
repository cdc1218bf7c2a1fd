//! The state of a macro expansion together with the diagnostics gathered on the way.
//!
//! Diagnostics are held by the state that gathered them and handed on with it; merging
//! states keeps every diagnostic, in order.

use vstd::prelude::*;

verus! {

/// How serious a diagnostic is.
#[derive(Clone, Copy, PartialEq, Eq, Debug)]
pub enum Level {
    Error,
    Warning,
}

/// The text of a diagnostic, with notes as pairs of a label and a note.
#[derive(Clone, PartialEq, Eq, Debug)]
pub struct Message {
    pub message: String,
    pub notes: Vec<(String, String)>,
}

impl Message {
    /// A message with no notes.
    pub fn new(message: String) -> (r: Message)
        ensures
            r.message == message,
            r.notes@ == Seq::<(String, String)>::empty(),
    {
        Message { message, notes: Vec::new() }
    }
}

/// A diagnostic to report when the expansion ends.
#[derive(Clone, PartialEq, Eq, Debug)]
pub struct Diagnostic {
    pub level: Level,
    pub message: Message,
}

/// A value being expanded, with the diagnostics gathered for it.
pub struct MacroState<T> {
    state: T,
    diagnostics: Vec<Diagnostic>,
}

/// The diagnostics of each state, state after state.
pub open spec fn all_diagnostics<T>(states: Seq<MacroState<T>>) -> Seq<Diagnostic>
    decreases states.len(),
{
    if states.len() == 0 {
        Seq::empty()
    } else {
        all_diagnostics(states.drop_last()) + states.last().diagnostics_view()
    }
}

impl<T> MacroState<T> {
    /// The value being expanded.
    pub closed spec fn state_view(&self) -> T {
        self.state
    }

    /// The diagnostics gathered, in order.
    pub closed spec fn diagnostics_view(&self) -> Seq<Diagnostic> {
        self.diagnostics@
    }

    /// A state holding `state` and no diagnostics.
    pub fn new(state: T) -> (r: MacroState<T>)
        ensures
            r.state_view() == state,
            r.diagnostics_view() == Seq::<Diagnostic>::empty(),
    {
        MacroState { state, diagnostics: Vec::new() }
    }

    /// Adds a diagnostic after those gathered.
    pub fn add_diagnostic(&mut self, diagnostic: Diagnostic)
        ensures
            final(self).state_view() == old(self).state_view(),
            final(self).diagnostics_view() == old(self).diagnostics_view().push(diagnostic),
    {
        self.diagnostics.push(diagnostic);
    }

    /// Takes on the diagnostics of each of `states`, after those gathered here, state
    /// after state.
    pub fn extend_diagnostics(self, states: Vec<MacroState<T>>) -> (r: MacroState<T>)
        ensures
            r.state_view() == self.state_view(),
            r.diagnostics_view() == self.diagnostics_view() + all_diagnostics(states@),
    {
        let ghost given = states@;
        let total = states.len();
        let mut merged = self;
        let mut rest = states;
        let mut taken: usize = 0;
        while rest.len() > 0
            invariant
                taken + rest@.len() == given.len(),
                given.len() == total,
                rest@ == given.subrange(taken as int, given.len() as int),
                merged.state_view() == self.state_view(),
                merged.diagnostics_view() == self.diagnostics_view() + all_diagnostics(
                    given.take(taken as int),
                ),
            decreases rest@.len(),
        {
            let state = rest.remove(0);
            let mut diagnostics = state.diagnostics;
            let ghost before = merged.diagnostics@;
            merged.diagnostics.append(&mut diagnostics);
            proof {
                assert(given.take(taken + 1).drop_last() =~= given.take(taken as int));
                assert(given.take(taken + 1).last() == state);
                assert(merged.diagnostics_view() =~= self.diagnostics_view() + all_diagnostics(
                    given.take(taken + 1),
                ));
            }
            taken = taken + 1;
            assert(rest@ =~= given.subrange(taken as int, given.len() as int));
        }
        assert(given.take(taken as int) =~= given);
        merged
    }

    /// The value and the diagnostics gathered, for the expansion's end to report.
    pub fn into_parts(self) -> (r: (T, Vec<Diagnostic>))
        ensures
            r.0 == self.state_view(),
            r.1@ == self.diagnostics_view(),
    {
        (self.state, self.diagnostics)
    }
}

} // verus!
