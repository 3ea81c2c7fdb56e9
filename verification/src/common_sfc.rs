//! Sequential function charts.
use vstd::prelude::*;
use crate::id::Id;

verus! {

/// One network of a chart: the step it starts in, then its other steps and
/// the transitions between them.
#[derive(Debug, PartialEq)]
pub struct Network {
    pub initial_step: Step,
    pub elements: Vec<ElementKind>,
}

/// One element of a network.
#[derive(Debug, PartialEq)]
pub enum ElementKind {
    Step(Step),
    Transition(Transition),
}

/// A step, with the names of the actions that run while it is active.
#[derive(Debug, PartialEq)]
pub struct Step {
    pub name: Id,
    pub actions: Vec<Id>,
}

/// A transition from the steps `from` to the steps `to`.
#[derive(Debug, PartialEq)]
pub struct Transition {
    pub name: Option<Id>,
    pub priority: Option<u32>,
    pub from: Vec<Id>,
    pub to: Vec<Id>,
}

} // verus!
