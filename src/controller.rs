//! The transition state machine.
//!
//! Each presence change starts an operation: an enter (activate) when the slot
//! holds content, a leave (deactivate) when it holds the placeholder. An
//! operation runs in three steps, separated by awaits that the host performs:
//! its start, the step after the next animation frame, and the step after a
//! timer of the operation's duration. Every start takes a fresh generation
//! token, and only an operation whose token is the current one changes a
//! class or the controller's state; a superseded one ends at its next step.

use vstd::prelude::*;
use crate::classes::{activating_class, activating_class_of, hidden_class, hidden_class_of, millis, millis_value};

verus! {

/// The direction of an operation.
#[derive(PartialEq, Eq, Structural, Clone, Copy, Debug)]
pub enum Direction {
    Enter,
    Leave,
}

/// The point an operation has reached.
#[derive(PartialEq, Eq, Structural, Clone, Copy, Debug)]
pub enum Phase {
    Start,
    AfterFrame,
    AfterTimer,
}

/// The change to the element's classes that a step asks for.
#[derive(PartialEq, Eq, Structural, Clone, Copy, Debug)]
pub enum ClassChange {
    Keep,
    /// Add the operation's hidden class.
    AddHidden,
    /// Add the operation's activating class and set its transition style.
    AddActivating,
    /// Remove the operation's activating class and set its transition style.
    RemoveActivating,
}

/// What the host awaits after a step.
#[derive(PartialEq, Eq, Structural, Clone, Copy, Debug)]
pub enum Wait {
    /// The next animation frame, then the `AfterFrame` step.
    Frame,
    /// A timer of the operation's duration, then the `AfterTimer` step.
    Timer,
    /// Nothing: the operation is over.
    Done,
}

/// What one step asks of the host, in order: the class change, then the wait.
#[derive(PartialEq, Eq, Structural, Clone, Copy, Debug)]
pub struct Effect {
    pub change: ClassChange,
    pub next: Wait,
}

/// An operation, with the class names fixed when it started.
pub struct Operation {
    pub direction: Direction,
    pub generation: u64,
    pub hidden_class: String,
    pub activating_class: String,
    /// The value of the `transition` style, such as `200ms`.
    pub transition: String,
    pub duration_ms: u32,
}

pub struct OperationView {
    pub direction: Direction,
    pub generation: u64,
    pub hidden_class: Seq<char>,
    pub activating_class: Seq<char>,
    pub transition: Seq<char>,
    pub duration_ms: u32,
}

impl View for Operation {
    type V = OperationView;

    open spec fn view(&self) -> OperationView {
        OperationView {
            direction: self.direction,
            generation: self.generation,
            hidden_class: self.hidden_class@,
            activating_class: self.activating_class@,
            transition: self.transition@,
            duration_ms: self.duration_ms,
        }
    }
}

pub open spec fn op_view(r: Option<Operation>) -> Option<OperationView> {
    match r {
        Some(op) => Some(op@),
        None => None,
    }
}

/// The state of a controller, with content of type `T`.
pub struct ControllerView<T> {
    /// True until an enter operation has completed.
    pub first_run: bool,
    /// Whether the first enter skips the hidden class.
    pub ignore_first: bool,
    /// The token of the authoritative operation.
    pub generation: u64,
    /// The last content found present.
    pub slot: Option<T>,
    /// The snapshot rendered in place of the live children.
    pub backup: Option<T>,
    /// The activating class that an enter added and no leave has removed.
    pub applied: Option<Seq<char>>,
}

/// Drives the enter and leave operations of one element.
pub struct TransitionController<T> {
    first_run: bool,
    ignore_first: bool,
    generation: u64,
    slot: Option<T>,
    backup: Option<T>,
    applied: Option<String>,
}

pub open spec fn string_opt_view(s: Option<String>) -> Option<Seq<char>> {
    match s {
        Some(s) => Some(s@),
        None => None,
    }
}

impl<T> View for TransitionController<T> {
    type V = ControllerView<T>;

    closed spec fn view(&self) -> ControllerView<T> {
        ControllerView {
            first_run: self.first_run,
            ignore_first: self.ignore_first,
            generation: self.generation,
            slot: self.slot,
            backup: self.backup,
            applied: string_opt_view(self.applied),
        }
    }
}

/// The token that follows `g`; it differs from `g`.
pub open spec fn next_generation(g: u64) -> u64 {
    if g == u64::MAX { 0 } else { (g + 1) as u64 }
}

pub open spec fn is_current<T>(s: ControllerView<T>, op: OperationView) -> bool {
    op.generation == s.generation
}

/// Whether an enter started in `s` adds the hidden class (where the element is found).
pub open spec fn hides_first<T>(s: ControllerView<T>) -> bool {
    !s.first_run || !s.ignore_first
}

pub open spec fn inert() -> Effect {
    Effect { change: ClassChange::Keep, next: Wait::Done }
}

/// What a step of `op` asks for in state `s`; `found` tells whether the
/// element was located at that step.
pub open spec fn effect_of<T>(s: ControllerView<T>, op: OperationView, phase: Phase, found: bool) -> Effect {
    if !is_current(s, op) {
        inert()
    } else {
        match phase {
            Phase::Start => Effect {
                change: if op.direction == Direction::Enter && found && hides_first(s) {
                    ClassChange::AddHidden
                } else {
                    ClassChange::Keep
                },
                next: Wait::Frame,
            },
            Phase::AfterFrame => if !found {
                inert()
            } else if op.direction == Direction::Enter {
                Effect { change: ClassChange::AddActivating, next: Wait::Timer }
            } else {
                Effect { change: ClassChange::RemoveActivating, next: Wait::Timer }
            },
            Phase::AfterTimer => inert(),
        }
    }
}

/// The state after a step of `op` in `pre` is `post`.
pub open spec fn stepped<T: Clone>(
    pre: ControllerView<T>,
    post: ControllerView<T>,
    op: OperationView,
    phase: Phase,
    found: bool,
) -> bool {
    if !is_current(pre, op) || phase == Phase::Start {
        post == pre
    } else if phase == Phase::AfterFrame {
        if found && op.direction == Direction::Enter {
            post == ControllerView { applied: Some(op.activating_class), ..pre }
        } else if found {
            post == ControllerView { applied: None, ..pre }
        } else {
            post == pre
        }
    } else if op.direction == Direction::Enter {
        &&& post.first_run == false
        &&& post.ignore_first == pre.ignore_first
        &&& post.generation == pre.generation
        &&& post.slot == pre.slot
        &&& post.applied == pre.applied
        &&& post.backup.is_some() == pre.slot.is_some()
        &&& pre.slot.is_some() ==> cloned(pre.slot.unwrap(), post.backup.unwrap())
    } else {
        post == ControllerView { backup: None, ..pre }
    }
}

/// The activating class that a leave started in `s` with `kind` removes: the
/// class that an enter added, else the activating class of `kind`.
pub open spec fn leave_target<T>(s: ControllerView<T>, kind: Seq<char>) -> Seq<char> {
    match s.applied {
        Some(c) => c,
        None => activating_class_of(kind),
    }
}

/// The controller's answer to a render whose slot was classified as
/// `placeholder` (see `maybe_is_element_placeholder`).
pub open spec fn responded<T>(
    pre: ControllerView<T>,
    post: ControllerView<T>,
    placeholder: Option<bool>,
    children: T,
    kind: Seq<char>,
    duration_ms: u32,
    r: Option<OperationView>,
) -> bool {
    match placeholder {
        None => r is None && post == pre,
        Some(absent) => {
            let g = next_generation(pre.generation);
            &&& r == Some(OperationView {
                direction: if absent { Direction::Leave } else { Direction::Enter },
                generation: g,
                hidden_class: hidden_class_of(kind),
                activating_class: if absent { leave_target(pre, kind) } else { activating_class_of(kind) },
                transition: millis_value(duration_ms as nat),
                duration_ms,
            })
            &&& post == ControllerView {
                generation: g,
                slot: if absent { pre.slot } else { Some(children) },
                ..pre
            }
        },
    }
}

/// A superseded operation is inert: any step of it asks for no class change,
/// ends the operation, and leaves the state as it was.
pub proof fn superseded_operation_is_inert<T: Clone>(
    s: ControllerView<T>,
    post: ControllerView<T>,
    op: OperationView,
    phase: Phase,
    found: bool,
)
    requires
        op.generation != s.generation,
        stepped(s, post, op, phase, found),
    ensures
        effect_of(s, op, phase, found) == inert(),
        post == s,
{
}

/// An enter followed, before it settles, by a leave: the leave removes the
/// activating class, once its timer step has run no snapshot is held and no
/// activating class is left applied, and every step of the enter that runs
/// after the leave started is inert, so the classes end as the leave left them.
pub proof fn enter_then_leave_settles<T: Clone>(
    s0: ControllerView<T>,
    s1: ControllerView<T>,
    s2: ControllerView<T>,
    s3: ControllerView<T>,
    s4: ControllerView<T>,
    children: T,
    kind: Seq<char>,
    duration_ms: u32,
    enter: OperationView,
    leave: OperationView,
)
    requires
        responded(s0, s1, Some(false), children, kind, duration_ms, Some(enter)),
        responded(s1, s2, Some(true), children, kind, duration_ms, Some(leave)),
        stepped(s2, s3, leave, Phase::AfterFrame, true),
        stepped(s3, s4, leave, Phase::AfterTimer, true),
    ensures
        effect_of(s2, leave, Phase::AfterFrame, true).change == ClassChange::RemoveActivating,
        leave.activating_class == leave_target(s1, kind),
        s4.backup is None,
        s4.applied is None,
        s4.generation == leave.generation,
        forall|s: ControllerView<T>, post: ControllerView<T>, phase: Phase, found: bool|
            s.generation == s2.generation && stepped(s, post, enter, phase, found) ==> (
            effect_of(s, enter, phase, found) == inert() && post == s),
{
}

/// With `ignore_first`, an enter that starts while no enter has completed adds
/// no hidden class; once one has completed, every enter adds it where the
/// element is found, whatever `ignore_first` says.
pub proof fn first_run_rule<T>(s: ControllerView<T>, op: OperationView)
    requires
        is_current(s, op),
        op.direction == Direction::Enter,
    ensures
        s.ignore_first && s.first_run ==> effect_of(s, op, Phase::Start, true).change
            == ClassChange::Keep,
        !s.first_run ==> effect_of(s, op, Phase::Start, true).change == ClassChange::AddHidden,
{
}

/// The first run ends when an enter completes, and no later step or render
/// makes it first again; a leave does not end it.
pub proof fn first_run_is_one_way<T: Clone>(
    pre: ControllerView<T>,
    post: ControllerView<T>,
    op: OperationView,
    phase: Phase,
    found: bool,
    placeholder: Option<bool>,
    children: T,
    kind: Seq<char>,
    duration_ms: u32,
    r: Option<OperationView>,
)
    ensures
        stepped(pre, post, op, phase, found) && is_current(pre, op) && op.direction
            == Direction::Enter && phase == Phase::AfterTimer ==> !post.first_run,
        stepped(pre, post, op, phase, found) && op.direction == Direction::Leave ==> post.first_run
            == pre.first_run,
        stepped(pre, post, op, phase, found) && !pre.first_run ==> !post.first_run,
        responded(pre, post, placeholder, children, kind, duration_ms, r) ==> post.first_run
            == pre.first_run,
{
}

/// A duration of zero skips no step: the start still waits for a frame, the
/// frame step still sets up the timer, and every step asks for what it asks
/// for under any other duration.
pub proof fn zero_duration_keeps_every_step<T>(
    s: ControllerView<T>,
    op: OperationView,
    phase: Phase,
    found: bool,
    other_ms: u32,
)
    requires
        is_current(s, op),
        op.duration_ms == 0,
    ensures
        effect_of(s, op, Phase::Start, found).next == Wait::Frame,
        effect_of(s, op, Phase::AfterFrame, true).next == Wait::Timer,
        effect_of(s, op, phase, found) == effect_of(
            s,
            OperationView { duration_ms: other_ms, ..op },
            phase,
            found,
        ),
{
}

impl<T: Clone> TransitionController<T> {
    /// A controller before the first render.
    pub fn new(ignore_first: bool) -> (r: Self)
        ensures
            r@ == (ControllerView::<T> {
                first_run: true,
                ignore_first,
                generation: 0,
                slot: None,
                backup: None,
                applied: None,
            }),
    {
        TransitionController {
            first_run: true,
            ignore_first,
            generation: 0,
            slot: None,
            backup: None,
            applied: None,
        }
    }

    pub fn is_first_run(&self) -> (r: bool)
        ensures
            r == self@.first_run,
    {
        self.first_run
    }

    pub fn has_snapshot(&self) -> (r: bool)
        ensures
            r == self@.backup.is_some(),
    {
        self.backup.is_some()
    }

    pub fn generation(&self) -> (r: u64)
        ensures
            r == self@.generation,
    {
        self.generation
    }

    /// Reacts to a render of the slot. `placeholder` is the slot's
    /// classification: `Some(false)` starts an enter and keeps `children` as
    /// the content to snapshot, `Some(true)` starts a leave, `None` changes
    /// nothing. The class names are those of `kind` at this moment.
    pub fn respond(&mut self, placeholder: Option<bool>, children: T, kind: &str, duration_ms: u32) -> (r: Option<Operation>)
        ensures
            responded(old(self)@, final(self)@, placeholder, children, kind@, duration_ms, op_view(r)),
    {
        let absent = match placeholder {
            None => return None,
            Some(absent) => absent,
        };
        let g = if self.generation == u64::MAX { 0 } else { self.generation + 1 };
        self.generation = g;
        let activating = if absent {
            match &self.applied {
                Some(c) => c.clone(),
                None => activating_class(kind),
            }
        } else {
            self.slot = Some(children);
            activating_class(kind)
        };
        Some(Operation {
            direction: if absent { Direction::Leave } else { Direction::Enter },
            generation: g,
            hidden_class: hidden_class(kind),
            activating_class: activating,
            transition: millis(duration_ms),
            duration_ms,
        })
    }

    /// Runs a step of `op`; `found` tells whether the element was located
    /// just before it.
    pub fn advance(&mut self, op: &Operation, phase: Phase, found: bool) -> (e: Effect)
        ensures
            e == effect_of(old(self)@, op@, phase, found),
            stepped(old(self)@, final(self)@, op@, phase, found),
    {
        let current = op.generation == self.generation;
        if !current {
            return Effect { change: ClassChange::Keep, next: Wait::Done };
        }
        let enter = match op.direction {
            Direction::Enter => true,
            Direction::Leave => false,
        };
        match phase {
            Phase::Start => {
                let hide = enter && found && (!self.first_run || !self.ignore_first);
                Effect {
                    change: if hide { ClassChange::AddHidden } else { ClassChange::Keep },
                    next: Wait::Frame,
                }
            },
            Phase::AfterFrame => {
                if !found {
                    Effect { change: ClassChange::Keep, next: Wait::Done }
                } else if enter {
                    self.applied = Some(op.activating_class.clone());
                    Effect { change: ClassChange::AddActivating, next: Wait::Timer }
                } else {
                    self.applied = None;
                    Effect { change: ClassChange::RemoveActivating, next: Wait::Timer }
                }
            },
            Phase::AfterTimer => {
                if enter {
                    self.backup = match &self.slot {
                        Some(c) => Some(c.clone()),
                        None => None,
                    };
                    self.first_run = false;
                } else {
                    self.backup = None;
                }
                Effect { change: ClassChange::Keep, next: Wait::Done }
            },
        }
    }

    /// The output to render: the snapshot while one is held, else `children`.
    pub fn render(&self, children: T) -> (r: T)
        ensures
            self@.backup is None ==> r == children,
            self@.backup is Some ==> cloned(self@.backup.unwrap(), r),
    {
        match &self.backup {
            Some(b) => b.clone(),
            None => children,
        }
    }
}

} // verus!
