//! Player input: which directions are held, and the order in which a held
//! direction moves a position one step along an axis.

use vstd::prelude::*;

verus! {

/// Directions held by a player during one tick.
#[derive(Clone, Copy, Debug, PartialEq, Eq, Hash, Structural)]
pub struct Direction {
    pub up: bool,
    pub down: bool,
    pub left: bool,
    pub right: bool,
}

impl Direction {
    /// No direction is held.
    pub open spec fn spec_is_none(self) -> bool {
        !self.up && !self.down && !self.left && !self.right
    }

    pub fn is_none(&self) -> (r: bool)
        ensures
            r == self.spec_is_none(),
    {
        !self.up && !self.down && !self.left && !self.right
    }
}

impl Default for Direction {
    fn default() -> (r: Self)
        ensures
            r.spec_is_none(),
    {
        Direction { up: false, down: false, left: false, right: false }
    }
}

/// The input a client sends each tick.
#[derive(Clone, Copy, Debug, PartialEq, Eq, Structural)]
pub enum Inputs {
    /// No input this tick.
    Idle,
    Direction(Direction),
}

impl Default for Inputs {
    fn default() -> (r: Self)
        ensures
            r == Inputs::Idle,
    {
        Inputs::Idle
    }
}

/// An axis of the plane.
#[derive(Clone, Copy, Debug, PartialEq, Eq, Structural)]
pub enum Axis {
    X,
    Y,
}

/// One movement step: a unit move along `axis`, forward when `positive`.
#[derive(Clone, Copy, Debug, PartialEq, Eq, Structural)]
pub struct Step {
    pub axis: Axis,
    pub positive: bool,
}

/// The steps a held direction makes, in the order they are applied: up
/// raises y, down lowers y, left lowers x, right raises x.
pub open spec fn spec_direction_steps(d: Direction) -> Seq<Step> {
    (if d.up { seq![Step { axis: Axis::Y, positive: true }] } else { seq![] }) + (if d.down {
        seq![Step { axis: Axis::Y, positive: false }]
    } else {
        seq![]
    }) + (if d.left { seq![Step { axis: Axis::X, positive: false }] } else { seq![] }) + (
    if d.right {
        seq![Step { axis: Axis::X, positive: true }]
    } else {
        seq![]
    })
}

/// The steps an input makes; an input without a direction makes none.
pub open spec fn spec_movement_steps(input: Inputs) -> Seq<Step> {
    match input {
        Inputs::Idle => seq![],
        Inputs::Direction(d) => spec_direction_steps(d),
    }
}

/// The steps a held direction makes, in order.
pub fn direction_steps(d: &Direction) -> (steps: Vec<Step>)
    ensures
        steps@ == spec_direction_steps(*d),
{
    let mut steps: Vec<Step> = Vec::new();
    if d.up {
        steps.push(Step { axis: Axis::Y, positive: true });
    }
    if d.down {
        steps.push(Step { axis: Axis::Y, positive: false });
    }
    if d.left {
        steps.push(Step { axis: Axis::X, positive: false });
    }
    if d.right {
        steps.push(Step { axis: Axis::X, positive: true });
    }
    assert(steps@ =~= spec_direction_steps(*d));
    steps
}

/// The steps an input makes, in order.
pub fn movement_steps(input: &Inputs) -> (steps: Vec<Step>)
    ensures
        steps@ == spec_movement_steps(*input),
{
    match input {
        Inputs::Idle => Vec::new(),
        Inputs::Direction(d) => direction_steps(d),
    }
}

/// The net move along `axis` of a sequence of steps, in units.
pub open spec fn net_offset(steps: Seq<Step>, axis: Axis) -> int
    decreases steps.len(),
{
    if steps.len() == 0 {
        0
    } else {
        net_offset(steps.drop_last(), axis) + if steps.last().axis == axis {
            if steps.last().positive {
                1int
            } else {
                -1int
            }
        } else {
            0int
        }
    }
}

/// An input with no direction held moves nothing.
pub proof fn law_idle_input_moves_nothing(d: Direction)
    ensures
        d.spec_is_none() <==> spec_direction_steps(d).len() == 0,
{
}

/// Holding a direction moves one unit per held key: the net move is right
/// minus left along x and up minus down along y, so opposite keys cancel.
pub proof fn law_net_movement(d: Direction)
    ensures
        net_offset(spec_direction_steps(d), Axis::X) == (if d.right { 1int } else { 0int }) - (
        if d.left {
            1int
        } else {
            0int
        }),
        net_offset(spec_direction_steps(d), Axis::Y) == (if d.up { 1int } else { 0int }) - (
        if d.down {
            1int
        } else {
            0int
        }),
{
    let u = if d.up { seq![Step { axis: Axis::Y, positive: true }] } else { seq![] };
    let dn = if d.down { seq![Step { axis: Axis::Y, positive: false }] } else { seq![] };
    let l = if d.left { seq![Step { axis: Axis::X, positive: false }] } else { seq![] };
    let r = if d.right { seq![Step { axis: Axis::X, positive: true }] } else { seq![] };
    lemma_net_offset_concat(u, dn, Axis::X);
    lemma_net_offset_concat(u, dn, Axis::Y);
    lemma_net_offset_concat(u + dn, l, Axis::X);
    lemma_net_offset_concat(u + dn, l, Axis::Y);
    lemma_net_offset_concat(u + dn + l, r, Axis::X);
    lemma_net_offset_concat(u + dn + l, r, Axis::Y);
    lemma_net_offset_single(u, Axis::X);
    lemma_net_offset_single(u, Axis::Y);
    lemma_net_offset_single(dn, Axis::X);
    lemma_net_offset_single(dn, Axis::Y);
    lemma_net_offset_single(l, Axis::X);
    lemma_net_offset_single(l, Axis::Y);
    lemma_net_offset_single(r, Axis::X);
    lemma_net_offset_single(r, Axis::Y);
}

proof fn lemma_net_offset_single(s: Seq<Step>, axis: Axis)
    requires
        s.len() <= 1,
    ensures
        net_offset(s, axis) == if s.len() == 0 {
            0int
        } else if s[0].axis == axis {
            if s[0].positive {
                1int
            } else {
                -1int
            }
        } else {
            0int
        },
{
    if s.len() == 1 {
        assert(s.drop_last() =~= Seq::<Step>::empty());
        assert(net_offset(s.drop_last(), axis) == 0);
        assert(s.last() == s[0]);
    }
}

proof fn lemma_net_offset_concat(a: Seq<Step>, b: Seq<Step>, axis: Axis)
    ensures
        net_offset(a + b, axis) == net_offset(a, axis) + net_offset(b, axis),
    decreases b.len(),
{
    if b.len() == 0 {
        assert(a + b =~= a);
    } else {
        assert((a + b).drop_last() =~= a + b.drop_last());
        lemma_net_offset_concat(a, b.drop_last(), axis);
    }
}

/// Actions of the shooter examples.
#[derive(Clone, Copy, Debug, PartialEq, Eq, Hash, Structural)]
pub enum PlayerActions {
    Up,
    Down,
    Left,
    Right,
    Shoot,
    MoveCursor,
}

/// How an action is driven: a button press or a two-axis value.
#[derive(Clone, Copy, Debug, PartialEq, Eq, Structural)]
pub enum ControlKind {
    Button,
    DualAxis,
}

impl PlayerActions {
    /// Only cursor movement takes a two-axis value; every other action is a
    /// button.
    pub open spec fn spec_control_kind(self) -> ControlKind {
        match self {
            PlayerActions::MoveCursor => ControlKind::DualAxis,
            _ => ControlKind::Button,
        }
    }

    pub fn input_control_kind(&self) -> (k: ControlKind)
        ensures
            k == self.spec_control_kind(),
    {
        match self {
            PlayerActions::MoveCursor => ControlKind::DualAxis,
            _ => ControlKind::Button,
        }
    }
}

} // verus!
