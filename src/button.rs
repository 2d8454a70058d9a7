use vstd::prelude::*;

verus! {

/// The button of a mouse.
///
/// A plain value: two buttons are equal exactly when they are the same
/// variant and, for `Other`, carry the same code.
#[derive(Debug, Hash, PartialEq, Eq, Clone, Copy, Structural)]
pub enum Button {
    /// The left mouse button.
    Left,
    /// The right mouse button.
    Right,
    /// The middle (wheel) button.
    Middle,
    /// Some other button, identified by a code whose meaning the backend
    /// defines.
    Other(u8),
}

/// Two buttons name the same button: the same variant and, for `Other`,
/// the same code.
pub open spec fn same_button(a: Button, b: Button) -> bool {
    match (a, b) {
        (Button::Left, Button::Left) => true,
        (Button::Right, Button::Right) => true,
        (Button::Middle, Button::Middle) => true,
        (Button::Other(x), Button::Other(y)) => x == y,
        _ => false,
    }
}

/// Equality of buttons is structural: `a == b` holds exactly when both are
/// the same variant and, for `Other`, carry the same code. This holds of
/// the `==` that compiled code runs too, since `Button` derives it
/// structurally.
pub proof fn lemma_eq_iff_same_button(a: Button, b: Button)
    ensures
        (a == b) <==> same_button(a, b),
{
}

/// Every button has exactly one of the four shapes.
pub proof fn lemma_button_closed(b: Button)
    ensures
        b is Left || b is Right || b is Middle || b is Other,
        !(b is Left && b is Right),
        !(b is Left && b is Middle),
        !(b is Left && b is Other),
        !(b is Right && b is Middle),
        !(b is Right && b is Other),
        !(b is Middle && b is Other),
{
}

} // verus!
