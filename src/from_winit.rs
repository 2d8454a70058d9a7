use crate::button::Button;
use vstd::prelude::*;
use winit::event::MouseButton;

verus! {

/// winit's mouse button. Verus reads its variants from winit's definition:
/// `Left`, `Right`, `Middle` and `Other(u8)`.
#[verifier::external_type_specification]
pub struct ExMouseButton(winit::event::MouseButton);

/// The button that winit's mouse button `m` stands for: each named button
/// goes to its own variant, and `Other` keeps its code as it is.
pub open spec fn button_of(m: MouseButton) -> Button {
    match m {
        MouseButton::Left => Button::Left,
        MouseButton::Right => Button::Right,
        MouseButton::Middle => Button::Middle,
        MouseButton::Other(code) => Button::Other(code),
    }
}

impl From<MouseButton> for Button {
    fn from(mouse_button: MouseButton) -> (r: Button)
        ensures
            r == button_of(mouse_button),
    {
        match mouse_button {
            MouseButton::Left => Button::Left,
            MouseButton::Right => Button::Right,
            MouseButton::Middle => Button::Middle,
            MouseButton::Other(other) => Button::Other(other),
        }
    }
}

impl vstd::std_specs::convert::FromSpecImpl<MouseButton> for Button {
    open spec fn obeys_from_spec() -> bool {
        true
    }

    open spec fn from_spec(v: MouseButton) -> Button {
        button_of(v)
    }
}

/// The conversion is total and deterministic: whatever winit button `m`
/// is, two calls of `Button::from(m)` give the same button, the one that
/// `button_of(m)` names.
pub proof fn lemma_from_deterministic(m: MouseButton, r1: Button, r2: Button)
    requires
        call_ensures(<Button as From<MouseButton>>::from, (m,), r1),
        call_ensures(<Button as From<MouseButton>>::from, (m,), r2),
    ensures
        r1 == r2,
        r1 == button_of(m),
{
}

/// No information is lost: every code of winit's `Other` comes through
/// unchanged, named buttons never become `Other`, and two different winit
/// buttons never give the same button.
pub proof fn lemma_button_of_lossless(m1: MouseButton, m2: MouseButton)
    ensures
        forall|code: u8| #[trigger] button_of(MouseButton::Other(code)) == Button::Other(code),
        (button_of(m1) is Other) <==> (m1 is Other),
        button_of(m1) == button_of(m2) ==> m1 == m2,
{
}

} // verus!
