use vstd::prelude::*;

verus! {

/// A two-component vector of the Windows numerics library, carried through
/// the pointer and resize callbacks without being read.
#[verifier::external_type_specification]
#[verifier::external_body]
pub struct ExVector2(windows_numerics::Vector2);

/// The error type of the Windows bindings, carried in the callbacks' results.
#[verifier::external_type_specification]
#[verifier::external_body]
pub struct ExWindowsError(windows_core::Error);

/// The viewer's application state: it reacts to pointer and resize events.
pub struct App {}

impl App {
    /// Creates the application state.
    pub fn new() -> (app: Self)
        ensures
            app == (App {}),
    {
        Self {}
    }

    /// Reacts to the pointer moving to `point`; the viewer takes no action.
    pub fn on_pointer_moved(&mut self, _point: &windows_numerics::Vector2) -> (r: Result<(), windows_core::Error>)
        ensures
            r is Ok,
            *final(self) == *old(self),
    {
        Ok(())
    }

    /// Reacts to the parent window's client area becoming `new_size`; the
    /// viewer takes no action.
    pub fn on_parent_size_changed(&mut self, _new_size: &windows_numerics::Vector2) -> (r: Result<
        (),
        windows_core::Error,
    >)
        ensures
            r is Ok,
            *final(self) == *old(self),
    {
        Ok(())
    }

    /// Reacts to a pointer button being pressed; the viewer takes no action.
    pub fn on_pointer_pressed(&mut self, _is_right_button: bool, _is_eraser: bool) -> (r: Result<
        (),
        windows_core::Error,
    >)
        ensures
            r is Ok,
            *final(self) == *old(self),
    {
        Ok(())
    }
}

} // verus!
