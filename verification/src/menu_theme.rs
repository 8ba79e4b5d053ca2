use vstd::prelude::*;

verus! {

/// Style classes for the chrome's buttons. The embedding shell's theme maps
/// each class to concrete colors; the chrome itself only picks the class:
/// `Close` for the close button, `OtherMenu` for the remaining title-bar
/// buttons, `Transparent` for flat regions, `Normal` everywhere else.
#[derive(Clone, Copy, Debug, PartialEq, Eq, Structural)]
pub enum Button {
    Normal,
    Transparent,
    Close,
    OtherMenu,
}

/// Style classes for the menu bar and its menus.
#[derive(Clone, Copy, Debug, PartialEq, Eq, Structural)]
pub enum MenuBarStyle {
    Default,
}

impl Default for Button {
    fn default() -> (r: Self)
        ensures
            r is Normal,
    {
        Button::Normal
    }
}

impl Default for MenuBarStyle {
    fn default() -> (r: Self)
        ensures
            r is Default,
    {
        MenuBarStyle::Default
    }
}

} // verus!
