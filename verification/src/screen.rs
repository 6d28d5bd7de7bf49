use vstd::prelude::*;

verus! {

/// Which screen of the terminal UI currently has focus. The UI layer
/// dispatches keypresses and highlights widgets according to this tag;
/// the session core never changes it.
#[derive(Clone, Copy, Debug, PartialEq, Eq, Structural)]
pub enum CurrentScreen {
    Main,
    SelectDevice,
    DeviceInfo,
    ColorPicker,
    LedModesList,
}

} // verus!
