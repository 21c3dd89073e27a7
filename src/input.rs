//! Keyboard keys.
use vstd::prelude::*;

verus! {

/// A key on the keyboard.
#[derive(Debug, Clone, Copy, PartialEq, Eq, Structural, PartialOrd, Ord, Hash)]
pub enum Key {
    /// An unknown key.
    Unknown,

    /// The `A` key.
    A,

    /// The `B` key.
    B,

    /// The `C` key.
    C,

    /// The `D` key.
    D,

    /// The `E` key.
    E,

    /// The `F` key.
    F,

    /// The `G` key.
    G,

    /// The `H` key.
    H,

    /// The `I` key.
    I,

    /// The `J` key.
    J,

    /// The `K` key.
    K,

    /// The `L` key.
    L,

    /// The `M` key.
    M,

    /// The `N` key.
    N,

    /// The `O` key.
    O,

    /// The `P` key.
    P,

    /// The `Q` key.
    Q,

    /// The `R` key.
    R,

    /// The `S` key.
    S,

    /// The `T` key.
    T,

    /// The `U` key.
    U,

    /// The `V` key.
    V,

    /// The `W` key.
    W,

    /// The `X` key.
    X,

    /// The `Y` key.
    Y,

    /// The `Z` key.
    Z,

    /// The `0` key.
    Num0,

    /// The `1` key.
    Num1,

    /// The `2` key.
    Num2,

    /// The `3` key.
    Num3,

    /// The `4` key.
    Num4,

    /// The `5` key.
    Num5,

    /// The `6` key.
    Num6,

    /// The `7` key.
    Num7,

    /// The `8` key.
    Num8,

    /// The `9` key.
    Num9,

    /// The `F1` key.
    F1,

    /// The `F2` key.
    F2,

    /// The `F3` key.
    F3,

    /// The `F4` key.
    F4,

    /// The `F5` key.
    F5,

    /// The `F6` key.
    F6,

    /// The `F7` key.
    F7,

    /// The `F8` key.
    F8,

    /// The `F9` key.
    F9,

    /// The `F10` key.
    F10,

    /// The `F11` key.
    F11,

    /// The `F12` key.
    F12,

    /// The left arrow.
    Left,

    /// The right arrow.
    Right,

    /// The up arrow.
    Up,

    /// The down arrow.
    Down,

    /// The `Space` key.
    Space,
}

} // verus!
