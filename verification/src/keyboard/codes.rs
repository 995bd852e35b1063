use vstd::prelude::*;

verus! {

// Codes of the keys, to be wrapped as `KeyCode(UP)`.

pub const UP: i32 = -1;
pub const DOWN: i32 = -2;
pub const LEFT: i32 = -3;
pub const RIGHT: i32 = -4;
pub const OK: i32 = -5;
pub const LEFT_SOFTKEY: i32 = -6;
pub const RIGHT_SOFTKEY: i32 = -7;
pub const CLEAR: i32 = -8;
pub const BACK: i32 = -9;
pub const NUM0: i32 = 48;
pub const NUM1: i32 = 49;
pub const NUM2: i32 = 50;
pub const NUM3: i32 = 51;
pub const NUM4: i32 = 52;
pub const NUM5: i32 = 53;
pub const NUM6: i32 = 54;
pub const NUM7: i32 = 55;
pub const NUM8: i32 = 56;
pub const NUM9: i32 = 57;
pub const STAR: i32 = 42;
pub const POUND: i32 = 35;
pub const VOL_UP: i32 = 58;
pub const VOL_DOWN: i32 = 59;
pub const A: i32 = 65;
pub const B: i32 = 66;
pub const C: i32 = 67;
pub const D: i32 = 68;
pub const E: i32 = 69;
pub const F: i32 = 70;
pub const G: i32 = 71;
pub const H: i32 = 72;
pub const I: i32 = 73;
pub const J: i32 = 74;
pub const K: i32 = 75;
pub const L: i32 = 76;
pub const M: i32 = 77;
pub const N: i32 = 78;
pub const O: i32 = 79;
pub const P: i32 = 80;
pub const Q: i32 = 81;
pub const R: i32 = 82;
pub const S: i32 = 83;
pub const T: i32 = 84;
pub const U: i32 = 85;
pub const V: i32 = 86;
pub const W: i32 = 87;
pub const X: i32 = 88;
pub const Y: i32 = 89;
pub const Z: i32 = 90;
pub const SPACE: i32 = 91;
pub const TAB: i32 = 92;
pub const DEL: i32 = 93;
pub const ALT: i32 = 94;
pub const CTRL: i32 = 95;
pub const WIN: i32 = 96;
pub const SHIFT: i32 = 97;
pub const QUESTION: i32 = 98;
pub const PERIOD: i32 = 99;
pub const COMMA: i32 = 100;
pub const EXCLAMATION: i32 = 101;
pub const APOSTROPHE: i32 = 102;
pub const AT: i32 = 103;
pub const BACKSPACE: i32 = 104;
pub const QWERTY_ENTER: i32 = 105;
pub const FN: i32 = 106;
pub const SYMBOL: i32 = 107;
pub const NUM_LOCK: i32 = 108;
pub const QWERTY_MENU: i32 = 109;

} // verus!
