//! Cursor coordinates packed into one pointer-sized message parameter:
//! x in the low 16 bits, y in the next 16, each a signed 16-bit value.

use vstd::prelude::*;

verus! {

use vstd::arithmetic::div_mod::lemma_div_multiples_vanish_fancy;
use vstd::arithmetic::div_mod::lemma_mod_add_multiples_vanish;
use vstd::arithmetic::div_mod::lemma_mod_multiples_vanish;
use vstd::arithmetic::div_mod::lemma_small_mod;

/// A 16-bit word reinterpreted as a signed value.
pub open spec fn sign_extend_word(w: int) -> int {
    if w < 0x8000 {
        w
    } else {
        w - 0x1_0000
    }
}

/// The x coordinate a message parameter carries: its low 16 bits, signed.
pub open spec fn spec_x_param(l: int) -> int {
    sign_extend_word(l % 0x1_0000)
}

/// The y coordinate a message parameter carries: bits 16 to 31, signed.
pub open spec fn spec_y_param(l: int) -> int {
    sign_extend_word((l / 0x1_0000) % 0x1_0000)
}

/// A message parameter packing x into the low word and y into the high word.
pub open spec fn spec_point_param(x: int, y: int) -> int {
    x % 0x1_0000 + 0x1_0000 * (y % 0x1_0000)
}

/// Extract the signed x coordinate from a packed message parameter.
pub fn get_x_param(l_param: isize) -> (x: i32)
    ensures
        x == spec_x_param(l_param as int),
{
    let x16: i16 = #[verifier::truncate] ((l_param & 0xffff) as i16);
    proof {
        assert(((l_param & 0xffff) as i16) as int == sign_extend_word(
            (l_param as int) % 0x1_0000,
        )) by (bit_vector);
    }
    x16 as i32
}

/// Extract the signed y coordinate from a packed message parameter.
pub fn get_y_param(l_param: isize) -> (y: i32)
    ensures
        y == spec_y_param(l_param as int),
{
    let y16: i16 = #[verifier::truncate] (((l_param >> 16) & 0xffff) as i16);
    proof {
        assert((((l_param >> 16) & 0xffff) as i16) as int == sign_extend_word(
            ((l_param as int) / 0x1_0000) % 0x1_0000,
        )) by (bit_vector);
    }
    y16 as i32
}

/// Pack two signed 16-bit coordinates into one message parameter value.
pub fn make_point_param(x: i32, y: i32) -> (l: i64)
    requires
        -0x8000 <= x < 0x8000,
        -0x8000 <= y < 0x8000,
    ensures
        l == spec_point_param(x as int, y as int),
{
    let xw: u16 = #[verifier::truncate] (x as u16);
    let yw: u16 = #[verifier::truncate] (y as u16);
    proof {
        assert((xw as i64) | ((yw as i64) << 16) == (x as int) % 0x1_0000 + 0x1_0000 * ((
        y as int) % 0x1_0000)) by (bit_vector)
            requires
                xw == #[verifier::truncate] (x as u16),
                yw == #[verifier::truncate] (y as u16),
                -0x8000 <= x < 0x8000,
                -0x8000 <= y < 0x8000,
        ;
    }
    (xw as i64) | ((yw as i64) << 16)
}

/// Extracting x and then y from a packed parameter gives back exactly the
/// coordinates it was packed from, for any coordinates a signed 16-bit
/// value can hold.
pub proof fn lemma_point_param_round_trip(x: int, y: int)
    requires
        -0x8000 <= x < 0x8000,
        -0x8000 <= y < 0x8000,
    ensures
        spec_x_param(spec_point_param(x, y)) == x,
        spec_y_param(spec_point_param(x, y)) == y,
{
    let m = 0x1_0000int;
    let px = x % m;
    let py = y % m;
    if x >= 0 {
        lemma_small_mod(x as nat, m as nat);
    } else {
        lemma_mod_add_multiples_vanish(x, m);
        lemma_small_mod((x + m) as nat, m as nat);
    }
    if y >= 0 {
        lemma_small_mod(y as nat, m as nat);
    } else {
        lemma_mod_add_multiples_vanish(y, m);
        lemma_small_mod((y + m) as nat, m as nat);
    }
    assert(0 <= px < m);
    assert(0 <= py < m);
    lemma_mod_multiples_vanish(py, px, m);
    lemma_small_mod(px as nat, m as nat);
    lemma_div_multiples_vanish_fancy(py, px, m);
    lemma_small_mod(py as nat, m as nat);
}

} // verus!
