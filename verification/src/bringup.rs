//! The UART boot proof's console output: banner lines and decimal tick counts.

use vstd::prelude::*;

use crate::hw::uart::{spec_write_ops, Uart4};
use crate::hw::RegOp;

verus! {

/// The decimal digits of `v` without leading zeros (empty for zero).
pub open spec fn digits(v: nat) -> Seq<u8>
    decreases v,
{
    if v == 0 {
        Seq::empty()
    } else {
        digits(v / 10).push((48 + v % 10) as u8)
    }
}

/// The decimal text of `v`: its digits, or `"0"` for zero.
pub open spec fn decimal(v: nat) -> Seq<u8> {
    if v == 0 {
        seq![48u8]
    } else {
        digits(v)
    }
}

/// `10^k`.
pub open spec fn p10(k: nat) -> nat
    decreases k,
{
    if k == 0 {
        1
    } else {
        10 * p10((k - 1) as nat)
    }
}

proof fn lemma_digits_len(v: nat, k: nat)
    requires
        v < p10(k),
    ensures
        digits(v).len() <= k,
    decreases k,
{
    if v > 0 && k > 0 {
        lemma_digits_len(v / 10, (k - 1) as nat);
    }
}

/// The decimal text of `value`, as the bytes sent for it.
pub fn decimal_bytes(value: u32) -> (r: Vec<u8>)
    ensures
        r@ == decimal(value as nat),
{
    if value == 0 {
        let r = vec![48u8];
        assert(r@ =~= decimal(0));
        return r;
    }
    let mut buf = [0u8; 10];
    let mut i: usize = 10;
    let mut v = value;
    proof {
        reveal_with_fuel(p10, 11);
        assert(p10(10) == 10000000000);
        lemma_digits_len(value as nat, 10);
    }
    while v > 0
        invariant
            i <= 10,
            digits(value as nat) == digits(v as nat) + buf@.subrange(i as int, 10),
            digits(value as nat).len() <= 10,
        decreases v,
    {
        let ghost old_sub = buf@.subrange(i as int, 10);
        assert(digits(v as nat) == digits((v / 10) as nat).push((48 + v % 10) as u8));
        assert(i >= 1);
        i = i - 1;
        buf[i] = 48u8 + (v % 10) as u8;
        assert(buf@.subrange(i as int, 10) =~= seq![(48 + v % 10) as u8] + old_sub);
        v = v / 10;
        assert(digits(value as nat) =~= digits(v as nat) + buf@.subrange(i as int, 10));
    }
    let mut r: Vec<u8> = Vec::new();
    let mut j: usize = i;
    while j < 10
        invariant
            i <= j <= 10,
            r@ == buf@.subrange(i as int, j as int),
        decreases 10 - j,
    {
        r.push(buf[j]);
        j = j + 1;
        assert(r@ =~= buf@.subrange(i as int, j as int));
    }
    assert(digits(0) =~= Seq::<u8>::empty());
    assert(r@ =~= digits(value as nat));
    r
}

/// Print `value` in decimal on the console.
pub fn write_u32(uart: &Uart4, value: u32) -> (r: Vec<RegOp>)
    ensures
        r@ == spec_write_ops(decimal(value as nat)),
{
    let text = decimal_bytes(value);
    uart.write(text.as_slice())
}

/// A nonzero number prints without leading zero.
pub proof fn law_no_leading_zero(v: nat)
    requires
        v > 0,
    ensures
        decimal(v).len() > 0,
        decimal(v)[0] != 48u8,
    decreases v,
{
    if v / 10 > 0 {
        law_no_leading_zero(v / 10);
        assert(digits(v) == digits(v / 10).push((48 + v % 10) as u8));
    } else {
        assert(digits(0) =~= Seq::<u8>::empty());
        assert(digits(v) =~= seq![(48 + v % 10) as u8]);
    }
}

/// Every printed byte is an ASCII digit.
pub proof fn law_decimal_digits(v: nat)
    ensures
        forall|i: int| 0 <= i < decimal(v).len() ==> 48 <= #[trigger] decimal(v)[i] <= 57,
    decreases v,
{
    if v > 0 {
        law_decimal_digits(v / 10);
        lemma_digits_ascii(v);
    }
}

proof fn lemma_digits_ascii(v: nat)
    ensures
        forall|i: int| 0 <= i < digits(v).len() ==> 48 <= #[trigger] digits(v)[i] <= 57,
    decreases v,
{
    if v > 0 {
        lemma_digits_ascii(v / 10);
        let d = digits(v / 10);
        assert(digits(v) == d.push((48 + v % 10) as u8));
        assert forall|i: int| 0 <= i < digits(v).len() implies 48 <= #[trigger] digits(v)[i]
            <= 57 by {
            if i < d.len() {
                assert(digits(v)[i] == d[i]);
            }
        }
    }
}

} // verus!
