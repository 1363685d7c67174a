use vstd::prelude::*;
use vstd::arithmetic::div_mod::{lemma_fundamental_div_mod, lemma_fundamental_div_mod_converse};

use subtle::ConditionallySelectable;
use subtle::ConstantTimeEq;

use vstd::string::StringSliceAdditionalSpecFns;
use vstd::string::StrSliceExecFns;

use crate::context::Context;
use crate::context::Node;
use crate::program_node::ProgramNode;

verus! {

/// The modulus-defining marker of a native field, made explicit as a value:
/// every field element is constrained to `[0, modulus)`.
#[derive(Clone, Copy, PartialEq, Eq, Structural, Debug)]
pub struct FieldModulus {
    pub modulus: u128,
}

/// A native field element: a value fully reduced modulo the field modulus it
/// was encoded under.
#[derive(Clone, Copy, PartialEq, Eq, Structural, Debug)]
pub struct NativeField {
    pub val: u128,
    pub modulus: u128,
}

/// Relies on subtle's `u64::conditional_select` (and `Choice::from`): returns
/// `b` when the choice bit is one and `a` when it is zero, selecting by
/// masking rather than by a branch.
#[verifier::external_body]
fn ct_select_u64(a: u64, b: u64, choice: u8) -> (r: u64)
    requires
        choice == 0 || choice == 1,
    ensures
        r == (if choice == 1 {
            b
        } else {
            a
        }),
{
    u64::conditional_select(&a, &b, subtle::Choice::from(choice))
}

/// Relies on subtle's `u128::conditional_select` (and `Choice::from`):
/// returns `b` when the choice bit is one and `a` when it is zero, selecting
/// by masking rather than by a branch.
#[verifier::external_body]
fn ct_select_u128(a: u128, b: u128, choice: u8) -> (r: u128)
    requires
        choice == 0 || choice == 1,
    ensures
        r == (if choice == 1 {
            b
        } else {
            a
        }),
{
    u128::conditional_select(&a, &b, subtle::Choice::from(choice))
}

/// Relies on subtle's `u128::ct_eq` (with `Choice::unwrap_u8` to read the
/// resulting bit): one when the operand is zero, zero otherwise, computed
/// without a value-dependent branch.
#[verifier::external_body]
fn ct_is_zero_u128(a: u128) -> (r: u8)
    ensures
        r == (if a == 0 {
            1u8
        } else {
            0u8
        }),
{
    a.ct_eq(&0u128).unwrap_u8()
}

/// The byte is the ASCII code of a hexadecimal digit.
pub open spec fn is_hex_digit(b: u8) -> bool {
    (48 <= b && b <= 57) || (97 <= b && b <= 102) || (65 <= b && b <= 70)
}

/// The value of one hexadecimal digit, given as its ASCII code.
pub open spec fn hex_digit_val(b: u8) -> nat {
    if 48 <= b && b <= 57 {
        (b - 48) as nat
    } else if 97 <= b && b <= 102 {
        (b - 87) as nat
    } else if 65 <= b && b <= 70 {
        (b - 55) as nat
    } else {
        0
    }
}

/// Every byte of the sequence is a hexadecimal digit.
pub open spec fn all_hex_digits(bs: Seq<u8>) -> bool {
    forall|i: int| 0 <= i < bs.len() ==> is_hex_digit(#[trigger] bs[i])
}

/// The value of a big-endian sequence of hexadecimal digits.
pub open spec fn hex_value(bs: Seq<u8>) -> nat
    decreases bs.len(),
{
    if bs.len() == 0 {
        0
    } else {
        hex_value(bs.drop_last()) * 16 + hex_digit_val(bs.last())
    }
}

/// Sixteen to the `n`-th power.
pub open spec fn pow16(n: nat) -> nat
    decreases n,
{
    if n == 0 {
        1
    } else {
        16 * pow16((n - 1) as nat)
    }
}

proof fn lemma_pow16_mono(a: nat, b: nat)
    requires
        a <= b,
    ensures
        pow16(a) <= pow16(b),
        pow16(a) >= 1,
    decreases b,
{
    if a < b {
        lemma_pow16_mono(a, (b - 1) as nat);
    } else if a > 0 {
        lemma_pow16_mono((a - 1) as nat, (b - 1) as nat);
    }
}

impl NativeField {
    /// The element is fully reduced under its non-zero modulus.
    pub open spec fn wf(self) -> bool {
        self.modulus > 0 && self.val < self.modulus
    }

    /// Parses a big-endian hexadecimal string of at most 32 digits and
    /// encodes its value, reduced modulo the field modulus. Returns `None`
    /// when the string is longer than that or holds a non-digit.
    pub fn from_be_hex(hex_str: &str, m: &FieldModulus) -> (r: Option<NativeField>)
        requires
            m.modulus > 0,
        ensures
            match r {
                Some(f) => {
                    &&& hex_str.spec_bytes().len() <= 32
                    &&& all_hex_digits(hex_str.spec_bytes())
                    &&& f.wf()
                    &&& f.modulus == m.modulus
                    &&& f.val as int == (hex_value(hex_str.spec_bytes()) as int) % (
                    m.modulus as int)
                },
                None => !(hex_str.spec_bytes().len() <= 32 && all_hex_digits(
                    hex_str.spec_bytes(),
                )),
            },
    {
        let bytes = hex_str.as_bytes_vec();
        let n = bytes.len();
        if n > 32 {
            return None;
        }
        let mut v: u128 = 0;
        for i in 0..n
            invariant
                bytes@ == hex_str.spec_bytes(),
                n == bytes@.len(),
                n <= 32,
                all_hex_digits(bytes@.take(i as int)),
                v as nat == hex_value(bytes@.take(i as int)),
                v < pow16(i as nat),
        {
            let b = bytes[i];
            let d: u8;
            if 48 <= b && b <= 57 {
                d = b - 48;
            } else if 97 <= b && b <= 102 {
                d = b - 87;
            } else if 65 <= b && b <= 70 {
                d = b - 55;
            } else {
                proof {
                    assert(!is_hex_digit(bytes@[i as int]));
                }
                return None;
            }
            proof {
                lemma_pow16_mono((i + 1) as nat, 32nat);
                assert(pow16(32) == 0x1_0000_0000_0000_0000_0000_0000_0000_0000nat) by {
                    reveal_with_fuel(pow16, 33);
                }
                assert(pow16((i + 1) as nat) == 16 * pow16(i as nat));
                assert(v * 16 + d < pow16((i + 1) as nat)) by (nonlinear_arith)
                    requires
                        v < pow16(i as nat),
                        d <= 15,
                        pow16((i + 1) as nat) == 16 * pow16(i as nat),
                ;
            }
            v = v * 16 + (d as u128);
            proof {
                let t1 = bytes@.take(i + 1);
                assert(t1.drop_last() =~= bytes@.take(i as int));
                assert(t1.last() == bytes@[i as int]);
            }
        }
        proof {
            assert(bytes@.take(n as int) =~= bytes@);
        }
        Some(NativeField { val: v % m.modulus, modulus: m.modulus })
    }

    /// Encodes an unsigned 64-bit integer: the widened value reduced modulo
    /// the field modulus.
    pub fn from_u64(x: u64, m: &FieldModulus) -> (r: NativeField)
        requires
            m.modulus > 0,
        ensures
            r.wf(),
            r.modulus == m.modulus,
            r.val as int == (x as int) % (m.modulus as int),
    {
        NativeField { val: (x as u128) % m.modulus, modulus: m.modulus }
    }

    /// Encodes an unsigned 32-bit integer.
    pub fn from_u32(x: u32, m: &FieldModulus) -> (r: NativeField)
        requires
            m.modulus > 0,
        ensures
            r.wf(),
            r.modulus == m.modulus,
            r.val as int == (x as int) % (m.modulus as int),
    {
        NativeField::from_u64(x as u64, m)
    }

    /// Encodes an unsigned 16-bit integer.
    pub fn from_u16(x: u16, m: &FieldModulus) -> (r: NativeField)
        requires
            m.modulus > 0,
        ensures
            r.wf(),
            r.modulus == m.modulus,
            r.val as int == (x as int) % (m.modulus as int),
    {
        NativeField::from_u64(x as u64, m)
    }

    /// Encodes an unsigned 8-bit integer.
    pub fn from_u8(x: u8, m: &FieldModulus) -> (r: NativeField)
        requires
            m.modulus > 0,
        ensures
            r.wf(),
            r.modulus == m.modulus,
            r.val as int == (x as int) % (m.modulus as int),
    {
        NativeField::from_u64(x as u64, m)
    }

    /// Encodes a signed 64-bit integer as `x mod modulus`, without any branch
    /// on the sign (or on any other property) of the encoded value: the sign
    /// bit is extracted by shifting, the absolute value and the final result
    /// are picked by constant-time selection, and the same sequence of
    /// primitive operations runs whatever the inputs are.
    pub fn from_i64(x: i64, m: &FieldModulus) -> (r: NativeField)
        requires
            m.modulus > 0,
        ensures
            r.wf(),
            r.modulus == m.modulus,
            r.val as int == (x as int) % (m.modulus as int),
    {
        let u: u64 = #[verifier::truncate] (x as u64);
        proof {
            assert((x >= 0 ==> u == x) && (x < 0 ==> u == x + 0x1_0000_0000_0000_0000))
                by (bit_vector)
                requires
                    u == x as u64,
            ;
            assert((u >> 63u64) == (if u >= 0x8000_0000_0000_0000u64 {
                1u64
            } else {
                0u64
            })) by (bit_vector);
        }
        let sign: u8 = (u >> 63u64) as u8;
        let neg_u: u64 = 0u64.wrapping_sub(u);
        let abs_u: u64 = ct_select_u64(u, neg_u, sign);
        let abs: u128 = abs_u as u128;
        let r0: u128 = abs % m.modulus;
        let zero_bit: u8 = ct_is_zero_u128(r0);
        let choice: u8 = sign * (1 - zero_bit);
        let diff: u128 = m.modulus - r0;
        let val: u128 = ct_select_u128(r0, diff, choice);
        proof {
            let xi = x as int;
            let mi = m.modulus as int;
            if x >= 0 {
                assert(val as int == xi % mi);
            } else {
                let a = -xi;
                assert(abs as int == a);
                assert(r0 as int == a % mi);
                lemma_fundamental_div_mod(a, mi);
                let q = a / mi;
                if r0 == 0 {
                    assert(xi == (-q) * mi + 0) by (nonlinear_arith)
                        requires
                            a == mi * q,
                            xi == -a,
                    ;
                    lemma_fundamental_div_mod_converse(xi, mi, -q, 0);
                } else {
                    assert(xi == (-q - 1) * mi + (mi - r0)) by (nonlinear_arith)
                        requires
                            a == mi * q + r0,
                            xi == -a,
                    ;
                    lemma_fundamental_div_mod_converse(xi, mi, -q - 1, mi - r0);
                }
            }
        }
        NativeField { val, modulus: m.modulus }
    }

    /// Encodes a signed 32-bit integer.
    pub fn from_i32(x: i32, m: &FieldModulus) -> (r: NativeField)
        requires
            m.modulus > 0,
        ensures
            r.wf(),
            r.modulus == m.modulus,
            r.val as int == (x as int) % (m.modulus as int),
    {
        NativeField::from_i64(x as i64, m)
    }

    /// Encodes a signed 16-bit integer.
    pub fn from_i16(x: i16, m: &FieldModulus) -> (r: NativeField)
        requires
            m.modulus > 0,
        ensures
            r.wf(),
            r.modulus == m.modulus,
            r.val as int == (x as int) % (m.modulus as int),
    {
        NativeField::from_i64(x as i64, m)
    }

    /// Encodes a signed 8-bit integer.
    pub fn from_i8(x: i8, m: &FieldModulus) -> (r: NativeField)
        requires
            m.modulus > 0,
        ensures
            r.wf(),
            r.modulus == m.modulus,
            r.val as int == (x as int) % (m.modulus as int),
    {
        NativeField::from_i64(x as i64, m)
    }

    /// The underlying field elements of this value, in order. A field
    /// element occupies exactly one slot.
    pub fn to_native_fields(&self) -> (r: Vec<u128>)
        ensures
            r@ == seq![self.val],
    {
        let r = vec![self.val];
        proof {
            assert(r@ =~= seq![self.val]);
        }
        r
    }

    /// Inserts this element into the active context as a constant node and
    /// returns a handle to it.
    pub fn into_program_node(&self, ctx: &mut Context) -> (r: ProgramNode)
        requires
            old(ctx).wf(),
            old(ctx).nodes().len() < usize::MAX,
        ensures
            final(ctx).wf(),
            final(ctx).scheme() == old(ctx).scheme(),
            final(ctx).nodes() == old(ctx).nodes().push(Node::Constant(self.val)),
            r.ids@ == seq![old(ctx).nodes().len() as usize],
            r.is_single(final(ctx).nodes().len()),
    {
        let o = ctx.add_constant(self.val);
        ProgramNode::single(o)
    }
}

} // verus!
