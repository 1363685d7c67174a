use circuit_frontend::arena::Arena;
use circuit_frontend::context::{Context, Node, SchemeType};
use circuit_frontend::native_field::{FieldModulus, NativeField};

// A large modulus standing in for a proof-system backend field.
fn backend_field() -> FieldModulus {
    FieldModulus {
        modulus: 0x7fff_ffff_ffff_ffff_ffff_ffff_ffff_ffed,
    }
}

fn small_field() -> FieldModulus {
    FieldModulus { modulus: 7 }
}

#[test]
fn can_encode_negative_number() {
    let m = backend_field();
    let x = NativeField::from_i64(-1, &m);

    assert_eq!(x.val, m.modulus.wrapping_sub(1));

    let x = NativeField::from_i64(1i64, &m);

    assert_eq!(x.val, 1);
}

#[test]
fn can_wrap_number() {
    let m = small_field();
    let x = NativeField::from_i64(22i64, &m);

    assert_eq!(x.val, 1);

    let x = NativeField::from_i64(-22i64, &m);

    assert_eq!(x.val, m.modulus.wrapping_sub(1));
}

#[test]
fn can_encode_unsigned_value() {
    let m = small_field();
    let x = NativeField::from_u64(6u64, &m);

    assert_eq!(x.val, 6);

    let x = NativeField::from_u64(7u64, &m);

    assert_eq!(x.val, 0);

    let x = NativeField::from_u64(22u64, &m);

    assert_eq!(x.val, 1);
}

#[test]
fn encode_concrete_values() {
    let m = small_field();
    assert_eq!(NativeField::from_i64(-1, &m).val, 6);
    assert_eq!(NativeField::from_u64(22, &m).val, 1);
    assert_eq!(NativeField::from_u64(7, &m).val, 0);
    assert_eq!(NativeField::from_u64(6, &m).val, 6);
}

#[test]
fn encode_exercises_constant_time_selection() {
    // These values give the wrong answer if the masked selections or the
    // zero test inside the signed encoding hand an operand back unchanged.
    let m = small_field();
    assert_eq!(NativeField::from_i64(-2, &m).val, 5);
    assert_eq!(NativeField::from_i64(-7, &m).val, 0);
    assert_eq!(NativeField::from_i64(-14, &m).val, 0);
    // 2^63 is 1 mod 7, so the minimum value encodes as 7 - 1.
    assert_eq!(NativeField::from_i64(i64::MIN, &m).val, 6);
}

#[test]
fn encode_narrow_widths() {
    let m = small_field();
    assert_eq!(NativeField::from_i8(-1, &m).val, 6);
    assert_eq!(NativeField::from_i16(-22, &m).val, 6);
    assert_eq!(NativeField::from_i32(22, &m).val, 1);
    assert_eq!(NativeField::from_u8(7, &m).val, 0);
    assert_eq!(NativeField::from_u16(22, &m).val, 1);
    assert_eq!(NativeField::from_u32(6, &m).val, 6);
}

#[test]
fn round_trip_signed_samples() {
    // Decoding the encoding of x under m is x mod m, across signs and moduli.
    let moduli = [2u128, 3, 7, 10, 97, 1 << 40];
    let values = [-100i64, -7, -2, -1, 0, 1, 6, 7, 22, 1_000_000, i64::MAX, i64::MIN];
    for &m in moduli.iter() {
        let f = FieldModulus { modulus: m };
        for &x in values.iter() {
            let enc = NativeField::from_i64(x, &f);
            let expected = ((x as i128).rem_euclid(m as i128)) as u128;
            assert_eq!(enc.val, expected);
            assert!(enc.val < m);
        }
    }
}

#[test]
fn hex_parsing() {
    let m = FieldModulus { modulus: 1 << 100 };
    assert_eq!(NativeField::from_be_hex("ff", &m).unwrap().val, 255);
    assert_eq!(NativeField::from_be_hex("0A", &m).unwrap().val, 10);
    assert_eq!(NativeField::from_be_hex("", &m).unwrap().val, 0);
    assert_eq!(
        NativeField::from_be_hex("deadBEEF", &m).unwrap().val,
        0xdead_beef
    );
    assert!(NativeField::from_be_hex("xyz", &m).is_none());
    assert!(NativeField::from_be_hex("123456789012345678901234567890123", &m).is_none());

    let small = FieldModulus { modulus: 7 };
    assert_eq!(NativeField::from_be_hex("16", &small).unwrap().val, 1);
}

#[test]
fn constants_become_graph_nodes() {
    let mut ctx = Context::new(Arena::new(), SchemeType::Zkp);
    let m = small_field();
    let six = NativeField::from_u64(6, &m);
    assert_eq!(six.to_native_fields(), vec![6]);
    let handle = six.into_program_node(&mut ctx);
    assert_eq!(handle.ids, vec![0]);
    let (_arena, nodes) = ctx.release();
    assert_eq!(nodes, vec![Node::Constant(6)]);
}
