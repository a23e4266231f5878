use unsafe_math::{Extent2, Rgba, UnsafeMath, Vector2, Vector3, Vector4};

#[test]
fn test_integer_fast_add() {
    let a: u32 = 1;
    let b: u32 = 2;
    assert_eq!(a.wrapping_add(b), 3);
    assert_eq!(a.fast_add(b), a.wrapping_add(b));
}

#[test]
fn test_integer_overflow_behaviour() {
    let max: u8 = u8::MAX;
    let one: u8 = 1;
    let wrapped = max.wrapping_add(one);
    let fast = max.fast_add(one);
    assert_eq!(fast, wrapped);
}

#[test]
fn test_integer_other_ops() {
    let x: i16 = -5;
    let y: i16 = 3;
    assert_eq!(x.fast_sub(y), x.checked_sub(y).unwrap());
    assert_eq!(x.fast_mul(y), x.checked_mul(y).unwrap());
    assert_eq!(x.fast_div(y), x.checked_div(y).unwrap());
    assert_eq!(x.fast_rem(y), x.checked_rem(y).unwrap());
    assert_eq!(x.fast_shl(2), x.checked_shl(2).unwrap());
    assert_eq!(x.fast_shr(1), x.checked_shr(1).unwrap());
}

#[test]
fn exact_results_when_nothing_overflows() {
    assert_eq!(7u32.fast_add(5), 12);
    assert_eq!(7u32.fast_sub(5), 2);
    assert_eq!(7u32.fast_mul(5), 35);
    assert_eq!(7u32.fast_div(5), 1);
    assert_eq!(7u32.fast_rem(5), 2);
    assert_eq!(3u32.fast_shl(4), 48);
    assert_eq!(48u32.fast_shr(4), 3);
    assert_eq!((-7i64).fast_div(2), -3);
    assert_eq!((-7i64).fast_rem(2), -1);
    assert_eq!(7i8.fast_div(-2), -3);
    assert_eq!(7i8.fast_rem(-2), 1);
    assert_eq!((-100i128).fast_mul(3), -300);
    assert_eq!(250u8.fast_add(5), 255);
    assert_eq!(i32::MIN.fast_div(2), -1073741824);
    assert_eq!(i32::MIN.fast_rem(3), -2);
    assert_eq!(10usize.fast_sub(10), 0);
    assert_eq!((-3isize).fast_mul(-3), 9);
    assert_eq!(u64::MAX.fast_div(u64::MAX), 1);
    assert_eq!(u128::MAX.fast_shr(127), 1);
    assert_eq!((-8i16).fast_shr(1), -4);
}

#[test]
fn add_sub_mul_wrap_around_on_overflow() {
    assert_eq!(u8::MAX.fast_add(2), 1);
    assert_eq!(0u16.fast_sub(1), u16::MAX);
    assert_eq!(i8::MAX.fast_add(1), i8::MIN);
    assert_eq!(i8::MIN.fast_sub(1), i8::MAX);
    assert_eq!(200u8.fast_mul(2), 144);
    assert_eq!(i32::MAX.fast_mul(2), -2);
    assert_eq!(i64::MIN.fast_mul(-1), i64::MIN);
    assert_eq!(u64::MAX.fast_mul(u64::MAX), 1);
    assert_eq!(usize::MAX.fast_add(1), 0);
    assert_eq!(i128::MAX.fast_add(i128::MAX), -2);
    for a in [0u16, 1, 77, 300, 40000, u16::MAX] {
        for b in [0u16, 1, 3, 255, 1000, u16::MAX] {
            assert_eq!(a.fast_add(b), a.wrapping_add(b));
            assert_eq!(a.fast_sub(b), a.wrapping_sub(b));
            assert_eq!(a.fast_mul(b), a.wrapping_mul(b));
        }
    }
}

#[test]
fn shifts_move_bits_out() {
    assert_eq!(0x81u8.fast_shl(1), 0x02);
    assert_eq!(1u32.fast_shl(31), 0x8000_0000);
    assert_eq!(i32::MIN.fast_shr(31), -1);
    assert_eq!((-1i64).fast_shl(63), i64::MIN);
}

#[test]
fn vector3_fast_add_is_field_wise() {
    let a = Vector3 { x: 1u32, y: 2, z: 3 };
    let b = Vector3 { x: 4u32, y: 5, z: 6 };
    let c = a.fast_add(b);
    assert_eq!(c, Vector3 { x: 5, y: 7, z: 9 });
    assert_eq!(c.x, 1u32.fast_add(4));
    assert_eq!(c.y, 2u32.fast_add(5));
    assert_eq!(c.z, 3u32.fast_add(6));
}

#[test]
fn composite_types_apply_every_operation_field_wise() {
    let a = Vector2 { x: 10i32, y: -9 };
    let b = Vector2 { x: 3i32, y: 4 };
    assert_eq!(a.fast_sub(b), Vector2 { x: 7, y: -13 });
    assert_eq!(a.fast_mul(b), Vector2 { x: 30, y: -36 });
    assert_eq!(a.fast_div(b), Vector2 { x: 3, y: -2 });
    assert_eq!(a.fast_rem(b), Vector2 { x: 1, y: -1 });
    assert_eq!(a.fast_shl(2), Vector2 { x: 40, y: -36 });
    let v = Vector4 { x: 1u8, y: 2, z: 4, w: 128 };
    assert_eq!(v.fast_shr(1), Vector4 { x: 0, y: 1, z: 2, w: 64 });
    let c = Rgba { r: 250u8, g: 0, b: 7, a: 255 };
    let d = Rgba { r: 10u8, g: 1, b: 7, a: 1 };
    assert_eq!(c.fast_add(d), Rgba { r: 4, g: 1, b: 14, a: 0 });
    let e = Extent2 { width: 640u32, height: 480 };
    assert_eq!(e.fast_div(Extent2 { width: 2, height: 4 }), Extent2 { width: 320, height: 120 });
    let nested = Vector2 { x: Vector2 { x: 1u16, y: 2 }, y: Vector2 { x: 3u16, y: 4 } };
    let sum = nested.fast_add(nested);
    assert_eq!(sum.y.x, 6);
}
