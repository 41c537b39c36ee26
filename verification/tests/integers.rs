use std::cmp::Ordering;
use typed_num::Integer;
use typed_num::Num;
use typed_num::NumCast;
use typed_num::Signed;
use typed_num::TotalOrder;

#[derive(Debug, PartialEq, Eq, PartialOrd, Ord)]
struct Count;

#[test]
fn zero_and_one_are_the_scalars() {
    assert_eq!(Num::<i8, Count>::zero().0, 0);
    assert_eq!(Num::<u64, Count>::zero().0, 0);
    assert_eq!(Num::<i128, Count>::zero().0, 0);
    assert_eq!(Num::<i8, Count>::one().0, 1);
    assert_eq!(Num::<u64, Count>::one().0, 1);
    assert_eq!(Num::<usize, Count>::one().0, 1);
    assert_eq!(<i32 as Integer>::zero(), 0);
    assert_eq!(<u16 as Integer>::one(), 1);
}

#[test]
fn is_zero_tells_zero_from_the_rest() {
    assert!(Num::<i32, Count>::new(0).is_zero());
    assert!(!Num::<i32, Count>::new(1).is_zero());
    assert!(!Num::<i32, Count>::new(-1).is_zero());
    assert!(Num::<u8, Count>::new(0).is_zero());
    assert!(!Num::<u8, Count>::new(255).is_zero());
    assert!(Integer::is_zero(&0_i64));
    assert!(!Integer::is_zero(&7_i64));
}

#[test]
fn the_bounds_are_those_of_the_scalar_type() {
    assert_eq!(Num::<i8, Count>::min_value().0, -128);
    assert_eq!(Num::<i8, Count>::max_value().0, 127);
    assert_eq!(Num::<u8, Count>::min_value().0, 0);
    assert_eq!(Num::<u8, Count>::max_value().0, 255);
    assert_eq!(Num::<i16, Count>::min_value().0, i16::MIN);
    assert_eq!(Num::<u16, Count>::max_value().0, u16::MAX);
    assert_eq!(Num::<i32, Count>::min_value().0, i32::MIN);
    assert_eq!(Num::<u32, Count>::max_value().0, u32::MAX);
    assert_eq!(Num::<i64, Count>::min_value().0, i64::MIN);
    assert_eq!(Num::<u64, Count>::max_value().0, u64::MAX);
    assert_eq!(Num::<i128, Count>::min_value().0, i128::MIN);
    assert_eq!(Num::<u128, Count>::max_value().0, u128::MAX);
    assert_eq!(Num::<isize, Count>::min_value().0, isize::MIN);
    assert_eq!(Num::<usize, Count>::max_value().0, usize::MAX);
}

#[test]
fn casts_to_signed_types_keep_the_number_or_fail() {
    let n = Num::<i64, Count>::new(-129);
    assert_eq!(n.to_i8(), None);
    assert_eq!(n.to_i16(), Some(-129));
    assert_eq!(n.to_i32(), Some(-129));
    assert_eq!(n.to_i64(), Some(-129));
    assert_eq!(n.to_i128(), Some(-129));
    assert_eq!(n.to_isize(), Some(-129));
    assert_eq!(Num::<i64, Count>::new(-128).to_i8(), Some(-128));
    assert_eq!(Num::<i64, Count>::new(127).to_i8(), Some(127));
    assert_eq!(Num::<i64, Count>::new(128).to_i8(), None);
    assert_eq!(Num::<i64, Count>::new(32768).to_i16(), None);
    assert_eq!(Num::<i64, Count>::new(2147483648).to_i32(), None);
    assert_eq!(Num::<u64, Count>::new(u64::MAX).to_i64(), None);
    assert_eq!(Num::<u64, Count>::new(u64::MAX).to_i128(), Some(18446744073709551615));
    assert_eq!(Num::<u128, Count>::new(u128::MAX).to_i128(), None);
    assert_eq!(Num::<u64, Count>::new(u64::MAX).to_isize(), None);
}

#[test]
fn casts_to_unsigned_types_keep_the_number_or_fail() {
    let n = Num::<i64, Count>::new(-1);
    assert_eq!(n.to_u8(), None);
    assert_eq!(n.to_u16(), None);
    assert_eq!(n.to_u32(), None);
    assert_eq!(n.to_u64(), None);
    assert_eq!(n.to_u128(), None);
    assert_eq!(n.to_usize(), None);
    let m = Num::<i32, Count>::new(65536);
    assert_eq!(m.to_u8(), None);
    assert_eq!(m.to_u16(), None);
    assert_eq!(m.to_u32(), Some(65536));
    assert_eq!(m.to_u64(), Some(65536));
    assert_eq!(m.to_u128(), Some(65536));
    assert_eq!(m.to_usize(), Some(65536));
    assert_eq!(Num::<i32, Count>::new(255).to_u8(), Some(255));
    assert_eq!(Num::<i32, Count>::new(256).to_u8(), None);
    assert_eq!(Num::<i128, Count>::new(4294967296).to_u32(), None);
    assert_eq!(Num::<i128, Count>::new(i128::MAX).to_u64(), None);
    assert_eq!(Num::<u128, Count>::new(u128::MAX).to_u128(), Some(u128::MAX));
}

#[test]
fn a_cast_fails_where_the_bare_scalars_cast_fails() {
    for v in [i64::MIN, -129, -128, -1, 0, 1, 127, 128, 255, 256, 65535, 65536, i64::MAX] {
        let n = Num::<i64, Count>::new(v);
        assert_eq!(n.to_i8(), num_traits::ToPrimitive::to_i8(&v));
        assert_eq!(n.to_u8(), num_traits::ToPrimitive::to_u8(&v));
        assert_eq!(n.to_i16(), num_traits::ToPrimitive::to_i16(&v));
        assert_eq!(n.to_u16(), num_traits::ToPrimitive::to_u16(&v));
        assert_eq!(n.to_u64(), num_traits::ToPrimitive::to_u64(&v));
        assert_eq!(n.to_u128(), num_traits::ToPrimitive::to_u128(&v));
        assert_eq!(n.to_usize(), num_traits::ToPrimitive::to_usize(&v));
    }
}

#[test]
fn from_i64_gives_the_number_where_the_type_holds_it() {
    assert_eq!(Num::<u8, Count>::from_i64(255).map(|n| n.0), Some(255));
    assert_eq!(Num::<u8, Count>::from_i64(256), None);
    assert_eq!(Num::<u8, Count>::from_i64(-1), None);
    assert_eq!(Num::<i8, Count>::from_i64(-128).map(|n| n.0), Some(-128));
    assert_eq!(Num::<i8, Count>::from_i64(-129), None);
    assert_eq!(Num::<i128, Count>::from_i64(i64::MIN).map(|n| n.0), Some(-9223372036854775808));
    assert_eq!(Num::<u64, Count>::from_i64(i64::MAX).map(|n| n.0), Some(9223372036854775807));
}

#[test]
fn from_u64_gives_the_number_where_the_type_holds_it() {
    assert_eq!(Num::<u8, Count>::from_u64(255).map(|n| n.0), Some(255));
    assert_eq!(Num::<u8, Count>::from_u64(256), None);
    assert_eq!(Num::<i64, Count>::from_u64(u64::MAX), None);
    assert_eq!(Num::<i64, Count>::from_u64(9223372036854775807).map(|n| n.0), Some(i64::MAX));
    assert_eq!(Num::<u128, Count>::from_u64(u64::MAX).map(|n| n.0), Some(18446744073709551615));
}

#[test]
fn a_cast_from_any_integer_keeps_the_number_or_fails() {
    let wide = Num::<i64, Count>::new(300);
    assert_eq!(<Num<u8, Count> as NumCast>::from(wide), None);
    assert_eq!(<Num<u16, Count> as NumCast>::from(wide).map(|n| n.0), Some(300));
    assert_eq!(<Num<i128, Count> as NumCast>::from(-5_i8).map(|n| n.0), Some(-5));
    assert_eq!(<Num<u32, Count> as NumCast>::from(-5_i8), None);
    assert_eq!(<u8 as NumCast>::from(255_u128), Some(255));
    assert_eq!(<i8 as NumCast>::from(255_u128), None);
    assert_eq!(<usize as NumCast>::from(7_i16), Some(7));
    assert_eq!(<isize as NumCast>::from(u64::MAX), None);
    assert_eq!(<u64 as NumCast>::from(wide), Some(300));
    assert_eq!(<i16 as NumCast>::from(40000_u32), None);
    assert_eq!(<i32 as NumCast>::from(40000_u32), Some(40000));
    assert_eq!(<i64 as NumCast>::from(40000_u32), Some(40000));
    assert_eq!(<u16 as NumCast>::from(40000_u32), Some(40000));
    assert_eq!(<u128 as NumCast>::from(-1_i64), None);
}

#[test]
fn the_absolute_value_drops_the_sign() {
    assert_eq!(Num::<i32, Count>::new(-5).abs().0, 5);
    assert_eq!(Num::<i32, Count>::new(5).abs().0, 5);
    assert_eq!(Num::<i32, Count>::new(0).abs().0, 0);
    assert_eq!(Num::<i8, Count>::new(-127).abs().0, 127);
    assert_eq!(Num::<i128, Count>::new(i128::MIN + 1).abs().0, i128::MAX);
}

#[test]
fn the_positive_difference_is_zero_or_the_difference() {
    let (a, b) = (Num::<i64, Count>::new(7), Num::<i64, Count>::new(3));
    assert_eq!(a.abs_sub(&b).0, 4);
    assert_eq!(b.abs_sub(&a).0, 0);
    assert_eq!(a.abs_sub(&a).0, 0);
    assert_eq!(Num::<i8, Count>::new(100).abs_sub(&Num::new(-27)).0, 127);
}

#[test]
fn signum_is_one_zero_or_minus_one() {
    assert_eq!(Num::<i16, Count>::new(-9).signum().0, -1);
    assert_eq!(Num::<i16, Count>::new(0).signum().0, 0);
    assert_eq!(Num::<i16, Count>::new(9).signum().0, 1);
    assert_eq!(Num::<isize, Count>::new(isize::MIN).signum().0, -1);
}

#[test]
fn sign_tests_part_the_integers_at_zero() {
    assert!(Num::<i64, Count>::new(3).is_positive());
    assert!(!Num::<i64, Count>::new(0).is_positive());
    assert!(!Num::<i64, Count>::new(-3).is_positive());
    assert!(Num::<i64, Count>::new(-3).is_negative());
    assert!(!Num::<i64, Count>::new(0).is_negative());
    assert!(!Num::<i64, Count>::new(3).is_negative());
}

#[test]
fn the_total_order_is_the_order_of_the_integers() {
    let (a, b) = (Num::<i32, Count>::new(-2), Num::<i32, Count>::new(5));
    assert_eq!(a.total_cmp(&b), Ordering::Less);
    assert_eq!(b.total_cmp(&a), Ordering::Greater);
    assert_eq!(a.total_cmp(&a), Ordering::Equal);
    assert_eq!(Num::<i128, Count>::new(i128::MIN).total_cmp(&Num::new(i128::MAX)), Ordering::Less);
    assert_eq!(TotalOrder::total_cmp(&4_i16, &4_i16), Ordering::Equal);
    assert_eq!(TotalOrder::total_cmp(&4_isize, &-4_isize), Ordering::Greater);
    assert_eq!(TotalOrder::total_cmp(&4_i64, &9_i64), Ordering::Less);
}

#[test]
fn comparing_totally_is_the_scalars() {
    let (a, b) = (Num::<u32, Count>::new(2), Num::<u32, Count>::new(5));
    assert_eq!(a.cmp(&b), Ordering::Less);
    assert_eq!(b.cmp(&a), Ordering::Greater);
    assert_eq!(a.cmp(&a), Ordering::Equal);
    assert_eq!(a.partial_cmp(&b), Some(Ordering::Less));
    assert_eq!(Ord::cmp(&a, &b), Ordering::Less);
}

#[test]
fn sorting_goes_by_the_scalars() {
    let mut items = vec![Num::<i32, Count>::new(3), Num::new(-1), Num::new(2)];
    items.sort();
    assert_eq!(items, vec![Num::new(-1), Num::new(2), Num::new(3)]);
    assert_eq!(items.iter().max(), Some(&Num::new(3)));
}

#[test]
fn a_partial_order_without_an_answer_stays_without() {
    let nan = Num::<f32, Count>::new(f32::NAN);
    let one = Num::<f32, Count>::new(1.0);
    assert_eq!(nan.partial_cmp(&one), None);
    assert_eq!(one.partial_cmp(&nan), None);
    assert_eq!(one.partial_cmp(&one), Some(Ordering::Equal));
}

#[test]
fn construction_default_and_clone_keep_the_scalar() {
    assert_eq!(Num::<i32, Count>::new(9).0, 9);
    let from: Num<i32, Count> = 9.into();
    assert_eq!(from.0, 9);
    assert_eq!(<Num<i32, Count> as From<i32>>::from(9), Num::new(9));
    assert_eq!(Num::<i32, Count>::default().0, 0);
    assert_eq!(Num::<u8, Count>::default().0, u8::default());
    assert_eq!(Num::<f64, Count>::default().0, 0.0);
    assert_eq!(Num::<bool, Count>::default().0, false);
    let text = Num::<String, Count>::new(String::from("seven"));
    assert_eq!(text.clone().0, "seven");
    let n = Num::<i64, Count>::new(4);
    let copy = n;
    assert_eq!(n, copy);
    assert!(format!("{:?}", n).starts_with("Num(4, PhantomData<"));
}

#[test]
fn sums_start_at_zero_and_add_from_the_left() {
    let none: [Num<i32, Count>; 0] = [];
    assert_eq!(Num::sum(&none).0, 0);
    assert_eq!(Num::sum(&[Num::<i32, Count>::new(-4)]).0, -4);
    let items = vec![Num::<u8, Count>::new(100), Num::new(100), Num::new(55)];
    assert_eq!(Num::sum(&items).0, 255);
    let mixed = [Num::<i8, Count>::new(127), Num::new(-128), Num::new(1), Num::new(127)];
    assert_eq!(Num::sum(&mixed).0, 127);
    let bare: i8 = mixed.iter().map(|n| n.0).sum();
    assert_eq!(Num::sum(&mixed).0, bare);
}
