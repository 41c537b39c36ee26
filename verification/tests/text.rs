use typed_num::Integer;
use typed_num::Num;

#[derive(Debug)]
struct Count;

#[test]
fn text_is_the_decimal_digits_behind_a_minus_sign() {
    assert_eq!(Num::<i32, Count>::new(0).to_string(), "0");
    assert_eq!(Num::<i32, Count>::new(7).to_string(), "7");
    assert_eq!(Num::<i32, Count>::new(-7).to_string(), "-7");
    assert_eq!(Num::<i32, Count>::new(120).to_string(), "120");
    assert_eq!(Num::<i32, Count>::new(-1005).to_string(), "-1005");
    assert_eq!(Num::<i8, Count>::new(i8::MIN).to_string(), "-128");
    assert_eq!(Num::<u8, Count>::new(u8::MAX).to_string(), "255");
    assert_eq!(Num::<i64, Count>::new(i64::MIN).to_string(), "-9223372036854775808");
    assert_eq!(Num::<u64, Count>::new(u64::MAX).to_string(), "18446744073709551615");
    assert_eq!(
        Num::<i128, Count>::new(i128::MIN).to_string(),
        "-170141183460469231731687303715884105728"
    );
    assert_eq!(
        Num::<u128, Count>::new(u128::MAX).to_string(),
        "340282366920938463463374607431768211455"
    );
    assert_eq!(Num::<usize, Count>::new(42).to_string(), "42");
    assert_eq!(Num::<isize, Count>::new(-42).to_string(), "-42");
    assert_eq!(Num::<i16, Count>::new(-42).to_text(), "-42");
    assert_eq!(Integer::to_text(&-42_i16), "-42");
    assert_eq!(Integer::to_text(&u16::MAX), "65535");
}

#[test]
fn the_label_leaves_no_trace_in_the_text() {
    let text = Num::<u32, Count>::new(31).to_string();
    assert_eq!(text, 31_u32.to_string());
    assert!(!text.contains("Count"));
}

#[test]
fn digits_behind_an_optional_sign_are_read() {
    assert_eq!("42".parse::<Num<i32, Count>>().unwrap().0, 42);
    assert_eq!("+42".parse::<Num<i32, Count>>().unwrap().0, 42);
    assert_eq!("-42".parse::<Num<i32, Count>>().unwrap().0, -42);
    assert_eq!("007".parse::<Num<i32, Count>>().unwrap().0, 7);
    assert_eq!("-0".parse::<Num<i32, Count>>().unwrap().0, 0);
    assert_eq!("+0".parse::<Num<u8, Count>>().unwrap().0, 0);
    assert_eq!("255".parse::<Num<u8, Count>>().unwrap().0, 255);
    assert_eq!("-128".parse::<Num<i8, Count>>().unwrap().0, -128);
    assert_eq!("127".parse::<Num<i8, Count>>().unwrap().0, 127);
    assert_eq!(
        "-170141183460469231731687303715884105728".parse::<Num<i128, Count>>().unwrap().0,
        i128::MIN
    );
    assert_eq!(
        "340282366920938463463374607431768211455".parse::<Num<u128, Count>>().unwrap().0,
        u128::MAX
    );
    assert_eq!(Num::<i64, Count>::parse("-9").unwrap().0, -9);
    assert_eq!(<u64 as Integer>::parse("9").unwrap(), 9);
}

#[test]
fn anything_else_is_refused() {
    for text in ["", "+", "-", "abc", "4 2", " 42", "42 ", "4_2", "+-4", "--4", "4-", "0x1f", "1.5", "٣"] {
        assert!(text.parse::<Num<i32, Count>>().is_err(), "{:?}", text);
        assert!(text.parse::<Num<u32, Count>>().is_err(), "{:?}", text);
    }
}

#[test]
fn a_minus_sign_is_refused_for_a_type_without_negative_values() {
    assert!("-5".parse::<Num<u8, Count>>().is_err());
    assert!("-0".parse::<Num<u8, Count>>().is_err());
    assert!("-0".parse::<Num<u64, Count>>().is_err());
    assert!("-0".parse::<Num<usize, Count>>().is_err());
    assert!(Num::<u16, Count>::from_str_radix("-0", 16).is_err());
    assert!(Num::<u128, Count>::from_str_radix("-1", 2).is_err());
}

#[test]
fn a_number_out_of_range_is_refused() {
    assert!("128".parse::<Num<i8, Count>>().is_err());
    assert!("-129".parse::<Num<i8, Count>>().is_err());
    assert!("256".parse::<Num<u8, Count>>().is_err());
    assert!("9223372036854775808".parse::<Num<i64, Count>>().is_err());
    assert!("18446744073709551616".parse::<Num<u64, Count>>().is_err());
    assert!("340282366920938463463374607431768211456".parse::<Num<u128, Count>>().is_err());
    assert!("0000000000000000000000000000000000000000000000255".parse::<Num<u8, Count>>().is_ok());
}

#[test]
fn the_error_is_the_scalars_own() {
    for text in ["", "-", "abc", "128", "-129", "1 "] {
        let wrapped = text.parse::<Num<i8, Count>>().unwrap_err();
        let bare = text.parse::<i8>().unwrap_err();
        assert_eq!(wrapped, bare);
        assert_eq!(wrapped.kind(), bare.kind());
        assert_eq!(wrapped.to_string(), bare.to_string());
        let in_radix = Num::<i8, Count>::from_str_radix(text, 10).unwrap_err();
        assert_eq!(in_radix, i8::from_str_radix(text, 10).unwrap_err());
    }
}

#[test]
fn digits_of_another_base_are_read() {
    assert_eq!(Num::<i32, Count>::from_str_radix("ff", 16).unwrap().0, 255);
    assert_eq!(Num::<i32, Count>::from_str_radix("FF", 16).unwrap().0, 255);
    assert_eq!(Num::<i32, Count>::from_str_radix("-fF", 16).unwrap().0, -255);
    assert_eq!(Num::<i32, Count>::from_str_radix("101", 2).unwrap().0, 5);
    assert_eq!(Num::<i32, Count>::from_str_radix("zz", 36).unwrap().0, 1295);
    assert_eq!(Num::<i32, Count>::from_str_radix("Zz", 36).unwrap().0, 1295);
    assert_eq!(Num::<i32, Count>::from_str_radix("+777", 8).unwrap().0, 511);
    assert_eq!(Num::<u8, Count>::from_str_radix("11111111", 2).unwrap().0, 255);
    assert_eq!(<i64 as Integer>::from_str_radix("-80", 16).unwrap(), -128);
    assert_eq!(
        Num::<i32, Count>::from_str_radix("ff", 16).unwrap().0,
        <i32 as num_traits::Num>::from_str_radix("ff", 16).unwrap()
    );
}

#[test]
fn a_digit_at_or_above_the_base_is_refused() {
    assert!(Num::<i32, Count>::from_str_radix("102", 2).is_err());
    assert!(Num::<i32, Count>::from_str_radix("8", 8).is_err());
    assert!(Num::<i32, Count>::from_str_radix("a", 10).is_err());
    assert!(Num::<i32, Count>::from_str_radix("g", 16).is_err());
    assert!(Num::<i32, Count>::from_str_radix("z", 35).is_err());
    assert!(Num::<i32, Count>::from_str_radix("100000000", 2).is_ok());
    assert!(Num::<u8, Count>::from_str_radix("100000000", 2).is_err());
}
