use state_machine_atm::decimal::{push_int, push_nat};

#[test]
fn natural_numbers_are_appended_in_decimal() {
    for n in [0u32, 1, 9, 10, 19, 99, 100, 255, 1000, 4_294_967_295] {
        let mut out = String::from("n=");
        push_nat(&mut out, n);
        assert_eq!(out, format!("n={}", n));
    }
}

#[test]
fn integers_are_appended_with_their_sign() {
    for i in [0i32, 7, -7, 10, -10, 2_147_483_647, -2_147_483_647, -2_147_483_648] {
        let mut out = String::new();
        push_int(&mut out, i);
        assert_eq!(out, format!("{}", i));
        push_int(&mut out, i);
        assert_eq!(out, format!("{}{}", i, i));
    }
}

#[test]
fn zero_is_a_single_digit() {
    let mut out = String::new();
    push_nat(&mut out, 0);
    assert_eq!(out, "0");
    let mut out = String::new();
    push_int(&mut out, 0);
    assert_eq!(out, "0");
}
