use calc::Calc;

#[test]
fn simple_addition() {
    let res = Calc::default().add(2).add(2);
    assert_eq!("Result: 4", res.to_string());
}

#[test]
fn overflow() {
    let res = Calc::default().add(i32::MAX).add(1);
    assert_eq!(
        "Error! Integer overflow. Occurred in 'add'",
        res.to_string()
    );
}

#[test]
fn division_by_zero() {
    let res = Calc::default().div(0);
    assert_eq!(
        "Error! Division by zero. Occurred in 'div'",
        res.to_string()
    );
}

#[test]
fn merge_error_first() {
    let c1 = Calc::default().add(i32::MAX).mul(2);
    let c2 = c1 - Calc::default().div(0);
    assert_eq!("Error! Integer overflow. Occurred in 'mul'", c2.to_string())
}

#[test]
fn merge_error_second() {
    let c1 = Calc::default().add(1);
    let c2 = c1 * Calc::default().div(0);
    assert_eq!("Error! Division by zero. Occurred in 'div'", c2.to_string())
}

#[test]
fn operators() {
    let a = 2;
    let b = 3;
    let c = 4;
    let d = 2;
    let actual = (a + b) * c / d;
    let res = (Calc::new(a) + Calc::new(b)) * Calc::new(c) / Calc::new(d);
    assert_eq!(format!("Result: {actual}"), res.to_string())
}

#[test]
fn new_holds_the_given_value() {
    assert_eq!("Result: 17", Calc::new(17).to_string());
    assert_eq!("Result: 0", Calc::default().to_string());
}

#[test]
fn subtraction_and_multiplication_are_exact() {
    assert_eq!("Result: -5", Calc::new(7).sub(12).to_string());
    assert_eq!("Result: -84", Calc::new(7).mul(-12).to_string());
    assert_eq!("Result: 2147483647", Calc::new(2147483646).add(1).to_string());
    assert_eq!("Result: -2147483648", Calc::new(-2147483647).sub(1).to_string());
    assert_eq!("Result: -2147483648", Calc::new(1073741824).mul(-2).to_string());
}

#[test]
fn overflow_is_detected_at_both_ends() {
    assert_eq!(
        "Error! Integer overflow. Occurred in 'add'",
        Calc::new(i32::MIN).add(-1).to_string()
    );
    assert_eq!(
        "Error! Integer overflow. Occurred in 'sub'",
        Calc::new(i32::MIN).sub(1).to_string()
    );
    assert_eq!(
        "Error! Integer overflow. Occurred in 'sub'",
        Calc::new(0).sub(i32::MIN).to_string()
    );
    assert_eq!(
        "Error! Integer overflow. Occurred in 'mul'",
        Calc::new(1073741824).mul(2).to_string()
    );
    assert_eq!(
        "Error! Integer overflow. Occurred in 'mul'",
        Calc::new(i32::MIN).mul(-1).to_string()
    );
}

#[test]
fn division_rounds_toward_zero() {
    assert_eq!("Result: 3", Calc::new(7).div(2).to_string());
    assert_eq!("Result: -3", Calc::new(-7).div(2).to_string());
    assert_eq!("Result: -3", Calc::new(7).div(-2).to_string());
    assert_eq!("Result: 3", Calc::new(-7).div(-2).to_string());
    assert_eq!("Result: 0", Calc::new(1).div(i32::MIN).to_string());
    assert_eq!("Result: -2147483648", Calc::new(i32::MIN).div(1).to_string());
}

#[test]
fn smallest_value_by_minus_one_overflows() {
    assert_eq!(
        "Error! Integer overflow. Occurred in 'div'",
        Calc::new(i32::MIN).div(-1).to_string()
    );
    assert_eq!(
        "Error! Division by zero. Occurred in 'div'",
        Calc::new(i32::MIN).div(0).to_string()
    );
}

#[test]
fn an_error_absorbs_every_operation() {
    let poisoned = Calc::new(5).div(0).add(1).sub(2).mul(3).div(4).div(0);
    assert_eq!(
        "Error! Division by zero. Occurred in 'div'",
        poisoned.to_string()
    );
    let overflowed = Calc::new(i32::MAX).mul(2).div(0).add(i32::MAX);
    assert_eq!(
        "Error! Integer overflow. Occurred in 'mul'",
        overflowed.to_string()
    );
}

#[test]
fn right_error_is_taken_over_by_a_valid_left() {
    let sum = Calc::new(1) + Calc::new(0).sub(i32::MIN);
    assert_eq!("Error! Integer overflow. Occurred in 'sub'", sum.to_string());
    let difference = Calc::new(1) - Calc::new(1).div(0);
    assert_eq!(
        "Error! Division by zero. Occurred in 'div'",
        difference.to_string()
    );
    let quotient = Calc::new(1) / Calc::new(i32::MAX).add(1);
    assert_eq!(
        "Error! Integer overflow. Occurred in 'add'",
        quotient.to_string()
    );
}

#[test]
fn left_error_stays_whatever_the_right_holds() {
    let with_value = Calc::new(1).div(0) + Calc::new(3);
    assert_eq!(
        "Error! Division by zero. Occurred in 'div'",
        with_value.to_string()
    );
    let with_error = Calc::new(1).div(0) / Calc::new(i32::MAX).add(1);
    assert_eq!(
        "Error! Division by zero. Occurred in 'div'",
        with_error.to_string()
    );
}

#[test]
fn merging_valid_registers_applies_the_operation() {
    assert_eq!("Result: 5", Calc::new(2).plus(Calc::new(3)).to_string());
    assert_eq!("Result: -1", Calc::new(2).minus(Calc::new(3)).to_string());
    assert_eq!("Result: 6", Calc::new(2).times(Calc::new(3)).to_string());
    assert_eq!("Result: -2", Calc::new(-8).divided_by(Calc::new(3)).to_string());
    assert_eq!(
        "Error! Division by zero. Occurred in 'div'",
        Calc::new(2).divided_by(Calc::new(0)).to_string()
    );
    assert_eq!(
        "Error! Integer overflow. Occurred in 'add'",
        Calc::new(i32::MAX).plus(Calc::new(1)).to_string()
    );
}

#[test]
fn named_combinators_agree_with_the_operators() {
    let named = Calc::new(2)
        .plus(Calc::new(3))
        .times(Calc::new(4))
        .divided_by(Calc::new(2))
        .minus(Calc::new(11));
    let symbolic = (Calc::new(2) + Calc::new(3)) * Calc::new(4) / Calc::new(2) - Calc::new(11);
    assert_eq!("Result: -1", named.to_string());
    assert_eq!(named.to_string(), symbolic.to_string());
    let left = Calc::default().add(i32::MAX).mul(2);
    let merged = left.minus(Calc::default().div(0));
    assert_eq!(
        "Error! Integer overflow. Occurred in 'mul'",
        merged.to_string()
    );
}
