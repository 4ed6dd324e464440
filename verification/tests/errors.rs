use boehm_reals::evaluation::bounded_rational::{NonFiniteError, ZeroDenominatorError};
use boehm_reals::evaluation::creals::cr::{check_prec, CRError};
use boehm_reals::evaluation::errors::ZeroDivisionError;

#[test]
fn non_finite_error_display() {
    assert_eq!(
        NonFiniteError.to_string(),
        "value is NaN or infinite; has no rational representation"
    );
}

#[test]
fn non_finite_error_is_clone_and_eq() {
    let e1 = NonFiniteError;
    let e2 = e1.clone();
    assert_eq!(e1, e2);
}

#[test]
fn zero_denominator_error_display() {
    assert_eq!(
        ZeroDenominatorError.to_string(),
        "denominator must not be zero"
    );
}

#[test]
fn zero_denominator_error_is_clone_and_eq() {
    let e1 = ZeroDenominatorError;
    let e2 = e1.clone();
    // Verify clone succeeds by checking both are the same unit struct
    let _ = e2;
}

#[test]
fn zero_division_error_display() {
    assert_eq!(ZeroDivisionError.to_string(), "division by zero");
}

#[test]
fn zero_division_error_from_zero_denominator_error() {
    let source = ZeroDenominatorError;
    let converted: ZeroDivisionError = source.into();
    assert_eq!(converted.to_string(), "division by zero");
}

#[test]
fn check_prec_accepts_a_normal_precision() {
    assert_eq!(check_prec(0), Ok(()));
}

#[test]
fn check_prec_rejects_a_huge_precision() {
    assert_eq!(check_prec(i32::MAX), Err(CRError::PrecisionOverflow));
}

#[test]
fn crerror_aborted_has_a_readable_message() {
    assert_eq!(
        CRError::Aborted.to_string(),
        "constructive real computation was aborted"
    );
}

#[test]
fn crerror_precision_overflow_has_a_readable_message() {
    assert_eq!(
        CRError::PrecisionOverflow.to_string(),
        "requested precision overflowed safe range"
    );
}
