use deptypes::bool::and::{And, and_eq};
use deptypes::bool::not::{Not, not_true_is_false, not_false_is_true};
use deptypes::bool::or::Or;
use deptypes::bool::xor::Xor;
use deptypes::bool::{ConstBool, False, True, choose_bool, true_ne_false};
use deptypes::induction::{DescentStep, InductiveStep, compute_by_induction, repeat_to_zero};
use deptypes::num::uint::{a_ge_0, uint_as_succ, uint_pred};
use deptypes::num::{
    Add, ConstU8, ConstUsize, Neg, One, Pred, Sub, Succ, XAdd, Zero, checked_succ,
    int_as_succ_or_pred, int_pred_or_succ, is_zero,
};
use deptypes::result::DResult;
use deptypes::term::{
    Value, value_cmp, value_eq, value_le, value_le_or_gt, value_lt, value_lt_or_ge,
    value_partial_cmp,
};
use deptypes::transmutable::{coerce, coerce_box, coerce_vec};
use deptypes::type_eq::{ValueEq, ValueLe, ValueOrdering};
use deptypes::var::{Brands, Var};

fn named(brands: &mut Brands, n: usize) -> Value<usize> {
    Var(brands.guard(), n)
}

#[test]
fn transitive_evidence_matches_runtime_equality() {
    let mut brands = Brands::new();
    for n in 0usize..1000 {
        let x = named(&mut brands, n);
        // a = x + 0, b = x, c = (x + 1) - 1
        let a = Add(x.duplicate(), Zero());
        let c = Sub(Add(x.duplicate(), One()), One());
        let ab = value_eq(a.duplicate(), x.duplicate()).ok().unwrap();
        let bc = value_eq(x.duplicate(), c.duplicate()).ok().unwrap();
        let ac: ValueEq = ab.trans(bc);
        let _ca = ac.invert();
        assert!(value_eq(a.duplicate(), c.duplicate()).is_ok());
        assert_eq!(a.into_inner(), c.into_inner());
    }
}

#[test]
fn value_eq_reports_inequality() {
    let r = value_eq(ConstU8::<3>(), ConstU8::<4>());
    assert!(r.is_err());
    let ne = r.err().unwrap();
    let _back = ne.invert();
    assert!(value_eq(ConstU8::<4>(), ConstU8::<4>()).is_ok());
}

#[test]
fn order_comparisons() {
    assert!(value_le(ConstU8::<3>(), ConstU8::<3>()).is_some());
    assert!(value_le(ConstU8::<4>(), ConstU8::<3>()).is_none());
    assert!(value_lt(ConstU8::<3>(), ConstU8::<4>()).is_some());
    assert!(value_lt(ConstU8::<3>(), ConstU8::<3>()).is_none());
    assert!(value_le_or_gt(ConstU8::<5>(), ConstU8::<2>()).is_err());
    assert!(value_lt_or_ge(ConstU8::<5>(), ConstU8::<2>()).is_err());
    assert!(value_lt_or_ge(ConstU8::<1>(), ConstU8::<2>()).is_ok());
    assert!(matches!(value_cmp(ConstU8::<1>(), ConstU8::<2>()), ValueOrdering::Lt(_)));
    assert!(matches!(value_cmp(ConstU8::<2>(), ConstU8::<2>()), ValueOrdering::Eq(_)));
    assert!(matches!(value_cmp(ConstU8::<3>(), ConstU8::<2>()), ValueOrdering::Gt(_)));
    assert!(matches!(value_partial_cmp(ConstU8::<3>(), ConstU8::<2>()), Ok(ValueOrdering::Gt(_))));
}

#[test]
fn order_witnesses_combine() {
    let le: ValueLe = value_le(ConstU8::<2>(), ConstU8::<3>()).unwrap();
    let ne = value_eq(ConstU8::<2>(), ConstU8::<3>()).err().unwrap();
    let lt = le.lt(ne);
    let _weak = lt.le();
    let _ne = lt.ne();
    let a = ConstU8::<7>();
    let up = value_le(a.duplicate(), ConstU8::<7>()).unwrap();
    let down = value_le(ConstU8::<7>(), a.duplicate()).unwrap();
    let _eq = up.eq(down);
}

#[test]
fn split_round_trips_for_every_u8() {
    let mut brands = Brands::new();
    for n in 0u8..=255 {
        let v: Value<u8> = Var(brands.guard(), n);
        match uint_as_succ(brands.guard(), v) {
            Ok((p, _eq)) => {
                assert!(n > 0);
                assert_eq!(*p.get(), n - 1);
                assert_eq!(Succ(p).into_inner(), n);
            }
            Err(_zero) => assert_eq!(n, 0),
        }
    }
}

#[test]
fn uint_pred_and_is_zero() {
    assert!(uint_pred(Zero::<u8>()).is_err());
    assert_eq!(uint_pred(ConstU8::<9>()).ok().unwrap().into_inner(), 8);
    assert!(is_zero(&Zero::<usize>()).is_ok());
    assert!(is_zero(&ConstUsize::<2>()).is_err());
    let _ge = a_ge_0(&ConstU8::<0>());
}

#[test]
fn coercion_round_trip_is_lossless() {
    let mut brands = Brands::new();
    let x: Value<u32> = Var(brands.guard(), 123456);
    let (y, eq) = Var::alias(brands.guard(), x.duplicate());
    let back = coerce(y.duplicate(), eq.invert());
    assert_eq!(*back.get(), *x.get());
    let boxed = coerce_box(Box::new(y.duplicate()), eq.invert());
    assert_eq!(*boxed.get(), 123456);
    let many = coerce_vec(vec![y.duplicate(), y.duplicate(), y], eq.invert());
    assert_eq!(many.len(), 3);
    for v in many {
        assert_eq!(v.into_inner(), 123456);
    }
}

#[test]
fn successor_of_maximum_is_refused() {
    assert!(checked_succ(ConstU8::<255>()).is_none());
    assert_eq!(checked_succ(ConstU8::<254>()).unwrap().into_inner(), 255);
    assert_eq!(Succ(ConstU8::<254>()).into_inner(), 255);
    assert!(checked_succ(ConstUsize::<{ usize::MAX }>()).is_none());
}

#[test]
fn boolean_choice_is_total() {
    assert!(choose_bool(True()).is_ok());
    assert!(choose_bool(False()).is_err());
    for b in [false, true] {
        let v = ConstBool::<true>();
        let _ = v;
        let value = if b { True() } else { False() };
        let twice = Not(Not(value.duplicate()));
        assert_eq!(*twice.get(), b);
        assert!(value_eq(twice, value).is_ok());
    }
    let _t = not_true_is_false();
    let _f = not_false_is_true();
    let _ne = true_ne_false();
}

#[test]
fn boolean_operators_compute() {
    assert!(!And(True(), False()).into_inner());
    assert!(And(True(), True()).into_inner());
    assert!(Or(False(), True()).into_inner());
    assert!(!Or(False(), False()).into_inner());
    assert!(Xor(True(), False()).into_inner());
    assert!(!Xor(True(), True()).into_inner());
    let e1 = value_eq(True(), True()).ok().unwrap();
    let e2 = value_eq(False(), False()).ok().unwrap();
    let _ = and_eq(e1, e2);
}

#[test]
fn end_to_end_arithmetic() {
    let two = ConstU8::<2>();
    let three = ConstU8::<3>();
    let one = ConstU8::<1>();
    let r = Sub(Add(two, three), one);
    assert_eq!(*r.get(), 4);
    assert!(value_eq(r, ConstU8::<4>()).is_ok());
}

#[test]
fn signed_arithmetic_and_splits() {
    let mut brands = Brands::new();
    let five: Value<i64> = Var(brands.guard(), 5);
    assert_eq!(Neg(five.duplicate()).into_inner(), -5);
    assert_eq!(Pred(five.duplicate()).into_inner(), 4);
    match int_pred_or_succ(five.duplicate()) {
        Ok(Ok(p)) => assert_eq!(p.into_inner(), 4),
        _ => panic!("expected the predecessor"),
    }
    let minus: Value<i64> = Var(brands.guard(), -3);
    match int_pred_or_succ(minus.duplicate()) {
        Ok(Err(s)) => assert_eq!(s.into_inner(), -2),
        _ => panic!("expected the successor"),
    }
    assert!(int_pred_or_succ(Zero::<i64>()).is_err());
    match int_as_succ_or_pred(brands.guard(), minus) {
        Ok((x, Err(_eq))) => assert_eq!(x.into_inner(), -2),
        _ => panic!("expected a successor name"),
    }
    match int_as_succ_or_pred(brands.guard(), five) {
        Ok((x, Ok(_eq))) => assert_eq!(x.into_inner(), 4),
        _ => panic!("expected a predecessor name"),
    }
    assert!(int_as_succ_or_pred(brands.guard(), Zero::<i64>()).is_err());
}

#[test]
fn dresult_selects_by_tag() {
    let mut brands = Brands::new();
    let (r, which) = DResult::<u8, char>::from(brands.guard(), Ok(7));
    assert!(which.is_ok());
    assert_eq!(DResult::into_result(r, True()).ok(), None.or(Some(7)));
    let (r, which) = DResult::<u8, char>::from(brands.guard(), Err('x'));
    assert!(which.is_err());
    assert_eq!(DResult::into_result(r, False()).err(), Some('x'));
    let t = DResult::<u8, char>::new(1);
    assert_eq!(DResult::into_result(t, True()).ok(), Some(1));
    let f = DResult::<u8, char>::new_false('n');
    assert_eq!(DResult::into_result(f, False()).err(), Some('n'));
}

struct Doubling;

impl InductiveStep<usize, u64> for Doubling {
    fn call(&self, _a: Value<usize>, hyp: u64) -> u64 {
        hyp * 2
    }
}

struct Countdown;

impl DescentStep<usize, Vec<usize>> for Countdown {
    fn call(&self, p: Value<usize>, mut s: Vec<usize>) -> Vec<usize> {
        s.push(p.into_inner());
        s
    }
}

#[test]
fn induction_applies_steps_from_zero_upwards() {
    assert_eq!(compute_by_induction(1u64, &Doubling, ConstUsize::<10>()), 1024);
    assert_eq!(compute_by_induction(1u64, &Doubling, Zero::<usize>()), 1);
}

#[test]
fn repeat_to_zero_walks_down() {
    let mut brands = Brands::new();
    let out = repeat_to_zero(&mut brands, ConstUsize::<4>(), Vec::new(), &Countdown);
    assert_eq!(out, vec![3, 2, 1, 0]);
}

#[test]
fn wrapping_sum_goes_around() {
    assert_eq!(XAdd(ConstU8::<255>(), One()).into_inner(), 0);
    assert_eq!(XAdd(ConstU8::<200>(), ConstU8::<100>()).into_inner(), 44);
    assert_eq!(XAdd(ConstU8::<2>(), ConstU8::<3>()).into_inner(), 5);
    let mut brands = Brands::new();
    let top: Value<i64> = Var(brands.guard(), i64::MAX);
    assert_eq!(XAdd(top, One()).into_inner(), i64::MIN);
    assert_eq!(XAdd(ConstUsize::<{ usize::MAX }>(), One()).into_inner(), 0);
}
