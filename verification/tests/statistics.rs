use formula_engine::expression::statistics::{mode_index, order_key, rank_index};
use formula_engine::expression::{ExpressionError, Function, Plan};
use formula_engine::Error;

fn bits_of(values: &[f64]) -> Vec<u64> {
    values.iter().map(|x| x.to_bits()).collect()
}

fn run(function: Function, values: &[f64]) -> Result<f64, ExpressionError> {
    let total: f64 = values.iter().sum();
    Ok(match function.plan(&bits_of(values))? {
        Plan::Total => total,
        Plan::Average => total / values.len() as f64,
        Plan::Pick(at) => values[at],
        Plan::Midpoint(low, high) => (values[low] + values[high]) / 2.0,
    })
}

#[test]
fn sum_mean_and_median_of_small_lists() {
    assert_eq!(run(Function::Sum, &[1.0, 2.0, 3.0]).unwrap(), 6.0);
    assert_eq!(run(Function::Mean, &[1.0, 2.0, 3.0]).unwrap(), 2.0);
    assert_eq!(run(Function::Median, &[1.0, 2.0, 3.0, 4.0]).unwrap(), 2.5);
    assert_eq!(run(Function::Median, &[1.0, 2.0, 3.0]).unwrap(), 2.0);
    assert_eq!(run(Function::Median, &[4.0, 1.0, 3.0, 2.0]).unwrap(), 2.5);
    assert_eq!(run(Function::Median, &[9.0, -1.0, 5.0]).unwrap(), 5.0);
    assert_eq!(run(Function::Median, &[7.0]).unwrap(), 7.0);
    assert_eq!(run(Function::Median, &[7.0, 8.0]).unwrap(), 7.5);
    assert_eq!(run(Function::Median, &[2.0, 2.0, 2.0, 5.0]).unwrap(), 2.0);
    assert_eq!(run(Function::Mode, &[1.0, 3.0, 3.0, 2.0, 1.0, 3.0]).unwrap(), 3.0);
    assert_eq!(run(Function::Mode, &[4.0]).unwrap(), 4.0);
}

#[test]
fn the_smallest_of_several_modes_is_the_mode() {
    assert_eq!(run(Function::Mode, &[5.0, 2.0, 5.0, 2.0, 9.0]).unwrap(), 2.0);
    assert_eq!(run(Function::Mode, &[3.0, 2.0, 1.0]).unwrap(), 1.0);
    assert_eq!(
        Function::Mode.plan(&bits_of(&[5.0, 2.0, 5.0, 2.0, 9.0])).unwrap(),
        Plan::Pick(1)
    );
}

#[test]
fn the_plans() {
    assert_eq!(Function::Sum.plan(&bits_of(&[1.0, 2.0])).unwrap(), Plan::Total);
    assert_eq!(Function::Mean.plan(&bits_of(&[1.0, 2.0])).unwrap(), Plan::Average);
    assert_eq!(Function::Median.plan(&bits_of(&[3.0, 1.0, 2.0])).unwrap(), Plan::Pick(2));
    assert_eq!(
        Function::Median.plan(&bits_of(&[4.0, 1.0, 3.0, 2.0])).unwrap(),
        Plan::Midpoint(3, 2)
    );
    assert_eq!(
        Function::Median.plan(&bits_of(&[1.0, 1.0, 1.0, 1.0])).unwrap(),
        Plan::Midpoint(0, 0)
    );
    assert_eq!(Function::Mode.plan(&bits_of(&[2.0, 1.0, 1.0])).unwrap(), Plan::Pick(1));
}

#[test]
fn no_number_is_the_missing_arguments_error() {
    for f in [Function::Sum, Function::Mean, Function::Median, Function::Mode] {
        let error = f.plan(&vec![]).unwrap_err();
        assert_eq!(error.message(), "Expected at least one argument");
        assert_eq!(error.position(), None);
    }
}

#[test]
fn what_is_not_a_number_cannot_be_ordered() {
    for f in [Function::Median, Function::Mode] {
        let error = f.plan(&bits_of(&[1.0, f64::NAN, 2.0])).unwrap_err();
        assert_eq!(error.message(), "Values cannot be ordered");
        assert_eq!(error.position(), None);
        assert_eq!(error.message(), ExpressionError::unordered().message());
        let error = f.plan(&bits_of(&[-f64::NAN])).unwrap_err();
        assert_eq!(error.message(), "Values cannot be ordered");
    }
    assert_eq!(Function::Sum.plan(&bits_of(&[f64::NAN])).unwrap(), Plan::Total);
    assert_eq!(Function::Mean.plan(&bits_of(&[f64::NAN])).unwrap(), Plan::Average);
    assert!(run(Function::Median, &[f64::INFINITY, 1.0, f64::NEG_INFINITY]).unwrap() == 1.0);
}

#[test]
fn keys_are_ordered_as_the_doubles_are() {
    let values = [
        f64::NEG_INFINITY,
        f64::MIN,
        -1.0e10,
        -2.5,
        -1.0,
        -f64::MIN_POSITIVE,
        -5e-324,
        -0.0,
        0.0,
        5e-324,
        f64::MIN_POSITIVE,
        0.1,
        1.0,
        1.5,
        2.0,
        1.0e10,
        f64::MAX,
        f64::INFINITY,
    ];
    for a in values {
        for b in values {
            let ka = order_key(a.to_bits()).unwrap();
            let kb = order_key(b.to_bits()).unwrap();
            assert_eq!(ka < kb, a < b, "{} {}", a, b);
            assert_eq!(ka == kb, a == b, "{} {}", a, b);
        }
    }
    assert_eq!(order_key(0.0f64.to_bits()), Some(0));
    assert_eq!(order_key((-0.0f64).to_bits()), Some(0));
    assert_eq!(order_key(1.0f64.to_bits()), Some(0x3ff0_0000_0000_0000));
    assert_eq!(order_key((-1.0f64).to_bits()), Some(-0x3ff0_0000_0000_0000));
    assert_eq!(order_key(f64::INFINITY.to_bits()), Some(0x7ff0_0000_0000_0000));
    assert_eq!(order_key(f64::NAN.to_bits()), None);
    assert_eq!(order_key((-f64::NAN).to_bits()), None);
    assert_eq!(order_key(0x7ff0_0000_0000_0001), None);
    assert_eq!(order_key(0xffff_ffff_ffff_ffff), None);
    assert_eq!(order_key(0xfff0_0000_0000_0000), Some(-0x7ff0_0000_0000_0000));
}

#[test]
fn places_in_the_ascending_order() {
    let keys = vec![30, 10, 20, 10, 40];
    assert_eq!(rank_index(&keys, 0), 1);
    assert_eq!(rank_index(&keys, 1), 1);
    assert_eq!(rank_index(&keys, 2), 2);
    assert_eq!(rank_index(&keys, 3), 0);
    assert_eq!(rank_index(&keys, 4), 4);
    assert_eq!(rank_index(&vec![i64::MIN, i64::MAX], 0), 0);
    assert_eq!(rank_index(&vec![i64::MAX, i64::MIN], 0), 1);
}

#[test]
fn modes_of_keys() {
    assert_eq!(mode_index(&vec![1]), 0);
    assert_eq!(mode_index(&vec![3, 1, 2]), 1);
    assert_eq!(mode_index(&vec![3, 1, 3, 1, 3]), 0);
    assert_eq!(mode_index(&vec![2, 7, 7, 2]), 0);
    assert_eq!(mode_index(&vec![7, 2, 7, 2]), 1);
}
