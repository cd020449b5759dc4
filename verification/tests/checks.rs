use linear_regression::error::FitError;
use linear_regression::pairs::paired_len;
use linear_regression::series::series_len;

#[test]
fn pairs_of_equal_length_give_their_count() {
    let x = vec![1.0, 2.0, 3.0, 4.0];
    let y = vec![2.0, 4.0, 6.0, 8.0];
    assert_eq!(paired_len(&x, &y), Ok(4));
}

#[test]
fn a_single_pair_is_accepted() {
    assert_eq!(paired_len(&[5.0], &[1.0]), Ok(1));
}

#[test]
fn pairs_of_unequal_length_are_a_mismatch() {
    assert_eq!(paired_len(&[1.0, 2.0], &[1.0, 2.0, 3.0]), Err(FitError::LengthMismatch));
    assert_eq!(paired_len(&[1.0, 2.0, 3.0], &[1.0, 2.0]), Err(FitError::LengthMismatch));
}

#[test]
fn no_pairs_are_an_empty_input() {
    let none: Vec<f64> = Vec::new();
    assert_eq!(paired_len(&none, &none), Err(FitError::EmptyInput));
}

#[test]
fn mismatch_is_reported_before_emptiness() {
    let none: Vec<f64> = Vec::new();
    assert_eq!(paired_len(&none, &[1.0]), Err(FitError::LengthMismatch));
    assert_eq!(paired_len(&[1.0], &none), Err(FitError::LengthMismatch));
}

#[test]
fn pairs_are_counted_whatever_they_hold() {
    assert_eq!(paired_len(&[5.0, 5.0, 5.0], &[1.0, 2.0, 3.0]), Ok(3));
    assert_eq!(paired_len(&["a", "b"], &["c", "d"]), Ok(2));
    assert_eq!(paired_len(&[f64::NAN], &[f64::INFINITY]), Ok(1));
}

#[test]
fn an_empty_series_is_an_empty_input() {
    let none: Vec<f64> = Vec::new();
    assert_eq!(series_len(&none), Err(FitError::EmptyInput));
}

#[test]
fn a_single_sample_has_no_spread() {
    assert_eq!(series_len(&[7.5]), Err(FitError::ZeroXVariance));
    assert_eq!(series_len(&[0.0]), Err(FitError::ZeroXVariance));
}

#[test]
fn two_samples_make_a_series() {
    assert_eq!(series_len(&[1.0, 2.0]), Ok(2));
}

#[test]
fn a_longer_series_gives_its_length() {
    assert_eq!(series_len(&[1.0, 2.0, 3.0]), Ok(3));
    let long: Vec<f64> = vec![0.25; 1000];
    assert_eq!(series_len(&long), Ok(1000));
}

#[test]
fn a_constant_series_is_accepted() {
    assert_eq!(series_len(&[3.0, 3.0, 3.0]), Ok(3));
}

#[test]
fn the_four_errors_are_distinct() {
    let all = [
        FitError::LengthMismatch,
        FitError::EmptyInput,
        FitError::ZeroXVariance,
        FitError::ZeroYVariance,
    ];
    for (i, a) in all.iter().enumerate() {
        for (j, b) in all.iter().enumerate() {
            assert_eq!(a == b, i == j);
            assert_eq!(a.message() == b.message(), i == j);
        }
    }
}

#[test]
fn errors_are_plain_values() {
    let e = FitError::ZeroYVariance;
    let copy = e;
    assert_eq!(e, copy);
    assert_eq!(e.clone(), FitError::ZeroYVariance);
    assert_eq!(format!("{:?}", e), "ZeroYVariance");
    assert_ne!(e, FitError::ZeroXVariance);
}

#[test]
fn each_error_has_its_message() {
    assert_eq!(FitError::LengthMismatch.message(), "x e y devem ter o mesmo tamanho");
    assert_eq!(FitError::EmptyInput.message(), "entrada vazia");
    assert_eq!(
        FitError::ZeroXVariance.message(),
        "variância de x é zero - não é possível calcular a inclinação"
    );
    assert_eq!(FitError::ZeroYVariance.message(), "variância de y é zero - R² indefinido");
}

#[test]
fn a_refused_check_carries_its_message() {
    let refused = paired_len(&[1.0, 2.0], &[1.0]).unwrap_err();
    assert_eq!(refused.message(), "x e y devem ter o mesmo tamanho");
    let none: Vec<f64> = Vec::new();
    assert_eq!(series_len(&none).unwrap_err().message(), "entrada vazia");
}
