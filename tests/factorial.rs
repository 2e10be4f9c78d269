use factorial_udf::{
    compute_factorial, evaluate_batch, factorial_table, spark_factorial, ArgValue,
    FactorialError, FactorialValue, SparkFactorial, ValueType, Volatility, FACTORIALS,
};

fn closed_form(n: i64) -> i64 {
    let mut p: i64 = 1;
    for k in 2..=n {
        p *= k;
    }
    p
}

#[test]
fn test_spark_factorial_array() {
    let input = vec![Some(-1), Some(0), Some(1), Some(2), Some(4), Some(20), Some(21), None];
    let result = spark_factorial(&vec![ArgValue::Int32Array(input)]).unwrap();
    let actual = match result {
        FactorialValue::Array(array) => array,
        _ => panic!("Expected array"),
    };
    let expected = vec![
        None,
        Some(1),
        Some(1),
        Some(2),
        Some(24),
        Some(2432902008176640000),
        None,
        None,
    ];
    assert_eq!(actual, expected);
}

#[test]
fn test_spark_factorial_scalar() {
    let result = spark_factorial(&vec![ArgValue::Int32Scalar(Some(5))]).unwrap();
    let result = match result {
        FactorialValue::Scalar(val) => val,
        _ => panic!("Expected scalar"),
    };
    let actual = result.unwrap();
    let expected = 120_i64;
    assert_eq!(actual, expected);
}

#[test]
fn test_factorial_nullability() {
    let result = spark_factorial(&vec![ArgValue::Int32Scalar(None)]).unwrap();
    match result {
        FactorialValue::Scalar(val) => {
            assert!(val.is_none(), "Expected NULL output for NULL input");
        }
        _ => panic!("Expected nullable Int64 scalar"),
    }

    let result = spark_factorial(&vec![ArgValue::Int32Array(vec![None, None, None])]).unwrap();
    let actual = match result {
        FactorialValue::Array(array) => array,
        _ => panic!("Expected array output"),
    };
    assert_eq!(actual, vec![None, None, None]);
}

#[test]
fn in_domain_inputs_match_closed_form() {
    for v in 0..=20 {
        assert_eq!(compute_factorial(Some(v)), Some(closed_form(v as i64)));
        assert_eq!(FACTORIALS[v as usize], closed_form(v as i64));
    }
    assert_eq!(compute_factorial(Some(0)), Some(1));
    assert_eq!(compute_factorial(Some(13)), Some(6227020800));
    assert_eq!(compute_factorial(Some(20)), Some(2432902008176640000));
}

#[test]
fn out_of_domain_inputs_give_none() {
    for v in [-1, -20, 21, 22, 100, i32::MIN, i32::MAX] {
        assert_eq!(compute_factorial(Some(v)), None);
    }
}

#[test]
fn absent_input_gives_none() {
    assert_eq!(compute_factorial(None), None);
}

#[test]
fn batch_keeps_positions() {
    let input = vec![Some(3), None, Some(-5), Some(10), Some(21), Some(1)];
    let out = evaluate_batch(&input);
    assert_eq!(out.len(), input.len());
    for (i, x) in input.iter().enumerate() {
        assert_eq!(out[i], compute_factorial(*x));
    }
    assert_eq!(out, vec![Some(6), None, None, Some(3628800), None, Some(1)]);
}

#[test]
fn empty_batch_gives_empty_result() {
    assert_eq!(evaluate_batch(&vec![]), Vec::<Option<i64>>::new());
    let result = spark_factorial(&vec![ArgValue::Int32Array(vec![])]).unwrap();
    assert_eq!(result, FactorialValue::Array(vec![]));
}

#[test]
fn table_rebuilt_twice_is_identical() {
    let a = factorial_table();
    let b = factorial_table();
    assert_eq!(a, b);
    assert_eq!(a, FACTORIALS);
}

#[test]
fn large_non_null_inputs_give_nulls_and_nullable_field() {
    let result = spark_factorial(&vec![ArgValue::Int32Array(vec![21, 22, 1000].into_iter().map(Some).collect())])
        .unwrap();
    assert_eq!(result, FactorialValue::Array(vec![None, None, None]));
    let udf = SparkFactorial::new();
    let field = udf.return_field_from_args(&vec![false]);
    assert!(field.nullable);
    assert_eq!(field.data_type, ValueType::Int64);
    assert_eq!(field.name, "factorial");
    assert!(udf.return_field_from_args(&vec![true]).nullable);
}

#[test]
fn two_arguments_are_refused() {
    let args = vec![ArgValue::Int32Scalar(Some(1)), ArgValue::Int32Scalar(Some(2))];
    match spark_factorial(&args) {
        Err(FactorialError::ArgumentCount(e)) => {
            assert!(e.to_string().contains("factorial function requires 1 argument, got 2"));
        }
        other => panic!("unexpected result: {:?}", other),
    }
}

#[test]
fn zero_arguments_are_refused() {
    match spark_factorial(&vec![]) {
        Err(FactorialError::ArgumentCount(e)) => {
            assert!(e.to_string().contains("got 0"));
        }
        other => panic!("unexpected result: {:?}", other),
    }
}

#[test]
fn unexpected_scalar_type_is_refused() {
    let args = vec![ArgValue::OtherScalar("3.5".to_string())];
    match spark_factorial(&args) {
        Err(FactorialError::UnexpectedScalarType(s)) => assert_eq!(s, "3.5"),
        other => panic!("unexpected result: {:?}", other),
    }
}

#[test]
fn unexpected_array_type_is_refused() {
    let args = vec![ArgValue::OtherArray("Utf8".to_string())];
    match spark_factorial(&args) {
        Err(FactorialError::UnexpectedArgumentType(t)) => assert_eq!(t, "Utf8"),
        other => panic!("unexpected result: {:?}", other),
    }
}

#[test]
fn registration_describes_one_int32_argument() {
    let udf = SparkFactorial::new();
    assert_eq!(udf.name(), "factorial");
    assert_eq!(udf.signature().arg_types, vec![ValueType::Int32]);
    assert_eq!(udf.signature().volatility, Volatility::Immutable);
    assert!(udf.aliases().is_empty());
    assert_eq!(SparkFactorial::default(), udf);
}
