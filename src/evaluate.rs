use vstd::prelude::*;

use datafusion_common::utils::take_function_args;
use datafusion_common::DataFusionError;

use crate::table::{compute_factorial, factorial_of};

verus! {

#[verifier::external_type_specification]
#[verifier::external_body]
pub struct ExDataFusionError(DataFusionError);

/// One argument as the host hands it over: a single value or a column of
/// values, of the expected 32-bit integer type or of another one.
#[derive(Debug, PartialEq, Eq)]
pub enum ArgValue {
    /// A single, possibly null, 32-bit integer.
    Int32Scalar(Option<i32>),
    /// A column of possibly null 32-bit integers, in row order.
    Int32Array(Vec<Option<i32>>),
    /// A single value of another type, given by its printed form.
    OtherScalar(String),
    /// A column of another type, given by the type's name.
    OtherArray(String),
}

/// The result, in the shape of the argument.
#[derive(Debug, PartialEq, Eq)]
pub enum FactorialValue {
    /// The factorial of a single value.
    Scalar(Option<i64>),
    /// The factorial of each value of a column, in the column's order.
    Array(Vec<Option<i64>>),
}

/// Why a call was refused.
#[derive(Debug)]
pub enum FactorialError {
    /// The call did not have exactly one argument.
    ArgumentCount(DataFusionError),
    /// The single value was not a 32-bit integer; holds its printed form.
    UnexpectedScalarType(String),
    /// The column was not of 32-bit integers; holds the type's name.
    UnexpectedArgumentType(String),
}

/// Element `i` of the result is the factorial of element `i` of the input.
pub open spec fn factorials_of(s: Seq<Option<i32>>) -> Seq<Option<i64>> {
    s.map_values(|x: Option<i32>| factorial_of(x))
}

/// The factorial of every element of a column, position by position.
pub fn evaluate_batch(input: &Vec<Option<i32>>) -> (r: Vec<Option<i64>>)
    ensures
        r@.len() == input@.len(),
        forall|i: int| 0 <= i < input@.len() ==> #[trigger] r@[i] == factorial_of(input@[i]),
        r@ == factorials_of(input@),
{
    let mut r: Vec<Option<i64>> = Vec::with_capacity(input.len());
    let mut i: usize = 0;
    while i < input.len()
        invariant
            i <= input@.len(),
            r@.len() == i,
            forall|j: int| 0 <= j < i ==> #[trigger] r@[j] == factorial_of(input@[j]),
        decreases input@.len() - i,
    {
        r.push(compute_factorial(input[i]));
        i = i + 1;
    }
    assert(r@ =~= factorials_of(input@));
    r
}

/// A column holding only values of 21 or more, and no null, still gives a
/// result that is null at every position.
pub proof fn lemma_large_inputs_give_nulls(s: Seq<Option<i32>>)
    requires
        forall|i: int| 0 <= i < s.len() ==> (#[trigger] s[i] matches Some(v) && v >= 21),
    ensures
        forall|i: int| 0 <= i < s.len() ==> (#[trigger] factorials_of(s)[i]) is None,
{
    assert forall|i: int| 0 <= i < s.len() implies (#[trigger] factorials_of(s)[i]) is None by {
        assert(s[i] matches Some(v) && v >= 21);
    }
}

/// Relies on datafusion_common::utils::take_function_args: `Ok` exactly when
/// the arguments number one, and then that argument.
#[verifier::external_body]
fn take_single_arg(args: &Vec<ArgValue>) -> (r: Result<&ArgValue, DataFusionError>)
    ensures
        r is Ok <==> args@.len() == 1,
        r matches Ok(a) ==> *a == args@[0],
{
    take_function_args("factorial", args.iter()).map(|[a]: [&ArgValue; 1]| a)
}

/// Evaluates a call of `factorial`: it takes exactly one argument, which is a
/// 32-bit integer value or column; the result has the argument's shape.
pub fn spark_factorial(args: &Vec<ArgValue>) -> (r: Result<FactorialValue, FactorialError>)
    ensures
        r matches Err(FactorialError::ArgumentCount(_)) <==> args@.len() != 1,
        args@.len() == 1 ==> match args@[0] {
            ArgValue::Int32Scalar(v) => r matches Ok(FactorialValue::Scalar(o)) && o
                == factorial_of(v),
            ArgValue::Int32Array(a) => r matches Ok(FactorialValue::Array(o)) && o@
                == factorials_of(a@),
            ArgValue::OtherScalar(s) => r matches Err(FactorialError::UnexpectedScalarType(t))
                && t == s,
            ArgValue::OtherArray(s) => r matches Err(FactorialError::UnexpectedArgumentType(t))
                && t == s,
        },
{
    let arg = match take_single_arg(args) {
        Ok(a) => a,
        Err(e) => {
            return Err(FactorialError::ArgumentCount(e));
        },
    };
    match arg {
        ArgValue::Int32Scalar(v) => Ok(FactorialValue::Scalar(compute_factorial(*v))),
        ArgValue::Int32Array(a) => Ok(FactorialValue::Array(evaluate_batch(a))),
        ArgValue::OtherScalar(s) => Err(FactorialError::UnexpectedScalarType(s.clone())),
        ArgValue::OtherArray(t) => Err(FactorialError::UnexpectedArgumentType(t.clone())),
    }
}

} // verus!
