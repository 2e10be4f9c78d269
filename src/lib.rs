//! The `factorial` scalar function: exact factorials of 32-bit inputs in
//! `0..=20` as 64-bit results, null everywhere else.

pub mod evaluate;
pub mod table;
pub mod udf;

pub use table::{compute_factorial, factorial_table, FACTORIALS};
pub use evaluate::{evaluate_batch, spark_factorial, ArgValue, FactorialError, FactorialValue};
pub use udf::{FunctionSignature, ReturnField, SparkFactorial, ValueType, Volatility};
