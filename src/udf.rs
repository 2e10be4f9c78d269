use vstd::prelude::*;

verus! {

/// The value types that the function's signature speaks of.
#[derive(Debug, Clone, Copy, PartialEq, Eq, Hash, Structural)]
pub enum ValueType {
    Int32,
    Int64,
}

/// How a function's result depends on its inputs.
#[derive(Debug, Clone, Copy, PartialEq, Eq, Hash, Structural)]
pub enum Volatility {
    /// The same inputs always give the same result.
    Immutable,
    /// The result may change between queries, not within one.
    Stable,
    /// The result may change on every call.
    Volatile,
}

/// An exact signature: the argument types, in order, and the volatility.
#[derive(Debug, PartialEq, Eq, Hash)]
pub struct FunctionSignature {
    pub arg_types: Vec<ValueType>,
    pub volatility: Volatility,
}

/// The declared result column: its name, type and whether it may hold nulls.
#[derive(Debug, PartialEq, Eq, Hash)]
pub struct ReturnField {
    pub name: String,
    pub data_type: ValueType,
    pub nullable: bool,
}

/// The registration of `factorial`: its signature and its aliases.
#[derive(Debug, PartialEq, Eq, Hash)]
pub struct SparkFactorial {
    pub signature: FunctionSignature,
    pub aliases: Vec<String>,
}

/// The name under which the function is registered.
pub open spec fn function_name() -> Seq<char> {
    "factorial"@
}

impl SparkFactorial {
    /// One 32-bit integer argument, a deterministic result, no aliases.
    pub fn new() -> (r: Self)
        ensures
            r.signature.arg_types@ == seq![ValueType::Int32],
            r.signature.volatility == Volatility::Immutable,
            r.aliases@.len() == 0,
    {
        SparkFactorial {
            signature: FunctionSignature {
                arg_types: vec![ValueType::Int32],
                volatility: Volatility::Immutable,
            },
            aliases: Vec::new(),
        }
    }

    pub fn name(&self) -> (r: &'static str)
        ensures
            r@ == function_name(),
    {
        "factorial"
    }

    pub fn signature(&self) -> (r: &FunctionSignature)
        ensures
            *r == self.signature,
    {
        &self.signature
    }

    pub fn aliases(&self) -> (r: &Vec<String>)
        ensures
            *r == self.aliases,
    {
        &self.aliases
    }

    /// The declared result: a 64-bit integer column named after the
    /// function, always nullable. Inputs outside `0..=20` give null even when
    /// no argument is nullable, so the declaration does not follow the
    /// arguments' nullability.
    pub fn return_field_from_args(&self, arg_nullable: &Vec<bool>) -> (r: ReturnField)
        ensures
            r.name@ == function_name(),
            r.data_type == ValueType::Int64,
            r.nullable,
    {
        ReturnField { name: self.name().to_owned(), data_type: ValueType::Int64, nullable: true }
    }
}

impl Default for SparkFactorial {
    fn default() -> (r: Self)
        ensures
            r.signature.arg_types@ == seq![ValueType::Int32],
            r.signature.volatility == Volatility::Immutable,
            r.aliases@.len() == 0,
    {
        Self::new()
    }
}

} // verus!
