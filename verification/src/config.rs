//! Evaluation settings: NaN and division-by-zero policies, truthiness
//! rules and numeric coercion switches.

use vstd::prelude::*;

verus! {

/// How arithmetic treats operands that are not numbers.
#[derive(Debug, Clone, Copy, PartialEq, Eq, Structural)]
pub enum NanHandling {
    /// Raise an error (the default).
    ThrowError,
    /// Skip the operand.
    IgnoreValue,
    /// Count the operand as zero.
    CoerceToZero,
    /// Make the whole result `null`.
    ReturnNull,
}

/// How division by zero is answered.
#[derive(Debug, Clone, Copy, PartialEq, Eq, Structural)]
pub enum DivisionByZeroHandling {
    /// The largest or smallest representable number, by sign (the default).
    ReturnBounds,
    /// Raise an error.
    ThrowError,
    /// `null`.
    ReturnNull,
    /// Signed infinity.
    ReturnInfinity,
}

/// Which values count as true.
#[derive(Debug, Clone, Copy, PartialEq, Eq, Structural)]
pub enum TruthyEvaluator {
    /// JavaScript rules: `null`, `false`, `0`, `""`, `[]` and `{}` are false (the default).
    JavaScript,
    /// Python rules; on these values the same as JavaScript.
    Python,
    /// Only `null` and `false` are false.
    StrictBoolean,
}

/// Switches for turning non-numbers into numbers.
#[derive(Debug, Clone, Copy, PartialEq, Eq, Structural)]
pub struct NumericCoercionConfig {
    /// `""` counts as 0 (default: on).
    pub empty_string_to_zero: bool,
    /// `null` counts as 0 (default: on).
    pub null_to_zero: bool,
    /// `true`/`false` count as 1/0 (default: on).
    pub bool_to_number: bool,
    /// Only strict numeric parsing (default: off).
    pub strict_numeric: bool,
    /// A missing value counts as 0 (default: off).
    pub undefined_to_zero: bool,
}

/// All evaluation settings.
#[derive(Debug, Clone, Copy, PartialEq, Eq, Structural)]
pub struct EvaluationConfig {
    /// NaN policy for arithmetic.
    pub arithmetic_nan_handling: NanHandling,
    /// Division-by-zero policy.
    pub division_by_zero: DivisionByZeroHandling,
    /// Whether loose equality on incompatible types raises an error.
    pub loose_equality_errors: bool,
    /// Truthiness rules.
    pub truthy_evaluator: TruthyEvaluator,
    /// Numeric coercion switches.
    pub numeric_coercion: NumericCoercionConfig,
}

/// The default coercion switches.
pub open spec fn default_coercion() -> NumericCoercionConfig {
    NumericCoercionConfig {
        empty_string_to_zero: true,
        null_to_zero: true,
        bool_to_number: true,
        strict_numeric: false,
        undefined_to_zero: false,
    }
}

/// The default settings.
pub open spec fn default_config() -> EvaluationConfig {
    EvaluationConfig {
        arithmetic_nan_handling: NanHandling::ThrowError,
        division_by_zero: DivisionByZeroHandling::ReturnBounds,
        loose_equality_errors: true,
        truthy_evaluator: TruthyEvaluator::JavaScript,
        numeric_coercion: default_coercion(),
    }
}

impl Default for NumericCoercionConfig {
    fn default() -> (r: Self)
        ensures
            r == default_coercion(),
    {
        NumericCoercionConfig {
            empty_string_to_zero: true,
            null_to_zero: true,
            bool_to_number: true,
            strict_numeric: false,
            undefined_to_zero: false,
        }
    }
}

impl Default for EvaluationConfig {
    fn default() -> (r: Self)
        ensures
            r == default_config(),
    {
        EvaluationConfig {
            arithmetic_nan_handling: NanHandling::ThrowError,
            division_by_zero: DivisionByZeroHandling::ReturnBounds,
            loose_equality_errors: true,
            truthy_evaluator: TruthyEvaluator::JavaScript,
            numeric_coercion: NumericCoercionConfig::default(),
        }
    }
}

impl EvaluationConfig {
    /// The default settings.
    pub fn new() -> (r: Self)
        ensures
            r == default_config(),
    {
        Self::default()
    }

    /// Lenient arithmetic: skip non-numbers, divide by zero to `null`, no
    /// loose-equality errors.
    pub fn safe_arithmetic() -> (r: Self)
        ensures
            r == (EvaluationConfig {
                arithmetic_nan_handling: NanHandling::IgnoreValue,
                division_by_zero: DivisionByZeroHandling::ReturnNull,
                loose_equality_errors: false,
                ..default_config()
            }),
    {
        EvaluationConfig {
            arithmetic_nan_handling: NanHandling::IgnoreValue,
            division_by_zero: DivisionByZeroHandling::ReturnNull,
            loose_equality_errors: false,
            ..Self::default()
        }
    }

    /// Strict settings: errors for non-numbers and division by zero, and no
    /// coercion of strings, `null` or booleans.
    pub fn strict() -> (r: Self)
        ensures
            r == (EvaluationConfig {
                arithmetic_nan_handling: NanHandling::ThrowError,
                division_by_zero: DivisionByZeroHandling::ThrowError,
                loose_equality_errors: true,
                numeric_coercion: NumericCoercionConfig {
                    empty_string_to_zero: false,
                    null_to_zero: false,
                    bool_to_number: false,
                    strict_numeric: true,
                    undefined_to_zero: false,
                },
                ..default_config()
            }),
    {
        EvaluationConfig {
            arithmetic_nan_handling: NanHandling::ThrowError,
            division_by_zero: DivisionByZeroHandling::ThrowError,
            loose_equality_errors: true,
            numeric_coercion: NumericCoercionConfig {
                empty_string_to_zero: false,
                null_to_zero: false,
                bool_to_number: false,
                strict_numeric: true,
                undefined_to_zero: false,
            },
            ..Self::default()
        }
    }

    /// These settings with another NaN policy.
    pub fn with_nan_handling(self, handling: NanHandling) -> (r: Self)
        ensures
            r == (EvaluationConfig { arithmetic_nan_handling: handling, ..self }),
    {
        EvaluationConfig { arithmetic_nan_handling: handling, ..self }
    }

    /// These settings with another division-by-zero policy.
    pub fn with_division_by_zero(self, handling: DivisionByZeroHandling) -> (r: Self)
        ensures
            r == (EvaluationConfig { division_by_zero: handling, ..self }),
    {
        EvaluationConfig { division_by_zero: handling, ..self }
    }

    /// These settings with loose-equality errors on or off.
    pub fn with_loose_equality_errors(self, throw_errors: bool) -> (r: Self)
        ensures
            r == (EvaluationConfig { loose_equality_errors: throw_errors, ..self }),
    {
        EvaluationConfig { loose_equality_errors: throw_errors, ..self }
    }

    /// These settings with other truthiness rules.
    pub fn with_truthy_evaluator(self, evaluator: TruthyEvaluator) -> (r: Self)
        ensures
            r == (EvaluationConfig { truthy_evaluator: evaluator, ..self }),
    {
        EvaluationConfig { truthy_evaluator: evaluator, ..self }
    }

    /// These settings with other coercion switches.
    pub fn with_numeric_coercion(self, config: NumericCoercionConfig) -> (r: Self)
        ensures
            r == (EvaluationConfig { numeric_coercion: config, ..self }),
    {
        EvaluationConfig { numeric_coercion: config, ..self }
    }
}

} // verus!
