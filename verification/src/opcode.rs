//! The built-in operators and their names.

use vstd::prelude::*;
use crate::path::key_eq;

verus! {

/// A built-in operator.
#[derive(Debug, Clone, Copy, PartialEq, Eq, Structural)]
pub enum OpCode {
    /// `var`: Reads a value from the data context.
    Var,
    /// `val`: Reads a value by literal path segments or scope level.
    Val,
    /// `missing`: Lists the paths that are absent from the data.
    Missing,
    /// `missing_some`: Lists absent paths unless enough are present.
    MissingSome,
    /// `exists`: Tests whether a path is present.
    Exists,
    /// `map`: Maps a logic over an array.
    MapArray,
    /// `filter`: Keeps the elements a logic accepts.
    Filter,
    /// `reduce`: Folds an array with a logic.
    Reduce,
    /// `all`: True iff every element satisfies a logic.
    All,
    /// `some`: True iff some element satisfies a logic.
    SomeOf,
    /// `none`: True iff no element satisfies a logic.
    NoneOf,
    /// `try`: Evaluates alternatives until one succeeds.
    Try,
    /// `throw`: Raises an error value.
    Throw,
    /// `now`: The current time.
    Now,
    /// `preserve`: Returns its arguments unevaluated.
    Preserve,
    /// `merge`: Flattens arrays one level.
    Merge,
    /// `min`: Smallest number.
    Min,
    /// `max`: Largest number.
    Max,
    /// `type`: The type name of a value.
    Type,
    /// `starts_with`: String prefix test.
    StartsWith,
    /// `ends_with`: String suffix test.
    EndsWith,
    /// `upper`: Upper-cases a string.
    Upper,
    /// `lower`: Lower-cases a string.
    Lower,
    /// `trim`: Strips surrounding whitespace.
    Trim,
    /// `split`: Splits a string.
    Split,
    /// `datetime`: Parses a date-time.
    Datetime,
    /// `timestamp`: Parses a duration.
    Timestamp,
    /// `parse_date`: Parses a date with a format.
    ParseDate,
    /// `format_date`: Formats a date.
    FormatDate,
    /// `date_diff`: Difference between two dates.
    DateDiff,
    /// `abs`: Absolute value.
    Abs,
    /// `ceil`: Rounds up.
    Ceil,
    /// `floor`: Rounds down.
    Floor,
    /// `+`: Sum.
    Add,
    /// `-`: Difference or negation.
    Subtract,
    /// `*`: Product.
    Multiply,
    /// `/`: Quotient.
    Divide,
    /// `%`: Remainder.
    Modulo,
    /// `==`: Loose equality.
    Equals,
    /// `===`: Strict equality.
    StrictEquals,
    /// `!=`: Loose inequality.
    NotEquals,
    /// `!==`: Strict inequality.
    StrictNotEquals,
    /// `>`: Greater than.
    GreaterThan,
    /// `>=`: Greater than or equal.
    GreaterThanEqual,
    /// `<`: Less than.
    LessThan,
    /// `<=`: Less than or equal.
    LessThanEqual,
    /// `!`: Logical negation.
    Not,
    /// `!!`: Truthiness as a boolean.
    DoubleNot,
    /// `and`: Short-circuit conjunction.
    And,
    /// `or`: Short-circuit disjunction.
    Or,
    /// `?:`: Conditional with three arguments.
    Ternary,
    /// `if`: If / else-if / else chain.
    If,
    /// `cat`: String concatenation.
    Cat,
    /// `substr`: Substring.
    Substr,
    /// `in`: Membership in a string or array.
    In,
    /// `length`: Length of a string or array.
    Length,
    /// `sort`: Sorts an array.
    Sort,
    /// `slice`: Slice of a string or array.
    Slice,
    /// `??`: First non-null argument.
    Coalesce,
    /// `switch`: The result paired with the first case equal to a value.
    Switch,
}

/// The name an operator is written with in a rule.
pub open spec fn opcode_name(op: OpCode) -> Seq<char> {
    match op {
        OpCode::Var => "var"@,
        OpCode::Val => "val"@,
        OpCode::Missing => "missing"@,
        OpCode::MissingSome => "missing_some"@,
        OpCode::Exists => "exists"@,
        OpCode::MapArray => "map"@,
        OpCode::Filter => "filter"@,
        OpCode::Reduce => "reduce"@,
        OpCode::All => "all"@,
        OpCode::SomeOf => "some"@,
        OpCode::NoneOf => "none"@,
        OpCode::Try => "try"@,
        OpCode::Throw => "throw"@,
        OpCode::Now => "now"@,
        OpCode::Preserve => "preserve"@,
        OpCode::Merge => "merge"@,
        OpCode::Min => "min"@,
        OpCode::Max => "max"@,
        OpCode::Type => "type"@,
        OpCode::StartsWith => "starts_with"@,
        OpCode::EndsWith => "ends_with"@,
        OpCode::Upper => "upper"@,
        OpCode::Lower => "lower"@,
        OpCode::Trim => "trim"@,
        OpCode::Split => "split"@,
        OpCode::Datetime => "datetime"@,
        OpCode::Timestamp => "timestamp"@,
        OpCode::ParseDate => "parse_date"@,
        OpCode::FormatDate => "format_date"@,
        OpCode::DateDiff => "date_diff"@,
        OpCode::Abs => "abs"@,
        OpCode::Ceil => "ceil"@,
        OpCode::Floor => "floor"@,
        OpCode::Add => "+"@,
        OpCode::Subtract => "-"@,
        OpCode::Multiply => "*"@,
        OpCode::Divide => "/"@,
        OpCode::Modulo => "%"@,
        OpCode::Equals => "=="@,
        OpCode::StrictEquals => "==="@,
        OpCode::NotEquals => "!="@,
        OpCode::StrictNotEquals => "!=="@,
        OpCode::GreaterThan => ">"@,
        OpCode::GreaterThanEqual => ">="@,
        OpCode::LessThan => "<"@,
        OpCode::LessThanEqual => "<="@,
        OpCode::Not => "!"@,
        OpCode::DoubleNot => "!!"@,
        OpCode::And => "and"@,
        OpCode::Or => "or"@,
        OpCode::Ternary => "?:"@,
        OpCode::If => "if"@,
        OpCode::Cat => "cat"@,
        OpCode::Substr => "substr"@,
        OpCode::In => "in"@,
        OpCode::Length => "length"@,
        OpCode::Sort => "sort"@,
        OpCode::Slice => "slice"@,
        OpCode::Coalesce => "??"@,
        OpCode::Switch => "switch"@,
    }
}

/// The operator a name denotes, if any.
pub open spec fn opcode_of_name(s: Seq<char>) -> Option<OpCode> {
    if s == "var"@ {
        Some(OpCode::Var)
    } else if s == "val"@ {
        Some(OpCode::Val)
    } else if s == "missing"@ {
        Some(OpCode::Missing)
    } else if s == "missing_some"@ {
        Some(OpCode::MissingSome)
    } else if s == "exists"@ {
        Some(OpCode::Exists)
    } else if s == "map"@ {
        Some(OpCode::MapArray)
    } else if s == "filter"@ {
        Some(OpCode::Filter)
    } else if s == "reduce"@ {
        Some(OpCode::Reduce)
    } else if s == "all"@ {
        Some(OpCode::All)
    } else if s == "some"@ {
        Some(OpCode::SomeOf)
    } else if s == "none"@ {
        Some(OpCode::NoneOf)
    } else if s == "try"@ {
        Some(OpCode::Try)
    } else if s == "throw"@ {
        Some(OpCode::Throw)
    } else if s == "now"@ {
        Some(OpCode::Now)
    } else if s == "preserve"@ {
        Some(OpCode::Preserve)
    } else if s == "merge"@ {
        Some(OpCode::Merge)
    } else if s == "min"@ {
        Some(OpCode::Min)
    } else if s == "max"@ {
        Some(OpCode::Max)
    } else if s == "type"@ {
        Some(OpCode::Type)
    } else if s == "starts_with"@ {
        Some(OpCode::StartsWith)
    } else if s == "ends_with"@ {
        Some(OpCode::EndsWith)
    } else if s == "upper"@ {
        Some(OpCode::Upper)
    } else if s == "lower"@ {
        Some(OpCode::Lower)
    } else if s == "trim"@ {
        Some(OpCode::Trim)
    } else if s == "split"@ {
        Some(OpCode::Split)
    } else if s == "datetime"@ {
        Some(OpCode::Datetime)
    } else if s == "timestamp"@ {
        Some(OpCode::Timestamp)
    } else if s == "parse_date"@ {
        Some(OpCode::ParseDate)
    } else if s == "format_date"@ {
        Some(OpCode::FormatDate)
    } else if s == "date_diff"@ {
        Some(OpCode::DateDiff)
    } else if s == "abs"@ {
        Some(OpCode::Abs)
    } else if s == "ceil"@ {
        Some(OpCode::Ceil)
    } else if s == "floor"@ {
        Some(OpCode::Floor)
    } else if s == "+"@ {
        Some(OpCode::Add)
    } else if s == "-"@ {
        Some(OpCode::Subtract)
    } else if s == "*"@ {
        Some(OpCode::Multiply)
    } else if s == "/"@ {
        Some(OpCode::Divide)
    } else if s == "%"@ {
        Some(OpCode::Modulo)
    } else if s == "=="@ {
        Some(OpCode::Equals)
    } else if s == "==="@ {
        Some(OpCode::StrictEquals)
    } else if s == "!="@ {
        Some(OpCode::NotEquals)
    } else if s == "!=="@ {
        Some(OpCode::StrictNotEquals)
    } else if s == ">"@ {
        Some(OpCode::GreaterThan)
    } else if s == ">="@ {
        Some(OpCode::GreaterThanEqual)
    } else if s == "<"@ {
        Some(OpCode::LessThan)
    } else if s == "<="@ {
        Some(OpCode::LessThanEqual)
    } else if s == "!"@ {
        Some(OpCode::Not)
    } else if s == "!!"@ {
        Some(OpCode::DoubleNot)
    } else if s == "and"@ {
        Some(OpCode::And)
    } else if s == "or"@ {
        Some(OpCode::Or)
    } else if s == "?:"@ {
        Some(OpCode::Ternary)
    } else if s == "if"@ {
        Some(OpCode::If)
    } else if s == "cat"@ {
        Some(OpCode::Cat)
    } else if s == "substr"@ {
        Some(OpCode::Substr)
    } else if s == "in"@ {
        Some(OpCode::In)
    } else if s == "length"@ {
        Some(OpCode::Length)
    } else if s == "sort"@ {
        Some(OpCode::Sort)
    } else if s == "slice"@ {
        Some(OpCode::Slice)
    } else if s == "??"@ {
        Some(OpCode::Coalesce)
    } else if s == "switch"@ {
        Some(OpCode::Switch)
    } else {
        None
    }
}

impl OpCode {
    /// The operator's name.
    pub fn as_str(&self) -> (r: &'static str)
        ensures
            r@ == opcode_name(*self),
    {
        match self {
            OpCode::Var => {
                proof {
                    reveal_strlit("var");
                }
                "var"
            },
            OpCode::Val => {
                proof {
                    reveal_strlit("val");
                }
                "val"
            },
            OpCode::Missing => {
                proof {
                    reveal_strlit("missing");
                }
                "missing"
            },
            OpCode::MissingSome => {
                proof {
                    reveal_strlit("missing_some");
                }
                "missing_some"
            },
            OpCode::Exists => {
                proof {
                    reveal_strlit("exists");
                }
                "exists"
            },
            OpCode::MapArray => {
                proof {
                    reveal_strlit("map");
                }
                "map"
            },
            OpCode::Filter => {
                proof {
                    reveal_strlit("filter");
                }
                "filter"
            },
            OpCode::Reduce => {
                proof {
                    reveal_strlit("reduce");
                }
                "reduce"
            },
            OpCode::All => {
                proof {
                    reveal_strlit("all");
                }
                "all"
            },
            OpCode::SomeOf => {
                proof {
                    reveal_strlit("some");
                }
                "some"
            },
            OpCode::NoneOf => {
                proof {
                    reveal_strlit("none");
                }
                "none"
            },
            OpCode::Try => {
                proof {
                    reveal_strlit("try");
                }
                "try"
            },
            OpCode::Throw => {
                proof {
                    reveal_strlit("throw");
                }
                "throw"
            },
            OpCode::Now => {
                proof {
                    reveal_strlit("now");
                }
                "now"
            },
            OpCode::Preserve => {
                proof {
                    reveal_strlit("preserve");
                }
                "preserve"
            },
            OpCode::Merge => {
                proof {
                    reveal_strlit("merge");
                }
                "merge"
            },
            OpCode::Min => {
                proof {
                    reveal_strlit("min");
                }
                "min"
            },
            OpCode::Max => {
                proof {
                    reveal_strlit("max");
                }
                "max"
            },
            OpCode::Type => {
                proof {
                    reveal_strlit("type");
                }
                "type"
            },
            OpCode::StartsWith => {
                proof {
                    reveal_strlit("starts_with");
                }
                "starts_with"
            },
            OpCode::EndsWith => {
                proof {
                    reveal_strlit("ends_with");
                }
                "ends_with"
            },
            OpCode::Upper => {
                proof {
                    reveal_strlit("upper");
                }
                "upper"
            },
            OpCode::Lower => {
                proof {
                    reveal_strlit("lower");
                }
                "lower"
            },
            OpCode::Trim => {
                proof {
                    reveal_strlit("trim");
                }
                "trim"
            },
            OpCode::Split => {
                proof {
                    reveal_strlit("split");
                }
                "split"
            },
            OpCode::Datetime => {
                proof {
                    reveal_strlit("datetime");
                }
                "datetime"
            },
            OpCode::Timestamp => {
                proof {
                    reveal_strlit("timestamp");
                }
                "timestamp"
            },
            OpCode::ParseDate => {
                proof {
                    reveal_strlit("parse_date");
                }
                "parse_date"
            },
            OpCode::FormatDate => {
                proof {
                    reveal_strlit("format_date");
                }
                "format_date"
            },
            OpCode::DateDiff => {
                proof {
                    reveal_strlit("date_diff");
                }
                "date_diff"
            },
            OpCode::Abs => {
                proof {
                    reveal_strlit("abs");
                }
                "abs"
            },
            OpCode::Ceil => {
                proof {
                    reveal_strlit("ceil");
                }
                "ceil"
            },
            OpCode::Floor => {
                proof {
                    reveal_strlit("floor");
                }
                "floor"
            },
            OpCode::Add => {
                proof {
                    reveal_strlit("+");
                }
                "+"
            },
            OpCode::Subtract => {
                proof {
                    reveal_strlit("-");
                }
                "-"
            },
            OpCode::Multiply => {
                proof {
                    reveal_strlit("*");
                }
                "*"
            },
            OpCode::Divide => {
                proof {
                    reveal_strlit("/");
                }
                "/"
            },
            OpCode::Modulo => {
                proof {
                    reveal_strlit("%");
                }
                "%"
            },
            OpCode::Equals => {
                proof {
                    reveal_strlit("==");
                }
                "=="
            },
            OpCode::StrictEquals => {
                proof {
                    reveal_strlit("===");
                }
                "==="
            },
            OpCode::NotEquals => {
                proof {
                    reveal_strlit("!=");
                }
                "!="
            },
            OpCode::StrictNotEquals => {
                proof {
                    reveal_strlit("!==");
                }
                "!=="
            },
            OpCode::GreaterThan => {
                proof {
                    reveal_strlit(">");
                }
                ">"
            },
            OpCode::GreaterThanEqual => {
                proof {
                    reveal_strlit(">=");
                }
                ">="
            },
            OpCode::LessThan => {
                proof {
                    reveal_strlit("<");
                }
                "<"
            },
            OpCode::LessThanEqual => {
                proof {
                    reveal_strlit("<=");
                }
                "<="
            },
            OpCode::Not => {
                proof {
                    reveal_strlit("!");
                }
                "!"
            },
            OpCode::DoubleNot => {
                proof {
                    reveal_strlit("!!");
                }
                "!!"
            },
            OpCode::And => {
                proof {
                    reveal_strlit("and");
                }
                "and"
            },
            OpCode::Or => {
                proof {
                    reveal_strlit("or");
                }
                "or"
            },
            OpCode::Ternary => {
                proof {
                    reveal_strlit("?:");
                }
                "?:"
            },
            OpCode::If => {
                proof {
                    reveal_strlit("if");
                }
                "if"
            },
            OpCode::Cat => {
                proof {
                    reveal_strlit("cat");
                }
                "cat"
            },
            OpCode::Substr => {
                proof {
                    reveal_strlit("substr");
                }
                "substr"
            },
            OpCode::In => {
                proof {
                    reveal_strlit("in");
                }
                "in"
            },
            OpCode::Length => {
                proof {
                    reveal_strlit("length");
                }
                "length"
            },
            OpCode::Sort => {
                proof {
                    reveal_strlit("sort");
                }
                "sort"
            },
            OpCode::Slice => {
                proof {
                    reveal_strlit("slice");
                }
                "slice"
            },
            OpCode::Coalesce => {
                proof {
                    reveal_strlit("??");
                }
                "??"
            },
            OpCode::Switch => {
                proof {
                    reveal_strlit("switch");
                }
                "switch"
            },
        }
    }

    /// The operator named `name`, if `name` is a built-in operator name.
    pub fn from_name(name: &str) -> (r: Option<OpCode>)
        ensures
            r == opcode_of_name(name@),
    {
        if key_eq(name, "var") {
            return Some(OpCode::Var);
        }
        if key_eq(name, "val") {
            return Some(OpCode::Val);
        }
        if key_eq(name, "missing") {
            return Some(OpCode::Missing);
        }
        if key_eq(name, "missing_some") {
            return Some(OpCode::MissingSome);
        }
        if key_eq(name, "exists") {
            return Some(OpCode::Exists);
        }
        if key_eq(name, "map") {
            return Some(OpCode::MapArray);
        }
        if key_eq(name, "filter") {
            return Some(OpCode::Filter);
        }
        if key_eq(name, "reduce") {
            return Some(OpCode::Reduce);
        }
        if key_eq(name, "all") {
            return Some(OpCode::All);
        }
        if key_eq(name, "some") {
            return Some(OpCode::SomeOf);
        }
        if key_eq(name, "none") {
            return Some(OpCode::NoneOf);
        }
        if key_eq(name, "try") {
            return Some(OpCode::Try);
        }
        if key_eq(name, "throw") {
            return Some(OpCode::Throw);
        }
        if key_eq(name, "now") {
            return Some(OpCode::Now);
        }
        if key_eq(name, "preserve") {
            return Some(OpCode::Preserve);
        }
        if key_eq(name, "merge") {
            return Some(OpCode::Merge);
        }
        if key_eq(name, "min") {
            return Some(OpCode::Min);
        }
        if key_eq(name, "max") {
            return Some(OpCode::Max);
        }
        if key_eq(name, "type") {
            return Some(OpCode::Type);
        }
        if key_eq(name, "starts_with") {
            return Some(OpCode::StartsWith);
        }
        if key_eq(name, "ends_with") {
            return Some(OpCode::EndsWith);
        }
        if key_eq(name, "upper") {
            return Some(OpCode::Upper);
        }
        if key_eq(name, "lower") {
            return Some(OpCode::Lower);
        }
        if key_eq(name, "trim") {
            return Some(OpCode::Trim);
        }
        if key_eq(name, "split") {
            return Some(OpCode::Split);
        }
        if key_eq(name, "datetime") {
            return Some(OpCode::Datetime);
        }
        if key_eq(name, "timestamp") {
            return Some(OpCode::Timestamp);
        }
        if key_eq(name, "parse_date") {
            return Some(OpCode::ParseDate);
        }
        if key_eq(name, "format_date") {
            return Some(OpCode::FormatDate);
        }
        if key_eq(name, "date_diff") {
            return Some(OpCode::DateDiff);
        }
        if key_eq(name, "abs") {
            return Some(OpCode::Abs);
        }
        if key_eq(name, "ceil") {
            return Some(OpCode::Ceil);
        }
        if key_eq(name, "floor") {
            return Some(OpCode::Floor);
        }
        if key_eq(name, "+") {
            return Some(OpCode::Add);
        }
        if key_eq(name, "-") {
            return Some(OpCode::Subtract);
        }
        if key_eq(name, "*") {
            return Some(OpCode::Multiply);
        }
        if key_eq(name, "/") {
            return Some(OpCode::Divide);
        }
        if key_eq(name, "%") {
            return Some(OpCode::Modulo);
        }
        if key_eq(name, "==") {
            return Some(OpCode::Equals);
        }
        if key_eq(name, "===") {
            return Some(OpCode::StrictEquals);
        }
        if key_eq(name, "!=") {
            return Some(OpCode::NotEquals);
        }
        if key_eq(name, "!==") {
            return Some(OpCode::StrictNotEquals);
        }
        if key_eq(name, ">") {
            return Some(OpCode::GreaterThan);
        }
        if key_eq(name, ">=") {
            return Some(OpCode::GreaterThanEqual);
        }
        if key_eq(name, "<") {
            return Some(OpCode::LessThan);
        }
        if key_eq(name, "<=") {
            return Some(OpCode::LessThanEqual);
        }
        if key_eq(name, "!") {
            return Some(OpCode::Not);
        }
        if key_eq(name, "!!") {
            return Some(OpCode::DoubleNot);
        }
        if key_eq(name, "and") {
            return Some(OpCode::And);
        }
        if key_eq(name, "or") {
            return Some(OpCode::Or);
        }
        if key_eq(name, "?:") {
            return Some(OpCode::Ternary);
        }
        if key_eq(name, "if") {
            return Some(OpCode::If);
        }
        if key_eq(name, "cat") {
            return Some(OpCode::Cat);
        }
        if key_eq(name, "substr") {
            return Some(OpCode::Substr);
        }
        if key_eq(name, "in") {
            return Some(OpCode::In);
        }
        if key_eq(name, "length") {
            return Some(OpCode::Length);
        }
        if key_eq(name, "sort") {
            return Some(OpCode::Sort);
        }
        if key_eq(name, "slice") {
            return Some(OpCode::Slice);
        }
        if key_eq(name, "??") {
            return Some(OpCode::Coalesce);
        }
        if key_eq(name, "switch") {
            return Some(OpCode::Switch);
        }
        None
    }
}

/// Every operator is found again under its own name.
pub proof fn law_opcode_name_round_trip(op: OpCode)
    ensures
        opcode_of_name(opcode_name(op)) == Some(op),
{
    match op {
        OpCode::Var => lemma_name_of_var(),
        OpCode::Val => lemma_name_of_val(),
        OpCode::Missing => lemma_name_of_missing(),
        OpCode::MissingSome => lemma_name_of_missingsome(),
        OpCode::Exists => lemma_name_of_exists(),
        OpCode::MapArray => lemma_name_of_maparray(),
        OpCode::Filter => lemma_name_of_filter(),
        OpCode::Reduce => lemma_name_of_reduce(),
        OpCode::All => lemma_name_of_all(),
        OpCode::SomeOf => lemma_name_of_someof(),
        OpCode::NoneOf => lemma_name_of_noneof(),
        OpCode::Try => lemma_name_of_try(),
        OpCode::Throw => lemma_name_of_throw(),
        OpCode::Now => lemma_name_of_now(),
        OpCode::Preserve => lemma_name_of_preserve(),
        OpCode::Merge => lemma_name_of_merge(),
        OpCode::Min => lemma_name_of_min(),
        OpCode::Max => lemma_name_of_max(),
        OpCode::Type => lemma_name_of_type(),
        OpCode::StartsWith => lemma_name_of_startswith(),
        OpCode::EndsWith => lemma_name_of_endswith(),
        OpCode::Upper => lemma_name_of_upper(),
        OpCode::Lower => lemma_name_of_lower(),
        OpCode::Trim => lemma_name_of_trim(),
        OpCode::Split => lemma_name_of_split(),
        OpCode::Datetime => lemma_name_of_datetime(),
        OpCode::Timestamp => lemma_name_of_timestamp(),
        OpCode::ParseDate => lemma_name_of_parsedate(),
        OpCode::FormatDate => lemma_name_of_formatdate(),
        OpCode::DateDiff => lemma_name_of_datediff(),
        OpCode::Abs => lemma_name_of_abs(),
        OpCode::Ceil => lemma_name_of_ceil(),
        OpCode::Floor => lemma_name_of_floor(),
        OpCode::Add => lemma_name_of_add(),
        OpCode::Subtract => lemma_name_of_subtract(),
        OpCode::Multiply => lemma_name_of_multiply(),
        OpCode::Divide => lemma_name_of_divide(),
        OpCode::Modulo => lemma_name_of_modulo(),
        OpCode::Equals => lemma_name_of_equals(),
        OpCode::StrictEquals => lemma_name_of_strictequals(),
        OpCode::NotEquals => lemma_name_of_notequals(),
        OpCode::StrictNotEquals => lemma_name_of_strictnotequals(),
        OpCode::GreaterThan => lemma_name_of_greaterthan(),
        OpCode::GreaterThanEqual => lemma_name_of_greaterthanequal(),
        OpCode::LessThan => lemma_name_of_lessthan(),
        OpCode::LessThanEqual => lemma_name_of_lessthanequal(),
        OpCode::Not => lemma_name_of_not(),
        OpCode::DoubleNot => lemma_name_of_doublenot(),
        OpCode::And => lemma_name_of_and(),
        OpCode::Or => lemma_name_of_or(),
        OpCode::Ternary => lemma_name_of_ternary(),
        OpCode::If => lemma_name_of_if(),
        OpCode::Cat => lemma_name_of_cat(),
        OpCode::Substr => lemma_name_of_substr(),
        OpCode::In => lemma_name_of_in(),
        OpCode::Length => lemma_name_of_length(),
        OpCode::Sort => lemma_name_of_sort(),
        OpCode::Slice => lemma_name_of_slice(),
        OpCode::Coalesce => lemma_name_of_coalesce(),
        OpCode::Switch => lemma_name_of_switch(),
    }
}

proof fn lemma_name_of_var()
    ensures
        opcode_of_name(opcode_name(OpCode::Var)) == Some(OpCode::Var),
{
        reveal_strlit("var");
}

proof fn lemma_name_of_val()
    ensures
        opcode_of_name(opcode_name(OpCode::Val)) == Some(OpCode::Val),
{
        reveal_strlit("val");
        reveal_strlit("var");
        assert("val"@[2] == 'l' && "var"@[2] == 'r');
}

proof fn lemma_name_of_missing()
    ensures
        opcode_of_name(opcode_name(OpCode::Missing)) == Some(OpCode::Missing),
{
        reveal_strlit("missing");
        reveal_strlit("var");
        assert("missing"@.len() == 7 && "var"@.len() == 3);
        reveal_strlit("val");
        assert("missing"@.len() == 7 && "val"@.len() == 3);
}

proof fn lemma_name_of_missingsome()
    ensures
        opcode_of_name(opcode_name(OpCode::MissingSome)) == Some(OpCode::MissingSome),
{
        reveal_strlit("missing_some");
        reveal_strlit("var");
        assert("missing_some"@.len() == 12 && "var"@.len() == 3);
        reveal_strlit("val");
        assert("missing_some"@.len() == 12 && "val"@.len() == 3);
        reveal_strlit("missing");
        assert("missing_some"@.len() == 12 && "missing"@.len() == 7);
}

proof fn lemma_name_of_exists()
    ensures
        opcode_of_name(opcode_name(OpCode::Exists)) == Some(OpCode::Exists),
{
        reveal_strlit("exists");
        reveal_strlit("var");
        assert("exists"@.len() == 6 && "var"@.len() == 3);
        reveal_strlit("val");
        assert("exists"@.len() == 6 && "val"@.len() == 3);
        reveal_strlit("missing");
        assert("exists"@.len() == 6 && "missing"@.len() == 7);
        reveal_strlit("missing_some");
        assert("exists"@.len() == 6 && "missing_some"@.len() == 12);
}

proof fn lemma_name_of_maparray()
    ensures
        opcode_of_name(opcode_name(OpCode::MapArray)) == Some(OpCode::MapArray),
{
        reveal_strlit("map");
        reveal_strlit("var");
        assert("map"@[0] == 'm' && "var"@[0] == 'v');
        reveal_strlit("val");
        assert("map"@[0] == 'm' && "val"@[0] == 'v');
        reveal_strlit("missing");
        assert("map"@.len() == 3 && "missing"@.len() == 7);
        reveal_strlit("missing_some");
        assert("map"@.len() == 3 && "missing_some"@.len() == 12);
        reveal_strlit("exists");
        assert("map"@.len() == 3 && "exists"@.len() == 6);
}

proof fn lemma_name_of_filter()
    ensures
        opcode_of_name(opcode_name(OpCode::Filter)) == Some(OpCode::Filter),
{
        reveal_strlit("filter");
        reveal_strlit("var");
        assert("filter"@.len() == 6 && "var"@.len() == 3);
        reveal_strlit("val");
        assert("filter"@.len() == 6 && "val"@.len() == 3);
        reveal_strlit("missing");
        assert("filter"@.len() == 6 && "missing"@.len() == 7);
        reveal_strlit("missing_some");
        assert("filter"@.len() == 6 && "missing_some"@.len() == 12);
        reveal_strlit("exists");
        assert("filter"@[0] == 'f' && "exists"@[0] == 'e');
        reveal_strlit("map");
        assert("filter"@.len() == 6 && "map"@.len() == 3);
}

proof fn lemma_name_of_reduce()
    ensures
        opcode_of_name(opcode_name(OpCode::Reduce)) == Some(OpCode::Reduce),
{
        reveal_strlit("reduce");
        reveal_strlit("var");
        assert("reduce"@.len() == 6 && "var"@.len() == 3);
        reveal_strlit("val");
        assert("reduce"@.len() == 6 && "val"@.len() == 3);
        reveal_strlit("missing");
        assert("reduce"@.len() == 6 && "missing"@.len() == 7);
        reveal_strlit("missing_some");
        assert("reduce"@.len() == 6 && "missing_some"@.len() == 12);
        reveal_strlit("exists");
        assert("reduce"@[0] == 'r' && "exists"@[0] == 'e');
        reveal_strlit("map");
        assert("reduce"@.len() == 6 && "map"@.len() == 3);
        reveal_strlit("filter");
        assert("reduce"@[0] == 'r' && "filter"@[0] == 'f');
}

proof fn lemma_name_of_all()
    ensures
        opcode_of_name(opcode_name(OpCode::All)) == Some(OpCode::All),
{
        reveal_strlit("all");
        reveal_strlit("var");
        assert("all"@[0] == 'a' && "var"@[0] == 'v');
        reveal_strlit("val");
        assert("all"@[0] == 'a' && "val"@[0] == 'v');
        reveal_strlit("missing");
        assert("all"@.len() == 3 && "missing"@.len() == 7);
        reveal_strlit("missing_some");
        assert("all"@.len() == 3 && "missing_some"@.len() == 12);
        reveal_strlit("exists");
        assert("all"@.len() == 3 && "exists"@.len() == 6);
        reveal_strlit("map");
        assert("all"@[0] == 'a' && "map"@[0] == 'm');
        reveal_strlit("filter");
        assert("all"@.len() == 3 && "filter"@.len() == 6);
        reveal_strlit("reduce");
        assert("all"@.len() == 3 && "reduce"@.len() == 6);
}

proof fn lemma_name_of_someof()
    ensures
        opcode_of_name(opcode_name(OpCode::SomeOf)) == Some(OpCode::SomeOf),
{
        reveal_strlit("some");
        reveal_strlit("var");
        assert("some"@.len() == 4 && "var"@.len() == 3);
        reveal_strlit("val");
        assert("some"@.len() == 4 && "val"@.len() == 3);
        reveal_strlit("missing");
        assert("some"@.len() == 4 && "missing"@.len() == 7);
        reveal_strlit("missing_some");
        assert("some"@.len() == 4 && "missing_some"@.len() == 12);
        reveal_strlit("exists");
        assert("some"@.len() == 4 && "exists"@.len() == 6);
        reveal_strlit("map");
        assert("some"@.len() == 4 && "map"@.len() == 3);
        reveal_strlit("filter");
        assert("some"@.len() == 4 && "filter"@.len() == 6);
        reveal_strlit("reduce");
        assert("some"@.len() == 4 && "reduce"@.len() == 6);
        reveal_strlit("all");
        assert("some"@.len() == 4 && "all"@.len() == 3);
}

proof fn lemma_name_of_noneof()
    ensures
        opcode_of_name(opcode_name(OpCode::NoneOf)) == Some(OpCode::NoneOf),
{
        reveal_strlit("none");
        reveal_strlit("var");
        assert("none"@.len() == 4 && "var"@.len() == 3);
        reveal_strlit("val");
        assert("none"@.len() == 4 && "val"@.len() == 3);
        reveal_strlit("missing");
        assert("none"@.len() == 4 && "missing"@.len() == 7);
        reveal_strlit("missing_some");
        assert("none"@.len() == 4 && "missing_some"@.len() == 12);
        reveal_strlit("exists");
        assert("none"@.len() == 4 && "exists"@.len() == 6);
        reveal_strlit("map");
        assert("none"@.len() == 4 && "map"@.len() == 3);
        reveal_strlit("filter");
        assert("none"@.len() == 4 && "filter"@.len() == 6);
        reveal_strlit("reduce");
        assert("none"@.len() == 4 && "reduce"@.len() == 6);
        reveal_strlit("all");
        assert("none"@.len() == 4 && "all"@.len() == 3);
        reveal_strlit("some");
        assert("none"@[0] == 'n' && "some"@[0] == 's');
}

proof fn lemma_name_of_try()
    ensures
        opcode_of_name(opcode_name(OpCode::Try)) == Some(OpCode::Try),
{
        reveal_strlit("try");
        reveal_strlit("var");
        assert("try"@[0] == 't' && "var"@[0] == 'v');
        reveal_strlit("val");
        assert("try"@[0] == 't' && "val"@[0] == 'v');
        reveal_strlit("missing");
        assert("try"@.len() == 3 && "missing"@.len() == 7);
        reveal_strlit("missing_some");
        assert("try"@.len() == 3 && "missing_some"@.len() == 12);
        reveal_strlit("exists");
        assert("try"@.len() == 3 && "exists"@.len() == 6);
        reveal_strlit("map");
        assert("try"@[0] == 't' && "map"@[0] == 'm');
        reveal_strlit("filter");
        assert("try"@.len() == 3 && "filter"@.len() == 6);
        reveal_strlit("reduce");
        assert("try"@.len() == 3 && "reduce"@.len() == 6);
        reveal_strlit("all");
        assert("try"@[0] == 't' && "all"@[0] == 'a');
        reveal_strlit("some");
        assert("try"@.len() == 3 && "some"@.len() == 4);
        reveal_strlit("none");
        assert("try"@.len() == 3 && "none"@.len() == 4);
}

proof fn lemma_name_of_throw()
    ensures
        opcode_of_name(opcode_name(OpCode::Throw)) == Some(OpCode::Throw),
{
        reveal_strlit("throw");
        reveal_strlit("var");
        assert("throw"@.len() == 5 && "var"@.len() == 3);
        reveal_strlit("val");
        assert("throw"@.len() == 5 && "val"@.len() == 3);
        reveal_strlit("missing");
        assert("throw"@.len() == 5 && "missing"@.len() == 7);
        reveal_strlit("missing_some");
        assert("throw"@.len() == 5 && "missing_some"@.len() == 12);
        reveal_strlit("exists");
        assert("throw"@.len() == 5 && "exists"@.len() == 6);
        reveal_strlit("map");
        assert("throw"@.len() == 5 && "map"@.len() == 3);
        reveal_strlit("filter");
        assert("throw"@.len() == 5 && "filter"@.len() == 6);
        reveal_strlit("reduce");
        assert("throw"@.len() == 5 && "reduce"@.len() == 6);
        reveal_strlit("all");
        assert("throw"@.len() == 5 && "all"@.len() == 3);
        reveal_strlit("some");
        assert("throw"@.len() == 5 && "some"@.len() == 4);
        reveal_strlit("none");
        assert("throw"@.len() == 5 && "none"@.len() == 4);
        reveal_strlit("try");
        assert("throw"@.len() == 5 && "try"@.len() == 3);
}

proof fn lemma_name_of_now()
    ensures
        opcode_of_name(opcode_name(OpCode::Now)) == Some(OpCode::Now),
{
        reveal_strlit("now");
        reveal_strlit("var");
        assert("now"@[0] == 'n' && "var"@[0] == 'v');
        reveal_strlit("val");
        assert("now"@[0] == 'n' && "val"@[0] == 'v');
        reveal_strlit("missing");
        assert("now"@.len() == 3 && "missing"@.len() == 7);
        reveal_strlit("missing_some");
        assert("now"@.len() == 3 && "missing_some"@.len() == 12);
        reveal_strlit("exists");
        assert("now"@.len() == 3 && "exists"@.len() == 6);
        reveal_strlit("map");
        assert("now"@[0] == 'n' && "map"@[0] == 'm');
        reveal_strlit("filter");
        assert("now"@.len() == 3 && "filter"@.len() == 6);
        reveal_strlit("reduce");
        assert("now"@.len() == 3 && "reduce"@.len() == 6);
        reveal_strlit("all");
        assert("now"@[0] == 'n' && "all"@[0] == 'a');
        reveal_strlit("some");
        assert("now"@.len() == 3 && "some"@.len() == 4);
        reveal_strlit("none");
        assert("now"@.len() == 3 && "none"@.len() == 4);
        reveal_strlit("try");
        assert("now"@[0] == 'n' && "try"@[0] == 't');
        reveal_strlit("throw");
        assert("now"@.len() == 3 && "throw"@.len() == 5);
}

proof fn lemma_name_of_preserve()
    ensures
        opcode_of_name(opcode_name(OpCode::Preserve)) == Some(OpCode::Preserve),
{
        reveal_strlit("preserve");
        reveal_strlit("var");
        assert("preserve"@.len() == 8 && "var"@.len() == 3);
        reveal_strlit("val");
        assert("preserve"@.len() == 8 && "val"@.len() == 3);
        reveal_strlit("missing");
        assert("preserve"@.len() == 8 && "missing"@.len() == 7);
        reveal_strlit("missing_some");
        assert("preserve"@.len() == 8 && "missing_some"@.len() == 12);
        reveal_strlit("exists");
        assert("preserve"@.len() == 8 && "exists"@.len() == 6);
        reveal_strlit("map");
        assert("preserve"@.len() == 8 && "map"@.len() == 3);
        reveal_strlit("filter");
        assert("preserve"@.len() == 8 && "filter"@.len() == 6);
        reveal_strlit("reduce");
        assert("preserve"@.len() == 8 && "reduce"@.len() == 6);
        reveal_strlit("all");
        assert("preserve"@.len() == 8 && "all"@.len() == 3);
        reveal_strlit("some");
        assert("preserve"@.len() == 8 && "some"@.len() == 4);
        reveal_strlit("none");
        assert("preserve"@.len() == 8 && "none"@.len() == 4);
        reveal_strlit("try");
        assert("preserve"@.len() == 8 && "try"@.len() == 3);
        reveal_strlit("throw");
        assert("preserve"@.len() == 8 && "throw"@.len() == 5);
        reveal_strlit("now");
        assert("preserve"@.len() == 8 && "now"@.len() == 3);
}

proof fn lemma_name_of_merge()
    ensures
        opcode_of_name(opcode_name(OpCode::Merge)) == Some(OpCode::Merge),
{
        reveal_strlit("merge");
        reveal_strlit("var");
        assert("merge"@.len() == 5 && "var"@.len() == 3);
        reveal_strlit("val");
        assert("merge"@.len() == 5 && "val"@.len() == 3);
        reveal_strlit("missing");
        assert("merge"@.len() == 5 && "missing"@.len() == 7);
        reveal_strlit("missing_some");
        assert("merge"@.len() == 5 && "missing_some"@.len() == 12);
        reveal_strlit("exists");
        assert("merge"@.len() == 5 && "exists"@.len() == 6);
        reveal_strlit("map");
        assert("merge"@.len() == 5 && "map"@.len() == 3);
        reveal_strlit("filter");
        assert("merge"@.len() == 5 && "filter"@.len() == 6);
        reveal_strlit("reduce");
        assert("merge"@.len() == 5 && "reduce"@.len() == 6);
        reveal_strlit("all");
        assert("merge"@.len() == 5 && "all"@.len() == 3);
        reveal_strlit("some");
        assert("merge"@.len() == 5 && "some"@.len() == 4);
        reveal_strlit("none");
        assert("merge"@.len() == 5 && "none"@.len() == 4);
        reveal_strlit("try");
        assert("merge"@.len() == 5 && "try"@.len() == 3);
        reveal_strlit("throw");
        assert("merge"@[0] == 'm' && "throw"@[0] == 't');
        reveal_strlit("now");
        assert("merge"@.len() == 5 && "now"@.len() == 3);
        reveal_strlit("preserve");
        assert("merge"@.len() == 5 && "preserve"@.len() == 8);
}

proof fn lemma_name_of_min()
    ensures
        opcode_of_name(opcode_name(OpCode::Min)) == Some(OpCode::Min),
{
        reveal_strlit("min");
        reveal_strlit("var");
        assert("min"@[0] == 'm' && "var"@[0] == 'v');
        reveal_strlit("val");
        assert("min"@[0] == 'm' && "val"@[0] == 'v');
        reveal_strlit("missing");
        assert("min"@.len() == 3 && "missing"@.len() == 7);
        reveal_strlit("missing_some");
        assert("min"@.len() == 3 && "missing_some"@.len() == 12);
        reveal_strlit("exists");
        assert("min"@.len() == 3 && "exists"@.len() == 6);
        reveal_strlit("map");
        assert("min"@[1] == 'i' && "map"@[1] == 'a');
        reveal_strlit("filter");
        assert("min"@.len() == 3 && "filter"@.len() == 6);
        reveal_strlit("reduce");
        assert("min"@.len() == 3 && "reduce"@.len() == 6);
        reveal_strlit("all");
        assert("min"@[0] == 'm' && "all"@[0] == 'a');
        reveal_strlit("some");
        assert("min"@.len() == 3 && "some"@.len() == 4);
        reveal_strlit("none");
        assert("min"@.len() == 3 && "none"@.len() == 4);
        reveal_strlit("try");
        assert("min"@[0] == 'm' && "try"@[0] == 't');
        reveal_strlit("throw");
        assert("min"@.len() == 3 && "throw"@.len() == 5);
        reveal_strlit("now");
        assert("min"@[0] == 'm' && "now"@[0] == 'n');
        reveal_strlit("preserve");
        assert("min"@.len() == 3 && "preserve"@.len() == 8);
        reveal_strlit("merge");
        assert("min"@.len() == 3 && "merge"@.len() == 5);
}

proof fn lemma_name_of_max()
    ensures
        opcode_of_name(opcode_name(OpCode::Max)) == Some(OpCode::Max),
{
        reveal_strlit("max");
        reveal_strlit("var");
        assert("max"@[0] == 'm' && "var"@[0] == 'v');
        reveal_strlit("val");
        assert("max"@[0] == 'm' && "val"@[0] == 'v');
        reveal_strlit("missing");
        assert("max"@.len() == 3 && "missing"@.len() == 7);
        reveal_strlit("missing_some");
        assert("max"@.len() == 3 && "missing_some"@.len() == 12);
        reveal_strlit("exists");
        assert("max"@.len() == 3 && "exists"@.len() == 6);
        reveal_strlit("map");
        assert("max"@[2] == 'x' && "map"@[2] == 'p');
        reveal_strlit("filter");
        assert("max"@.len() == 3 && "filter"@.len() == 6);
        reveal_strlit("reduce");
        assert("max"@.len() == 3 && "reduce"@.len() == 6);
        reveal_strlit("all");
        assert("max"@[0] == 'm' && "all"@[0] == 'a');
        reveal_strlit("some");
        assert("max"@.len() == 3 && "some"@.len() == 4);
        reveal_strlit("none");
        assert("max"@.len() == 3 && "none"@.len() == 4);
        reveal_strlit("try");
        assert("max"@[0] == 'm' && "try"@[0] == 't');
        reveal_strlit("throw");
        assert("max"@.len() == 3 && "throw"@.len() == 5);
        reveal_strlit("now");
        assert("max"@[0] == 'm' && "now"@[0] == 'n');
        reveal_strlit("preserve");
        assert("max"@.len() == 3 && "preserve"@.len() == 8);
        reveal_strlit("merge");
        assert("max"@.len() == 3 && "merge"@.len() == 5);
        reveal_strlit("min");
        assert("max"@[1] == 'a' && "min"@[1] == 'i');
}

proof fn lemma_name_of_type()
    ensures
        opcode_of_name(opcode_name(OpCode::Type)) == Some(OpCode::Type),
{
        reveal_strlit("type");
        reveal_strlit("var");
        assert("type"@.len() == 4 && "var"@.len() == 3);
        reveal_strlit("val");
        assert("type"@.len() == 4 && "val"@.len() == 3);
        reveal_strlit("missing");
        assert("type"@.len() == 4 && "missing"@.len() == 7);
        reveal_strlit("missing_some");
        assert("type"@.len() == 4 && "missing_some"@.len() == 12);
        reveal_strlit("exists");
        assert("type"@.len() == 4 && "exists"@.len() == 6);
        reveal_strlit("map");
        assert("type"@.len() == 4 && "map"@.len() == 3);
        reveal_strlit("filter");
        assert("type"@.len() == 4 && "filter"@.len() == 6);
        reveal_strlit("reduce");
        assert("type"@.len() == 4 && "reduce"@.len() == 6);
        reveal_strlit("all");
        assert("type"@.len() == 4 && "all"@.len() == 3);
        reveal_strlit("some");
        assert("type"@[0] == 't' && "some"@[0] == 's');
        reveal_strlit("none");
        assert("type"@[0] == 't' && "none"@[0] == 'n');
        reveal_strlit("try");
        assert("type"@.len() == 4 && "try"@.len() == 3);
        reveal_strlit("throw");
        assert("type"@.len() == 4 && "throw"@.len() == 5);
        reveal_strlit("now");
        assert("type"@.len() == 4 && "now"@.len() == 3);
        reveal_strlit("preserve");
        assert("type"@.len() == 4 && "preserve"@.len() == 8);
        reveal_strlit("merge");
        assert("type"@.len() == 4 && "merge"@.len() == 5);
        reveal_strlit("min");
        assert("type"@.len() == 4 && "min"@.len() == 3);
        reveal_strlit("max");
        assert("type"@.len() == 4 && "max"@.len() == 3);
}

proof fn lemma_name_of_startswith()
    ensures
        opcode_of_name(opcode_name(OpCode::StartsWith)) == Some(OpCode::StartsWith),
{
        reveal_strlit("starts_with");
        reveal_strlit("var");
        assert("starts_with"@.len() == 11 && "var"@.len() == 3);
        reveal_strlit("val");
        assert("starts_with"@.len() == 11 && "val"@.len() == 3);
        reveal_strlit("missing");
        assert("starts_with"@.len() == 11 && "missing"@.len() == 7);
        reveal_strlit("missing_some");
        assert("starts_with"@.len() == 11 && "missing_some"@.len() == 12);
        reveal_strlit("exists");
        assert("starts_with"@.len() == 11 && "exists"@.len() == 6);
        reveal_strlit("map");
        assert("starts_with"@.len() == 11 && "map"@.len() == 3);
        reveal_strlit("filter");
        assert("starts_with"@.len() == 11 && "filter"@.len() == 6);
        reveal_strlit("reduce");
        assert("starts_with"@.len() == 11 && "reduce"@.len() == 6);
        reveal_strlit("all");
        assert("starts_with"@.len() == 11 && "all"@.len() == 3);
        reveal_strlit("some");
        assert("starts_with"@.len() == 11 && "some"@.len() == 4);
        reveal_strlit("none");
        assert("starts_with"@.len() == 11 && "none"@.len() == 4);
        reveal_strlit("try");
        assert("starts_with"@.len() == 11 && "try"@.len() == 3);
        reveal_strlit("throw");
        assert("starts_with"@.len() == 11 && "throw"@.len() == 5);
        reveal_strlit("now");
        assert("starts_with"@.len() == 11 && "now"@.len() == 3);
        reveal_strlit("preserve");
        assert("starts_with"@.len() == 11 && "preserve"@.len() == 8);
        reveal_strlit("merge");
        assert("starts_with"@.len() == 11 && "merge"@.len() == 5);
        reveal_strlit("min");
        assert("starts_with"@.len() == 11 && "min"@.len() == 3);
        reveal_strlit("max");
        assert("starts_with"@.len() == 11 && "max"@.len() == 3);
        reveal_strlit("type");
        assert("starts_with"@.len() == 11 && "type"@.len() == 4);
}

proof fn lemma_name_of_endswith()
    ensures
        opcode_of_name(opcode_name(OpCode::EndsWith)) == Some(OpCode::EndsWith),
{
        reveal_strlit("ends_with");
        reveal_strlit("var");
        assert("ends_with"@.len() == 9 && "var"@.len() == 3);
        reveal_strlit("val");
        assert("ends_with"@.len() == 9 && "val"@.len() == 3);
        reveal_strlit("missing");
        assert("ends_with"@.len() == 9 && "missing"@.len() == 7);
        reveal_strlit("missing_some");
        assert("ends_with"@.len() == 9 && "missing_some"@.len() == 12);
        reveal_strlit("exists");
        assert("ends_with"@.len() == 9 && "exists"@.len() == 6);
        reveal_strlit("map");
        assert("ends_with"@.len() == 9 && "map"@.len() == 3);
        reveal_strlit("filter");
        assert("ends_with"@.len() == 9 && "filter"@.len() == 6);
        reveal_strlit("reduce");
        assert("ends_with"@.len() == 9 && "reduce"@.len() == 6);
        reveal_strlit("all");
        assert("ends_with"@.len() == 9 && "all"@.len() == 3);
        reveal_strlit("some");
        assert("ends_with"@.len() == 9 && "some"@.len() == 4);
        reveal_strlit("none");
        assert("ends_with"@.len() == 9 && "none"@.len() == 4);
        reveal_strlit("try");
        assert("ends_with"@.len() == 9 && "try"@.len() == 3);
        reveal_strlit("throw");
        assert("ends_with"@.len() == 9 && "throw"@.len() == 5);
        reveal_strlit("now");
        assert("ends_with"@.len() == 9 && "now"@.len() == 3);
        reveal_strlit("preserve");
        assert("ends_with"@.len() == 9 && "preserve"@.len() == 8);
        reveal_strlit("merge");
        assert("ends_with"@.len() == 9 && "merge"@.len() == 5);
        reveal_strlit("min");
        assert("ends_with"@.len() == 9 && "min"@.len() == 3);
        reveal_strlit("max");
        assert("ends_with"@.len() == 9 && "max"@.len() == 3);
        reveal_strlit("type");
        assert("ends_with"@.len() == 9 && "type"@.len() == 4);
        reveal_strlit("starts_with");
        assert("ends_with"@.len() == 9 && "starts_with"@.len() == 11);
}

proof fn lemma_name_of_upper()
    ensures
        opcode_of_name(opcode_name(OpCode::Upper)) == Some(OpCode::Upper),
{
        reveal_strlit("upper");
        reveal_strlit("var");
        assert("upper"@.len() == 5 && "var"@.len() == 3);
        reveal_strlit("val");
        assert("upper"@.len() == 5 && "val"@.len() == 3);
        reveal_strlit("missing");
        assert("upper"@.len() == 5 && "missing"@.len() == 7);
        reveal_strlit("missing_some");
        assert("upper"@.len() == 5 && "missing_some"@.len() == 12);
        reveal_strlit("exists");
        assert("upper"@.len() == 5 && "exists"@.len() == 6);
        reveal_strlit("map");
        assert("upper"@.len() == 5 && "map"@.len() == 3);
        reveal_strlit("filter");
        assert("upper"@.len() == 5 && "filter"@.len() == 6);
        reveal_strlit("reduce");
        assert("upper"@.len() == 5 && "reduce"@.len() == 6);
        reveal_strlit("all");
        assert("upper"@.len() == 5 && "all"@.len() == 3);
        reveal_strlit("some");
        assert("upper"@.len() == 5 && "some"@.len() == 4);
        reveal_strlit("none");
        assert("upper"@.len() == 5 && "none"@.len() == 4);
        reveal_strlit("try");
        assert("upper"@.len() == 5 && "try"@.len() == 3);
        reveal_strlit("throw");
        assert("upper"@[0] == 'u' && "throw"@[0] == 't');
        reveal_strlit("now");
        assert("upper"@.len() == 5 && "now"@.len() == 3);
        reveal_strlit("preserve");
        assert("upper"@.len() == 5 && "preserve"@.len() == 8);
        reveal_strlit("merge");
        assert("upper"@[0] == 'u' && "merge"@[0] == 'm');
        reveal_strlit("min");
        assert("upper"@.len() == 5 && "min"@.len() == 3);
        reveal_strlit("max");
        assert("upper"@.len() == 5 && "max"@.len() == 3);
        reveal_strlit("type");
        assert("upper"@.len() == 5 && "type"@.len() == 4);
        reveal_strlit("starts_with");
        assert("upper"@.len() == 5 && "starts_with"@.len() == 11);
        reveal_strlit("ends_with");
        assert("upper"@.len() == 5 && "ends_with"@.len() == 9);
}

proof fn lemma_name_of_lower()
    ensures
        opcode_of_name(opcode_name(OpCode::Lower)) == Some(OpCode::Lower),
{
        reveal_strlit("lower");
        reveal_strlit("var");
        assert("lower"@.len() == 5 && "var"@.len() == 3);
        reveal_strlit("val");
        assert("lower"@.len() == 5 && "val"@.len() == 3);
        reveal_strlit("missing");
        assert("lower"@.len() == 5 && "missing"@.len() == 7);
        reveal_strlit("missing_some");
        assert("lower"@.len() == 5 && "missing_some"@.len() == 12);
        reveal_strlit("exists");
        assert("lower"@.len() == 5 && "exists"@.len() == 6);
        reveal_strlit("map");
        assert("lower"@.len() == 5 && "map"@.len() == 3);
        reveal_strlit("filter");
        assert("lower"@.len() == 5 && "filter"@.len() == 6);
        reveal_strlit("reduce");
        assert("lower"@.len() == 5 && "reduce"@.len() == 6);
        reveal_strlit("all");
        assert("lower"@.len() == 5 && "all"@.len() == 3);
        reveal_strlit("some");
        assert("lower"@.len() == 5 && "some"@.len() == 4);
        reveal_strlit("none");
        assert("lower"@.len() == 5 && "none"@.len() == 4);
        reveal_strlit("try");
        assert("lower"@.len() == 5 && "try"@.len() == 3);
        reveal_strlit("throw");
        assert("lower"@[0] == 'l' && "throw"@[0] == 't');
        reveal_strlit("now");
        assert("lower"@.len() == 5 && "now"@.len() == 3);
        reveal_strlit("preserve");
        assert("lower"@.len() == 5 && "preserve"@.len() == 8);
        reveal_strlit("merge");
        assert("lower"@[0] == 'l' && "merge"@[0] == 'm');
        reveal_strlit("min");
        assert("lower"@.len() == 5 && "min"@.len() == 3);
        reveal_strlit("max");
        assert("lower"@.len() == 5 && "max"@.len() == 3);
        reveal_strlit("type");
        assert("lower"@.len() == 5 && "type"@.len() == 4);
        reveal_strlit("starts_with");
        assert("lower"@.len() == 5 && "starts_with"@.len() == 11);
        reveal_strlit("ends_with");
        assert("lower"@.len() == 5 && "ends_with"@.len() == 9);
        reveal_strlit("upper");
        assert("lower"@[0] == 'l' && "upper"@[0] == 'u');
}

proof fn lemma_name_of_trim()
    ensures
        opcode_of_name(opcode_name(OpCode::Trim)) == Some(OpCode::Trim),
{
        reveal_strlit("trim");
        reveal_strlit("var");
        assert("trim"@.len() == 4 && "var"@.len() == 3);
        reveal_strlit("val");
        assert("trim"@.len() == 4 && "val"@.len() == 3);
        reveal_strlit("missing");
        assert("trim"@.len() == 4 && "missing"@.len() == 7);
        reveal_strlit("missing_some");
        assert("trim"@.len() == 4 && "missing_some"@.len() == 12);
        reveal_strlit("exists");
        assert("trim"@.len() == 4 && "exists"@.len() == 6);
        reveal_strlit("map");
        assert("trim"@.len() == 4 && "map"@.len() == 3);
        reveal_strlit("filter");
        assert("trim"@.len() == 4 && "filter"@.len() == 6);
        reveal_strlit("reduce");
        assert("trim"@.len() == 4 && "reduce"@.len() == 6);
        reveal_strlit("all");
        assert("trim"@.len() == 4 && "all"@.len() == 3);
        reveal_strlit("some");
        assert("trim"@[0] == 't' && "some"@[0] == 's');
        reveal_strlit("none");
        assert("trim"@[0] == 't' && "none"@[0] == 'n');
        reveal_strlit("try");
        assert("trim"@.len() == 4 && "try"@.len() == 3);
        reveal_strlit("throw");
        assert("trim"@.len() == 4 && "throw"@.len() == 5);
        reveal_strlit("now");
        assert("trim"@.len() == 4 && "now"@.len() == 3);
        reveal_strlit("preserve");
        assert("trim"@.len() == 4 && "preserve"@.len() == 8);
        reveal_strlit("merge");
        assert("trim"@.len() == 4 && "merge"@.len() == 5);
        reveal_strlit("min");
        assert("trim"@.len() == 4 && "min"@.len() == 3);
        reveal_strlit("max");
        assert("trim"@.len() == 4 && "max"@.len() == 3);
        reveal_strlit("type");
        assert("trim"@[1] == 'r' && "type"@[1] == 'y');
        reveal_strlit("starts_with");
        assert("trim"@.len() == 4 && "starts_with"@.len() == 11);
        reveal_strlit("ends_with");
        assert("trim"@.len() == 4 && "ends_with"@.len() == 9);
        reveal_strlit("upper");
        assert("trim"@.len() == 4 && "upper"@.len() == 5);
        reveal_strlit("lower");
        assert("trim"@.len() == 4 && "lower"@.len() == 5);
}

proof fn lemma_name_of_split()
    ensures
        opcode_of_name(opcode_name(OpCode::Split)) == Some(OpCode::Split),
{
        reveal_strlit("split");
        reveal_strlit("var");
        assert("split"@.len() == 5 && "var"@.len() == 3);
        reveal_strlit("val");
        assert("split"@.len() == 5 && "val"@.len() == 3);
        reveal_strlit("missing");
        assert("split"@.len() == 5 && "missing"@.len() == 7);
        reveal_strlit("missing_some");
        assert("split"@.len() == 5 && "missing_some"@.len() == 12);
        reveal_strlit("exists");
        assert("split"@.len() == 5 && "exists"@.len() == 6);
        reveal_strlit("map");
        assert("split"@.len() == 5 && "map"@.len() == 3);
        reveal_strlit("filter");
        assert("split"@.len() == 5 && "filter"@.len() == 6);
        reveal_strlit("reduce");
        assert("split"@.len() == 5 && "reduce"@.len() == 6);
        reveal_strlit("all");
        assert("split"@.len() == 5 && "all"@.len() == 3);
        reveal_strlit("some");
        assert("split"@.len() == 5 && "some"@.len() == 4);
        reveal_strlit("none");
        assert("split"@.len() == 5 && "none"@.len() == 4);
        reveal_strlit("try");
        assert("split"@.len() == 5 && "try"@.len() == 3);
        reveal_strlit("throw");
        assert("split"@[0] == 's' && "throw"@[0] == 't');
        reveal_strlit("now");
        assert("split"@.len() == 5 && "now"@.len() == 3);
        reveal_strlit("preserve");
        assert("split"@.len() == 5 && "preserve"@.len() == 8);
        reveal_strlit("merge");
        assert("split"@[0] == 's' && "merge"@[0] == 'm');
        reveal_strlit("min");
        assert("split"@.len() == 5 && "min"@.len() == 3);
        reveal_strlit("max");
        assert("split"@.len() == 5 && "max"@.len() == 3);
        reveal_strlit("type");
        assert("split"@.len() == 5 && "type"@.len() == 4);
        reveal_strlit("starts_with");
        assert("split"@.len() == 5 && "starts_with"@.len() == 11);
        reveal_strlit("ends_with");
        assert("split"@.len() == 5 && "ends_with"@.len() == 9);
        reveal_strlit("upper");
        assert("split"@[0] == 's' && "upper"@[0] == 'u');
        reveal_strlit("lower");
        assert("split"@[0] == 's' && "lower"@[0] == 'l');
        reveal_strlit("trim");
        assert("split"@.len() == 5 && "trim"@.len() == 4);
}

proof fn lemma_name_of_datetime()
    ensures
        opcode_of_name(opcode_name(OpCode::Datetime)) == Some(OpCode::Datetime),
{
        reveal_strlit("datetime");
        reveal_strlit("var");
        assert("datetime"@.len() == 8 && "var"@.len() == 3);
        reveal_strlit("val");
        assert("datetime"@.len() == 8 && "val"@.len() == 3);
        reveal_strlit("missing");
        assert("datetime"@.len() == 8 && "missing"@.len() == 7);
        reveal_strlit("missing_some");
        assert("datetime"@.len() == 8 && "missing_some"@.len() == 12);
        reveal_strlit("exists");
        assert("datetime"@.len() == 8 && "exists"@.len() == 6);
        reveal_strlit("map");
        assert("datetime"@.len() == 8 && "map"@.len() == 3);
        reveal_strlit("filter");
        assert("datetime"@.len() == 8 && "filter"@.len() == 6);
        reveal_strlit("reduce");
        assert("datetime"@.len() == 8 && "reduce"@.len() == 6);
        reveal_strlit("all");
        assert("datetime"@.len() == 8 && "all"@.len() == 3);
        reveal_strlit("some");
        assert("datetime"@.len() == 8 && "some"@.len() == 4);
        reveal_strlit("none");
        assert("datetime"@.len() == 8 && "none"@.len() == 4);
        reveal_strlit("try");
        assert("datetime"@.len() == 8 && "try"@.len() == 3);
        reveal_strlit("throw");
        assert("datetime"@.len() == 8 && "throw"@.len() == 5);
        reveal_strlit("now");
        assert("datetime"@.len() == 8 && "now"@.len() == 3);
        reveal_strlit("preserve");
        assert("datetime"@[0] == 'd' && "preserve"@[0] == 'p');
        reveal_strlit("merge");
        assert("datetime"@.len() == 8 && "merge"@.len() == 5);
        reveal_strlit("min");
        assert("datetime"@.len() == 8 && "min"@.len() == 3);
        reveal_strlit("max");
        assert("datetime"@.len() == 8 && "max"@.len() == 3);
        reveal_strlit("type");
        assert("datetime"@.len() == 8 && "type"@.len() == 4);
        reveal_strlit("starts_with");
        assert("datetime"@.len() == 8 && "starts_with"@.len() == 11);
        reveal_strlit("ends_with");
        assert("datetime"@.len() == 8 && "ends_with"@.len() == 9);
        reveal_strlit("upper");
        assert("datetime"@.len() == 8 && "upper"@.len() == 5);
        reveal_strlit("lower");
        assert("datetime"@.len() == 8 && "lower"@.len() == 5);
        reveal_strlit("trim");
        assert("datetime"@.len() == 8 && "trim"@.len() == 4);
        reveal_strlit("split");
        assert("datetime"@.len() == 8 && "split"@.len() == 5);
}

proof fn lemma_name_of_timestamp()
    ensures
        opcode_of_name(opcode_name(OpCode::Timestamp)) == Some(OpCode::Timestamp),
{
        reveal_strlit("timestamp");
        reveal_strlit("var");
        assert("timestamp"@.len() == 9 && "var"@.len() == 3);
        reveal_strlit("val");
        assert("timestamp"@.len() == 9 && "val"@.len() == 3);
        reveal_strlit("missing");
        assert("timestamp"@.len() == 9 && "missing"@.len() == 7);
        reveal_strlit("missing_some");
        assert("timestamp"@.len() == 9 && "missing_some"@.len() == 12);
        reveal_strlit("exists");
        assert("timestamp"@.len() == 9 && "exists"@.len() == 6);
        reveal_strlit("map");
        assert("timestamp"@.len() == 9 && "map"@.len() == 3);
        reveal_strlit("filter");
        assert("timestamp"@.len() == 9 && "filter"@.len() == 6);
        reveal_strlit("reduce");
        assert("timestamp"@.len() == 9 && "reduce"@.len() == 6);
        reveal_strlit("all");
        assert("timestamp"@.len() == 9 && "all"@.len() == 3);
        reveal_strlit("some");
        assert("timestamp"@.len() == 9 && "some"@.len() == 4);
        reveal_strlit("none");
        assert("timestamp"@.len() == 9 && "none"@.len() == 4);
        reveal_strlit("try");
        assert("timestamp"@.len() == 9 && "try"@.len() == 3);
        reveal_strlit("throw");
        assert("timestamp"@.len() == 9 && "throw"@.len() == 5);
        reveal_strlit("now");
        assert("timestamp"@.len() == 9 && "now"@.len() == 3);
        reveal_strlit("preserve");
        assert("timestamp"@.len() == 9 && "preserve"@.len() == 8);
        reveal_strlit("merge");
        assert("timestamp"@.len() == 9 && "merge"@.len() == 5);
        reveal_strlit("min");
        assert("timestamp"@.len() == 9 && "min"@.len() == 3);
        reveal_strlit("max");
        assert("timestamp"@.len() == 9 && "max"@.len() == 3);
        reveal_strlit("type");
        assert("timestamp"@.len() == 9 && "type"@.len() == 4);
        reveal_strlit("starts_with");
        assert("timestamp"@.len() == 9 && "starts_with"@.len() == 11);
        reveal_strlit("ends_with");
        assert("timestamp"@[0] == 't' && "ends_with"@[0] == 'e');
        reveal_strlit("upper");
        assert("timestamp"@.len() == 9 && "upper"@.len() == 5);
        reveal_strlit("lower");
        assert("timestamp"@.len() == 9 && "lower"@.len() == 5);
        reveal_strlit("trim");
        assert("timestamp"@.len() == 9 && "trim"@.len() == 4);
        reveal_strlit("split");
        assert("timestamp"@.len() == 9 && "split"@.len() == 5);
        reveal_strlit("datetime");
        assert("timestamp"@.len() == 9 && "datetime"@.len() == 8);
}

proof fn lemma_name_of_parsedate()
    ensures
        opcode_of_name(opcode_name(OpCode::ParseDate)) == Some(OpCode::ParseDate),
{
        reveal_strlit("parse_date");
        reveal_strlit("var");
        assert("parse_date"@.len() == 10 && "var"@.len() == 3);
        reveal_strlit("val");
        assert("parse_date"@.len() == 10 && "val"@.len() == 3);
        reveal_strlit("missing");
        assert("parse_date"@.len() == 10 && "missing"@.len() == 7);
        reveal_strlit("missing_some");
        assert("parse_date"@.len() == 10 && "missing_some"@.len() == 12);
        reveal_strlit("exists");
        assert("parse_date"@.len() == 10 && "exists"@.len() == 6);
        reveal_strlit("map");
        assert("parse_date"@.len() == 10 && "map"@.len() == 3);
        reveal_strlit("filter");
        assert("parse_date"@.len() == 10 && "filter"@.len() == 6);
        reveal_strlit("reduce");
        assert("parse_date"@.len() == 10 && "reduce"@.len() == 6);
        reveal_strlit("all");
        assert("parse_date"@.len() == 10 && "all"@.len() == 3);
        reveal_strlit("some");
        assert("parse_date"@.len() == 10 && "some"@.len() == 4);
        reveal_strlit("none");
        assert("parse_date"@.len() == 10 && "none"@.len() == 4);
        reveal_strlit("try");
        assert("parse_date"@.len() == 10 && "try"@.len() == 3);
        reveal_strlit("throw");
        assert("parse_date"@.len() == 10 && "throw"@.len() == 5);
        reveal_strlit("now");
        assert("parse_date"@.len() == 10 && "now"@.len() == 3);
        reveal_strlit("preserve");
        assert("parse_date"@.len() == 10 && "preserve"@.len() == 8);
        reveal_strlit("merge");
        assert("parse_date"@.len() == 10 && "merge"@.len() == 5);
        reveal_strlit("min");
        assert("parse_date"@.len() == 10 && "min"@.len() == 3);
        reveal_strlit("max");
        assert("parse_date"@.len() == 10 && "max"@.len() == 3);
        reveal_strlit("type");
        assert("parse_date"@.len() == 10 && "type"@.len() == 4);
        reveal_strlit("starts_with");
        assert("parse_date"@.len() == 10 && "starts_with"@.len() == 11);
        reveal_strlit("ends_with");
        assert("parse_date"@.len() == 10 && "ends_with"@.len() == 9);
        reveal_strlit("upper");
        assert("parse_date"@.len() == 10 && "upper"@.len() == 5);
        reveal_strlit("lower");
        assert("parse_date"@.len() == 10 && "lower"@.len() == 5);
        reveal_strlit("trim");
        assert("parse_date"@.len() == 10 && "trim"@.len() == 4);
        reveal_strlit("split");
        assert("parse_date"@.len() == 10 && "split"@.len() == 5);
        reveal_strlit("datetime");
        assert("parse_date"@.len() == 10 && "datetime"@.len() == 8);
        reveal_strlit("timestamp");
        assert("parse_date"@.len() == 10 && "timestamp"@.len() == 9);
}

proof fn lemma_name_of_formatdate()
    ensures
        opcode_of_name(opcode_name(OpCode::FormatDate)) == Some(OpCode::FormatDate),
{
        reveal_strlit("format_date");
        reveal_strlit("var");
        assert("format_date"@.len() == 11 && "var"@.len() == 3);
        reveal_strlit("val");
        assert("format_date"@.len() == 11 && "val"@.len() == 3);
        reveal_strlit("missing");
        assert("format_date"@.len() == 11 && "missing"@.len() == 7);
        reveal_strlit("missing_some");
        assert("format_date"@.len() == 11 && "missing_some"@.len() == 12);
        reveal_strlit("exists");
        assert("format_date"@.len() == 11 && "exists"@.len() == 6);
        reveal_strlit("map");
        assert("format_date"@.len() == 11 && "map"@.len() == 3);
        reveal_strlit("filter");
        assert("format_date"@.len() == 11 && "filter"@.len() == 6);
        reveal_strlit("reduce");
        assert("format_date"@.len() == 11 && "reduce"@.len() == 6);
        reveal_strlit("all");
        assert("format_date"@.len() == 11 && "all"@.len() == 3);
        reveal_strlit("some");
        assert("format_date"@.len() == 11 && "some"@.len() == 4);
        reveal_strlit("none");
        assert("format_date"@.len() == 11 && "none"@.len() == 4);
        reveal_strlit("try");
        assert("format_date"@.len() == 11 && "try"@.len() == 3);
        reveal_strlit("throw");
        assert("format_date"@.len() == 11 && "throw"@.len() == 5);
        reveal_strlit("now");
        assert("format_date"@.len() == 11 && "now"@.len() == 3);
        reveal_strlit("preserve");
        assert("format_date"@.len() == 11 && "preserve"@.len() == 8);
        reveal_strlit("merge");
        assert("format_date"@.len() == 11 && "merge"@.len() == 5);
        reveal_strlit("min");
        assert("format_date"@.len() == 11 && "min"@.len() == 3);
        reveal_strlit("max");
        assert("format_date"@.len() == 11 && "max"@.len() == 3);
        reveal_strlit("type");
        assert("format_date"@.len() == 11 && "type"@.len() == 4);
        reveal_strlit("starts_with");
        assert("format_date"@[0] == 'f' && "starts_with"@[0] == 's');
        reveal_strlit("ends_with");
        assert("format_date"@.len() == 11 && "ends_with"@.len() == 9);
        reveal_strlit("upper");
        assert("format_date"@.len() == 11 && "upper"@.len() == 5);
        reveal_strlit("lower");
        assert("format_date"@.len() == 11 && "lower"@.len() == 5);
        reveal_strlit("trim");
        assert("format_date"@.len() == 11 && "trim"@.len() == 4);
        reveal_strlit("split");
        assert("format_date"@.len() == 11 && "split"@.len() == 5);
        reveal_strlit("datetime");
        assert("format_date"@.len() == 11 && "datetime"@.len() == 8);
        reveal_strlit("timestamp");
        assert("format_date"@.len() == 11 && "timestamp"@.len() == 9);
        reveal_strlit("parse_date");
        assert("format_date"@.len() == 11 && "parse_date"@.len() == 10);
}

proof fn lemma_name_of_datediff()
    ensures
        opcode_of_name(opcode_name(OpCode::DateDiff)) == Some(OpCode::DateDiff),
{
        reveal_strlit("date_diff");
        reveal_strlit("var");
        assert("date_diff"@.len() == 9 && "var"@.len() == 3);
        reveal_strlit("val");
        assert("date_diff"@.len() == 9 && "val"@.len() == 3);
        reveal_strlit("missing");
        assert("date_diff"@.len() == 9 && "missing"@.len() == 7);
        reveal_strlit("missing_some");
        assert("date_diff"@.len() == 9 && "missing_some"@.len() == 12);
        reveal_strlit("exists");
        assert("date_diff"@.len() == 9 && "exists"@.len() == 6);
        reveal_strlit("map");
        assert("date_diff"@.len() == 9 && "map"@.len() == 3);
        reveal_strlit("filter");
        assert("date_diff"@.len() == 9 && "filter"@.len() == 6);
        reveal_strlit("reduce");
        assert("date_diff"@.len() == 9 && "reduce"@.len() == 6);
        reveal_strlit("all");
        assert("date_diff"@.len() == 9 && "all"@.len() == 3);
        reveal_strlit("some");
        assert("date_diff"@.len() == 9 && "some"@.len() == 4);
        reveal_strlit("none");
        assert("date_diff"@.len() == 9 && "none"@.len() == 4);
        reveal_strlit("try");
        assert("date_diff"@.len() == 9 && "try"@.len() == 3);
        reveal_strlit("throw");
        assert("date_diff"@.len() == 9 && "throw"@.len() == 5);
        reveal_strlit("now");
        assert("date_diff"@.len() == 9 && "now"@.len() == 3);
        reveal_strlit("preserve");
        assert("date_diff"@.len() == 9 && "preserve"@.len() == 8);
        reveal_strlit("merge");
        assert("date_diff"@.len() == 9 && "merge"@.len() == 5);
        reveal_strlit("min");
        assert("date_diff"@.len() == 9 && "min"@.len() == 3);
        reveal_strlit("max");
        assert("date_diff"@.len() == 9 && "max"@.len() == 3);
        reveal_strlit("type");
        assert("date_diff"@.len() == 9 && "type"@.len() == 4);
        reveal_strlit("starts_with");
        assert("date_diff"@.len() == 9 && "starts_with"@.len() == 11);
        reveal_strlit("ends_with");
        assert("date_diff"@[0] == 'd' && "ends_with"@[0] == 'e');
        reveal_strlit("upper");
        assert("date_diff"@.len() == 9 && "upper"@.len() == 5);
        reveal_strlit("lower");
        assert("date_diff"@.len() == 9 && "lower"@.len() == 5);
        reveal_strlit("trim");
        assert("date_diff"@.len() == 9 && "trim"@.len() == 4);
        reveal_strlit("split");
        assert("date_diff"@.len() == 9 && "split"@.len() == 5);
        reveal_strlit("datetime");
        assert("date_diff"@.len() == 9 && "datetime"@.len() == 8);
        reveal_strlit("timestamp");
        assert("date_diff"@[0] == 'd' && "timestamp"@[0] == 't');
        reveal_strlit("parse_date");
        assert("date_diff"@.len() == 9 && "parse_date"@.len() == 10);
        reveal_strlit("format_date");
        assert("date_diff"@.len() == 9 && "format_date"@.len() == 11);
}

proof fn lemma_name_of_abs()
    ensures
        opcode_of_name(opcode_name(OpCode::Abs)) == Some(OpCode::Abs),
{
        reveal_strlit("abs");
        reveal_strlit("var");
        assert("abs"@[0] == 'a' && "var"@[0] == 'v');
        reveal_strlit("val");
        assert("abs"@[0] == 'a' && "val"@[0] == 'v');
        reveal_strlit("missing");
        assert("abs"@.len() == 3 && "missing"@.len() == 7);
        reveal_strlit("missing_some");
        assert("abs"@.len() == 3 && "missing_some"@.len() == 12);
        reveal_strlit("exists");
        assert("abs"@.len() == 3 && "exists"@.len() == 6);
        reveal_strlit("map");
        assert("abs"@[0] == 'a' && "map"@[0] == 'm');
        reveal_strlit("filter");
        assert("abs"@.len() == 3 && "filter"@.len() == 6);
        reveal_strlit("reduce");
        assert("abs"@.len() == 3 && "reduce"@.len() == 6);
        reveal_strlit("all");
        assert("abs"@[1] == 'b' && "all"@[1] == 'l');
        reveal_strlit("some");
        assert("abs"@.len() == 3 && "some"@.len() == 4);
        reveal_strlit("none");
        assert("abs"@.len() == 3 && "none"@.len() == 4);
        reveal_strlit("try");
        assert("abs"@[0] == 'a' && "try"@[0] == 't');
        reveal_strlit("throw");
        assert("abs"@.len() == 3 && "throw"@.len() == 5);
        reveal_strlit("now");
        assert("abs"@[0] == 'a' && "now"@[0] == 'n');
        reveal_strlit("preserve");
        assert("abs"@.len() == 3 && "preserve"@.len() == 8);
        reveal_strlit("merge");
        assert("abs"@.len() == 3 && "merge"@.len() == 5);
        reveal_strlit("min");
        assert("abs"@[0] == 'a' && "min"@[0] == 'm');
        reveal_strlit("max");
        assert("abs"@[0] == 'a' && "max"@[0] == 'm');
        reveal_strlit("type");
        assert("abs"@.len() == 3 && "type"@.len() == 4);
        reveal_strlit("starts_with");
        assert("abs"@.len() == 3 && "starts_with"@.len() == 11);
        reveal_strlit("ends_with");
        assert("abs"@.len() == 3 && "ends_with"@.len() == 9);
        reveal_strlit("upper");
        assert("abs"@.len() == 3 && "upper"@.len() == 5);
        reveal_strlit("lower");
        assert("abs"@.len() == 3 && "lower"@.len() == 5);
        reveal_strlit("trim");
        assert("abs"@.len() == 3 && "trim"@.len() == 4);
        reveal_strlit("split");
        assert("abs"@.len() == 3 && "split"@.len() == 5);
        reveal_strlit("datetime");
        assert("abs"@.len() == 3 && "datetime"@.len() == 8);
        reveal_strlit("timestamp");
        assert("abs"@.len() == 3 && "timestamp"@.len() == 9);
        reveal_strlit("parse_date");
        assert("abs"@.len() == 3 && "parse_date"@.len() == 10);
        reveal_strlit("format_date");
        assert("abs"@.len() == 3 && "format_date"@.len() == 11);
        reveal_strlit("date_diff");
        assert("abs"@.len() == 3 && "date_diff"@.len() == 9);
}

proof fn lemma_name_of_ceil()
    ensures
        opcode_of_name(opcode_name(OpCode::Ceil)) == Some(OpCode::Ceil),
{
        reveal_strlit("ceil");
        reveal_strlit("var");
        assert("ceil"@.len() == 4 && "var"@.len() == 3);
        reveal_strlit("val");
        assert("ceil"@.len() == 4 && "val"@.len() == 3);
        reveal_strlit("missing");
        assert("ceil"@.len() == 4 && "missing"@.len() == 7);
        reveal_strlit("missing_some");
        assert("ceil"@.len() == 4 && "missing_some"@.len() == 12);
        reveal_strlit("exists");
        assert("ceil"@.len() == 4 && "exists"@.len() == 6);
        reveal_strlit("map");
        assert("ceil"@.len() == 4 && "map"@.len() == 3);
        reveal_strlit("filter");
        assert("ceil"@.len() == 4 && "filter"@.len() == 6);
        reveal_strlit("reduce");
        assert("ceil"@.len() == 4 && "reduce"@.len() == 6);
        reveal_strlit("all");
        assert("ceil"@.len() == 4 && "all"@.len() == 3);
        reveal_strlit("some");
        assert("ceil"@[0] == 'c' && "some"@[0] == 's');
        reveal_strlit("none");
        assert("ceil"@[0] == 'c' && "none"@[0] == 'n');
        reveal_strlit("try");
        assert("ceil"@.len() == 4 && "try"@.len() == 3);
        reveal_strlit("throw");
        assert("ceil"@.len() == 4 && "throw"@.len() == 5);
        reveal_strlit("now");
        assert("ceil"@.len() == 4 && "now"@.len() == 3);
        reveal_strlit("preserve");
        assert("ceil"@.len() == 4 && "preserve"@.len() == 8);
        reveal_strlit("merge");
        assert("ceil"@.len() == 4 && "merge"@.len() == 5);
        reveal_strlit("min");
        assert("ceil"@.len() == 4 && "min"@.len() == 3);
        reveal_strlit("max");
        assert("ceil"@.len() == 4 && "max"@.len() == 3);
        reveal_strlit("type");
        assert("ceil"@[0] == 'c' && "type"@[0] == 't');
        reveal_strlit("starts_with");
        assert("ceil"@.len() == 4 && "starts_with"@.len() == 11);
        reveal_strlit("ends_with");
        assert("ceil"@.len() == 4 && "ends_with"@.len() == 9);
        reveal_strlit("upper");
        assert("ceil"@.len() == 4 && "upper"@.len() == 5);
        reveal_strlit("lower");
        assert("ceil"@.len() == 4 && "lower"@.len() == 5);
        reveal_strlit("trim");
        assert("ceil"@[0] == 'c' && "trim"@[0] == 't');
        reveal_strlit("split");
        assert("ceil"@.len() == 4 && "split"@.len() == 5);
        reveal_strlit("datetime");
        assert("ceil"@.len() == 4 && "datetime"@.len() == 8);
        reveal_strlit("timestamp");
        assert("ceil"@.len() == 4 && "timestamp"@.len() == 9);
        reveal_strlit("parse_date");
        assert("ceil"@.len() == 4 && "parse_date"@.len() == 10);
        reveal_strlit("format_date");
        assert("ceil"@.len() == 4 && "format_date"@.len() == 11);
        reveal_strlit("date_diff");
        assert("ceil"@.len() == 4 && "date_diff"@.len() == 9);
        reveal_strlit("abs");
        assert("ceil"@.len() == 4 && "abs"@.len() == 3);
}

proof fn lemma_name_of_floor()
    ensures
        opcode_of_name(opcode_name(OpCode::Floor)) == Some(OpCode::Floor),
{
        reveal_strlit("floor");
        reveal_strlit("var");
        assert("floor"@.len() == 5 && "var"@.len() == 3);
        reveal_strlit("val");
        assert("floor"@.len() == 5 && "val"@.len() == 3);
        reveal_strlit("missing");
        assert("floor"@.len() == 5 && "missing"@.len() == 7);
        reveal_strlit("missing_some");
        assert("floor"@.len() == 5 && "missing_some"@.len() == 12);
        reveal_strlit("exists");
        assert("floor"@.len() == 5 && "exists"@.len() == 6);
        reveal_strlit("map");
        assert("floor"@.len() == 5 && "map"@.len() == 3);
        reveal_strlit("filter");
        assert("floor"@.len() == 5 && "filter"@.len() == 6);
        reveal_strlit("reduce");
        assert("floor"@.len() == 5 && "reduce"@.len() == 6);
        reveal_strlit("all");
        assert("floor"@.len() == 5 && "all"@.len() == 3);
        reveal_strlit("some");
        assert("floor"@.len() == 5 && "some"@.len() == 4);
        reveal_strlit("none");
        assert("floor"@.len() == 5 && "none"@.len() == 4);
        reveal_strlit("try");
        assert("floor"@.len() == 5 && "try"@.len() == 3);
        reveal_strlit("throw");
        assert("floor"@[0] == 'f' && "throw"@[0] == 't');
        reveal_strlit("now");
        assert("floor"@.len() == 5 && "now"@.len() == 3);
        reveal_strlit("preserve");
        assert("floor"@.len() == 5 && "preserve"@.len() == 8);
        reveal_strlit("merge");
        assert("floor"@[0] == 'f' && "merge"@[0] == 'm');
        reveal_strlit("min");
        assert("floor"@.len() == 5 && "min"@.len() == 3);
        reveal_strlit("max");
        assert("floor"@.len() == 5 && "max"@.len() == 3);
        reveal_strlit("type");
        assert("floor"@.len() == 5 && "type"@.len() == 4);
        reveal_strlit("starts_with");
        assert("floor"@.len() == 5 && "starts_with"@.len() == 11);
        reveal_strlit("ends_with");
        assert("floor"@.len() == 5 && "ends_with"@.len() == 9);
        reveal_strlit("upper");
        assert("floor"@[0] == 'f' && "upper"@[0] == 'u');
        reveal_strlit("lower");
        assert("floor"@[0] == 'f' && "lower"@[0] == 'l');
        reveal_strlit("trim");
        assert("floor"@.len() == 5 && "trim"@.len() == 4);
        reveal_strlit("split");
        assert("floor"@[0] == 'f' && "split"@[0] == 's');
        reveal_strlit("datetime");
        assert("floor"@.len() == 5 && "datetime"@.len() == 8);
        reveal_strlit("timestamp");
        assert("floor"@.len() == 5 && "timestamp"@.len() == 9);
        reveal_strlit("parse_date");
        assert("floor"@.len() == 5 && "parse_date"@.len() == 10);
        reveal_strlit("format_date");
        assert("floor"@.len() == 5 && "format_date"@.len() == 11);
        reveal_strlit("date_diff");
        assert("floor"@.len() == 5 && "date_diff"@.len() == 9);
        reveal_strlit("abs");
        assert("floor"@.len() == 5 && "abs"@.len() == 3);
        reveal_strlit("ceil");
        assert("floor"@.len() == 5 && "ceil"@.len() == 4);
}

proof fn lemma_name_of_add()
    ensures
        opcode_of_name(opcode_name(OpCode::Add)) == Some(OpCode::Add),
{
        reveal_strlit("+");
        reveal_strlit("var");
        assert("+"@.len() == 1 && "var"@.len() == 3);
        reveal_strlit("val");
        assert("+"@.len() == 1 && "val"@.len() == 3);
        reveal_strlit("missing");
        assert("+"@.len() == 1 && "missing"@.len() == 7);
        reveal_strlit("missing_some");
        assert("+"@.len() == 1 && "missing_some"@.len() == 12);
        reveal_strlit("exists");
        assert("+"@.len() == 1 && "exists"@.len() == 6);
        reveal_strlit("map");
        assert("+"@.len() == 1 && "map"@.len() == 3);
        reveal_strlit("filter");
        assert("+"@.len() == 1 && "filter"@.len() == 6);
        reveal_strlit("reduce");
        assert("+"@.len() == 1 && "reduce"@.len() == 6);
        reveal_strlit("all");
        assert("+"@.len() == 1 && "all"@.len() == 3);
        reveal_strlit("some");
        assert("+"@.len() == 1 && "some"@.len() == 4);
        reveal_strlit("none");
        assert("+"@.len() == 1 && "none"@.len() == 4);
        reveal_strlit("try");
        assert("+"@.len() == 1 && "try"@.len() == 3);
        reveal_strlit("throw");
        assert("+"@.len() == 1 && "throw"@.len() == 5);
        reveal_strlit("now");
        assert("+"@.len() == 1 && "now"@.len() == 3);
        reveal_strlit("preserve");
        assert("+"@.len() == 1 && "preserve"@.len() == 8);
        reveal_strlit("merge");
        assert("+"@.len() == 1 && "merge"@.len() == 5);
        reveal_strlit("min");
        assert("+"@.len() == 1 && "min"@.len() == 3);
        reveal_strlit("max");
        assert("+"@.len() == 1 && "max"@.len() == 3);
        reveal_strlit("type");
        assert("+"@.len() == 1 && "type"@.len() == 4);
        reveal_strlit("starts_with");
        assert("+"@.len() == 1 && "starts_with"@.len() == 11);
        reveal_strlit("ends_with");
        assert("+"@.len() == 1 && "ends_with"@.len() == 9);
        reveal_strlit("upper");
        assert("+"@.len() == 1 && "upper"@.len() == 5);
        reveal_strlit("lower");
        assert("+"@.len() == 1 && "lower"@.len() == 5);
        reveal_strlit("trim");
        assert("+"@.len() == 1 && "trim"@.len() == 4);
        reveal_strlit("split");
        assert("+"@.len() == 1 && "split"@.len() == 5);
        reveal_strlit("datetime");
        assert("+"@.len() == 1 && "datetime"@.len() == 8);
        reveal_strlit("timestamp");
        assert("+"@.len() == 1 && "timestamp"@.len() == 9);
        reveal_strlit("parse_date");
        assert("+"@.len() == 1 && "parse_date"@.len() == 10);
        reveal_strlit("format_date");
        assert("+"@.len() == 1 && "format_date"@.len() == 11);
        reveal_strlit("date_diff");
        assert("+"@.len() == 1 && "date_diff"@.len() == 9);
        reveal_strlit("abs");
        assert("+"@.len() == 1 && "abs"@.len() == 3);
        reveal_strlit("ceil");
        assert("+"@.len() == 1 && "ceil"@.len() == 4);
        reveal_strlit("floor");
        assert("+"@.len() == 1 && "floor"@.len() == 5);
}

proof fn lemma_name_of_subtract()
    ensures
        opcode_of_name(opcode_name(OpCode::Subtract)) == Some(OpCode::Subtract),
{
        reveal_strlit("-");
        reveal_strlit("var");
        assert("-"@.len() == 1 && "var"@.len() == 3);
        reveal_strlit("val");
        assert("-"@.len() == 1 && "val"@.len() == 3);
        reveal_strlit("missing");
        assert("-"@.len() == 1 && "missing"@.len() == 7);
        reveal_strlit("missing_some");
        assert("-"@.len() == 1 && "missing_some"@.len() == 12);
        reveal_strlit("exists");
        assert("-"@.len() == 1 && "exists"@.len() == 6);
        reveal_strlit("map");
        assert("-"@.len() == 1 && "map"@.len() == 3);
        reveal_strlit("filter");
        assert("-"@.len() == 1 && "filter"@.len() == 6);
        reveal_strlit("reduce");
        assert("-"@.len() == 1 && "reduce"@.len() == 6);
        reveal_strlit("all");
        assert("-"@.len() == 1 && "all"@.len() == 3);
        reveal_strlit("some");
        assert("-"@.len() == 1 && "some"@.len() == 4);
        reveal_strlit("none");
        assert("-"@.len() == 1 && "none"@.len() == 4);
        reveal_strlit("try");
        assert("-"@.len() == 1 && "try"@.len() == 3);
        reveal_strlit("throw");
        assert("-"@.len() == 1 && "throw"@.len() == 5);
        reveal_strlit("now");
        assert("-"@.len() == 1 && "now"@.len() == 3);
        reveal_strlit("preserve");
        assert("-"@.len() == 1 && "preserve"@.len() == 8);
        reveal_strlit("merge");
        assert("-"@.len() == 1 && "merge"@.len() == 5);
        reveal_strlit("min");
        assert("-"@.len() == 1 && "min"@.len() == 3);
        reveal_strlit("max");
        assert("-"@.len() == 1 && "max"@.len() == 3);
        reveal_strlit("type");
        assert("-"@.len() == 1 && "type"@.len() == 4);
        reveal_strlit("starts_with");
        assert("-"@.len() == 1 && "starts_with"@.len() == 11);
        reveal_strlit("ends_with");
        assert("-"@.len() == 1 && "ends_with"@.len() == 9);
        reveal_strlit("upper");
        assert("-"@.len() == 1 && "upper"@.len() == 5);
        reveal_strlit("lower");
        assert("-"@.len() == 1 && "lower"@.len() == 5);
        reveal_strlit("trim");
        assert("-"@.len() == 1 && "trim"@.len() == 4);
        reveal_strlit("split");
        assert("-"@.len() == 1 && "split"@.len() == 5);
        reveal_strlit("datetime");
        assert("-"@.len() == 1 && "datetime"@.len() == 8);
        reveal_strlit("timestamp");
        assert("-"@.len() == 1 && "timestamp"@.len() == 9);
        reveal_strlit("parse_date");
        assert("-"@.len() == 1 && "parse_date"@.len() == 10);
        reveal_strlit("format_date");
        assert("-"@.len() == 1 && "format_date"@.len() == 11);
        reveal_strlit("date_diff");
        assert("-"@.len() == 1 && "date_diff"@.len() == 9);
        reveal_strlit("abs");
        assert("-"@.len() == 1 && "abs"@.len() == 3);
        reveal_strlit("ceil");
        assert("-"@.len() == 1 && "ceil"@.len() == 4);
        reveal_strlit("floor");
        assert("-"@.len() == 1 && "floor"@.len() == 5);
        reveal_strlit("+");
        assert("-"@[0] == '-' && "+"@[0] == '+');
}

proof fn lemma_name_of_multiply()
    ensures
        opcode_of_name(opcode_name(OpCode::Multiply)) == Some(OpCode::Multiply),
{
        reveal_strlit("*");
        reveal_strlit("var");
        assert("*"@.len() == 1 && "var"@.len() == 3);
        reveal_strlit("val");
        assert("*"@.len() == 1 && "val"@.len() == 3);
        reveal_strlit("missing");
        assert("*"@.len() == 1 && "missing"@.len() == 7);
        reveal_strlit("missing_some");
        assert("*"@.len() == 1 && "missing_some"@.len() == 12);
        reveal_strlit("exists");
        assert("*"@.len() == 1 && "exists"@.len() == 6);
        reveal_strlit("map");
        assert("*"@.len() == 1 && "map"@.len() == 3);
        reveal_strlit("filter");
        assert("*"@.len() == 1 && "filter"@.len() == 6);
        reveal_strlit("reduce");
        assert("*"@.len() == 1 && "reduce"@.len() == 6);
        reveal_strlit("all");
        assert("*"@.len() == 1 && "all"@.len() == 3);
        reveal_strlit("some");
        assert("*"@.len() == 1 && "some"@.len() == 4);
        reveal_strlit("none");
        assert("*"@.len() == 1 && "none"@.len() == 4);
        reveal_strlit("try");
        assert("*"@.len() == 1 && "try"@.len() == 3);
        reveal_strlit("throw");
        assert("*"@.len() == 1 && "throw"@.len() == 5);
        reveal_strlit("now");
        assert("*"@.len() == 1 && "now"@.len() == 3);
        reveal_strlit("preserve");
        assert("*"@.len() == 1 && "preserve"@.len() == 8);
        reveal_strlit("merge");
        assert("*"@.len() == 1 && "merge"@.len() == 5);
        reveal_strlit("min");
        assert("*"@.len() == 1 && "min"@.len() == 3);
        reveal_strlit("max");
        assert("*"@.len() == 1 && "max"@.len() == 3);
        reveal_strlit("type");
        assert("*"@.len() == 1 && "type"@.len() == 4);
        reveal_strlit("starts_with");
        assert("*"@.len() == 1 && "starts_with"@.len() == 11);
        reveal_strlit("ends_with");
        assert("*"@.len() == 1 && "ends_with"@.len() == 9);
        reveal_strlit("upper");
        assert("*"@.len() == 1 && "upper"@.len() == 5);
        reveal_strlit("lower");
        assert("*"@.len() == 1 && "lower"@.len() == 5);
        reveal_strlit("trim");
        assert("*"@.len() == 1 && "trim"@.len() == 4);
        reveal_strlit("split");
        assert("*"@.len() == 1 && "split"@.len() == 5);
        reveal_strlit("datetime");
        assert("*"@.len() == 1 && "datetime"@.len() == 8);
        reveal_strlit("timestamp");
        assert("*"@.len() == 1 && "timestamp"@.len() == 9);
        reveal_strlit("parse_date");
        assert("*"@.len() == 1 && "parse_date"@.len() == 10);
        reveal_strlit("format_date");
        assert("*"@.len() == 1 && "format_date"@.len() == 11);
        reveal_strlit("date_diff");
        assert("*"@.len() == 1 && "date_diff"@.len() == 9);
        reveal_strlit("abs");
        assert("*"@.len() == 1 && "abs"@.len() == 3);
        reveal_strlit("ceil");
        assert("*"@.len() == 1 && "ceil"@.len() == 4);
        reveal_strlit("floor");
        assert("*"@.len() == 1 && "floor"@.len() == 5);
        reveal_strlit("+");
        assert("*"@[0] == '*' && "+"@[0] == '+');
        reveal_strlit("-");
        assert("*"@[0] == '*' && "-"@[0] == '-');
}

proof fn lemma_name_of_divide()
    ensures
        opcode_of_name(opcode_name(OpCode::Divide)) == Some(OpCode::Divide),
{
        reveal_strlit("/");
        reveal_strlit("var");
        assert("/"@.len() == 1 && "var"@.len() == 3);
        reveal_strlit("val");
        assert("/"@.len() == 1 && "val"@.len() == 3);
        reveal_strlit("missing");
        assert("/"@.len() == 1 && "missing"@.len() == 7);
        reveal_strlit("missing_some");
        assert("/"@.len() == 1 && "missing_some"@.len() == 12);
        reveal_strlit("exists");
        assert("/"@.len() == 1 && "exists"@.len() == 6);
        reveal_strlit("map");
        assert("/"@.len() == 1 && "map"@.len() == 3);
        reveal_strlit("filter");
        assert("/"@.len() == 1 && "filter"@.len() == 6);
        reveal_strlit("reduce");
        assert("/"@.len() == 1 && "reduce"@.len() == 6);
        reveal_strlit("all");
        assert("/"@.len() == 1 && "all"@.len() == 3);
        reveal_strlit("some");
        assert("/"@.len() == 1 && "some"@.len() == 4);
        reveal_strlit("none");
        assert("/"@.len() == 1 && "none"@.len() == 4);
        reveal_strlit("try");
        assert("/"@.len() == 1 && "try"@.len() == 3);
        reveal_strlit("throw");
        assert("/"@.len() == 1 && "throw"@.len() == 5);
        reveal_strlit("now");
        assert("/"@.len() == 1 && "now"@.len() == 3);
        reveal_strlit("preserve");
        assert("/"@.len() == 1 && "preserve"@.len() == 8);
        reveal_strlit("merge");
        assert("/"@.len() == 1 && "merge"@.len() == 5);
        reveal_strlit("min");
        assert("/"@.len() == 1 && "min"@.len() == 3);
        reveal_strlit("max");
        assert("/"@.len() == 1 && "max"@.len() == 3);
        reveal_strlit("type");
        assert("/"@.len() == 1 && "type"@.len() == 4);
        reveal_strlit("starts_with");
        assert("/"@.len() == 1 && "starts_with"@.len() == 11);
        reveal_strlit("ends_with");
        assert("/"@.len() == 1 && "ends_with"@.len() == 9);
        reveal_strlit("upper");
        assert("/"@.len() == 1 && "upper"@.len() == 5);
        reveal_strlit("lower");
        assert("/"@.len() == 1 && "lower"@.len() == 5);
        reveal_strlit("trim");
        assert("/"@.len() == 1 && "trim"@.len() == 4);
        reveal_strlit("split");
        assert("/"@.len() == 1 && "split"@.len() == 5);
        reveal_strlit("datetime");
        assert("/"@.len() == 1 && "datetime"@.len() == 8);
        reveal_strlit("timestamp");
        assert("/"@.len() == 1 && "timestamp"@.len() == 9);
        reveal_strlit("parse_date");
        assert("/"@.len() == 1 && "parse_date"@.len() == 10);
        reveal_strlit("format_date");
        assert("/"@.len() == 1 && "format_date"@.len() == 11);
        reveal_strlit("date_diff");
        assert("/"@.len() == 1 && "date_diff"@.len() == 9);
        reveal_strlit("abs");
        assert("/"@.len() == 1 && "abs"@.len() == 3);
        reveal_strlit("ceil");
        assert("/"@.len() == 1 && "ceil"@.len() == 4);
        reveal_strlit("floor");
        assert("/"@.len() == 1 && "floor"@.len() == 5);
        reveal_strlit("+");
        assert("/"@[0] == '/' && "+"@[0] == '+');
        reveal_strlit("-");
        assert("/"@[0] == '/' && "-"@[0] == '-');
        reveal_strlit("*");
        assert("/"@[0] == '/' && "*"@[0] == '*');
}

proof fn lemma_name_of_modulo()
    ensures
        opcode_of_name(opcode_name(OpCode::Modulo)) == Some(OpCode::Modulo),
{
        reveal_strlit("%");
        reveal_strlit("var");
        assert("%"@.len() == 1 && "var"@.len() == 3);
        reveal_strlit("val");
        assert("%"@.len() == 1 && "val"@.len() == 3);
        reveal_strlit("missing");
        assert("%"@.len() == 1 && "missing"@.len() == 7);
        reveal_strlit("missing_some");
        assert("%"@.len() == 1 && "missing_some"@.len() == 12);
        reveal_strlit("exists");
        assert("%"@.len() == 1 && "exists"@.len() == 6);
        reveal_strlit("map");
        assert("%"@.len() == 1 && "map"@.len() == 3);
        reveal_strlit("filter");
        assert("%"@.len() == 1 && "filter"@.len() == 6);
        reveal_strlit("reduce");
        assert("%"@.len() == 1 && "reduce"@.len() == 6);
        reveal_strlit("all");
        assert("%"@.len() == 1 && "all"@.len() == 3);
        reveal_strlit("some");
        assert("%"@.len() == 1 && "some"@.len() == 4);
        reveal_strlit("none");
        assert("%"@.len() == 1 && "none"@.len() == 4);
        reveal_strlit("try");
        assert("%"@.len() == 1 && "try"@.len() == 3);
        reveal_strlit("throw");
        assert("%"@.len() == 1 && "throw"@.len() == 5);
        reveal_strlit("now");
        assert("%"@.len() == 1 && "now"@.len() == 3);
        reveal_strlit("preserve");
        assert("%"@.len() == 1 && "preserve"@.len() == 8);
        reveal_strlit("merge");
        assert("%"@.len() == 1 && "merge"@.len() == 5);
        reveal_strlit("min");
        assert("%"@.len() == 1 && "min"@.len() == 3);
        reveal_strlit("max");
        assert("%"@.len() == 1 && "max"@.len() == 3);
        reveal_strlit("type");
        assert("%"@.len() == 1 && "type"@.len() == 4);
        reveal_strlit("starts_with");
        assert("%"@.len() == 1 && "starts_with"@.len() == 11);
        reveal_strlit("ends_with");
        assert("%"@.len() == 1 && "ends_with"@.len() == 9);
        reveal_strlit("upper");
        assert("%"@.len() == 1 && "upper"@.len() == 5);
        reveal_strlit("lower");
        assert("%"@.len() == 1 && "lower"@.len() == 5);
        reveal_strlit("trim");
        assert("%"@.len() == 1 && "trim"@.len() == 4);
        reveal_strlit("split");
        assert("%"@.len() == 1 && "split"@.len() == 5);
        reveal_strlit("datetime");
        assert("%"@.len() == 1 && "datetime"@.len() == 8);
        reveal_strlit("timestamp");
        assert("%"@.len() == 1 && "timestamp"@.len() == 9);
        reveal_strlit("parse_date");
        assert("%"@.len() == 1 && "parse_date"@.len() == 10);
        reveal_strlit("format_date");
        assert("%"@.len() == 1 && "format_date"@.len() == 11);
        reveal_strlit("date_diff");
        assert("%"@.len() == 1 && "date_diff"@.len() == 9);
        reveal_strlit("abs");
        assert("%"@.len() == 1 && "abs"@.len() == 3);
        reveal_strlit("ceil");
        assert("%"@.len() == 1 && "ceil"@.len() == 4);
        reveal_strlit("floor");
        assert("%"@.len() == 1 && "floor"@.len() == 5);
        reveal_strlit("+");
        assert("%"@[0] == '%' && "+"@[0] == '+');
        reveal_strlit("-");
        assert("%"@[0] == '%' && "-"@[0] == '-');
        reveal_strlit("*");
        assert("%"@[0] == '%' && "*"@[0] == '*');
        reveal_strlit("/");
        assert("%"@[0] == '%' && "/"@[0] == '/');
}

proof fn lemma_name_of_equals()
    ensures
        opcode_of_name(opcode_name(OpCode::Equals)) == Some(OpCode::Equals),
{
        reveal_strlit("==");
        reveal_strlit("var");
        assert("=="@.len() == 2 && "var"@.len() == 3);
        reveal_strlit("val");
        assert("=="@.len() == 2 && "val"@.len() == 3);
        reveal_strlit("missing");
        assert("=="@.len() == 2 && "missing"@.len() == 7);
        reveal_strlit("missing_some");
        assert("=="@.len() == 2 && "missing_some"@.len() == 12);
        reveal_strlit("exists");
        assert("=="@.len() == 2 && "exists"@.len() == 6);
        reveal_strlit("map");
        assert("=="@.len() == 2 && "map"@.len() == 3);
        reveal_strlit("filter");
        assert("=="@.len() == 2 && "filter"@.len() == 6);
        reveal_strlit("reduce");
        assert("=="@.len() == 2 && "reduce"@.len() == 6);
        reveal_strlit("all");
        assert("=="@.len() == 2 && "all"@.len() == 3);
        reveal_strlit("some");
        assert("=="@.len() == 2 && "some"@.len() == 4);
        reveal_strlit("none");
        assert("=="@.len() == 2 && "none"@.len() == 4);
        reveal_strlit("try");
        assert("=="@.len() == 2 && "try"@.len() == 3);
        reveal_strlit("throw");
        assert("=="@.len() == 2 && "throw"@.len() == 5);
        reveal_strlit("now");
        assert("=="@.len() == 2 && "now"@.len() == 3);
        reveal_strlit("preserve");
        assert("=="@.len() == 2 && "preserve"@.len() == 8);
        reveal_strlit("merge");
        assert("=="@.len() == 2 && "merge"@.len() == 5);
        reveal_strlit("min");
        assert("=="@.len() == 2 && "min"@.len() == 3);
        reveal_strlit("max");
        assert("=="@.len() == 2 && "max"@.len() == 3);
        reveal_strlit("type");
        assert("=="@.len() == 2 && "type"@.len() == 4);
        reveal_strlit("starts_with");
        assert("=="@.len() == 2 && "starts_with"@.len() == 11);
        reveal_strlit("ends_with");
        assert("=="@.len() == 2 && "ends_with"@.len() == 9);
        reveal_strlit("upper");
        assert("=="@.len() == 2 && "upper"@.len() == 5);
        reveal_strlit("lower");
        assert("=="@.len() == 2 && "lower"@.len() == 5);
        reveal_strlit("trim");
        assert("=="@.len() == 2 && "trim"@.len() == 4);
        reveal_strlit("split");
        assert("=="@.len() == 2 && "split"@.len() == 5);
        reveal_strlit("datetime");
        assert("=="@.len() == 2 && "datetime"@.len() == 8);
        reveal_strlit("timestamp");
        assert("=="@.len() == 2 && "timestamp"@.len() == 9);
        reveal_strlit("parse_date");
        assert("=="@.len() == 2 && "parse_date"@.len() == 10);
        reveal_strlit("format_date");
        assert("=="@.len() == 2 && "format_date"@.len() == 11);
        reveal_strlit("date_diff");
        assert("=="@.len() == 2 && "date_diff"@.len() == 9);
        reveal_strlit("abs");
        assert("=="@.len() == 2 && "abs"@.len() == 3);
        reveal_strlit("ceil");
        assert("=="@.len() == 2 && "ceil"@.len() == 4);
        reveal_strlit("floor");
        assert("=="@.len() == 2 && "floor"@.len() == 5);
        reveal_strlit("+");
        assert("=="@.len() == 2 && "+"@.len() == 1);
        reveal_strlit("-");
        assert("=="@.len() == 2 && "-"@.len() == 1);
        reveal_strlit("*");
        assert("=="@.len() == 2 && "*"@.len() == 1);
        reveal_strlit("/");
        assert("=="@.len() == 2 && "/"@.len() == 1);
        reveal_strlit("%");
        assert("=="@.len() == 2 && "%"@.len() == 1);
}

proof fn lemma_name_of_strictequals()
    ensures
        opcode_of_name(opcode_name(OpCode::StrictEquals)) == Some(OpCode::StrictEquals),
{
        reveal_strlit("===");
        reveal_strlit("var");
        assert("==="@[0] == '=' && "var"@[0] == 'v');
        reveal_strlit("val");
        assert("==="@[0] == '=' && "val"@[0] == 'v');
        reveal_strlit("missing");
        assert("==="@.len() == 3 && "missing"@.len() == 7);
        reveal_strlit("missing_some");
        assert("==="@.len() == 3 && "missing_some"@.len() == 12);
        reveal_strlit("exists");
        assert("==="@.len() == 3 && "exists"@.len() == 6);
        reveal_strlit("map");
        assert("==="@[0] == '=' && "map"@[0] == 'm');
        reveal_strlit("filter");
        assert("==="@.len() == 3 && "filter"@.len() == 6);
        reveal_strlit("reduce");
        assert("==="@.len() == 3 && "reduce"@.len() == 6);
        reveal_strlit("all");
        assert("==="@[0] == '=' && "all"@[0] == 'a');
        reveal_strlit("some");
        assert("==="@.len() == 3 && "some"@.len() == 4);
        reveal_strlit("none");
        assert("==="@.len() == 3 && "none"@.len() == 4);
        reveal_strlit("try");
        assert("==="@[0] == '=' && "try"@[0] == 't');
        reveal_strlit("throw");
        assert("==="@.len() == 3 && "throw"@.len() == 5);
        reveal_strlit("now");
        assert("==="@[0] == '=' && "now"@[0] == 'n');
        reveal_strlit("preserve");
        assert("==="@.len() == 3 && "preserve"@.len() == 8);
        reveal_strlit("merge");
        assert("==="@.len() == 3 && "merge"@.len() == 5);
        reveal_strlit("min");
        assert("==="@[0] == '=' && "min"@[0] == 'm');
        reveal_strlit("max");
        assert("==="@[0] == '=' && "max"@[0] == 'm');
        reveal_strlit("type");
        assert("==="@.len() == 3 && "type"@.len() == 4);
        reveal_strlit("starts_with");
        assert("==="@.len() == 3 && "starts_with"@.len() == 11);
        reveal_strlit("ends_with");
        assert("==="@.len() == 3 && "ends_with"@.len() == 9);
        reveal_strlit("upper");
        assert("==="@.len() == 3 && "upper"@.len() == 5);
        reveal_strlit("lower");
        assert("==="@.len() == 3 && "lower"@.len() == 5);
        reveal_strlit("trim");
        assert("==="@.len() == 3 && "trim"@.len() == 4);
        reveal_strlit("split");
        assert("==="@.len() == 3 && "split"@.len() == 5);
        reveal_strlit("datetime");
        assert("==="@.len() == 3 && "datetime"@.len() == 8);
        reveal_strlit("timestamp");
        assert("==="@.len() == 3 && "timestamp"@.len() == 9);
        reveal_strlit("parse_date");
        assert("==="@.len() == 3 && "parse_date"@.len() == 10);
        reveal_strlit("format_date");
        assert("==="@.len() == 3 && "format_date"@.len() == 11);
        reveal_strlit("date_diff");
        assert("==="@.len() == 3 && "date_diff"@.len() == 9);
        reveal_strlit("abs");
        assert("==="@[0] == '=' && "abs"@[0] == 'a');
        reveal_strlit("ceil");
        assert("==="@.len() == 3 && "ceil"@.len() == 4);
        reveal_strlit("floor");
        assert("==="@.len() == 3 && "floor"@.len() == 5);
        reveal_strlit("+");
        assert("==="@.len() == 3 && "+"@.len() == 1);
        reveal_strlit("-");
        assert("==="@.len() == 3 && "-"@.len() == 1);
        reveal_strlit("*");
        assert("==="@.len() == 3 && "*"@.len() == 1);
        reveal_strlit("/");
        assert("==="@.len() == 3 && "/"@.len() == 1);
        reveal_strlit("%");
        assert("==="@.len() == 3 && "%"@.len() == 1);
        reveal_strlit("==");
        assert("==="@.len() == 3 && "=="@.len() == 2);
}

proof fn lemma_name_of_notequals()
    ensures
        opcode_of_name(opcode_name(OpCode::NotEquals)) == Some(OpCode::NotEquals),
{
        reveal_strlit("!=");
        reveal_strlit("var");
        assert("!="@.len() == 2 && "var"@.len() == 3);
        reveal_strlit("val");
        assert("!="@.len() == 2 && "val"@.len() == 3);
        reveal_strlit("missing");
        assert("!="@.len() == 2 && "missing"@.len() == 7);
        reveal_strlit("missing_some");
        assert("!="@.len() == 2 && "missing_some"@.len() == 12);
        reveal_strlit("exists");
        assert("!="@.len() == 2 && "exists"@.len() == 6);
        reveal_strlit("map");
        assert("!="@.len() == 2 && "map"@.len() == 3);
        reveal_strlit("filter");
        assert("!="@.len() == 2 && "filter"@.len() == 6);
        reveal_strlit("reduce");
        assert("!="@.len() == 2 && "reduce"@.len() == 6);
        reveal_strlit("all");
        assert("!="@.len() == 2 && "all"@.len() == 3);
        reveal_strlit("some");
        assert("!="@.len() == 2 && "some"@.len() == 4);
        reveal_strlit("none");
        assert("!="@.len() == 2 && "none"@.len() == 4);
        reveal_strlit("try");
        assert("!="@.len() == 2 && "try"@.len() == 3);
        reveal_strlit("throw");
        assert("!="@.len() == 2 && "throw"@.len() == 5);
        reveal_strlit("now");
        assert("!="@.len() == 2 && "now"@.len() == 3);
        reveal_strlit("preserve");
        assert("!="@.len() == 2 && "preserve"@.len() == 8);
        reveal_strlit("merge");
        assert("!="@.len() == 2 && "merge"@.len() == 5);
        reveal_strlit("min");
        assert("!="@.len() == 2 && "min"@.len() == 3);
        reveal_strlit("max");
        assert("!="@.len() == 2 && "max"@.len() == 3);
        reveal_strlit("type");
        assert("!="@.len() == 2 && "type"@.len() == 4);
        reveal_strlit("starts_with");
        assert("!="@.len() == 2 && "starts_with"@.len() == 11);
        reveal_strlit("ends_with");
        assert("!="@.len() == 2 && "ends_with"@.len() == 9);
        reveal_strlit("upper");
        assert("!="@.len() == 2 && "upper"@.len() == 5);
        reveal_strlit("lower");
        assert("!="@.len() == 2 && "lower"@.len() == 5);
        reveal_strlit("trim");
        assert("!="@.len() == 2 && "trim"@.len() == 4);
        reveal_strlit("split");
        assert("!="@.len() == 2 && "split"@.len() == 5);
        reveal_strlit("datetime");
        assert("!="@.len() == 2 && "datetime"@.len() == 8);
        reveal_strlit("timestamp");
        assert("!="@.len() == 2 && "timestamp"@.len() == 9);
        reveal_strlit("parse_date");
        assert("!="@.len() == 2 && "parse_date"@.len() == 10);
        reveal_strlit("format_date");
        assert("!="@.len() == 2 && "format_date"@.len() == 11);
        reveal_strlit("date_diff");
        assert("!="@.len() == 2 && "date_diff"@.len() == 9);
        reveal_strlit("abs");
        assert("!="@.len() == 2 && "abs"@.len() == 3);
        reveal_strlit("ceil");
        assert("!="@.len() == 2 && "ceil"@.len() == 4);
        reveal_strlit("floor");
        assert("!="@.len() == 2 && "floor"@.len() == 5);
        reveal_strlit("+");
        assert("!="@.len() == 2 && "+"@.len() == 1);
        reveal_strlit("-");
        assert("!="@.len() == 2 && "-"@.len() == 1);
        reveal_strlit("*");
        assert("!="@.len() == 2 && "*"@.len() == 1);
        reveal_strlit("/");
        assert("!="@.len() == 2 && "/"@.len() == 1);
        reveal_strlit("%");
        assert("!="@.len() == 2 && "%"@.len() == 1);
        reveal_strlit("==");
        assert("!="@[0] == '!' && "=="@[0] == '=');
        reveal_strlit("===");
        assert("!="@.len() == 2 && "==="@.len() == 3);
}

proof fn lemma_name_of_strictnotequals()
    ensures
        opcode_of_name(opcode_name(OpCode::StrictNotEquals)) == Some(OpCode::StrictNotEquals),
{
        reveal_strlit("!==");
        reveal_strlit("var");
        assert("!=="@[0] == '!' && "var"@[0] == 'v');
        reveal_strlit("val");
        assert("!=="@[0] == '!' && "val"@[0] == 'v');
        reveal_strlit("missing");
        assert("!=="@.len() == 3 && "missing"@.len() == 7);
        reveal_strlit("missing_some");
        assert("!=="@.len() == 3 && "missing_some"@.len() == 12);
        reveal_strlit("exists");
        assert("!=="@.len() == 3 && "exists"@.len() == 6);
        reveal_strlit("map");
        assert("!=="@[0] == '!' && "map"@[0] == 'm');
        reveal_strlit("filter");
        assert("!=="@.len() == 3 && "filter"@.len() == 6);
        reveal_strlit("reduce");
        assert("!=="@.len() == 3 && "reduce"@.len() == 6);
        reveal_strlit("all");
        assert("!=="@[0] == '!' && "all"@[0] == 'a');
        reveal_strlit("some");
        assert("!=="@.len() == 3 && "some"@.len() == 4);
        reveal_strlit("none");
        assert("!=="@.len() == 3 && "none"@.len() == 4);
        reveal_strlit("try");
        assert("!=="@[0] == '!' && "try"@[0] == 't');
        reveal_strlit("throw");
        assert("!=="@.len() == 3 && "throw"@.len() == 5);
        reveal_strlit("now");
        assert("!=="@[0] == '!' && "now"@[0] == 'n');
        reveal_strlit("preserve");
        assert("!=="@.len() == 3 && "preserve"@.len() == 8);
        reveal_strlit("merge");
        assert("!=="@.len() == 3 && "merge"@.len() == 5);
        reveal_strlit("min");
        assert("!=="@[0] == '!' && "min"@[0] == 'm');
        reveal_strlit("max");
        assert("!=="@[0] == '!' && "max"@[0] == 'm');
        reveal_strlit("type");
        assert("!=="@.len() == 3 && "type"@.len() == 4);
        reveal_strlit("starts_with");
        assert("!=="@.len() == 3 && "starts_with"@.len() == 11);
        reveal_strlit("ends_with");
        assert("!=="@.len() == 3 && "ends_with"@.len() == 9);
        reveal_strlit("upper");
        assert("!=="@.len() == 3 && "upper"@.len() == 5);
        reveal_strlit("lower");
        assert("!=="@.len() == 3 && "lower"@.len() == 5);
        reveal_strlit("trim");
        assert("!=="@.len() == 3 && "trim"@.len() == 4);
        reveal_strlit("split");
        assert("!=="@.len() == 3 && "split"@.len() == 5);
        reveal_strlit("datetime");
        assert("!=="@.len() == 3 && "datetime"@.len() == 8);
        reveal_strlit("timestamp");
        assert("!=="@.len() == 3 && "timestamp"@.len() == 9);
        reveal_strlit("parse_date");
        assert("!=="@.len() == 3 && "parse_date"@.len() == 10);
        reveal_strlit("format_date");
        assert("!=="@.len() == 3 && "format_date"@.len() == 11);
        reveal_strlit("date_diff");
        assert("!=="@.len() == 3 && "date_diff"@.len() == 9);
        reveal_strlit("abs");
        assert("!=="@[0] == '!' && "abs"@[0] == 'a');
        reveal_strlit("ceil");
        assert("!=="@.len() == 3 && "ceil"@.len() == 4);
        reveal_strlit("floor");
        assert("!=="@.len() == 3 && "floor"@.len() == 5);
        reveal_strlit("+");
        assert("!=="@.len() == 3 && "+"@.len() == 1);
        reveal_strlit("-");
        assert("!=="@.len() == 3 && "-"@.len() == 1);
        reveal_strlit("*");
        assert("!=="@.len() == 3 && "*"@.len() == 1);
        reveal_strlit("/");
        assert("!=="@.len() == 3 && "/"@.len() == 1);
        reveal_strlit("%");
        assert("!=="@.len() == 3 && "%"@.len() == 1);
        reveal_strlit("==");
        assert("!=="@.len() == 3 && "=="@.len() == 2);
        reveal_strlit("===");
        assert("!=="@[0] == '!' && "==="@[0] == '=');
        reveal_strlit("!=");
        assert("!=="@.len() == 3 && "!="@.len() == 2);
}

proof fn lemma_name_of_greaterthan()
    ensures
        opcode_of_name(opcode_name(OpCode::GreaterThan)) == Some(OpCode::GreaterThan),
{
        reveal_strlit(">");
        reveal_strlit("var");
        assert(">"@.len() == 1 && "var"@.len() == 3);
        reveal_strlit("val");
        assert(">"@.len() == 1 && "val"@.len() == 3);
        reveal_strlit("missing");
        assert(">"@.len() == 1 && "missing"@.len() == 7);
        reveal_strlit("missing_some");
        assert(">"@.len() == 1 && "missing_some"@.len() == 12);
        reveal_strlit("exists");
        assert(">"@.len() == 1 && "exists"@.len() == 6);
        reveal_strlit("map");
        assert(">"@.len() == 1 && "map"@.len() == 3);
        reveal_strlit("filter");
        assert(">"@.len() == 1 && "filter"@.len() == 6);
        reveal_strlit("reduce");
        assert(">"@.len() == 1 && "reduce"@.len() == 6);
        reveal_strlit("all");
        assert(">"@.len() == 1 && "all"@.len() == 3);
        reveal_strlit("some");
        assert(">"@.len() == 1 && "some"@.len() == 4);
        reveal_strlit("none");
        assert(">"@.len() == 1 && "none"@.len() == 4);
        reveal_strlit("try");
        assert(">"@.len() == 1 && "try"@.len() == 3);
        reveal_strlit("throw");
        assert(">"@.len() == 1 && "throw"@.len() == 5);
        reveal_strlit("now");
        assert(">"@.len() == 1 && "now"@.len() == 3);
        reveal_strlit("preserve");
        assert(">"@.len() == 1 && "preserve"@.len() == 8);
        reveal_strlit("merge");
        assert(">"@.len() == 1 && "merge"@.len() == 5);
        reveal_strlit("min");
        assert(">"@.len() == 1 && "min"@.len() == 3);
        reveal_strlit("max");
        assert(">"@.len() == 1 && "max"@.len() == 3);
        reveal_strlit("type");
        assert(">"@.len() == 1 && "type"@.len() == 4);
        reveal_strlit("starts_with");
        assert(">"@.len() == 1 && "starts_with"@.len() == 11);
        reveal_strlit("ends_with");
        assert(">"@.len() == 1 && "ends_with"@.len() == 9);
        reveal_strlit("upper");
        assert(">"@.len() == 1 && "upper"@.len() == 5);
        reveal_strlit("lower");
        assert(">"@.len() == 1 && "lower"@.len() == 5);
        reveal_strlit("trim");
        assert(">"@.len() == 1 && "trim"@.len() == 4);
        reveal_strlit("split");
        assert(">"@.len() == 1 && "split"@.len() == 5);
        reveal_strlit("datetime");
        assert(">"@.len() == 1 && "datetime"@.len() == 8);
        reveal_strlit("timestamp");
        assert(">"@.len() == 1 && "timestamp"@.len() == 9);
        reveal_strlit("parse_date");
        assert(">"@.len() == 1 && "parse_date"@.len() == 10);
        reveal_strlit("format_date");
        assert(">"@.len() == 1 && "format_date"@.len() == 11);
        reveal_strlit("date_diff");
        assert(">"@.len() == 1 && "date_diff"@.len() == 9);
        reveal_strlit("abs");
        assert(">"@.len() == 1 && "abs"@.len() == 3);
        reveal_strlit("ceil");
        assert(">"@.len() == 1 && "ceil"@.len() == 4);
        reveal_strlit("floor");
        assert(">"@.len() == 1 && "floor"@.len() == 5);
        reveal_strlit("+");
        assert(">"@[0] == '>' && "+"@[0] == '+');
        reveal_strlit("-");
        assert(">"@[0] == '>' && "-"@[0] == '-');
        reveal_strlit("*");
        assert(">"@[0] == '>' && "*"@[0] == '*');
        reveal_strlit("/");
        assert(">"@[0] == '>' && "/"@[0] == '/');
        reveal_strlit("%");
        assert(">"@[0] == '>' && "%"@[0] == '%');
        reveal_strlit("==");
        assert(">"@.len() == 1 && "=="@.len() == 2);
        reveal_strlit("===");
        assert(">"@.len() == 1 && "==="@.len() == 3);
        reveal_strlit("!=");
        assert(">"@.len() == 1 && "!="@.len() == 2);
        reveal_strlit("!==");
        assert(">"@.len() == 1 && "!=="@.len() == 3);
}

proof fn lemma_name_of_greaterthanequal()
    ensures
        opcode_of_name(opcode_name(OpCode::GreaterThanEqual)) == Some(OpCode::GreaterThanEqual),
{
        reveal_strlit(">=");
        reveal_strlit("var");
        assert(">="@.len() == 2 && "var"@.len() == 3);
        reveal_strlit("val");
        assert(">="@.len() == 2 && "val"@.len() == 3);
        reveal_strlit("missing");
        assert(">="@.len() == 2 && "missing"@.len() == 7);
        reveal_strlit("missing_some");
        assert(">="@.len() == 2 && "missing_some"@.len() == 12);
        reveal_strlit("exists");
        assert(">="@.len() == 2 && "exists"@.len() == 6);
        reveal_strlit("map");
        assert(">="@.len() == 2 && "map"@.len() == 3);
        reveal_strlit("filter");
        assert(">="@.len() == 2 && "filter"@.len() == 6);
        reveal_strlit("reduce");
        assert(">="@.len() == 2 && "reduce"@.len() == 6);
        reveal_strlit("all");
        assert(">="@.len() == 2 && "all"@.len() == 3);
        reveal_strlit("some");
        assert(">="@.len() == 2 && "some"@.len() == 4);
        reveal_strlit("none");
        assert(">="@.len() == 2 && "none"@.len() == 4);
        reveal_strlit("try");
        assert(">="@.len() == 2 && "try"@.len() == 3);
        reveal_strlit("throw");
        assert(">="@.len() == 2 && "throw"@.len() == 5);
        reveal_strlit("now");
        assert(">="@.len() == 2 && "now"@.len() == 3);
        reveal_strlit("preserve");
        assert(">="@.len() == 2 && "preserve"@.len() == 8);
        reveal_strlit("merge");
        assert(">="@.len() == 2 && "merge"@.len() == 5);
        reveal_strlit("min");
        assert(">="@.len() == 2 && "min"@.len() == 3);
        reveal_strlit("max");
        assert(">="@.len() == 2 && "max"@.len() == 3);
        reveal_strlit("type");
        assert(">="@.len() == 2 && "type"@.len() == 4);
        reveal_strlit("starts_with");
        assert(">="@.len() == 2 && "starts_with"@.len() == 11);
        reveal_strlit("ends_with");
        assert(">="@.len() == 2 && "ends_with"@.len() == 9);
        reveal_strlit("upper");
        assert(">="@.len() == 2 && "upper"@.len() == 5);
        reveal_strlit("lower");
        assert(">="@.len() == 2 && "lower"@.len() == 5);
        reveal_strlit("trim");
        assert(">="@.len() == 2 && "trim"@.len() == 4);
        reveal_strlit("split");
        assert(">="@.len() == 2 && "split"@.len() == 5);
        reveal_strlit("datetime");
        assert(">="@.len() == 2 && "datetime"@.len() == 8);
        reveal_strlit("timestamp");
        assert(">="@.len() == 2 && "timestamp"@.len() == 9);
        reveal_strlit("parse_date");
        assert(">="@.len() == 2 && "parse_date"@.len() == 10);
        reveal_strlit("format_date");
        assert(">="@.len() == 2 && "format_date"@.len() == 11);
        reveal_strlit("date_diff");
        assert(">="@.len() == 2 && "date_diff"@.len() == 9);
        reveal_strlit("abs");
        assert(">="@.len() == 2 && "abs"@.len() == 3);
        reveal_strlit("ceil");
        assert(">="@.len() == 2 && "ceil"@.len() == 4);
        reveal_strlit("floor");
        assert(">="@.len() == 2 && "floor"@.len() == 5);
        reveal_strlit("+");
        assert(">="@.len() == 2 && "+"@.len() == 1);
        reveal_strlit("-");
        assert(">="@.len() == 2 && "-"@.len() == 1);
        reveal_strlit("*");
        assert(">="@.len() == 2 && "*"@.len() == 1);
        reveal_strlit("/");
        assert(">="@.len() == 2 && "/"@.len() == 1);
        reveal_strlit("%");
        assert(">="@.len() == 2 && "%"@.len() == 1);
        reveal_strlit("==");
        assert(">="@[0] == '>' && "=="@[0] == '=');
        reveal_strlit("===");
        assert(">="@.len() == 2 && "==="@.len() == 3);
        reveal_strlit("!=");
        assert(">="@[0] == '>' && "!="@[0] == '!');
        reveal_strlit("!==");
        assert(">="@.len() == 2 && "!=="@.len() == 3);
        reveal_strlit(">");
        assert(">="@.len() == 2 && ">"@.len() == 1);
}

proof fn lemma_name_of_lessthan()
    ensures
        opcode_of_name(opcode_name(OpCode::LessThan)) == Some(OpCode::LessThan),
{
        reveal_strlit("<");
        reveal_strlit("var");
        assert("<"@.len() == 1 && "var"@.len() == 3);
        reveal_strlit("val");
        assert("<"@.len() == 1 && "val"@.len() == 3);
        reveal_strlit("missing");
        assert("<"@.len() == 1 && "missing"@.len() == 7);
        reveal_strlit("missing_some");
        assert("<"@.len() == 1 && "missing_some"@.len() == 12);
        reveal_strlit("exists");
        assert("<"@.len() == 1 && "exists"@.len() == 6);
        reveal_strlit("map");
        assert("<"@.len() == 1 && "map"@.len() == 3);
        reveal_strlit("filter");
        assert("<"@.len() == 1 && "filter"@.len() == 6);
        reveal_strlit("reduce");
        assert("<"@.len() == 1 && "reduce"@.len() == 6);
        reveal_strlit("all");
        assert("<"@.len() == 1 && "all"@.len() == 3);
        reveal_strlit("some");
        assert("<"@.len() == 1 && "some"@.len() == 4);
        reveal_strlit("none");
        assert("<"@.len() == 1 && "none"@.len() == 4);
        reveal_strlit("try");
        assert("<"@.len() == 1 && "try"@.len() == 3);
        reveal_strlit("throw");
        assert("<"@.len() == 1 && "throw"@.len() == 5);
        reveal_strlit("now");
        assert("<"@.len() == 1 && "now"@.len() == 3);
        reveal_strlit("preserve");
        assert("<"@.len() == 1 && "preserve"@.len() == 8);
        reveal_strlit("merge");
        assert("<"@.len() == 1 && "merge"@.len() == 5);
        reveal_strlit("min");
        assert("<"@.len() == 1 && "min"@.len() == 3);
        reveal_strlit("max");
        assert("<"@.len() == 1 && "max"@.len() == 3);
        reveal_strlit("type");
        assert("<"@.len() == 1 && "type"@.len() == 4);
        reveal_strlit("starts_with");
        assert("<"@.len() == 1 && "starts_with"@.len() == 11);
        reveal_strlit("ends_with");
        assert("<"@.len() == 1 && "ends_with"@.len() == 9);
        reveal_strlit("upper");
        assert("<"@.len() == 1 && "upper"@.len() == 5);
        reveal_strlit("lower");
        assert("<"@.len() == 1 && "lower"@.len() == 5);
        reveal_strlit("trim");
        assert("<"@.len() == 1 && "trim"@.len() == 4);
        reveal_strlit("split");
        assert("<"@.len() == 1 && "split"@.len() == 5);
        reveal_strlit("datetime");
        assert("<"@.len() == 1 && "datetime"@.len() == 8);
        reveal_strlit("timestamp");
        assert("<"@.len() == 1 && "timestamp"@.len() == 9);
        reveal_strlit("parse_date");
        assert("<"@.len() == 1 && "parse_date"@.len() == 10);
        reveal_strlit("format_date");
        assert("<"@.len() == 1 && "format_date"@.len() == 11);
        reveal_strlit("date_diff");
        assert("<"@.len() == 1 && "date_diff"@.len() == 9);
        reveal_strlit("abs");
        assert("<"@.len() == 1 && "abs"@.len() == 3);
        reveal_strlit("ceil");
        assert("<"@.len() == 1 && "ceil"@.len() == 4);
        reveal_strlit("floor");
        assert("<"@.len() == 1 && "floor"@.len() == 5);
        reveal_strlit("+");
        assert("<"@[0] == '<' && "+"@[0] == '+');
        reveal_strlit("-");
        assert("<"@[0] == '<' && "-"@[0] == '-');
        reveal_strlit("*");
        assert("<"@[0] == '<' && "*"@[0] == '*');
        reveal_strlit("/");
        assert("<"@[0] == '<' && "/"@[0] == '/');
        reveal_strlit("%");
        assert("<"@[0] == '<' && "%"@[0] == '%');
        reveal_strlit("==");
        assert("<"@.len() == 1 && "=="@.len() == 2);
        reveal_strlit("===");
        assert("<"@.len() == 1 && "==="@.len() == 3);
        reveal_strlit("!=");
        assert("<"@.len() == 1 && "!="@.len() == 2);
        reveal_strlit("!==");
        assert("<"@.len() == 1 && "!=="@.len() == 3);
        reveal_strlit(">");
        assert("<"@[0] == '<' && ">"@[0] == '>');
        reveal_strlit(">=");
        assert("<"@.len() == 1 && ">="@.len() == 2);
}

proof fn lemma_name_of_lessthanequal()
    ensures
        opcode_of_name(opcode_name(OpCode::LessThanEqual)) == Some(OpCode::LessThanEqual),
{
        reveal_strlit("<=");
        reveal_strlit("var");
        assert("<="@.len() == 2 && "var"@.len() == 3);
        reveal_strlit("val");
        assert("<="@.len() == 2 && "val"@.len() == 3);
        reveal_strlit("missing");
        assert("<="@.len() == 2 && "missing"@.len() == 7);
        reveal_strlit("missing_some");
        assert("<="@.len() == 2 && "missing_some"@.len() == 12);
        reveal_strlit("exists");
        assert("<="@.len() == 2 && "exists"@.len() == 6);
        reveal_strlit("map");
        assert("<="@.len() == 2 && "map"@.len() == 3);
        reveal_strlit("filter");
        assert("<="@.len() == 2 && "filter"@.len() == 6);
        reveal_strlit("reduce");
        assert("<="@.len() == 2 && "reduce"@.len() == 6);
        reveal_strlit("all");
        assert("<="@.len() == 2 && "all"@.len() == 3);
        reveal_strlit("some");
        assert("<="@.len() == 2 && "some"@.len() == 4);
        reveal_strlit("none");
        assert("<="@.len() == 2 && "none"@.len() == 4);
        reveal_strlit("try");
        assert("<="@.len() == 2 && "try"@.len() == 3);
        reveal_strlit("throw");
        assert("<="@.len() == 2 && "throw"@.len() == 5);
        reveal_strlit("now");
        assert("<="@.len() == 2 && "now"@.len() == 3);
        reveal_strlit("preserve");
        assert("<="@.len() == 2 && "preserve"@.len() == 8);
        reveal_strlit("merge");
        assert("<="@.len() == 2 && "merge"@.len() == 5);
        reveal_strlit("min");
        assert("<="@.len() == 2 && "min"@.len() == 3);
        reveal_strlit("max");
        assert("<="@.len() == 2 && "max"@.len() == 3);
        reveal_strlit("type");
        assert("<="@.len() == 2 && "type"@.len() == 4);
        reveal_strlit("starts_with");
        assert("<="@.len() == 2 && "starts_with"@.len() == 11);
        reveal_strlit("ends_with");
        assert("<="@.len() == 2 && "ends_with"@.len() == 9);
        reveal_strlit("upper");
        assert("<="@.len() == 2 && "upper"@.len() == 5);
        reveal_strlit("lower");
        assert("<="@.len() == 2 && "lower"@.len() == 5);
        reveal_strlit("trim");
        assert("<="@.len() == 2 && "trim"@.len() == 4);
        reveal_strlit("split");
        assert("<="@.len() == 2 && "split"@.len() == 5);
        reveal_strlit("datetime");
        assert("<="@.len() == 2 && "datetime"@.len() == 8);
        reveal_strlit("timestamp");
        assert("<="@.len() == 2 && "timestamp"@.len() == 9);
        reveal_strlit("parse_date");
        assert("<="@.len() == 2 && "parse_date"@.len() == 10);
        reveal_strlit("format_date");
        assert("<="@.len() == 2 && "format_date"@.len() == 11);
        reveal_strlit("date_diff");
        assert("<="@.len() == 2 && "date_diff"@.len() == 9);
        reveal_strlit("abs");
        assert("<="@.len() == 2 && "abs"@.len() == 3);
        reveal_strlit("ceil");
        assert("<="@.len() == 2 && "ceil"@.len() == 4);
        reveal_strlit("floor");
        assert("<="@.len() == 2 && "floor"@.len() == 5);
        reveal_strlit("+");
        assert("<="@.len() == 2 && "+"@.len() == 1);
        reveal_strlit("-");
        assert("<="@.len() == 2 && "-"@.len() == 1);
        reveal_strlit("*");
        assert("<="@.len() == 2 && "*"@.len() == 1);
        reveal_strlit("/");
        assert("<="@.len() == 2 && "/"@.len() == 1);
        reveal_strlit("%");
        assert("<="@.len() == 2 && "%"@.len() == 1);
        reveal_strlit("==");
        assert("<="@[0] == '<' && "=="@[0] == '=');
        reveal_strlit("===");
        assert("<="@.len() == 2 && "==="@.len() == 3);
        reveal_strlit("!=");
        assert("<="@[0] == '<' && "!="@[0] == '!');
        reveal_strlit("!==");
        assert("<="@.len() == 2 && "!=="@.len() == 3);
        reveal_strlit(">");
        assert("<="@.len() == 2 && ">"@.len() == 1);
        reveal_strlit(">=");
        assert("<="@[0] == '<' && ">="@[0] == '>');
        reveal_strlit("<");
        assert("<="@.len() == 2 && "<"@.len() == 1);
}

proof fn lemma_name_of_not()
    ensures
        opcode_of_name(opcode_name(OpCode::Not)) == Some(OpCode::Not),
{
        reveal_strlit("!");
        reveal_strlit("var");
        assert("!"@.len() == 1 && "var"@.len() == 3);
        reveal_strlit("val");
        assert("!"@.len() == 1 && "val"@.len() == 3);
        reveal_strlit("missing");
        assert("!"@.len() == 1 && "missing"@.len() == 7);
        reveal_strlit("missing_some");
        assert("!"@.len() == 1 && "missing_some"@.len() == 12);
        reveal_strlit("exists");
        assert("!"@.len() == 1 && "exists"@.len() == 6);
        reveal_strlit("map");
        assert("!"@.len() == 1 && "map"@.len() == 3);
        reveal_strlit("filter");
        assert("!"@.len() == 1 && "filter"@.len() == 6);
        reveal_strlit("reduce");
        assert("!"@.len() == 1 && "reduce"@.len() == 6);
        reveal_strlit("all");
        assert("!"@.len() == 1 && "all"@.len() == 3);
        reveal_strlit("some");
        assert("!"@.len() == 1 && "some"@.len() == 4);
        reveal_strlit("none");
        assert("!"@.len() == 1 && "none"@.len() == 4);
        reveal_strlit("try");
        assert("!"@.len() == 1 && "try"@.len() == 3);
        reveal_strlit("throw");
        assert("!"@.len() == 1 && "throw"@.len() == 5);
        reveal_strlit("now");
        assert("!"@.len() == 1 && "now"@.len() == 3);
        reveal_strlit("preserve");
        assert("!"@.len() == 1 && "preserve"@.len() == 8);
        reveal_strlit("merge");
        assert("!"@.len() == 1 && "merge"@.len() == 5);
        reveal_strlit("min");
        assert("!"@.len() == 1 && "min"@.len() == 3);
        reveal_strlit("max");
        assert("!"@.len() == 1 && "max"@.len() == 3);
        reveal_strlit("type");
        assert("!"@.len() == 1 && "type"@.len() == 4);
        reveal_strlit("starts_with");
        assert("!"@.len() == 1 && "starts_with"@.len() == 11);
        reveal_strlit("ends_with");
        assert("!"@.len() == 1 && "ends_with"@.len() == 9);
        reveal_strlit("upper");
        assert("!"@.len() == 1 && "upper"@.len() == 5);
        reveal_strlit("lower");
        assert("!"@.len() == 1 && "lower"@.len() == 5);
        reveal_strlit("trim");
        assert("!"@.len() == 1 && "trim"@.len() == 4);
        reveal_strlit("split");
        assert("!"@.len() == 1 && "split"@.len() == 5);
        reveal_strlit("datetime");
        assert("!"@.len() == 1 && "datetime"@.len() == 8);
        reveal_strlit("timestamp");
        assert("!"@.len() == 1 && "timestamp"@.len() == 9);
        reveal_strlit("parse_date");
        assert("!"@.len() == 1 && "parse_date"@.len() == 10);
        reveal_strlit("format_date");
        assert("!"@.len() == 1 && "format_date"@.len() == 11);
        reveal_strlit("date_diff");
        assert("!"@.len() == 1 && "date_diff"@.len() == 9);
        reveal_strlit("abs");
        assert("!"@.len() == 1 && "abs"@.len() == 3);
        reveal_strlit("ceil");
        assert("!"@.len() == 1 && "ceil"@.len() == 4);
        reveal_strlit("floor");
        assert("!"@.len() == 1 && "floor"@.len() == 5);
        reveal_strlit("+");
        assert("!"@[0] == '!' && "+"@[0] == '+');
        reveal_strlit("-");
        assert("!"@[0] == '!' && "-"@[0] == '-');
        reveal_strlit("*");
        assert("!"@[0] == '!' && "*"@[0] == '*');
        reveal_strlit("/");
        assert("!"@[0] == '!' && "/"@[0] == '/');
        reveal_strlit("%");
        assert("!"@[0] == '!' && "%"@[0] == '%');
        reveal_strlit("==");
        assert("!"@.len() == 1 && "=="@.len() == 2);
        reveal_strlit("===");
        assert("!"@.len() == 1 && "==="@.len() == 3);
        reveal_strlit("!=");
        assert("!"@.len() == 1 && "!="@.len() == 2);
        reveal_strlit("!==");
        assert("!"@.len() == 1 && "!=="@.len() == 3);
        reveal_strlit(">");
        assert("!"@[0] == '!' && ">"@[0] == '>');
        reveal_strlit(">=");
        assert("!"@.len() == 1 && ">="@.len() == 2);
        reveal_strlit("<");
        assert("!"@[0] == '!' && "<"@[0] == '<');
        reveal_strlit("<=");
        assert("!"@.len() == 1 && "<="@.len() == 2);
}

proof fn lemma_name_of_doublenot()
    ensures
        opcode_of_name(opcode_name(OpCode::DoubleNot)) == Some(OpCode::DoubleNot),
{
        reveal_strlit("!!");
        reveal_strlit("var");
        assert("!!"@.len() == 2 && "var"@.len() == 3);
        reveal_strlit("val");
        assert("!!"@.len() == 2 && "val"@.len() == 3);
        reveal_strlit("missing");
        assert("!!"@.len() == 2 && "missing"@.len() == 7);
        reveal_strlit("missing_some");
        assert("!!"@.len() == 2 && "missing_some"@.len() == 12);
        reveal_strlit("exists");
        assert("!!"@.len() == 2 && "exists"@.len() == 6);
        reveal_strlit("map");
        assert("!!"@.len() == 2 && "map"@.len() == 3);
        reveal_strlit("filter");
        assert("!!"@.len() == 2 && "filter"@.len() == 6);
        reveal_strlit("reduce");
        assert("!!"@.len() == 2 && "reduce"@.len() == 6);
        reveal_strlit("all");
        assert("!!"@.len() == 2 && "all"@.len() == 3);
        reveal_strlit("some");
        assert("!!"@.len() == 2 && "some"@.len() == 4);
        reveal_strlit("none");
        assert("!!"@.len() == 2 && "none"@.len() == 4);
        reveal_strlit("try");
        assert("!!"@.len() == 2 && "try"@.len() == 3);
        reveal_strlit("throw");
        assert("!!"@.len() == 2 && "throw"@.len() == 5);
        reveal_strlit("now");
        assert("!!"@.len() == 2 && "now"@.len() == 3);
        reveal_strlit("preserve");
        assert("!!"@.len() == 2 && "preserve"@.len() == 8);
        reveal_strlit("merge");
        assert("!!"@.len() == 2 && "merge"@.len() == 5);
        reveal_strlit("min");
        assert("!!"@.len() == 2 && "min"@.len() == 3);
        reveal_strlit("max");
        assert("!!"@.len() == 2 && "max"@.len() == 3);
        reveal_strlit("type");
        assert("!!"@.len() == 2 && "type"@.len() == 4);
        reveal_strlit("starts_with");
        assert("!!"@.len() == 2 && "starts_with"@.len() == 11);
        reveal_strlit("ends_with");
        assert("!!"@.len() == 2 && "ends_with"@.len() == 9);
        reveal_strlit("upper");
        assert("!!"@.len() == 2 && "upper"@.len() == 5);
        reveal_strlit("lower");
        assert("!!"@.len() == 2 && "lower"@.len() == 5);
        reveal_strlit("trim");
        assert("!!"@.len() == 2 && "trim"@.len() == 4);
        reveal_strlit("split");
        assert("!!"@.len() == 2 && "split"@.len() == 5);
        reveal_strlit("datetime");
        assert("!!"@.len() == 2 && "datetime"@.len() == 8);
        reveal_strlit("timestamp");
        assert("!!"@.len() == 2 && "timestamp"@.len() == 9);
        reveal_strlit("parse_date");
        assert("!!"@.len() == 2 && "parse_date"@.len() == 10);
        reveal_strlit("format_date");
        assert("!!"@.len() == 2 && "format_date"@.len() == 11);
        reveal_strlit("date_diff");
        assert("!!"@.len() == 2 && "date_diff"@.len() == 9);
        reveal_strlit("abs");
        assert("!!"@.len() == 2 && "abs"@.len() == 3);
        reveal_strlit("ceil");
        assert("!!"@.len() == 2 && "ceil"@.len() == 4);
        reveal_strlit("floor");
        assert("!!"@.len() == 2 && "floor"@.len() == 5);
        reveal_strlit("+");
        assert("!!"@.len() == 2 && "+"@.len() == 1);
        reveal_strlit("-");
        assert("!!"@.len() == 2 && "-"@.len() == 1);
        reveal_strlit("*");
        assert("!!"@.len() == 2 && "*"@.len() == 1);
        reveal_strlit("/");
        assert("!!"@.len() == 2 && "/"@.len() == 1);
        reveal_strlit("%");
        assert("!!"@.len() == 2 && "%"@.len() == 1);
        reveal_strlit("==");
        assert("!!"@[0] == '!' && "=="@[0] == '=');
        reveal_strlit("===");
        assert("!!"@.len() == 2 && "==="@.len() == 3);
        reveal_strlit("!=");
        assert("!!"@[1] == '!' && "!="@[1] == '=');
        reveal_strlit("!==");
        assert("!!"@.len() == 2 && "!=="@.len() == 3);
        reveal_strlit(">");
        assert("!!"@.len() == 2 && ">"@.len() == 1);
        reveal_strlit(">=");
        assert("!!"@[0] == '!' && ">="@[0] == '>');
        reveal_strlit("<");
        assert("!!"@.len() == 2 && "<"@.len() == 1);
        reveal_strlit("<=");
        assert("!!"@[0] == '!' && "<="@[0] == '<');
        reveal_strlit("!");
        assert("!!"@.len() == 2 && "!"@.len() == 1);
}

proof fn lemma_name_of_and()
    ensures
        opcode_of_name(opcode_name(OpCode::And)) == Some(OpCode::And),
{
        reveal_strlit("and");
        reveal_strlit("var");
        assert("and"@[0] == 'a' && "var"@[0] == 'v');
        reveal_strlit("val");
        assert("and"@[0] == 'a' && "val"@[0] == 'v');
        reveal_strlit("missing");
        assert("and"@.len() == 3 && "missing"@.len() == 7);
        reveal_strlit("missing_some");
        assert("and"@.len() == 3 && "missing_some"@.len() == 12);
        reveal_strlit("exists");
        assert("and"@.len() == 3 && "exists"@.len() == 6);
        reveal_strlit("map");
        assert("and"@[0] == 'a' && "map"@[0] == 'm');
        reveal_strlit("filter");
        assert("and"@.len() == 3 && "filter"@.len() == 6);
        reveal_strlit("reduce");
        assert("and"@.len() == 3 && "reduce"@.len() == 6);
        reveal_strlit("all");
        assert("and"@[1] == 'n' && "all"@[1] == 'l');
        reveal_strlit("some");
        assert("and"@.len() == 3 && "some"@.len() == 4);
        reveal_strlit("none");
        assert("and"@.len() == 3 && "none"@.len() == 4);
        reveal_strlit("try");
        assert("and"@[0] == 'a' && "try"@[0] == 't');
        reveal_strlit("throw");
        assert("and"@.len() == 3 && "throw"@.len() == 5);
        reveal_strlit("now");
        assert("and"@[0] == 'a' && "now"@[0] == 'n');
        reveal_strlit("preserve");
        assert("and"@.len() == 3 && "preserve"@.len() == 8);
        reveal_strlit("merge");
        assert("and"@.len() == 3 && "merge"@.len() == 5);
        reveal_strlit("min");
        assert("and"@[0] == 'a' && "min"@[0] == 'm');
        reveal_strlit("max");
        assert("and"@[0] == 'a' && "max"@[0] == 'm');
        reveal_strlit("type");
        assert("and"@.len() == 3 && "type"@.len() == 4);
        reveal_strlit("starts_with");
        assert("and"@.len() == 3 && "starts_with"@.len() == 11);
        reveal_strlit("ends_with");
        assert("and"@.len() == 3 && "ends_with"@.len() == 9);
        reveal_strlit("upper");
        assert("and"@.len() == 3 && "upper"@.len() == 5);
        reveal_strlit("lower");
        assert("and"@.len() == 3 && "lower"@.len() == 5);
        reveal_strlit("trim");
        assert("and"@.len() == 3 && "trim"@.len() == 4);
        reveal_strlit("split");
        assert("and"@.len() == 3 && "split"@.len() == 5);
        reveal_strlit("datetime");
        assert("and"@.len() == 3 && "datetime"@.len() == 8);
        reveal_strlit("timestamp");
        assert("and"@.len() == 3 && "timestamp"@.len() == 9);
        reveal_strlit("parse_date");
        assert("and"@.len() == 3 && "parse_date"@.len() == 10);
        reveal_strlit("format_date");
        assert("and"@.len() == 3 && "format_date"@.len() == 11);
        reveal_strlit("date_diff");
        assert("and"@.len() == 3 && "date_diff"@.len() == 9);
        reveal_strlit("abs");
        assert("and"@[1] == 'n' && "abs"@[1] == 'b');
        reveal_strlit("ceil");
        assert("and"@.len() == 3 && "ceil"@.len() == 4);
        reveal_strlit("floor");
        assert("and"@.len() == 3 && "floor"@.len() == 5);
        reveal_strlit("+");
        assert("and"@.len() == 3 && "+"@.len() == 1);
        reveal_strlit("-");
        assert("and"@.len() == 3 && "-"@.len() == 1);
        reveal_strlit("*");
        assert("and"@.len() == 3 && "*"@.len() == 1);
        reveal_strlit("/");
        assert("and"@.len() == 3 && "/"@.len() == 1);
        reveal_strlit("%");
        assert("and"@.len() == 3 && "%"@.len() == 1);
        reveal_strlit("==");
        assert("and"@.len() == 3 && "=="@.len() == 2);
        reveal_strlit("===");
        assert("and"@[0] == 'a' && "==="@[0] == '=');
        reveal_strlit("!=");
        assert("and"@.len() == 3 && "!="@.len() == 2);
        reveal_strlit("!==");
        assert("and"@[0] == 'a' && "!=="@[0] == '!');
        reveal_strlit(">");
        assert("and"@.len() == 3 && ">"@.len() == 1);
        reveal_strlit(">=");
        assert("and"@.len() == 3 && ">="@.len() == 2);
        reveal_strlit("<");
        assert("and"@.len() == 3 && "<"@.len() == 1);
        reveal_strlit("<=");
        assert("and"@.len() == 3 && "<="@.len() == 2);
        reveal_strlit("!");
        assert("and"@.len() == 3 && "!"@.len() == 1);
        reveal_strlit("!!");
        assert("and"@.len() == 3 && "!!"@.len() == 2);
}

proof fn lemma_name_of_or()
    ensures
        opcode_of_name(opcode_name(OpCode::Or)) == Some(OpCode::Or),
{
        reveal_strlit("or");
        reveal_strlit("var");
        assert("or"@.len() == 2 && "var"@.len() == 3);
        reveal_strlit("val");
        assert("or"@.len() == 2 && "val"@.len() == 3);
        reveal_strlit("missing");
        assert("or"@.len() == 2 && "missing"@.len() == 7);
        reveal_strlit("missing_some");
        assert("or"@.len() == 2 && "missing_some"@.len() == 12);
        reveal_strlit("exists");
        assert("or"@.len() == 2 && "exists"@.len() == 6);
        reveal_strlit("map");
        assert("or"@.len() == 2 && "map"@.len() == 3);
        reveal_strlit("filter");
        assert("or"@.len() == 2 && "filter"@.len() == 6);
        reveal_strlit("reduce");
        assert("or"@.len() == 2 && "reduce"@.len() == 6);
        reveal_strlit("all");
        assert("or"@.len() == 2 && "all"@.len() == 3);
        reveal_strlit("some");
        assert("or"@.len() == 2 && "some"@.len() == 4);
        reveal_strlit("none");
        assert("or"@.len() == 2 && "none"@.len() == 4);
        reveal_strlit("try");
        assert("or"@.len() == 2 && "try"@.len() == 3);
        reveal_strlit("throw");
        assert("or"@.len() == 2 && "throw"@.len() == 5);
        reveal_strlit("now");
        assert("or"@.len() == 2 && "now"@.len() == 3);
        reveal_strlit("preserve");
        assert("or"@.len() == 2 && "preserve"@.len() == 8);
        reveal_strlit("merge");
        assert("or"@.len() == 2 && "merge"@.len() == 5);
        reveal_strlit("min");
        assert("or"@.len() == 2 && "min"@.len() == 3);
        reveal_strlit("max");
        assert("or"@.len() == 2 && "max"@.len() == 3);
        reveal_strlit("type");
        assert("or"@.len() == 2 && "type"@.len() == 4);
        reveal_strlit("starts_with");
        assert("or"@.len() == 2 && "starts_with"@.len() == 11);
        reveal_strlit("ends_with");
        assert("or"@.len() == 2 && "ends_with"@.len() == 9);
        reveal_strlit("upper");
        assert("or"@.len() == 2 && "upper"@.len() == 5);
        reveal_strlit("lower");
        assert("or"@.len() == 2 && "lower"@.len() == 5);
        reveal_strlit("trim");
        assert("or"@.len() == 2 && "trim"@.len() == 4);
        reveal_strlit("split");
        assert("or"@.len() == 2 && "split"@.len() == 5);
        reveal_strlit("datetime");
        assert("or"@.len() == 2 && "datetime"@.len() == 8);
        reveal_strlit("timestamp");
        assert("or"@.len() == 2 && "timestamp"@.len() == 9);
        reveal_strlit("parse_date");
        assert("or"@.len() == 2 && "parse_date"@.len() == 10);
        reveal_strlit("format_date");
        assert("or"@.len() == 2 && "format_date"@.len() == 11);
        reveal_strlit("date_diff");
        assert("or"@.len() == 2 && "date_diff"@.len() == 9);
        reveal_strlit("abs");
        assert("or"@.len() == 2 && "abs"@.len() == 3);
        reveal_strlit("ceil");
        assert("or"@.len() == 2 && "ceil"@.len() == 4);
        reveal_strlit("floor");
        assert("or"@.len() == 2 && "floor"@.len() == 5);
        reveal_strlit("+");
        assert("or"@.len() == 2 && "+"@.len() == 1);
        reveal_strlit("-");
        assert("or"@.len() == 2 && "-"@.len() == 1);
        reveal_strlit("*");
        assert("or"@.len() == 2 && "*"@.len() == 1);
        reveal_strlit("/");
        assert("or"@.len() == 2 && "/"@.len() == 1);
        reveal_strlit("%");
        assert("or"@.len() == 2 && "%"@.len() == 1);
        reveal_strlit("==");
        assert("or"@[0] == 'o' && "=="@[0] == '=');
        reveal_strlit("===");
        assert("or"@.len() == 2 && "==="@.len() == 3);
        reveal_strlit("!=");
        assert("or"@[0] == 'o' && "!="@[0] == '!');
        reveal_strlit("!==");
        assert("or"@.len() == 2 && "!=="@.len() == 3);
        reveal_strlit(">");
        assert("or"@.len() == 2 && ">"@.len() == 1);
        reveal_strlit(">=");
        assert("or"@[0] == 'o' && ">="@[0] == '>');
        reveal_strlit("<");
        assert("or"@.len() == 2 && "<"@.len() == 1);
        reveal_strlit("<=");
        assert("or"@[0] == 'o' && "<="@[0] == '<');
        reveal_strlit("!");
        assert("or"@.len() == 2 && "!"@.len() == 1);
        reveal_strlit("!!");
        assert("or"@[0] == 'o' && "!!"@[0] == '!');
        reveal_strlit("and");
        assert("or"@.len() == 2 && "and"@.len() == 3);
}

proof fn lemma_name_of_ternary()
    ensures
        opcode_of_name(opcode_name(OpCode::Ternary)) == Some(OpCode::Ternary),
{
        reveal_strlit("?:");
        reveal_strlit("var");
        assert("?:"@.len() == 2 && "var"@.len() == 3);
        reveal_strlit("val");
        assert("?:"@.len() == 2 && "val"@.len() == 3);
        reveal_strlit("missing");
        assert("?:"@.len() == 2 && "missing"@.len() == 7);
        reveal_strlit("missing_some");
        assert("?:"@.len() == 2 && "missing_some"@.len() == 12);
        reveal_strlit("exists");
        assert("?:"@.len() == 2 && "exists"@.len() == 6);
        reveal_strlit("map");
        assert("?:"@.len() == 2 && "map"@.len() == 3);
        reveal_strlit("filter");
        assert("?:"@.len() == 2 && "filter"@.len() == 6);
        reveal_strlit("reduce");
        assert("?:"@.len() == 2 && "reduce"@.len() == 6);
        reveal_strlit("all");
        assert("?:"@.len() == 2 && "all"@.len() == 3);
        reveal_strlit("some");
        assert("?:"@.len() == 2 && "some"@.len() == 4);
        reveal_strlit("none");
        assert("?:"@.len() == 2 && "none"@.len() == 4);
        reveal_strlit("try");
        assert("?:"@.len() == 2 && "try"@.len() == 3);
        reveal_strlit("throw");
        assert("?:"@.len() == 2 && "throw"@.len() == 5);
        reveal_strlit("now");
        assert("?:"@.len() == 2 && "now"@.len() == 3);
        reveal_strlit("preserve");
        assert("?:"@.len() == 2 && "preserve"@.len() == 8);
        reveal_strlit("merge");
        assert("?:"@.len() == 2 && "merge"@.len() == 5);
        reveal_strlit("min");
        assert("?:"@.len() == 2 && "min"@.len() == 3);
        reveal_strlit("max");
        assert("?:"@.len() == 2 && "max"@.len() == 3);
        reveal_strlit("type");
        assert("?:"@.len() == 2 && "type"@.len() == 4);
        reveal_strlit("starts_with");
        assert("?:"@.len() == 2 && "starts_with"@.len() == 11);
        reveal_strlit("ends_with");
        assert("?:"@.len() == 2 && "ends_with"@.len() == 9);
        reveal_strlit("upper");
        assert("?:"@.len() == 2 && "upper"@.len() == 5);
        reveal_strlit("lower");
        assert("?:"@.len() == 2 && "lower"@.len() == 5);
        reveal_strlit("trim");
        assert("?:"@.len() == 2 && "trim"@.len() == 4);
        reveal_strlit("split");
        assert("?:"@.len() == 2 && "split"@.len() == 5);
        reveal_strlit("datetime");
        assert("?:"@.len() == 2 && "datetime"@.len() == 8);
        reveal_strlit("timestamp");
        assert("?:"@.len() == 2 && "timestamp"@.len() == 9);
        reveal_strlit("parse_date");
        assert("?:"@.len() == 2 && "parse_date"@.len() == 10);
        reveal_strlit("format_date");
        assert("?:"@.len() == 2 && "format_date"@.len() == 11);
        reveal_strlit("date_diff");
        assert("?:"@.len() == 2 && "date_diff"@.len() == 9);
        reveal_strlit("abs");
        assert("?:"@.len() == 2 && "abs"@.len() == 3);
        reveal_strlit("ceil");
        assert("?:"@.len() == 2 && "ceil"@.len() == 4);
        reveal_strlit("floor");
        assert("?:"@.len() == 2 && "floor"@.len() == 5);
        reveal_strlit("+");
        assert("?:"@.len() == 2 && "+"@.len() == 1);
        reveal_strlit("-");
        assert("?:"@.len() == 2 && "-"@.len() == 1);
        reveal_strlit("*");
        assert("?:"@.len() == 2 && "*"@.len() == 1);
        reveal_strlit("/");
        assert("?:"@.len() == 2 && "/"@.len() == 1);
        reveal_strlit("%");
        assert("?:"@.len() == 2 && "%"@.len() == 1);
        reveal_strlit("==");
        assert("?:"@[0] == '?' && "=="@[0] == '=');
        reveal_strlit("===");
        assert("?:"@.len() == 2 && "==="@.len() == 3);
        reveal_strlit("!=");
        assert("?:"@[0] == '?' && "!="@[0] == '!');
        reveal_strlit("!==");
        assert("?:"@.len() == 2 && "!=="@.len() == 3);
        reveal_strlit(">");
        assert("?:"@.len() == 2 && ">"@.len() == 1);
        reveal_strlit(">=");
        assert("?:"@[0] == '?' && ">="@[0] == '>');
        reveal_strlit("<");
        assert("?:"@.len() == 2 && "<"@.len() == 1);
        reveal_strlit("<=");
        assert("?:"@[0] == '?' && "<="@[0] == '<');
        reveal_strlit("!");
        assert("?:"@.len() == 2 && "!"@.len() == 1);
        reveal_strlit("!!");
        assert("?:"@[0] == '?' && "!!"@[0] == '!');
        reveal_strlit("and");
        assert("?:"@.len() == 2 && "and"@.len() == 3);
        reveal_strlit("or");
        assert("?:"@[0] == '?' && "or"@[0] == 'o');
}

proof fn lemma_name_of_if()
    ensures
        opcode_of_name(opcode_name(OpCode::If)) == Some(OpCode::If),
{
        reveal_strlit("if");
        reveal_strlit("var");
        assert("if"@.len() == 2 && "var"@.len() == 3);
        reveal_strlit("val");
        assert("if"@.len() == 2 && "val"@.len() == 3);
        reveal_strlit("missing");
        assert("if"@.len() == 2 && "missing"@.len() == 7);
        reveal_strlit("missing_some");
        assert("if"@.len() == 2 && "missing_some"@.len() == 12);
        reveal_strlit("exists");
        assert("if"@.len() == 2 && "exists"@.len() == 6);
        reveal_strlit("map");
        assert("if"@.len() == 2 && "map"@.len() == 3);
        reveal_strlit("filter");
        assert("if"@.len() == 2 && "filter"@.len() == 6);
        reveal_strlit("reduce");
        assert("if"@.len() == 2 && "reduce"@.len() == 6);
        reveal_strlit("all");
        assert("if"@.len() == 2 && "all"@.len() == 3);
        reveal_strlit("some");
        assert("if"@.len() == 2 && "some"@.len() == 4);
        reveal_strlit("none");
        assert("if"@.len() == 2 && "none"@.len() == 4);
        reveal_strlit("try");
        assert("if"@.len() == 2 && "try"@.len() == 3);
        reveal_strlit("throw");
        assert("if"@.len() == 2 && "throw"@.len() == 5);
        reveal_strlit("now");
        assert("if"@.len() == 2 && "now"@.len() == 3);
        reveal_strlit("preserve");
        assert("if"@.len() == 2 && "preserve"@.len() == 8);
        reveal_strlit("merge");
        assert("if"@.len() == 2 && "merge"@.len() == 5);
        reveal_strlit("min");
        assert("if"@.len() == 2 && "min"@.len() == 3);
        reveal_strlit("max");
        assert("if"@.len() == 2 && "max"@.len() == 3);
        reveal_strlit("type");
        assert("if"@.len() == 2 && "type"@.len() == 4);
        reveal_strlit("starts_with");
        assert("if"@.len() == 2 && "starts_with"@.len() == 11);
        reveal_strlit("ends_with");
        assert("if"@.len() == 2 && "ends_with"@.len() == 9);
        reveal_strlit("upper");
        assert("if"@.len() == 2 && "upper"@.len() == 5);
        reveal_strlit("lower");
        assert("if"@.len() == 2 && "lower"@.len() == 5);
        reveal_strlit("trim");
        assert("if"@.len() == 2 && "trim"@.len() == 4);
        reveal_strlit("split");
        assert("if"@.len() == 2 && "split"@.len() == 5);
        reveal_strlit("datetime");
        assert("if"@.len() == 2 && "datetime"@.len() == 8);
        reveal_strlit("timestamp");
        assert("if"@.len() == 2 && "timestamp"@.len() == 9);
        reveal_strlit("parse_date");
        assert("if"@.len() == 2 && "parse_date"@.len() == 10);
        reveal_strlit("format_date");
        assert("if"@.len() == 2 && "format_date"@.len() == 11);
        reveal_strlit("date_diff");
        assert("if"@.len() == 2 && "date_diff"@.len() == 9);
        reveal_strlit("abs");
        assert("if"@.len() == 2 && "abs"@.len() == 3);
        reveal_strlit("ceil");
        assert("if"@.len() == 2 && "ceil"@.len() == 4);
        reveal_strlit("floor");
        assert("if"@.len() == 2 && "floor"@.len() == 5);
        reveal_strlit("+");
        assert("if"@.len() == 2 && "+"@.len() == 1);
        reveal_strlit("-");
        assert("if"@.len() == 2 && "-"@.len() == 1);
        reveal_strlit("*");
        assert("if"@.len() == 2 && "*"@.len() == 1);
        reveal_strlit("/");
        assert("if"@.len() == 2 && "/"@.len() == 1);
        reveal_strlit("%");
        assert("if"@.len() == 2 && "%"@.len() == 1);
        reveal_strlit("==");
        assert("if"@[0] == 'i' && "=="@[0] == '=');
        reveal_strlit("===");
        assert("if"@.len() == 2 && "==="@.len() == 3);
        reveal_strlit("!=");
        assert("if"@[0] == 'i' && "!="@[0] == '!');
        reveal_strlit("!==");
        assert("if"@.len() == 2 && "!=="@.len() == 3);
        reveal_strlit(">");
        assert("if"@.len() == 2 && ">"@.len() == 1);
        reveal_strlit(">=");
        assert("if"@[0] == 'i' && ">="@[0] == '>');
        reveal_strlit("<");
        assert("if"@.len() == 2 && "<"@.len() == 1);
        reveal_strlit("<=");
        assert("if"@[0] == 'i' && "<="@[0] == '<');
        reveal_strlit("!");
        assert("if"@.len() == 2 && "!"@.len() == 1);
        reveal_strlit("!!");
        assert("if"@[0] == 'i' && "!!"@[0] == '!');
        reveal_strlit("and");
        assert("if"@.len() == 2 && "and"@.len() == 3);
        reveal_strlit("or");
        assert("if"@[0] == 'i' && "or"@[0] == 'o');
        reveal_strlit("?:");
        assert("if"@[0] == 'i' && "?:"@[0] == '?');
}

proof fn lemma_name_of_cat()
    ensures
        opcode_of_name(opcode_name(OpCode::Cat)) == Some(OpCode::Cat),
{
        reveal_strlit("cat");
        reveal_strlit("var");
        assert("cat"@[0] == 'c' && "var"@[0] == 'v');
        reveal_strlit("val");
        assert("cat"@[0] == 'c' && "val"@[0] == 'v');
        reveal_strlit("missing");
        assert("cat"@.len() == 3 && "missing"@.len() == 7);
        reveal_strlit("missing_some");
        assert("cat"@.len() == 3 && "missing_some"@.len() == 12);
        reveal_strlit("exists");
        assert("cat"@.len() == 3 && "exists"@.len() == 6);
        reveal_strlit("map");
        assert("cat"@[0] == 'c' && "map"@[0] == 'm');
        reveal_strlit("filter");
        assert("cat"@.len() == 3 && "filter"@.len() == 6);
        reveal_strlit("reduce");
        assert("cat"@.len() == 3 && "reduce"@.len() == 6);
        reveal_strlit("all");
        assert("cat"@[0] == 'c' && "all"@[0] == 'a');
        reveal_strlit("some");
        assert("cat"@.len() == 3 && "some"@.len() == 4);
        reveal_strlit("none");
        assert("cat"@.len() == 3 && "none"@.len() == 4);
        reveal_strlit("try");
        assert("cat"@[0] == 'c' && "try"@[0] == 't');
        reveal_strlit("throw");
        assert("cat"@.len() == 3 && "throw"@.len() == 5);
        reveal_strlit("now");
        assert("cat"@[0] == 'c' && "now"@[0] == 'n');
        reveal_strlit("preserve");
        assert("cat"@.len() == 3 && "preserve"@.len() == 8);
        reveal_strlit("merge");
        assert("cat"@.len() == 3 && "merge"@.len() == 5);
        reveal_strlit("min");
        assert("cat"@[0] == 'c' && "min"@[0] == 'm');
        reveal_strlit("max");
        assert("cat"@[0] == 'c' && "max"@[0] == 'm');
        reveal_strlit("type");
        assert("cat"@.len() == 3 && "type"@.len() == 4);
        reveal_strlit("starts_with");
        assert("cat"@.len() == 3 && "starts_with"@.len() == 11);
        reveal_strlit("ends_with");
        assert("cat"@.len() == 3 && "ends_with"@.len() == 9);
        reveal_strlit("upper");
        assert("cat"@.len() == 3 && "upper"@.len() == 5);
        reveal_strlit("lower");
        assert("cat"@.len() == 3 && "lower"@.len() == 5);
        reveal_strlit("trim");
        assert("cat"@.len() == 3 && "trim"@.len() == 4);
        reveal_strlit("split");
        assert("cat"@.len() == 3 && "split"@.len() == 5);
        reveal_strlit("datetime");
        assert("cat"@.len() == 3 && "datetime"@.len() == 8);
        reveal_strlit("timestamp");
        assert("cat"@.len() == 3 && "timestamp"@.len() == 9);
        reveal_strlit("parse_date");
        assert("cat"@.len() == 3 && "parse_date"@.len() == 10);
        reveal_strlit("format_date");
        assert("cat"@.len() == 3 && "format_date"@.len() == 11);
        reveal_strlit("date_diff");
        assert("cat"@.len() == 3 && "date_diff"@.len() == 9);
        reveal_strlit("abs");
        assert("cat"@[0] == 'c' && "abs"@[0] == 'a');
        reveal_strlit("ceil");
        assert("cat"@.len() == 3 && "ceil"@.len() == 4);
        reveal_strlit("floor");
        assert("cat"@.len() == 3 && "floor"@.len() == 5);
        reveal_strlit("+");
        assert("cat"@.len() == 3 && "+"@.len() == 1);
        reveal_strlit("-");
        assert("cat"@.len() == 3 && "-"@.len() == 1);
        reveal_strlit("*");
        assert("cat"@.len() == 3 && "*"@.len() == 1);
        reveal_strlit("/");
        assert("cat"@.len() == 3 && "/"@.len() == 1);
        reveal_strlit("%");
        assert("cat"@.len() == 3 && "%"@.len() == 1);
        reveal_strlit("==");
        assert("cat"@.len() == 3 && "=="@.len() == 2);
        reveal_strlit("===");
        assert("cat"@[0] == 'c' && "==="@[0] == '=');
        reveal_strlit("!=");
        assert("cat"@.len() == 3 && "!="@.len() == 2);
        reveal_strlit("!==");
        assert("cat"@[0] == 'c' && "!=="@[0] == '!');
        reveal_strlit(">");
        assert("cat"@.len() == 3 && ">"@.len() == 1);
        reveal_strlit(">=");
        assert("cat"@.len() == 3 && ">="@.len() == 2);
        reveal_strlit("<");
        assert("cat"@.len() == 3 && "<"@.len() == 1);
        reveal_strlit("<=");
        assert("cat"@.len() == 3 && "<="@.len() == 2);
        reveal_strlit("!");
        assert("cat"@.len() == 3 && "!"@.len() == 1);
        reveal_strlit("!!");
        assert("cat"@.len() == 3 && "!!"@.len() == 2);
        reveal_strlit("and");
        assert("cat"@[0] == 'c' && "and"@[0] == 'a');
        reveal_strlit("or");
        assert("cat"@.len() == 3 && "or"@.len() == 2);
        reveal_strlit("?:");
        assert("cat"@.len() == 3 && "?:"@.len() == 2);
        reveal_strlit("if");
        assert("cat"@.len() == 3 && "if"@.len() == 2);
}

proof fn lemma_name_of_substr()
    ensures
        opcode_of_name(opcode_name(OpCode::Substr)) == Some(OpCode::Substr),
{
        reveal_strlit("substr");
        reveal_strlit("var");
        assert("substr"@.len() == 6 && "var"@.len() == 3);
        reveal_strlit("val");
        assert("substr"@.len() == 6 && "val"@.len() == 3);
        reveal_strlit("missing");
        assert("substr"@.len() == 6 && "missing"@.len() == 7);
        reveal_strlit("missing_some");
        assert("substr"@.len() == 6 && "missing_some"@.len() == 12);
        reveal_strlit("exists");
        assert("substr"@[0] == 's' && "exists"@[0] == 'e');
        reveal_strlit("map");
        assert("substr"@.len() == 6 && "map"@.len() == 3);
        reveal_strlit("filter");
        assert("substr"@[0] == 's' && "filter"@[0] == 'f');
        reveal_strlit("reduce");
        assert("substr"@[0] == 's' && "reduce"@[0] == 'r');
        reveal_strlit("all");
        assert("substr"@.len() == 6 && "all"@.len() == 3);
        reveal_strlit("some");
        assert("substr"@.len() == 6 && "some"@.len() == 4);
        reveal_strlit("none");
        assert("substr"@.len() == 6 && "none"@.len() == 4);
        reveal_strlit("try");
        assert("substr"@.len() == 6 && "try"@.len() == 3);
        reveal_strlit("throw");
        assert("substr"@.len() == 6 && "throw"@.len() == 5);
        reveal_strlit("now");
        assert("substr"@.len() == 6 && "now"@.len() == 3);
        reveal_strlit("preserve");
        assert("substr"@.len() == 6 && "preserve"@.len() == 8);
        reveal_strlit("merge");
        assert("substr"@.len() == 6 && "merge"@.len() == 5);
        reveal_strlit("min");
        assert("substr"@.len() == 6 && "min"@.len() == 3);
        reveal_strlit("max");
        assert("substr"@.len() == 6 && "max"@.len() == 3);
        reveal_strlit("type");
        assert("substr"@.len() == 6 && "type"@.len() == 4);
        reveal_strlit("starts_with");
        assert("substr"@.len() == 6 && "starts_with"@.len() == 11);
        reveal_strlit("ends_with");
        assert("substr"@.len() == 6 && "ends_with"@.len() == 9);
        reveal_strlit("upper");
        assert("substr"@.len() == 6 && "upper"@.len() == 5);
        reveal_strlit("lower");
        assert("substr"@.len() == 6 && "lower"@.len() == 5);
        reveal_strlit("trim");
        assert("substr"@.len() == 6 && "trim"@.len() == 4);
        reveal_strlit("split");
        assert("substr"@.len() == 6 && "split"@.len() == 5);
        reveal_strlit("datetime");
        assert("substr"@.len() == 6 && "datetime"@.len() == 8);
        reveal_strlit("timestamp");
        assert("substr"@.len() == 6 && "timestamp"@.len() == 9);
        reveal_strlit("parse_date");
        assert("substr"@.len() == 6 && "parse_date"@.len() == 10);
        reveal_strlit("format_date");
        assert("substr"@.len() == 6 && "format_date"@.len() == 11);
        reveal_strlit("date_diff");
        assert("substr"@.len() == 6 && "date_diff"@.len() == 9);
        reveal_strlit("abs");
        assert("substr"@.len() == 6 && "abs"@.len() == 3);
        reveal_strlit("ceil");
        assert("substr"@.len() == 6 && "ceil"@.len() == 4);
        reveal_strlit("floor");
        assert("substr"@.len() == 6 && "floor"@.len() == 5);
        reveal_strlit("+");
        assert("substr"@.len() == 6 && "+"@.len() == 1);
        reveal_strlit("-");
        assert("substr"@.len() == 6 && "-"@.len() == 1);
        reveal_strlit("*");
        assert("substr"@.len() == 6 && "*"@.len() == 1);
        reveal_strlit("/");
        assert("substr"@.len() == 6 && "/"@.len() == 1);
        reveal_strlit("%");
        assert("substr"@.len() == 6 && "%"@.len() == 1);
        reveal_strlit("==");
        assert("substr"@.len() == 6 && "=="@.len() == 2);
        reveal_strlit("===");
        assert("substr"@.len() == 6 && "==="@.len() == 3);
        reveal_strlit("!=");
        assert("substr"@.len() == 6 && "!="@.len() == 2);
        reveal_strlit("!==");
        assert("substr"@.len() == 6 && "!=="@.len() == 3);
        reveal_strlit(">");
        assert("substr"@.len() == 6 && ">"@.len() == 1);
        reveal_strlit(">=");
        assert("substr"@.len() == 6 && ">="@.len() == 2);
        reveal_strlit("<");
        assert("substr"@.len() == 6 && "<"@.len() == 1);
        reveal_strlit("<=");
        assert("substr"@.len() == 6 && "<="@.len() == 2);
        reveal_strlit("!");
        assert("substr"@.len() == 6 && "!"@.len() == 1);
        reveal_strlit("!!");
        assert("substr"@.len() == 6 && "!!"@.len() == 2);
        reveal_strlit("and");
        assert("substr"@.len() == 6 && "and"@.len() == 3);
        reveal_strlit("or");
        assert("substr"@.len() == 6 && "or"@.len() == 2);
        reveal_strlit("?:");
        assert("substr"@.len() == 6 && "?:"@.len() == 2);
        reveal_strlit("if");
        assert("substr"@.len() == 6 && "if"@.len() == 2);
        reveal_strlit("cat");
        assert("substr"@.len() == 6 && "cat"@.len() == 3);
}

proof fn lemma_name_of_in()
    ensures
        opcode_of_name(opcode_name(OpCode::In)) == Some(OpCode::In),
{
        reveal_strlit("in");
        reveal_strlit("var");
        assert("in"@.len() == 2 && "var"@.len() == 3);
        reveal_strlit("val");
        assert("in"@.len() == 2 && "val"@.len() == 3);
        reveal_strlit("missing");
        assert("in"@.len() == 2 && "missing"@.len() == 7);
        reveal_strlit("missing_some");
        assert("in"@.len() == 2 && "missing_some"@.len() == 12);
        reveal_strlit("exists");
        assert("in"@.len() == 2 && "exists"@.len() == 6);
        reveal_strlit("map");
        assert("in"@.len() == 2 && "map"@.len() == 3);
        reveal_strlit("filter");
        assert("in"@.len() == 2 && "filter"@.len() == 6);
        reveal_strlit("reduce");
        assert("in"@.len() == 2 && "reduce"@.len() == 6);
        reveal_strlit("all");
        assert("in"@.len() == 2 && "all"@.len() == 3);
        reveal_strlit("some");
        assert("in"@.len() == 2 && "some"@.len() == 4);
        reveal_strlit("none");
        assert("in"@.len() == 2 && "none"@.len() == 4);
        reveal_strlit("try");
        assert("in"@.len() == 2 && "try"@.len() == 3);
        reveal_strlit("throw");
        assert("in"@.len() == 2 && "throw"@.len() == 5);
        reveal_strlit("now");
        assert("in"@.len() == 2 && "now"@.len() == 3);
        reveal_strlit("preserve");
        assert("in"@.len() == 2 && "preserve"@.len() == 8);
        reveal_strlit("merge");
        assert("in"@.len() == 2 && "merge"@.len() == 5);
        reveal_strlit("min");
        assert("in"@.len() == 2 && "min"@.len() == 3);
        reveal_strlit("max");
        assert("in"@.len() == 2 && "max"@.len() == 3);
        reveal_strlit("type");
        assert("in"@.len() == 2 && "type"@.len() == 4);
        reveal_strlit("starts_with");
        assert("in"@.len() == 2 && "starts_with"@.len() == 11);
        reveal_strlit("ends_with");
        assert("in"@.len() == 2 && "ends_with"@.len() == 9);
        reveal_strlit("upper");
        assert("in"@.len() == 2 && "upper"@.len() == 5);
        reveal_strlit("lower");
        assert("in"@.len() == 2 && "lower"@.len() == 5);
        reveal_strlit("trim");
        assert("in"@.len() == 2 && "trim"@.len() == 4);
        reveal_strlit("split");
        assert("in"@.len() == 2 && "split"@.len() == 5);
        reveal_strlit("datetime");
        assert("in"@.len() == 2 && "datetime"@.len() == 8);
        reveal_strlit("timestamp");
        assert("in"@.len() == 2 && "timestamp"@.len() == 9);
        reveal_strlit("parse_date");
        assert("in"@.len() == 2 && "parse_date"@.len() == 10);
        reveal_strlit("format_date");
        assert("in"@.len() == 2 && "format_date"@.len() == 11);
        reveal_strlit("date_diff");
        assert("in"@.len() == 2 && "date_diff"@.len() == 9);
        reveal_strlit("abs");
        assert("in"@.len() == 2 && "abs"@.len() == 3);
        reveal_strlit("ceil");
        assert("in"@.len() == 2 && "ceil"@.len() == 4);
        reveal_strlit("floor");
        assert("in"@.len() == 2 && "floor"@.len() == 5);
        reveal_strlit("+");
        assert("in"@.len() == 2 && "+"@.len() == 1);
        reveal_strlit("-");
        assert("in"@.len() == 2 && "-"@.len() == 1);
        reveal_strlit("*");
        assert("in"@.len() == 2 && "*"@.len() == 1);
        reveal_strlit("/");
        assert("in"@.len() == 2 && "/"@.len() == 1);
        reveal_strlit("%");
        assert("in"@.len() == 2 && "%"@.len() == 1);
        reveal_strlit("==");
        assert("in"@[0] == 'i' && "=="@[0] == '=');
        reveal_strlit("===");
        assert("in"@.len() == 2 && "==="@.len() == 3);
        reveal_strlit("!=");
        assert("in"@[0] == 'i' && "!="@[0] == '!');
        reveal_strlit("!==");
        assert("in"@.len() == 2 && "!=="@.len() == 3);
        reveal_strlit(">");
        assert("in"@.len() == 2 && ">"@.len() == 1);
        reveal_strlit(">=");
        assert("in"@[0] == 'i' && ">="@[0] == '>');
        reveal_strlit("<");
        assert("in"@.len() == 2 && "<"@.len() == 1);
        reveal_strlit("<=");
        assert("in"@[0] == 'i' && "<="@[0] == '<');
        reveal_strlit("!");
        assert("in"@.len() == 2 && "!"@.len() == 1);
        reveal_strlit("!!");
        assert("in"@[0] == 'i' && "!!"@[0] == '!');
        reveal_strlit("and");
        assert("in"@.len() == 2 && "and"@.len() == 3);
        reveal_strlit("or");
        assert("in"@[0] == 'i' && "or"@[0] == 'o');
        reveal_strlit("?:");
        assert("in"@[0] == 'i' && "?:"@[0] == '?');
        reveal_strlit("if");
        assert("in"@[1] == 'n' && "if"@[1] == 'f');
        reveal_strlit("cat");
        assert("in"@.len() == 2 && "cat"@.len() == 3);
        reveal_strlit("substr");
        assert("in"@.len() == 2 && "substr"@.len() == 6);
}

proof fn lemma_name_of_length()
    ensures
        opcode_of_name(opcode_name(OpCode::Length)) == Some(OpCode::Length),
{
        reveal_strlit("length");
        reveal_strlit("var");
        assert("length"@.len() == 6 && "var"@.len() == 3);
        reveal_strlit("val");
        assert("length"@.len() == 6 && "val"@.len() == 3);
        reveal_strlit("missing");
        assert("length"@.len() == 6 && "missing"@.len() == 7);
        reveal_strlit("missing_some");
        assert("length"@.len() == 6 && "missing_some"@.len() == 12);
        reveal_strlit("exists");
        assert("length"@[0] == 'l' && "exists"@[0] == 'e');
        reveal_strlit("map");
        assert("length"@.len() == 6 && "map"@.len() == 3);
        reveal_strlit("filter");
        assert("length"@[0] == 'l' && "filter"@[0] == 'f');
        reveal_strlit("reduce");
        assert("length"@[0] == 'l' && "reduce"@[0] == 'r');
        reveal_strlit("all");
        assert("length"@.len() == 6 && "all"@.len() == 3);
        reveal_strlit("some");
        assert("length"@.len() == 6 && "some"@.len() == 4);
        reveal_strlit("none");
        assert("length"@.len() == 6 && "none"@.len() == 4);
        reveal_strlit("try");
        assert("length"@.len() == 6 && "try"@.len() == 3);
        reveal_strlit("throw");
        assert("length"@.len() == 6 && "throw"@.len() == 5);
        reveal_strlit("now");
        assert("length"@.len() == 6 && "now"@.len() == 3);
        reveal_strlit("preserve");
        assert("length"@.len() == 6 && "preserve"@.len() == 8);
        reveal_strlit("merge");
        assert("length"@.len() == 6 && "merge"@.len() == 5);
        reveal_strlit("min");
        assert("length"@.len() == 6 && "min"@.len() == 3);
        reveal_strlit("max");
        assert("length"@.len() == 6 && "max"@.len() == 3);
        reveal_strlit("type");
        assert("length"@.len() == 6 && "type"@.len() == 4);
        reveal_strlit("starts_with");
        assert("length"@.len() == 6 && "starts_with"@.len() == 11);
        reveal_strlit("ends_with");
        assert("length"@.len() == 6 && "ends_with"@.len() == 9);
        reveal_strlit("upper");
        assert("length"@.len() == 6 && "upper"@.len() == 5);
        reveal_strlit("lower");
        assert("length"@.len() == 6 && "lower"@.len() == 5);
        reveal_strlit("trim");
        assert("length"@.len() == 6 && "trim"@.len() == 4);
        reveal_strlit("split");
        assert("length"@.len() == 6 && "split"@.len() == 5);
        reveal_strlit("datetime");
        assert("length"@.len() == 6 && "datetime"@.len() == 8);
        reveal_strlit("timestamp");
        assert("length"@.len() == 6 && "timestamp"@.len() == 9);
        reveal_strlit("parse_date");
        assert("length"@.len() == 6 && "parse_date"@.len() == 10);
        reveal_strlit("format_date");
        assert("length"@.len() == 6 && "format_date"@.len() == 11);
        reveal_strlit("date_diff");
        assert("length"@.len() == 6 && "date_diff"@.len() == 9);
        reveal_strlit("abs");
        assert("length"@.len() == 6 && "abs"@.len() == 3);
        reveal_strlit("ceil");
        assert("length"@.len() == 6 && "ceil"@.len() == 4);
        reveal_strlit("floor");
        assert("length"@.len() == 6 && "floor"@.len() == 5);
        reveal_strlit("+");
        assert("length"@.len() == 6 && "+"@.len() == 1);
        reveal_strlit("-");
        assert("length"@.len() == 6 && "-"@.len() == 1);
        reveal_strlit("*");
        assert("length"@.len() == 6 && "*"@.len() == 1);
        reveal_strlit("/");
        assert("length"@.len() == 6 && "/"@.len() == 1);
        reveal_strlit("%");
        assert("length"@.len() == 6 && "%"@.len() == 1);
        reveal_strlit("==");
        assert("length"@.len() == 6 && "=="@.len() == 2);
        reveal_strlit("===");
        assert("length"@.len() == 6 && "==="@.len() == 3);
        reveal_strlit("!=");
        assert("length"@.len() == 6 && "!="@.len() == 2);
        reveal_strlit("!==");
        assert("length"@.len() == 6 && "!=="@.len() == 3);
        reveal_strlit(">");
        assert("length"@.len() == 6 && ">"@.len() == 1);
        reveal_strlit(">=");
        assert("length"@.len() == 6 && ">="@.len() == 2);
        reveal_strlit("<");
        assert("length"@.len() == 6 && "<"@.len() == 1);
        reveal_strlit("<=");
        assert("length"@.len() == 6 && "<="@.len() == 2);
        reveal_strlit("!");
        assert("length"@.len() == 6 && "!"@.len() == 1);
        reveal_strlit("!!");
        assert("length"@.len() == 6 && "!!"@.len() == 2);
        reveal_strlit("and");
        assert("length"@.len() == 6 && "and"@.len() == 3);
        reveal_strlit("or");
        assert("length"@.len() == 6 && "or"@.len() == 2);
        reveal_strlit("?:");
        assert("length"@.len() == 6 && "?:"@.len() == 2);
        reveal_strlit("if");
        assert("length"@.len() == 6 && "if"@.len() == 2);
        reveal_strlit("cat");
        assert("length"@.len() == 6 && "cat"@.len() == 3);
        reveal_strlit("substr");
        assert("length"@[0] == 'l' && "substr"@[0] == 's');
        reveal_strlit("in");
        assert("length"@.len() == 6 && "in"@.len() == 2);
}

proof fn lemma_name_of_sort()
    ensures
        opcode_of_name(opcode_name(OpCode::Sort)) == Some(OpCode::Sort),
{
        reveal_strlit("sort");
        reveal_strlit("var");
        assert("sort"@.len() == 4 && "var"@.len() == 3);
        reveal_strlit("val");
        assert("sort"@.len() == 4 && "val"@.len() == 3);
        reveal_strlit("missing");
        assert("sort"@.len() == 4 && "missing"@.len() == 7);
        reveal_strlit("missing_some");
        assert("sort"@.len() == 4 && "missing_some"@.len() == 12);
        reveal_strlit("exists");
        assert("sort"@.len() == 4 && "exists"@.len() == 6);
        reveal_strlit("map");
        assert("sort"@.len() == 4 && "map"@.len() == 3);
        reveal_strlit("filter");
        assert("sort"@.len() == 4 && "filter"@.len() == 6);
        reveal_strlit("reduce");
        assert("sort"@.len() == 4 && "reduce"@.len() == 6);
        reveal_strlit("all");
        assert("sort"@.len() == 4 && "all"@.len() == 3);
        reveal_strlit("some");
        assert("sort"@[2] == 'r' && "some"@[2] == 'm');
        reveal_strlit("none");
        assert("sort"@[0] == 's' && "none"@[0] == 'n');
        reveal_strlit("try");
        assert("sort"@.len() == 4 && "try"@.len() == 3);
        reveal_strlit("throw");
        assert("sort"@.len() == 4 && "throw"@.len() == 5);
        reveal_strlit("now");
        assert("sort"@.len() == 4 && "now"@.len() == 3);
        reveal_strlit("preserve");
        assert("sort"@.len() == 4 && "preserve"@.len() == 8);
        reveal_strlit("merge");
        assert("sort"@.len() == 4 && "merge"@.len() == 5);
        reveal_strlit("min");
        assert("sort"@.len() == 4 && "min"@.len() == 3);
        reveal_strlit("max");
        assert("sort"@.len() == 4 && "max"@.len() == 3);
        reveal_strlit("type");
        assert("sort"@[0] == 's' && "type"@[0] == 't');
        reveal_strlit("starts_with");
        assert("sort"@.len() == 4 && "starts_with"@.len() == 11);
        reveal_strlit("ends_with");
        assert("sort"@.len() == 4 && "ends_with"@.len() == 9);
        reveal_strlit("upper");
        assert("sort"@.len() == 4 && "upper"@.len() == 5);
        reveal_strlit("lower");
        assert("sort"@.len() == 4 && "lower"@.len() == 5);
        reveal_strlit("trim");
        assert("sort"@[0] == 's' && "trim"@[0] == 't');
        reveal_strlit("split");
        assert("sort"@.len() == 4 && "split"@.len() == 5);
        reveal_strlit("datetime");
        assert("sort"@.len() == 4 && "datetime"@.len() == 8);
        reveal_strlit("timestamp");
        assert("sort"@.len() == 4 && "timestamp"@.len() == 9);
        reveal_strlit("parse_date");
        assert("sort"@.len() == 4 && "parse_date"@.len() == 10);
        reveal_strlit("format_date");
        assert("sort"@.len() == 4 && "format_date"@.len() == 11);
        reveal_strlit("date_diff");
        assert("sort"@.len() == 4 && "date_diff"@.len() == 9);
        reveal_strlit("abs");
        assert("sort"@.len() == 4 && "abs"@.len() == 3);
        reveal_strlit("ceil");
        assert("sort"@[0] == 's' && "ceil"@[0] == 'c');
        reveal_strlit("floor");
        assert("sort"@.len() == 4 && "floor"@.len() == 5);
        reveal_strlit("+");
        assert("sort"@.len() == 4 && "+"@.len() == 1);
        reveal_strlit("-");
        assert("sort"@.len() == 4 && "-"@.len() == 1);
        reveal_strlit("*");
        assert("sort"@.len() == 4 && "*"@.len() == 1);
        reveal_strlit("/");
        assert("sort"@.len() == 4 && "/"@.len() == 1);
        reveal_strlit("%");
        assert("sort"@.len() == 4 && "%"@.len() == 1);
        reveal_strlit("==");
        assert("sort"@.len() == 4 && "=="@.len() == 2);
        reveal_strlit("===");
        assert("sort"@.len() == 4 && "==="@.len() == 3);
        reveal_strlit("!=");
        assert("sort"@.len() == 4 && "!="@.len() == 2);
        reveal_strlit("!==");
        assert("sort"@.len() == 4 && "!=="@.len() == 3);
        reveal_strlit(">");
        assert("sort"@.len() == 4 && ">"@.len() == 1);
        reveal_strlit(">=");
        assert("sort"@.len() == 4 && ">="@.len() == 2);
        reveal_strlit("<");
        assert("sort"@.len() == 4 && "<"@.len() == 1);
        reveal_strlit("<=");
        assert("sort"@.len() == 4 && "<="@.len() == 2);
        reveal_strlit("!");
        assert("sort"@.len() == 4 && "!"@.len() == 1);
        reveal_strlit("!!");
        assert("sort"@.len() == 4 && "!!"@.len() == 2);
        reveal_strlit("and");
        assert("sort"@.len() == 4 && "and"@.len() == 3);
        reveal_strlit("or");
        assert("sort"@.len() == 4 && "or"@.len() == 2);
        reveal_strlit("?:");
        assert("sort"@.len() == 4 && "?:"@.len() == 2);
        reveal_strlit("if");
        assert("sort"@.len() == 4 && "if"@.len() == 2);
        reveal_strlit("cat");
        assert("sort"@.len() == 4 && "cat"@.len() == 3);
        reveal_strlit("substr");
        assert("sort"@.len() == 4 && "substr"@.len() == 6);
        reveal_strlit("in");
        assert("sort"@.len() == 4 && "in"@.len() == 2);
        reveal_strlit("length");
        assert("sort"@.len() == 4 && "length"@.len() == 6);
}

proof fn lemma_name_of_slice()
    ensures
        opcode_of_name(opcode_name(OpCode::Slice)) == Some(OpCode::Slice),
{
        reveal_strlit("slice");
        reveal_strlit("var");
        assert("slice"@.len() == 5 && "var"@.len() == 3);
        reveal_strlit("val");
        assert("slice"@.len() == 5 && "val"@.len() == 3);
        reveal_strlit("missing");
        assert("slice"@.len() == 5 && "missing"@.len() == 7);
        reveal_strlit("missing_some");
        assert("slice"@.len() == 5 && "missing_some"@.len() == 12);
        reveal_strlit("exists");
        assert("slice"@.len() == 5 && "exists"@.len() == 6);
        reveal_strlit("map");
        assert("slice"@.len() == 5 && "map"@.len() == 3);
        reveal_strlit("filter");
        assert("slice"@.len() == 5 && "filter"@.len() == 6);
        reveal_strlit("reduce");
        assert("slice"@.len() == 5 && "reduce"@.len() == 6);
        reveal_strlit("all");
        assert("slice"@.len() == 5 && "all"@.len() == 3);
        reveal_strlit("some");
        assert("slice"@.len() == 5 && "some"@.len() == 4);
        reveal_strlit("none");
        assert("slice"@.len() == 5 && "none"@.len() == 4);
        reveal_strlit("try");
        assert("slice"@.len() == 5 && "try"@.len() == 3);
        reveal_strlit("throw");
        assert("slice"@[0] == 's' && "throw"@[0] == 't');
        reveal_strlit("now");
        assert("slice"@.len() == 5 && "now"@.len() == 3);
        reveal_strlit("preserve");
        assert("slice"@.len() == 5 && "preserve"@.len() == 8);
        reveal_strlit("merge");
        assert("slice"@[0] == 's' && "merge"@[0] == 'm');
        reveal_strlit("min");
        assert("slice"@.len() == 5 && "min"@.len() == 3);
        reveal_strlit("max");
        assert("slice"@.len() == 5 && "max"@.len() == 3);
        reveal_strlit("type");
        assert("slice"@.len() == 5 && "type"@.len() == 4);
        reveal_strlit("starts_with");
        assert("slice"@.len() == 5 && "starts_with"@.len() == 11);
        reveal_strlit("ends_with");
        assert("slice"@.len() == 5 && "ends_with"@.len() == 9);
        reveal_strlit("upper");
        assert("slice"@[0] == 's' && "upper"@[0] == 'u');
        reveal_strlit("lower");
        assert("slice"@[0] == 's' && "lower"@[0] == 'l');
        reveal_strlit("trim");
        assert("slice"@.len() == 5 && "trim"@.len() == 4);
        reveal_strlit("split");
        assert("slice"@[1] == 'l' && "split"@[1] == 'p');
        reveal_strlit("datetime");
        assert("slice"@.len() == 5 && "datetime"@.len() == 8);
        reveal_strlit("timestamp");
        assert("slice"@.len() == 5 && "timestamp"@.len() == 9);
        reveal_strlit("parse_date");
        assert("slice"@.len() == 5 && "parse_date"@.len() == 10);
        reveal_strlit("format_date");
        assert("slice"@.len() == 5 && "format_date"@.len() == 11);
        reveal_strlit("date_diff");
        assert("slice"@.len() == 5 && "date_diff"@.len() == 9);
        reveal_strlit("abs");
        assert("slice"@.len() == 5 && "abs"@.len() == 3);
        reveal_strlit("ceil");
        assert("slice"@.len() == 5 && "ceil"@.len() == 4);
        reveal_strlit("floor");
        assert("slice"@[0] == 's' && "floor"@[0] == 'f');
        reveal_strlit("+");
        assert("slice"@.len() == 5 && "+"@.len() == 1);
        reveal_strlit("-");
        assert("slice"@.len() == 5 && "-"@.len() == 1);
        reveal_strlit("*");
        assert("slice"@.len() == 5 && "*"@.len() == 1);
        reveal_strlit("/");
        assert("slice"@.len() == 5 && "/"@.len() == 1);
        reveal_strlit("%");
        assert("slice"@.len() == 5 && "%"@.len() == 1);
        reveal_strlit("==");
        assert("slice"@.len() == 5 && "=="@.len() == 2);
        reveal_strlit("===");
        assert("slice"@.len() == 5 && "==="@.len() == 3);
        reveal_strlit("!=");
        assert("slice"@.len() == 5 && "!="@.len() == 2);
        reveal_strlit("!==");
        assert("slice"@.len() == 5 && "!=="@.len() == 3);
        reveal_strlit(">");
        assert("slice"@.len() == 5 && ">"@.len() == 1);
        reveal_strlit(">=");
        assert("slice"@.len() == 5 && ">="@.len() == 2);
        reveal_strlit("<");
        assert("slice"@.len() == 5 && "<"@.len() == 1);
        reveal_strlit("<=");
        assert("slice"@.len() == 5 && "<="@.len() == 2);
        reveal_strlit("!");
        assert("slice"@.len() == 5 && "!"@.len() == 1);
        reveal_strlit("!!");
        assert("slice"@.len() == 5 && "!!"@.len() == 2);
        reveal_strlit("and");
        assert("slice"@.len() == 5 && "and"@.len() == 3);
        reveal_strlit("or");
        assert("slice"@.len() == 5 && "or"@.len() == 2);
        reveal_strlit("?:");
        assert("slice"@.len() == 5 && "?:"@.len() == 2);
        reveal_strlit("if");
        assert("slice"@.len() == 5 && "if"@.len() == 2);
        reveal_strlit("cat");
        assert("slice"@.len() == 5 && "cat"@.len() == 3);
        reveal_strlit("substr");
        assert("slice"@.len() == 5 && "substr"@.len() == 6);
        reveal_strlit("in");
        assert("slice"@.len() == 5 && "in"@.len() == 2);
        reveal_strlit("length");
        assert("slice"@.len() == 5 && "length"@.len() == 6);
        reveal_strlit("sort");
        assert("slice"@.len() == 5 && "sort"@.len() == 4);
}

proof fn lemma_name_of_coalesce()
    ensures
        opcode_of_name(opcode_name(OpCode::Coalesce)) == Some(OpCode::Coalesce),
{
        reveal_strlit("??");
        reveal_strlit("var");
        assert("??"@.len() == 2 && "var"@.len() == 3);
        reveal_strlit("val");
        assert("??"@.len() == 2 && "val"@.len() == 3);
        reveal_strlit("missing");
        assert("??"@.len() == 2 && "missing"@.len() == 7);
        reveal_strlit("missing_some");
        assert("??"@.len() == 2 && "missing_some"@.len() == 12);
        reveal_strlit("exists");
        assert("??"@.len() == 2 && "exists"@.len() == 6);
        reveal_strlit("map");
        assert("??"@.len() == 2 && "map"@.len() == 3);
        reveal_strlit("filter");
        assert("??"@.len() == 2 && "filter"@.len() == 6);
        reveal_strlit("reduce");
        assert("??"@.len() == 2 && "reduce"@.len() == 6);
        reveal_strlit("all");
        assert("??"@.len() == 2 && "all"@.len() == 3);
        reveal_strlit("some");
        assert("??"@.len() == 2 && "some"@.len() == 4);
        reveal_strlit("none");
        assert("??"@.len() == 2 && "none"@.len() == 4);
        reveal_strlit("try");
        assert("??"@.len() == 2 && "try"@.len() == 3);
        reveal_strlit("throw");
        assert("??"@.len() == 2 && "throw"@.len() == 5);
        reveal_strlit("now");
        assert("??"@.len() == 2 && "now"@.len() == 3);
        reveal_strlit("preserve");
        assert("??"@.len() == 2 && "preserve"@.len() == 8);
        reveal_strlit("merge");
        assert("??"@.len() == 2 && "merge"@.len() == 5);
        reveal_strlit("min");
        assert("??"@.len() == 2 && "min"@.len() == 3);
        reveal_strlit("max");
        assert("??"@.len() == 2 && "max"@.len() == 3);
        reveal_strlit("type");
        assert("??"@.len() == 2 && "type"@.len() == 4);
        reveal_strlit("starts_with");
        assert("??"@.len() == 2 && "starts_with"@.len() == 11);
        reveal_strlit("ends_with");
        assert("??"@.len() == 2 && "ends_with"@.len() == 9);
        reveal_strlit("upper");
        assert("??"@.len() == 2 && "upper"@.len() == 5);
        reveal_strlit("lower");
        assert("??"@.len() == 2 && "lower"@.len() == 5);
        reveal_strlit("trim");
        assert("??"@.len() == 2 && "trim"@.len() == 4);
        reveal_strlit("split");
        assert("??"@.len() == 2 && "split"@.len() == 5);
        reveal_strlit("datetime");
        assert("??"@.len() == 2 && "datetime"@.len() == 8);
        reveal_strlit("timestamp");
        assert("??"@.len() == 2 && "timestamp"@.len() == 9);
        reveal_strlit("parse_date");
        assert("??"@.len() == 2 && "parse_date"@.len() == 10);
        reveal_strlit("format_date");
        assert("??"@.len() == 2 && "format_date"@.len() == 11);
        reveal_strlit("date_diff");
        assert("??"@.len() == 2 && "date_diff"@.len() == 9);
        reveal_strlit("abs");
        assert("??"@.len() == 2 && "abs"@.len() == 3);
        reveal_strlit("ceil");
        assert("??"@.len() == 2 && "ceil"@.len() == 4);
        reveal_strlit("floor");
        assert("??"@.len() == 2 && "floor"@.len() == 5);
        reveal_strlit("+");
        assert("??"@.len() == 2 && "+"@.len() == 1);
        reveal_strlit("-");
        assert("??"@.len() == 2 && "-"@.len() == 1);
        reveal_strlit("*");
        assert("??"@.len() == 2 && "*"@.len() == 1);
        reveal_strlit("/");
        assert("??"@.len() == 2 && "/"@.len() == 1);
        reveal_strlit("%");
        assert("??"@.len() == 2 && "%"@.len() == 1);
        reveal_strlit("==");
        assert("??"@[0] == '?' && "=="@[0] == '=');
        reveal_strlit("===");
        assert("??"@.len() == 2 && "==="@.len() == 3);
        reveal_strlit("!=");
        assert("??"@[0] == '?' && "!="@[0] == '!');
        reveal_strlit("!==");
        assert("??"@.len() == 2 && "!=="@.len() == 3);
        reveal_strlit(">");
        assert("??"@.len() == 2 && ">"@.len() == 1);
        reveal_strlit(">=");
        assert("??"@[0] == '?' && ">="@[0] == '>');
        reveal_strlit("<");
        assert("??"@.len() == 2 && "<"@.len() == 1);
        reveal_strlit("<=");
        assert("??"@[0] == '?' && "<="@[0] == '<');
        reveal_strlit("!");
        assert("??"@.len() == 2 && "!"@.len() == 1);
        reveal_strlit("!!");
        assert("??"@[0] == '?' && "!!"@[0] == '!');
        reveal_strlit("and");
        assert("??"@.len() == 2 && "and"@.len() == 3);
        reveal_strlit("or");
        assert("??"@[0] == '?' && "or"@[0] == 'o');
        reveal_strlit("?:");
        assert("??"@[1] == '?' && "?:"@[1] == ':');
        reveal_strlit("if");
        assert("??"@[0] == '?' && "if"@[0] == 'i');
        reveal_strlit("cat");
        assert("??"@.len() == 2 && "cat"@.len() == 3);
        reveal_strlit("substr");
        assert("??"@.len() == 2 && "substr"@.len() == 6);
        reveal_strlit("in");
        assert("??"@[0] == '?' && "in"@[0] == 'i');
        reveal_strlit("length");
        assert("??"@.len() == 2 && "length"@.len() == 6);
        reveal_strlit("sort");
        assert("??"@.len() == 2 && "sort"@.len() == 4);
        reveal_strlit("slice");
        assert("??"@.len() == 2 && "slice"@.len() == 5);
}

proof fn lemma_name_of_switch()
    ensures
        opcode_of_name(opcode_name(OpCode::Switch)) == Some(OpCode::Switch),
{
        reveal_strlit("switch");
        reveal_strlit("var");
        assert("switch"@.len() == 6 && "var"@.len() == 3);
        reveal_strlit("val");
        assert("switch"@.len() == 6 && "val"@.len() == 3);
        reveal_strlit("missing");
        assert("switch"@.len() == 6 && "missing"@.len() == 7);
        reveal_strlit("missing_some");
        assert("switch"@.len() == 6 && "missing_some"@.len() == 12);
        reveal_strlit("exists");
        assert("switch"@[0] == 's' && "exists"@[0] == 'e');
        reveal_strlit("map");
        assert("switch"@.len() == 6 && "map"@.len() == 3);
        reveal_strlit("filter");
        assert("switch"@[0] == 's' && "filter"@[0] == 'f');
        reveal_strlit("reduce");
        assert("switch"@[0] == 's' && "reduce"@[0] == 'r');
        reveal_strlit("all");
        assert("switch"@.len() == 6 && "all"@.len() == 3);
        reveal_strlit("some");
        assert("switch"@.len() == 6 && "some"@.len() == 4);
        reveal_strlit("none");
        assert("switch"@.len() == 6 && "none"@.len() == 4);
        reveal_strlit("try");
        assert("switch"@.len() == 6 && "try"@.len() == 3);
        reveal_strlit("throw");
        assert("switch"@.len() == 6 && "throw"@.len() == 5);
        reveal_strlit("now");
        assert("switch"@.len() == 6 && "now"@.len() == 3);
        reveal_strlit("preserve");
        assert("switch"@.len() == 6 && "preserve"@.len() == 8);
        reveal_strlit("merge");
        assert("switch"@.len() == 6 && "merge"@.len() == 5);
        reveal_strlit("min");
        assert("switch"@.len() == 6 && "min"@.len() == 3);
        reveal_strlit("max");
        assert("switch"@.len() == 6 && "max"@.len() == 3);
        reveal_strlit("type");
        assert("switch"@.len() == 6 && "type"@.len() == 4);
        reveal_strlit("starts_with");
        assert("switch"@.len() == 6 && "starts_with"@.len() == 11);
        reveal_strlit("ends_with");
        assert("switch"@.len() == 6 && "ends_with"@.len() == 9);
        reveal_strlit("upper");
        assert("switch"@.len() == 6 && "upper"@.len() == 5);
        reveal_strlit("lower");
        assert("switch"@.len() == 6 && "lower"@.len() == 5);
        reveal_strlit("trim");
        assert("switch"@.len() == 6 && "trim"@.len() == 4);
        reveal_strlit("split");
        assert("switch"@.len() == 6 && "split"@.len() == 5);
        reveal_strlit("datetime");
        assert("switch"@.len() == 6 && "datetime"@.len() == 8);
        reveal_strlit("timestamp");
        assert("switch"@.len() == 6 && "timestamp"@.len() == 9);
        reveal_strlit("parse_date");
        assert("switch"@.len() == 6 && "parse_date"@.len() == 10);
        reveal_strlit("format_date");
        assert("switch"@.len() == 6 && "format_date"@.len() == 11);
        reveal_strlit("date_diff");
        assert("switch"@.len() == 6 && "date_diff"@.len() == 9);
        reveal_strlit("abs");
        assert("switch"@.len() == 6 && "abs"@.len() == 3);
        reveal_strlit("ceil");
        assert("switch"@.len() == 6 && "ceil"@.len() == 4);
        reveal_strlit("floor");
        assert("switch"@.len() == 6 && "floor"@.len() == 5);
        reveal_strlit("+");
        assert("switch"@.len() == 6 && "+"@.len() == 1);
        reveal_strlit("-");
        assert("switch"@.len() == 6 && "-"@.len() == 1);
        reveal_strlit("*");
        assert("switch"@.len() == 6 && "*"@.len() == 1);
        reveal_strlit("/");
        assert("switch"@.len() == 6 && "/"@.len() == 1);
        reveal_strlit("%");
        assert("switch"@.len() == 6 && "%"@.len() == 1);
        reveal_strlit("==");
        assert("switch"@.len() == 6 && "=="@.len() == 2);
        reveal_strlit("===");
        assert("switch"@.len() == 6 && "==="@.len() == 3);
        reveal_strlit("!=");
        assert("switch"@.len() == 6 && "!="@.len() == 2);
        reveal_strlit("!==");
        assert("switch"@.len() == 6 && "!=="@.len() == 3);
        reveal_strlit(">");
        assert("switch"@.len() == 6 && ">"@.len() == 1);
        reveal_strlit(">=");
        assert("switch"@.len() == 6 && ">="@.len() == 2);
        reveal_strlit("<");
        assert("switch"@.len() == 6 && "<"@.len() == 1);
        reveal_strlit("<=");
        assert("switch"@.len() == 6 && "<="@.len() == 2);
        reveal_strlit("!");
        assert("switch"@.len() == 6 && "!"@.len() == 1);
        reveal_strlit("!!");
        assert("switch"@.len() == 6 && "!!"@.len() == 2);
        reveal_strlit("and");
        assert("switch"@.len() == 6 && "and"@.len() == 3);
        reveal_strlit("or");
        assert("switch"@.len() == 6 && "or"@.len() == 2);
        reveal_strlit("?:");
        assert("switch"@.len() == 6 && "?:"@.len() == 2);
        reveal_strlit("if");
        assert("switch"@.len() == 6 && "if"@.len() == 2);
        reveal_strlit("cat");
        assert("switch"@.len() == 6 && "cat"@.len() == 3);
        reveal_strlit("substr");
        assert("switch"@[1] == 'w' && "substr"@[1] == 'u');
        reveal_strlit("in");
        assert("switch"@.len() == 6 && "in"@.len() == 2);
        reveal_strlit("length");
        assert("switch"@[0] == 's' && "length"@[0] == 'l');
        reveal_strlit("sort");
        assert("switch"@.len() == 6 && "sort"@.len() == 4);
        reveal_strlit("slice");
        assert("switch"@.len() == 6 && "slice"@.len() == 5);
        reveal_strlit("??");
        assert("switch"@.len() == 6 && "??"@.len() == 2);
}

} // verus!
