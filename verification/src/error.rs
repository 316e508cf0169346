//! The error type of every operation: what went wrong, which operator it
//! came from, and the ids of the nodes it passed; its message text and its
//! JSON wire form.

use vstd::prelude::*;
use crate::json::{json_string, json_text, write_data_json, write_json_string};
use crate::strbuf::push_str;
use crate::text::{int_text, nat_text, write_i64, write_u64};
use crate::value::DataValue;

verus! {

broadcast use vstd::string::group_string_axioms;

/// What went wrong.
#[derive(Debug, PartialEq)]
pub enum ErrorKind {
    /// Invalid operator name.
    InvalidOperator(String),
    /// Invalid arguments for an operator.
    InvalidArguments(String),
    /// Variable not found in the context.
    VariableNotFound(String),
    /// Invalid context level.
    InvalidContextLevel(isize),
    /// Type conversion or coercion error.
    TypeError(String),
    /// Arithmetic error (division by zero, overflow, ...).
    ArithmeticError(String),
    /// Error raised by an extension.
    Custom(String),
    /// JSON parsing error.
    ParseError(String),
    /// Value raised by the `throw` operator.
    Thrown(DataValue),
    /// Invalid format string or pattern.
    FormatError(String),
    /// Index out of bounds for an array operation.
    IndexOutOfBounds { index: isize, length: usize },
    /// Invalid operator configuration.
    ConfigurationError(String),
}

/// The error returned by every operation.
#[derive(Debug, PartialEq)]
pub struct Error {
    /// What went wrong.
    pub kind: ErrorKind,
    /// The outermost operator that produced the error, when known.
    pub operator: Option<String>,
    /// Ids of the nodes the error passed, from the failure site outward.
    pub path: Vec<u32>,
}

/// The stable tag of an error kind.
pub open spec fn kind_tag_spec(k: ErrorKind) -> Seq<char> {
    match k {
        ErrorKind::InvalidOperator(_) => "InvalidOperator"@,
        ErrorKind::InvalidArguments(_) => "InvalidArguments"@,
        ErrorKind::VariableNotFound(_) => "VariableNotFound"@,
        ErrorKind::InvalidContextLevel(_) => "InvalidContextLevel"@,
        ErrorKind::TypeError(_) => "TypeError"@,
        ErrorKind::ArithmeticError(_) => "ArithmeticError"@,
        ErrorKind::Custom(_) => "Custom"@,
        ErrorKind::ParseError(_) => "ParseError"@,
        ErrorKind::Thrown(_) => "Thrown"@,
        ErrorKind::FormatError(_) => "FormatError"@,
        ErrorKind::IndexOutOfBounds { .. } => "IndexOutOfBounds"@,
        ErrorKind::ConfigurationError(_) => "ConfigurationError"@,
    }
}

/// The message of an error kind, without the operator suffix.
pub open spec fn kind_message(k: ErrorKind) -> Seq<char> {
    match k {
        ErrorKind::InvalidOperator(op) => "Invalid operator: "@ + op@,
        ErrorKind::InvalidArguments(m) => "Invalid arguments: "@ + m@,
        ErrorKind::VariableNotFound(v) => "Variable not found: "@ + v@,
        ErrorKind::InvalidContextLevel(level) => "Invalid context level: "@ + int_text(level as int),
        ErrorKind::TypeError(m) => "Type error: "@ + m@,
        ErrorKind::ArithmeticError(m) => "Arithmetic error: "@ + m@,
        ErrorKind::Custom(m) => m@,
        ErrorKind::ParseError(m) => "Parse error: "@ + m@,
        ErrorKind::Thrown(v) => "Thrown: "@ + json_text(v@),
        ErrorKind::FormatError(m) => "Format error: "@ + m@,
        ErrorKind::IndexOutOfBounds { index, length } => "Index "@ + int_text(index as int)
            + " out of bounds for array of length "@ + nat_text(length as nat),
        ErrorKind::ConfigurationError(m) => "Configuration error: "@ + m@,
    }
}

/// The full message: the kind's message, then ` (in operator: OP)` when
/// the operator is known.
pub open spec fn error_message(e: Error) -> Seq<char> {
    match e.operator {
        Some(op) => kind_message(e.kind) + " (in operator: "@ + op@ + ")"@,
        None => kind_message(e.kind),
    }
}

/// Comma-separated decimal texts of node ids.
pub open spec fn ids_text(ids: Seq<u32>) -> Seq<char>
    decreases ids.len(),
{
    if ids.len() == 0 {
        Seq::empty()
    } else if ids.len() == 1 {
        nat_text(ids[0] as nat)
    } else {
        ids_text(ids.drop_last()) + ","@ + nat_text(ids.last() as nat)
    }
}

/// The kind-specific members of the wire form, each preceded by a comma.
pub open spec fn kind_extras_json(k: ErrorKind) -> Seq<char> {
    match k {
        ErrorKind::VariableNotFound(v) => ",\"variable\":"@ + json_string(v@),
        ErrorKind::InvalidContextLevel(level) => ",\"level\":"@ + int_text(level as int),
        ErrorKind::Thrown(v) => ",\"thrown\":"@ + json_text(v@),
        ErrorKind::IndexOutOfBounds { index, length } => ",\"index\":"@ + int_text(index as int)
            + ",\"length\":"@ + nat_text(length as nat),
        _ => Seq::empty(),
    }
}

/// The wire form: `{"type":TAG,"message":MSG, kind extras, "operator"?, "path"?}`
/// with `operator` left out when unknown and `path` when empty.
pub open spec fn error_json(e: Error) -> Seq<char> {
    "{\"type\":"@ + json_string(kind_tag_spec(e.kind)) + ",\"message\":"@ + json_string(
        kind_message(e.kind),
    ) + kind_extras_json(e.kind) + (match e.operator {
        Some(op) => ",\"operator\":"@ + json_string(op@),
        None => Seq::empty(),
    }) + (if e.path@.len() == 0 {
        Seq::empty()
    } else {
        ",\"path\":["@ + ids_text(e.path@) + "]"@
    }) + "}"@
}

/// Appends the message of `k`.
fn write_kind_message(buf: &mut String, k: &ErrorKind)
    ensures
        final(buf)@ == old(buf)@ + kind_message(*k),
{
    let ghost start = buf@;
    match k {
        ErrorKind::InvalidOperator(op) => {
            push_str(buf, "Invalid operator: ");
            push_str(buf, op.as_str());
        },
        ErrorKind::InvalidArguments(m) => {
            push_str(buf, "Invalid arguments: ");
            push_str(buf, m.as_str());
        },
        ErrorKind::VariableNotFound(v) => {
            push_str(buf, "Variable not found: ");
            push_str(buf, v.as_str());
        },
        ErrorKind::InvalidContextLevel(level) => {
            push_str(buf, "Invalid context level: ");
            write_i64(buf, *level as i64);
        },
        ErrorKind::TypeError(m) => {
            push_str(buf, "Type error: ");
            push_str(buf, m.as_str());
        },
        ErrorKind::ArithmeticError(m) => {
            push_str(buf, "Arithmetic error: ");
            push_str(buf, m.as_str());
        },
        ErrorKind::Custom(m) => {
            push_str(buf, m.as_str());
        },
        ErrorKind::ParseError(m) => {
            push_str(buf, "Parse error: ");
            push_str(buf, m.as_str());
        },
        ErrorKind::Thrown(v) => {
            push_str(buf, "Thrown: ");
            write_data_json(buf, v);
        },
        ErrorKind::FormatError(m) => {
            push_str(buf, "Format error: ");
            push_str(buf, m.as_str());
        },
        ErrorKind::IndexOutOfBounds { index, length } => {
            push_str(buf, "Index ");
            write_i64(buf, *index as i64);
            push_str(buf, " out of bounds for array of length ");
            write_u64(buf, *length as u64);
        },
        ErrorKind::ConfigurationError(m) => {
            push_str(buf, "Configuration error: ");
            push_str(buf, m.as_str());
        },
    }
    assert(buf@ =~= start + kind_message(*k));
}

/// The message of `k` as a string.
fn kind_message_string(k: &ErrorKind) -> (r: String)
    ensures
        r@ == kind_message(*k),
{
    let mut buf = String::new();
    write_kind_message(&mut buf, k);
    assert(buf@ =~= kind_message(*k));
    buf
}

impl Error {
    /// An error of kind `kind` with no operator and an empty path.
    pub fn new(kind: ErrorKind) -> (r: Error)
        ensures
            r.kind == kind,
            r.operator is None,
            r.path@.len() == 0,
    {
        Error { kind, operator: None, path: Vec::new() }
    }

    /// The stable tag of the error's kind.
    pub fn kind_tag(&self) -> (r: &'static str)
        ensures
            r@ == kind_tag_spec(self.kind),
    {
        match self.kind {
            ErrorKind::InvalidOperator(_) => "InvalidOperator",
            ErrorKind::InvalidArguments(_) => "InvalidArguments",
            ErrorKind::VariableNotFound(_) => "VariableNotFound",
            ErrorKind::InvalidContextLevel(_) => "InvalidContextLevel",
            ErrorKind::TypeError(_) => "TypeError",
            ErrorKind::ArithmeticError(_) => "ArithmeticError",
            ErrorKind::Custom(_) => "Custom",
            ErrorKind::ParseError(_) => "ParseError",
            ErrorKind::Thrown(_) => "Thrown",
            ErrorKind::FormatError(_) => "FormatError",
            ErrorKind::IndexOutOfBounds { .. } => "IndexOutOfBounds",
            ErrorKind::ConfigurationError(_) => "ConfigurationError",
        }
    }

    /// The same error with `operator` recorded as its operator.
    pub fn with_operator(self, operator: String) -> (r: Error)
        ensures
            r.kind == self.kind,
            r.operator == Some(operator),
            r.path == self.path,
    {
        let mut e = self;
        e.operator = Some(operator);
        e
    }

    /// The same error with `path` recorded as its path.
    pub fn with_path(self, path: Vec<u32>) -> (r: Error)
        ensures
            r.kind == self.kind,
            r.operator == self.operator,
            r.path == path,
    {
        let mut e = self;
        e.path = path;
        e
    }

    /// An `InvalidOperator` error.
    pub fn invalid_operator(name: String) -> (r: Error)
        ensures
            r.kind == ErrorKind::InvalidOperator(name),
            r.operator is None,
            r.path@.len() == 0,
    {
        Error::new(ErrorKind::InvalidOperator(name))
    }

    /// An `InvalidArguments` error.
    pub fn invalid_arguments(msg: String) -> (r: Error)
        ensures
            r.kind == ErrorKind::InvalidArguments(msg),
            r.operator is None,
            r.path@.len() == 0,
    {
        Error::new(ErrorKind::InvalidArguments(msg))
    }

    /// A `VariableNotFound` error.
    pub fn variable_not_found(name: String) -> (r: Error)
        ensures
            r.kind == ErrorKind::VariableNotFound(name),
            r.operator is None,
            r.path@.len() == 0,
    {
        Error::new(ErrorKind::VariableNotFound(name))
    }

    /// An `InvalidContextLevel` error.
    pub fn invalid_context_level(level: isize) -> (r: Error)
        ensures
            r.kind == ErrorKind::InvalidContextLevel(level),
            r.operator is None,
            r.path@.len() == 0,
    {
        Error::new(ErrorKind::InvalidContextLevel(level))
    }

    /// A `TypeError` error.
    pub fn type_error(msg: String) -> (r: Error)
        ensures
            r.kind == ErrorKind::TypeError(msg),
            r.operator is None,
            r.path@.len() == 0,
    {
        Error::new(ErrorKind::TypeError(msg))
    }

    /// An `ArithmeticError` error.
    pub fn arithmetic_error(msg: String) -> (r: Error)
        ensures
            r.kind == ErrorKind::ArithmeticError(msg),
            r.operator is None,
            r.path@.len() == 0,
    {
        Error::new(ErrorKind::ArithmeticError(msg))
    }

    /// A `Custom` error.
    pub fn custom(msg: String) -> (r: Error)
        ensures
            r.kind == ErrorKind::Custom(msg),
            r.operator is None,
            r.path@.len() == 0,
    {
        Error::new(ErrorKind::Custom(msg))
    }

    /// A `Custom` error carrying the text of a foreign error.
    pub fn wrap(message: String) -> (r: Error)
        ensures
            r.kind == ErrorKind::Custom(message),
            r.operator is None,
            r.path@.len() == 0,
    {
        Error::new(ErrorKind::Custom(message))
    }

    /// A `ParseError` error.
    pub fn parse_error(msg: String) -> (r: Error)
        ensures
            r.kind == ErrorKind::ParseError(msg),
            r.operator is None,
            r.path@.len() == 0,
    {
        Error::new(ErrorKind::ParseError(msg))
    }

    /// A `Thrown` error carrying `value`.
    pub fn thrown(value: DataValue) -> (r: Error)
        ensures
            r.kind == ErrorKind::Thrown(value),
            r.operator is None,
            r.path@.len() == 0,
    {
        Error::new(ErrorKind::Thrown(value))
    }

    /// A `FormatError` error.
    pub fn format_error(msg: String) -> (r: Error)
        ensures
            r.kind == ErrorKind::FormatError(msg),
            r.operator is None,
            r.path@.len() == 0,
    {
        Error::new(ErrorKind::FormatError(msg))
    }

    /// An `IndexOutOfBounds` error.
    pub fn index_out_of_bounds(index: isize, length: usize) -> (r: Error)
        ensures
            r.kind == (ErrorKind::IndexOutOfBounds { index, length }),
            r.operator is None,
            r.path@.len() == 0,
    {
        Error::new(ErrorKind::IndexOutOfBounds { index, length })
    }

    /// A `ConfigurationError` error.
    pub fn configuration_error(msg: String) -> (r: Error)
        ensures
            r.kind == ErrorKind::ConfigurationError(msg),
            r.operator is None,
            r.path@.len() == 0,
    {
        Error::new(ErrorKind::ConfigurationError(msg))
    }

    /// The error's message: the kind's message, then ` (in operator: OP)`
    /// when the operator is known.
    pub fn message(&self) -> (r: String)
        ensures
            r@ == error_message(*self),
    {
        let mut buf = String::new();
        write_kind_message(&mut buf, &self.kind);
        match &self.operator {
            Some(op) => {
                push_str(&mut buf, " (in operator: ");
                push_str(&mut buf, op.as_str());
                push_str(&mut buf, ")");
            },
            None => {},
        }
        assert(buf@ =~= error_message(*self));
        buf
    }

    /// The error's JSON wire form.
    pub fn to_json_string(&self) -> (r: String)
        ensures
            r@ == error_json(*self),
    {
        let mut buf = String::new();
        push_str(&mut buf, "{\"type\":");
        write_json_string(&mut buf, self.kind_tag());
        push_str(&mut buf, ",\"message\":");
        let msg = kind_message_string(&self.kind);
        write_json_string(&mut buf, msg.as_str());
        let ghost before_extras = buf@;
        match &self.kind {
            ErrorKind::VariableNotFound(name) => {
                push_str(&mut buf, ",\"variable\":");
                write_json_string(&mut buf, name.as_str());
            },
            ErrorKind::InvalidContextLevel(level) => {
                push_str(&mut buf, ",\"level\":");
                write_i64(&mut buf, *level as i64);
            },
            ErrorKind::Thrown(value) => {
                push_str(&mut buf, ",\"thrown\":");
                write_data_json(&mut buf, value);
            },
            ErrorKind::IndexOutOfBounds { index, length } => {
                push_str(&mut buf, ",\"index\":");
                write_i64(&mut buf, *index as i64);
                push_str(&mut buf, ",\"length\":");
                write_u64(&mut buf, *length as u64);
            },
            _ => {},
        }
        assert(buf@ =~= before_extras + kind_extras_json(self.kind));
        let ghost before_op = buf@;
        match &self.operator {
            Some(op) => {
                push_str(&mut buf, ",\"operator\":");
                write_json_string(&mut buf, op.as_str());
            },
            None => {},
        }
        let ghost before_path = buf@;
        if self.path.len() > 0 {
            push_str(&mut buf, ",\"path\":[");
            let ghost start = buf@;
            let mut i: usize = 0;
            while i < self.path.len()
                invariant
                    0 < self.path@.len(),
                    i <= self.path@.len(),
                    buf@ == start + ids_text(self.path@.take(i as int)),
                decreases self.path@.len() - i,
            {
                if i > 0 {
                    push_str(&mut buf, ",");
                }
                write_u64(&mut buf, self.path[i] as u64);
                proof {
                    let t = self.path@.take(i as int + 1);
                    assert(t.drop_last() =~= self.path@.take(i as int));
                    if i == 0 {
                        assert(self.path@.take(0) =~= Seq::<u32>::empty());
                    }
                    assert(buf@ =~= start + ids_text(t));
                }
                i = i + 1;
            }
            assert(self.path@.take(self.path@.len() as int) =~= self.path@);
            push_str(&mut buf, "]");
        }
        push_str(&mut buf, "}");
        assert(buf@ =~= error_json(*self));
        buf
    }
}

impl Default for Error {
    fn default() -> (r: Self)
        ensures
            r.kind is Custom,
            kind_message(r.kind).len() == 0,
            r.operator is None,
            r.path@.len() == 0,
    {
        Error::new(ErrorKind::Custom(String::new()))
    }
}

} // verus!
