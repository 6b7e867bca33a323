use vstd::prelude::*;

verus! {

/// Why a JSON-supplied value was rejected for a variable: only strings,
/// booleans and integer-shaped numbers are representable.
#[derive(Debug, Clone, Copy, PartialEq, Eq, Structural)]
pub enum BadValueKind {
    /// A number that is not an integer.
    FracNumber,
    /// JSON `null`.
    Null,
    /// A nested array or object.
    Nested,
}

/// A fatal failure of the pipeline. Every fatal condition surfaces as one of
/// these; the caller decides how to display it.
#[derive(Debug, Clone, PartialEq, Eq)]
pub enum ResolveError {
    /// The input text is not valid JSON; carries the parser's message.
    InvalidJson(String),
    /// The input JSON document's top level is not an object.
    NotAnObject,
    /// The JSON document supplies a value of an unsupported shape for the
    /// named variable.
    InvalidValue { name: String, kind: BadValueKind },
    /// An applicable variable is absent from the JSON document; every
    /// applicable variable must be supplied explicitly in that mode.
    MissingVariable(String),
    /// The external evaluator failed while computing applicability or a
    /// default for the named variable.
    EvalFailed { name: String, message: String },
    /// The named hook exited with a non-zero code or could not be spawned.
    HookFailed(String),
    /// A JSON input file and automatic mode were both requested.
    ConflictingModes,
}

/// Mathematical model of a [`ResolveError`].
pub ghost enum ErrorModel {
    InvalidJson(Seq<char>),
    NotAnObject,
    InvalidValue { name: Seq<char>, kind: BadValueKind },
    MissingVariable(Seq<char>),
    EvalFailed { name: Seq<char>, message: Seq<char> },
    HookFailed(Seq<char>),
    ConflictingModes,
}

impl View for ResolveError {
    type V = ErrorModel;

    open spec fn view(&self) -> ErrorModel {
        match self {
            ResolveError::InvalidJson(m) => ErrorModel::InvalidJson(m@),
            ResolveError::NotAnObject => ErrorModel::NotAnObject,
            ResolveError::InvalidValue { name, kind } => ErrorModel::InvalidValue {
                name: name@,
                kind: *kind,
            },
            ResolveError::MissingVariable(n) => ErrorModel::MissingVariable(n@),
            ResolveError::EvalFailed { name, message } => ErrorModel::EvalFailed {
                name: name@,
                message: message@,
            },
            ResolveError::HookFailed(n) => ErrorModel::HookFailed(n@),
            ResolveError::ConflictingModes => ErrorModel::ConflictingModes,
        }
    }
}

impl ResolveError {
    /// A human-readable description of the failure, for the caller to
    /// display: each variant's fixed wording, carrying the variable or hook
    /// name (and the evaluator's or parser's own message) it holds.
    pub fn message(&self) -> (r: String)
        ensures
            r@ == match self {
                ResolveError::InvalidJson(m) => "Invalid JSON in input file: "@ + m@,
                ResolveError::NotAnObject => "Input JSON must be an object mapping variable names to simple values (strings, booleans, numbers)"@,
                ResolveError::InvalidValue { name, kind } => "Invalid type for variable `"@
                    + name@ + match kind {
                    BadValueKind::FracNumber => "` in input file: only integer numbers are supported"@,
                    BadValueKind::Null => "` in input file: null is not supported"@,
                    BadValueKind::Nested => "` in input file: nested arrays/objects are not supported"@,
                },
                ResolveError::MissingVariable(n) => "Required variable `"@ + n@
                    + "` missing from input file"@,
                ResolveError::EvalFailed { name, message } => "Failed to evaluate variable `"@
                    + name@ + "`: "@ + message@,
                ResolveError::HookFailed(n) => "Hook `"@ + n@ + "` exited with a non 0 code"@,
                ResolveError::ConflictingModes => "--input-file and --no-input cannot be used together"@,
            },
    {
        match self {
            ResolveError::InvalidJson(m) => {
                let mut s = String::from_str("Invalid JSON in input file: ");
                s.append(m.as_str());
                s
            },
            ResolveError::NotAnObject => String::from_str(
                "Input JSON must be an object mapping variable names to simple values (strings, booleans, numbers)",
            ),
            ResolveError::InvalidValue { name, kind } => {
                let mut s = String::from_str("Invalid type for variable `");
                s.append(name.as_str());
                s.append(
                    match kind {
                        BadValueKind::FracNumber => "` in input file: only integer numbers are supported",
                        BadValueKind::Null => "` in input file: null is not supported",
                        BadValueKind::Nested => "` in input file: nested arrays/objects are not supported",
                    },
                );
                s
            },
            ResolveError::MissingVariable(n) => {
                let mut s = String::from_str("Required variable `");
                s.append(n.as_str());
                s.append("` missing from input file");
                s
            },
            ResolveError::EvalFailed { name, message } => {
                let mut s = String::from_str("Failed to evaluate variable `");
                s.append(name.as_str());
                s.append("`: ");
                s.append(message.as_str());
                s
            },
            ResolveError::HookFailed(n) => {
                let mut s = String::from_str("Hook `");
                s.append(n.as_str());
                s.append("` exited with a non 0 code");
                s
            },
            ResolveError::ConflictingModes => String::from_str(
                "--input-file and --no-input cannot be used together",
            ),
        }
    }
}

/// A non-fatal notice collected while resolving from a JSON document; the
/// caller decides how to surface these.
#[derive(Debug, Clone, PartialEq, Eq)]
pub enum Warning {
    /// The document has a key that names no declaration.
    UnknownVariable(String),
    /// The document supplies a value for a variable whose applicability
    /// condition is not satisfied; the value is discarded.
    InapplicableSupplied(String),
}

/// Mathematical model of a [`Warning`].
pub ghost enum WarningModel {
    Unknown(Seq<char>),
    Inapplicable(Seq<char>),
}

impl View for Warning {
    type V = WarningModel;

    open spec fn view(&self) -> WarningModel {
        match self {
            Warning::UnknownVariable(n) => WarningModel::Unknown(n@),
            Warning::InapplicableSupplied(n) => WarningModel::Inapplicable(n@),
        }
    }
}

} // verus!
