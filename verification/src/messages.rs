//! The message payload bodies exchanged with the worker.
//!
//! JSON values that ride inside payloads (global variables, return values,
//! log data) are carried here as their serialized JSON text, so that the
//! bodies are plain data; turning them into byte payloads and back is the
//! unverified shell's concern.

use vstd::prelude::*;

verus! {

/// A function to be injected into the worker-side execution context.
#[derive(Debug, Clone)]
pub struct FunctionDef {
    /// The name of the function.
    pub name: String,
    /// The function's parameters.
    pub params: Vec<String>,
    /// The function's code.
    pub code: String,
}

/// A module to be importable by the script.
#[derive(Debug, Clone)]
pub struct CodeModule {
    /// The name of the module, as it should appear in import statements.
    pub name: String,
    /// The code of the module.
    pub code: String,
}

/// Data associated with the RunScript message.
#[derive(Debug, Clone)]
pub struct RunScriptArgs {
    /// A name for this run.
    pub name: String,
    /// The code to run. Omitted when the message only initializes the
    /// context for later runs.
    pub code: Option<String>,
    /// Recreate the run context instead of reusing the context from the
    /// previous run on this connection.
    pub recreate_context: bool,
    /// If true, the code is a single expression evaluated for its value.
    pub expr: bool,
    /// Global variables to set in the context: pairs of a variable name and
    /// the JSON text of its value.
    pub globals: Option<Vec<(String, String)>>,
    /// How long the worker should let the script run, in milliseconds.
    pub timeout_ms: Option<u64>,
    /// Functions to compile and place in the global scope.
    pub functions: Vec<FunctionDef>,
    /// Modules to make available for the code to import.
    pub modules: Vec<CodeModule>,
    /// If nonempty, return only these keys from the context.
    pub return_keys: Vec<String>,
}

impl Default for RunScriptArgs {
    /// An empty run: no code, fresh-context and expression modes off,
    /// nothing injected.
    fn default() -> (r: Self)
        ensures
            r.name@ == Seq::<char>::empty(),
            r.code is None,
            !r.recreate_context,
            !r.expr,
            r.globals is None,
            r.timeout_ms is None,
            r.functions@ == Seq::<FunctionDef>::empty(),
            r.modules@ == Seq::<CodeModule>::empty(),
            r.return_keys@ == Seq::<String>::empty(),
    {
        RunScriptArgs {
            name: String::new(),
            code: None,
            recreate_context: false,
            expr: false,
            globals: None,
            timeout_ms: None,
            functions: Vec::new(),
            modules: Vec::new(),
            return_keys: Vec::new(),
        }
    }
}

/// The final state reported after a successful run; terminal for that run.
#[derive(Debug, Clone)]
pub struct RunResponseData {
    /// The run context's global variables: pairs of a variable name and the
    /// JSON text of its value.
    pub globals: Vec<(String, String)>,
    /// The JSON text of the run's return value.
    pub return_value: String,
}

/// A script-level failure reported by the worker; terminal for that run.
#[derive(Debug, Clone)]
pub struct ErrorResponseData {
    /// The error message.
    pub message: String,
    /// The stack trace, when the worker had one.
    pub stack: Option<String>,
}

/// A log line emitted during a run; zero or more arrive per run.
#[derive(Debug, Clone)]
pub struct LogResponseData {
    /// The log level.
    pub level: String,
    /// The JSON text of the logged data.
    pub data: String,
}

} // verus!
