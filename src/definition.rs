//! Trace definitions: what to probe, in which process, and how to launch
//! the tracer.

use vstd::prelude::*;

verus! {

/// The text of each string in `v`, in order.
pub open spec fn texts(v: Seq<String>) -> Seq<Seq<char>> {
    v.map_values(|s: String| s@)
}

/// A stored trace definition.
pub struct Trace {
    pub id: i32,
    /// Name of the process to attach to.
    pub process: String,
    /// Functions to probe, in the order their stanzas are rendered.
    pub function_list: Vec<String>,
    /// Names of the environment variables given to the tracer.
    pub environment: Vec<String>,
    /// Values of those variables, position by position.
    pub values: Vec<String>,
    /// Extra command-line options appended to the tracer invocation.
    pub options: Vec<String>,
}

impl Trace {
    /// A definition that can be run: at least one function, and one value
    /// for each environment variable.
    pub open spec fn well_formed(&self) -> bool {
        &&& self.function_list@.len() >= 1
        &&& self.environment@.len() == self.values@.len()
    }
}

/// The body of a request that adds a trace definition.
pub struct PutTrace {
    pub process: String,
    pub function_list: Vec<String>,
    pub environment: Vec<String>,
    pub values: Vec<String>,
    pub options: Vec<String>,
}

/// Why a submitted definition was refused.
#[derive(Debug, Clone, Copy, PartialEq, Eq, Structural)]
pub enum DefinitionError {
    EmptyFunctionList,
    EnvironmentMismatch,
}

pub const EMPTY_FUNCTION_LIST: &'static str = "empty function list";

pub const ENVIRONMENT_MISMATCH: &'static str = "wrong size of environment values";

impl DefinitionError {
    /// The text reported to the client.
    pub fn message(&self) -> (r: String)
        ensures
            r@ == match self {
                DefinitionError::EmptyFunctionList => EMPTY_FUNCTION_LIST@,
                DefinitionError::EnvironmentMismatch => ENVIRONMENT_MISMATCH@,
            },
    {
        match self {
            DefinitionError::EmptyFunctionList => String::from_str(EMPTY_FUNCTION_LIST),
            DefinitionError::EnvironmentMismatch => String::from_str(ENVIRONMENT_MISMATCH),
        }
    }
}

impl PutTrace {
    /// Checks the invariants of a definition before it is stored. An empty
    /// function list is reported first.
    pub fn check(&self) -> (r: Result<(), DefinitionError>)
        ensures
            r is Ok <==> (self.function_list@.len() >= 1 && self.environment@.len()
                == self.values@.len()),
            self.function_list@.len() == 0 ==> r == Err::<(), _>(
                DefinitionError::EmptyFunctionList,
            ),
            self.function_list@.len() >= 1 && self.environment@.len() != self.values@.len()
                ==> r == Err::<(), _>(DefinitionError::EnvironmentMismatch),
    {
        if self.function_list.len() == 0 {
            Err(DefinitionError::EmptyFunctionList)
        } else if self.environment.len() != self.values.len() {
            Err(DefinitionError::EnvironmentMismatch)
        } else {
            Ok(())
        }
    }
}

} // verus!
