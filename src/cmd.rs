use vstd::prelude::*;

use crate::code::CodeParseError;

verus! {

/// `std::io::Error`, carried through `CommandError` without being looked into.
#[verifier::external_type_specification]
#[verifier::external_body]
pub struct ExIoError(std::io::Error);

/// Why running a program file failed.
#[derive(Debug)]
pub enum CommandError {
    FileError,
    CodeError(CodeParseError),
    IOError(std::io::Error),
}

impl From<CodeParseError> for CommandError {
    fn from(value: CodeParseError) -> (r: Self)
        ensures
            r == CommandError::CodeError(value),
    {
        CommandError::CodeError(value)
    }
}

impl vstd::std_specs::convert::FromSpecImpl<CodeParseError> for CommandError {
    open spec fn obeys_from_spec() -> bool {
        true
    }

    open spec fn from_spec(value: CodeParseError) -> Self {
        CommandError::CodeError(value)
    }
}

impl From<std::io::Error> for CommandError {
    fn from(value: std::io::Error) -> (r: Self)
        ensures
            r == CommandError::IOError(value),
    {
        CommandError::IOError(value)
    }
}

impl vstd::std_specs::convert::FromSpecImpl<std::io::Error> for CommandError {
    open spec fn obeys_from_spec() -> bool {
        true
    }

    open spec fn from_spec(value: std::io::Error) -> Self {
        CommandError::IOError(value)
    }
}

} // verus!
