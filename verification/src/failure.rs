//! The wording of the failures that the commands report.

use vstd::prelude::*;
use vstd::string::StringExecFns;

verus! {

/// The operations that can fail.
#[derive(Clone, Copy, Debug, PartialEq, Eq, Structural)]
pub enum Operation {
    CreateDirectory,
    CopyFile,
    WriteFile,
    ReadFile,
    OpenFolder,
}

impl Operation {
    /// The fixed text that opens every failure message of the operation.
    pub open spec fn prefix(self) -> Seq<char> {
        match self {
            Operation::CreateDirectory => "Error al crear directorio: "@,
            Operation::CopyFile => "Error al copiar archivo: "@,
            Operation::WriteFile => "Error al escribir archivo: "@,
            Operation::ReadFile => "Error al leer archivo: "@,
            Operation::OpenFolder => "Error al abrir carpeta: "@,
        }
    }

    /// The prefix as a string slice.
    pub fn prefix_text(self) -> (text: &'static str)
        ensures
            text@ == self.prefix(),
    {
        match self {
            Operation::CreateDirectory => "Error al crear directorio: ",
            Operation::CopyFile => "Error al copiar archivo: ",
            Operation::WriteFile => "Error al escribir archivo: ",
            Operation::ReadFile => "Error al leer archivo: ",
            Operation::OpenFolder => "Error al abrir carpeta: ",
        }
    }
}

/// The message for a failure of `operation` that the operating system
/// described as `detail`: the operation's prefix, then the description,
/// unchanged.
pub open spec fn failure_text(operation: Operation, detail: Seq<char>) -> Seq<char> {
    operation.prefix() + detail
}

/// Builds the message for a failure of `operation`.
pub fn describe_failure(operation: Operation, detail: &str) -> (message: String)
    ensures
        message@ == failure_text(operation, detail@),
{
    let mut message = String::from_str(operation.prefix_text());
    message.append(detail);
    message
}

} // verus!
