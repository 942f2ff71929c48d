use vstd::prelude::*;

verus! {

/// Why a task could not be built.
#[derive(Clone, Debug)]
pub enum TasksBuilderError {
    /// Task `source_id` extends `target_id`, which no configuration defines.
    UnknownExtendsSource { source_id: String, target_id: String },
    /// A command or argument string has an unmatched quote.
    ArgsSplit { line: String },
}

/// What an error says, with identifiers and text as sequences.
pub enum BuildError {
    UnknownExtendsSource(Seq<char>, Seq<char>),
    ArgsSplit(Seq<char>),
}

impl View for TasksBuilderError {
    type V = BuildError;

    open spec fn view(&self) -> BuildError {
        match self {
            TasksBuilderError::UnknownExtendsSource { source_id, target_id } => BuildError::UnknownExtendsSource(source_id@, target_id@),
            TasksBuilderError::ArgsSplit { line } => BuildError::ArgsSplit(line@),
        }
    }
}

} // verus!
