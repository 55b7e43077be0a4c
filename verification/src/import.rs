//! The call of the bulk-import tool: the command line that is built for it,
//! and what its exit says about the import.

use vstd::prelude::*;

verus! {

/// One word of a command line: a fixed text, or the place of one of the
/// caller's paths, which the caller puts there as it is.
#[derive(Debug, PartialEq, Eq)]
pub enum ImportWord {
    /// This text.
    Text(String),
    /// The path of the import tool.
    Tool,
    /// The path of the mapping file.
    Mapper,
    /// The path of the file that keeps the node locations.
    FlatNodes,
    /// The path of the extract.
    Extract,
}

/// An `ImportWord` as plain text.
pub enum ImportWordView {
    Text(Seq<char>),
    Tool,
    Mapper,
    FlatNodes,
    Extract,
}

impl View for ImportWord {
    type V = ImportWordView;

    open spec fn view(&self) -> ImportWordView {
        match self {
            ImportWord::Text(text) => ImportWordView::Text(text@),
            ImportWord::Tool => ImportWordView::Tool,
            ImportWord::Mapper => ImportWordView::Mapper,
            ImportWord::FlatNodes => ImportWordView::FlatNodes,
            ImportWord::Extract => ImportWordView::Extract,
        }
    }
}

/// A program and the arguments it is started with.
#[derive(Debug)]
pub struct ImportCommand {
    pub program: ImportWord,
    pub args: Vec<ImportWord>,
}

/// An `ImportCommand` as plain text.
pub struct ImportCommandView {
    pub program: ImportWordView,
    pub args: Seq<ImportWordView>,
}

impl View for ImportCommand {
    type V = ImportCommandView;

    open spec fn view(&self) -> ImportCommandView {
        ImportCommandView { program: self.program@, args: words_of(self.args@) }
    }
}

/// The words `words` as plain text.
pub open spec fn words_of(words: Seq<ImportWord>) -> Seq<ImportWordView> {
    Seq::new(words.len(), |i: int| words[i]@)
}

/// The fixed text `text` as a word.
pub open spec fn fixed(text: Seq<char>) -> ImportWordView {
    ImportWordView::Text(text)
}

/// The program that is started: the import tool itself, or the debugger
/// that runs it.
pub open spec fn import_program(debug: bool) -> ImportWordView {
    if debug {
        fixed("gdb"@)
    } else {
        ImportWordView::Tool
    }
}

/// The arguments that make the debugger run the import tool at once and
/// leave when it ends; empty without the debugger.
pub open spec fn debugger_args(debug: bool) -> Seq<ImportWordView> {
    if debug {
        seq![fixed("-ex=r"@), fixed("--batch"@), fixed("--args"@), ImportWordView::Tool]
    } else {
        seq![]
    }
}

/// The arguments that keep the node locations in a file on disk and drop
/// the intermediate tables after the import; empty unless the import is
/// to spare memory.
pub open spec fn optimize_args(optimize: bool) -> Seq<ImportWordView> {
    if optimize {
        seq![
            fixed("--flat-nodes"@),
            ImportWordView::FlatNodes,
            fixed("--slim"@),
            fixed("--drop"@),
        ]
    } else {
        seq![]
    }
}

/// The arguments of an import: the debugger's, the output mode, the
/// mapping file, the database, the memory-sparing flags, and last the
/// extract.
pub open spec fn import_args(debug: bool, optimize: bool, dsn: Seq<char>) -> Seq<
    ImportWordView,
> {
    debugger_args(debug) + seq![
        fixed("--output=flex"@),
        fixed("--style"@),
        ImportWordView::Mapper,
        fixed("--database"@),
        fixed(dsn),
    ] + optimize_args(optimize) + seq![ImportWordView::Extract]
}

/// Adds `word` to `args`.
fn push_word(args: &mut Vec<ImportWord>, word: ImportWord)
    ensures
        words_of(final(args)@) == words_of(old(args)@).push(word@),
{
    args.push(word);
    assert(words_of(final(args)@) =~= words_of(old(args)@).push(word@));
}

/// Adds the fixed text `arg` to `args`.
fn push_text(args: &mut Vec<ImportWord>, arg: &str)
    ensures
        words_of(final(args)@) == words_of(old(args)@).push(fixed(arg@)),
{
    push_word(args, ImportWord::Text(String::from_str(arg)));
}

/// Builds the command that imports the extract into the staging namespace
/// of the database `dsn`, with the mapping file.
///
/// With `debug` the import tool runs under the debugger. With `optimize` it
/// keeps the node locations in a file on disk and drops its intermediate
/// tables.
pub fn ingest_pbf(debug: bool, optimize: bool, dsn: &str) -> (command: ImportCommand)
    ensures
        command@.program == import_program(debug),
        command@.args == import_args(debug, optimize, dsn@),
{
    let program = if debug {
        ImportWord::Text(String::from_str("gdb"))
    } else {
        ImportWord::Tool
    };
    let mut args: Vec<ImportWord> = Vec::new();
    assert(words_of(args@) =~= Seq::<ImportWordView>::empty());
    if debug {
        push_text(&mut args, "-ex=r");
        push_text(&mut args, "--batch");
        push_text(&mut args, "--args");
        push_word(&mut args, ImportWord::Tool);
    }
    assert(words_of(args@) =~= debugger_args(debug));
    push_text(&mut args, "--output=flex");
    push_text(&mut args, "--style");
    push_word(&mut args, ImportWord::Mapper);
    push_text(&mut args, "--database");
    push_text(&mut args, dsn);
    let ghost core = words_of(args@);
    assert(core =~= debugger_args(debug) + seq![
        fixed("--output=flex"@),
        fixed("--style"@),
        ImportWordView::Mapper,
        fixed("--database"@),
        fixed(dsn@),
    ]);
    if optimize {
        push_text(&mut args, "--flat-nodes");
        push_word(&mut args, ImportWord::FlatNodes);
        push_text(&mut args, "--slim");
        push_text(&mut args, "--drop");
    }
    assert(words_of(args@) =~= core + optimize_args(optimize));
    push_word(&mut args, ImportWord::Extract);
    assert(words_of(args@) =~= core + optimize_args(optimize) + seq![ImportWordView::Extract]);
    ImportCommand { program, args }
}

/// How the import tool ended.
#[derive(Clone, Copy, Debug, PartialEq, Eq, Structural)]
pub enum ToolExit {
    /// The tool ran and left this exit code.
    Code(i32),
    /// The tool ran and ended without an exit code.
    NoCode,
    /// The tool could not be started, or its end could not be observed.
    Unobserved,
}

/// Why an import counts as failed. Nothing tells a failure that will pass
/// from one that will not: every failure is retried.
#[derive(Clone, Copy, Debug, PartialEq, Eq, Structural)]
pub enum ImportError {
    /// The tool ran and did not end with exit code zero.
    Failed,
    /// Nothing is known of how the tool ended.
    NoStatus,
}

/// What the end of the import tool says about the import: it succeeded
/// only if the tool left exit code zero.
pub open spec fn import_outcome(exit: ToolExit) -> Result<(), ImportError> {
    match exit {
        ToolExit::Code(code) => if code == 0 {
            Ok(())
        } else {
            Err(ImportError::Failed)
        },
        ToolExit::NoCode => Err(ImportError::Failed),
        ToolExit::Unobserved => Err(ImportError::NoStatus),
    }
}

/// Judges an import by the end of the import tool.
pub fn import_result(exit: ToolExit) -> (result: Result<(), ImportError>)
    ensures
        result == import_outcome(exit),
        result is Ok <==> exit == ToolExit::Code(0),
{
    match exit {
        ToolExit::Code(0) => Ok(()),
        ToolExit::Code(_) => Err(ImportError::Failed),
        ToolExit::NoCode => Err(ImportError::Failed),
        ToolExit::Unobserved => Err(ImportError::NoStatus),
    }
}

} // verus!
