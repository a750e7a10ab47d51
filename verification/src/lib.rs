//! In-memory model of a Markdown document with embedded ICU message
//! placeholders, the traversal that walks it in one fixed order, and the
//! bookkeeping of which message keys each source file owns.
//!
//! - [`ast`] is the node taxonomy: plain data, built once by a parser.
//! - [`events`] says, for every node kind, which hooks a walk calls and in
//!   which order.
//! - [`listener`] is the hook set with a contract: what a walk delivers, and
//!   to whom.
//! - [`visitor`] holds the hook set with every hook optional and the engine,
//!   proved to deliver exactly the events of [`events`].
//! - [`nesting`] and [`order`] prove what consumers rely on: enters and exits
//!   match like brackets, and children come in their canonical order.
//! - [`trace`] is a listener that records the hook calls of a walk.
//! - [`symbols`] and [`source_file`] track the message keys of source files.

pub mod ast;
pub mod events;
pub mod listener;
pub mod nesting;
pub mod order;
pub mod source_file;
pub mod symbols;
pub mod trace;
pub mod visitor;

pub use ast::{
    BlockNode, CodeBlock, CodeSpan, Document, Emphasis, Heading, Hook, Icu, IcuDate,
    IcuDateTimeStyle, IcuNumber, IcuNumberStyle, IcuPlural, IcuPluralArm, IcuSelect, IcuTime,
    IcuVariable, InlineContent, Link, Paragraph, Strikethrough, Strong, TextOrPlaceholder,
};
pub use listener::Listener;
pub use source_file::{DefinitionFile, SourceFile, SourceFileKind, SourceFileMeta, TranslationFile};
pub use symbols::{KeySymbol, KeySymbolSet, SymbolTable};
pub use visitor::{visit_with_mut, Traversal, Visitor};
