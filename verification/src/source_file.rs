//! Which message keys each source artifact owns.
//!
//! A source file either defines messages or translates them. Either way it
//! records its path and the set of keys found in its latest parse, and that
//! set is only ever replaced as a whole.

use crate::symbols::{KeySymbol, KeySymbolSet};
use vstd::prelude::*;

verus! {

/// The two kinds of source artifact.
#[derive(Clone, Copy, Debug, PartialEq, Eq, Structural)]
pub enum SourceFileKind {
    Definition,
    Translation,
}

impl SourceFileKind {
    /// The name of the kind as it is shown to people.
    pub open spec fn spec_name(self) -> Seq<char> {
        match self {
            SourceFileKind::Definition => "Definition"@,
            SourceFileKind::Translation => "Translation"@,
        }
    }

    /// The name of the kind as it is shown to people.
    pub fn name(&self) -> (name: String)
        ensures
            name@ == self.spec_name(),
    {
        match self {
            SourceFileKind::Definition => "Definition".to_owned(),
            SourceFileKind::Translation => "Translation".to_owned(),
        }
    }
}

/// What a definition file says about itself, carried along uninterpreted.
#[derive(Debug)]
pub struct SourceFileMeta {
    pub text: String,
}

impl SourceFileMeta {
    pub fn new(text: String) -> (meta: Self)
        ensures
            meta.text == text,
    {
        SourceFileMeta { text }
    }

    pub fn text(&self) -> (text: &String)
        ensures
            *text == self.text,
    {
        &self.text
    }
}

/// A file that defines messages: the source of truth for their existence.
#[derive(Debug)]
pub struct DefinitionFile {
    pub file: String,
    pub meta: SourceFileMeta,
    pub message_keys: KeySymbolSet,
}

impl DefinitionFile {
    pub fn new(file: String, meta: SourceFileMeta, message_keys: KeySymbolSet) -> (definition: Self)
        ensures
            definition.file == file,
            definition.meta == meta,
            definition.message_keys == message_keys,
    {
        Self { file, meta, message_keys }
    }

    pub fn file(&self) -> (file: &String)
        ensures
            *file == self.file,
    {
        &self.file
    }

    pub fn message_keys(&self) -> (keys: &KeySymbolSet)
        ensures
            *keys == self.message_keys,
    {
        &self.message_keys
    }

    pub fn meta(&self) -> (meta: &SourceFileMeta)
        ensures
            *meta == self.meta,
    {
        &self.meta
    }
}

/// A file that translates messages into one locale.
#[derive(Debug)]
pub struct TranslationFile {
    pub file: String,
    pub locale: KeySymbol,
    pub message_keys: KeySymbolSet,
}

impl TranslationFile {
    pub fn new(file: String, locale: KeySymbol, message_keys: KeySymbolSet) -> (translation: Self)
        ensures
            translation.file == file,
            translation.locale == locale,
            translation.message_keys == message_keys,
    {
        Self { file, locale, message_keys }
    }

    pub fn file(&self) -> (file: &String)
        ensures
            *file == self.file,
    {
        &self.file
    }

    pub fn locale(&self) -> (locale: &KeySymbol)
        ensures
            *locale == self.locale,
    {
        &self.locale
    }

    pub fn message_keys(&self) -> (keys: &KeySymbolSet)
        ensures
            *keys == self.message_keys,
    {
        &self.message_keys
    }
}

/// A file that either defines messages or translates them, seen through what
/// both have: a path and a set of keys.
#[derive(Debug)]
pub enum SourceFile {
    Definition(DefinitionFile),
    Translation(TranslationFile),
}

impl SourceFile {
    /// The path of the file, whichever kind it is.
    pub open spec fn path(self) -> String {
        match self {
            SourceFile::Definition(value) => value.file,
            SourceFile::Translation(value) => value.file,
        }
    }

    /// The keys the file owns, whichever kind it is.
    pub open spec fn keys(self) -> KeySymbolSet {
        match self {
            SourceFile::Definition(value) => value.message_keys,
            SourceFile::Translation(value) => value.message_keys,
        }
    }

    /// The same file with `keys` in place of its own: nothing else differs.
    pub open spec fn with_keys(self, keys: KeySymbolSet) -> SourceFile {
        match self {
            SourceFile::Definition(value) => SourceFile::Definition(
                DefinitionFile { file: value.file, meta: value.meta, message_keys: keys },
            ),
            SourceFile::Translation(value) => SourceFile::Translation(
                TranslationFile { file: value.file, locale: value.locale, message_keys: keys },
            ),
        }
    }

    pub fn file(&self) -> (file: &String)
        ensures
            *file == self.path(),
    {
        match self {
            SourceFile::Definition(value) => &value.file,
            SourceFile::Translation(value) => &value.file,
        }
    }

    pub fn message_keys(&self) -> (keys: &KeySymbolSet)
        ensures
            *keys == self.keys(),
    {
        match self {
            SourceFile::Definition(value) => &value.message_keys,
            SourceFile::Translation(value) => &value.message_keys,
        }
    }

    /// The key set, open for writing: what the caller leaves in it is what
    /// the file owns afterwards.
    #[inline(always)]
    pub fn message_keys_mut(&mut self) -> (keys: &mut KeySymbolSet)
        ensures
            *keys == old(self).keys(),
            *final(self) == old(self).with_keys(*final(keys)),
    {
        match self {
            SourceFile::Definition(value) => &mut value.message_keys,
            SourceFile::Translation(value) => &mut value.message_keys,
        }
    }

    /// Replaces the key set as a whole. Whatever the file owned before is
    /// forgotten; its path, metadata and locale stay.
    pub fn set_message_keys(&mut self, new_keys: KeySymbolSet)
        ensures
            *final(self) == old(self).with_keys(new_keys),
            final(self).keys() == new_keys,
            final(self).path() == old(self).path(),
    {
        *self.message_keys_mut() = new_keys;
    }
}

} // verus!
