use intl_document::source_file::{
    DefinitionFile, SourceFile, SourceFileKind, SourceFileMeta, TranslationFile,
};
use intl_document::symbols::{KeySymbol, KeySymbolSet, SymbolTable};

fn set_of(keys: &[KeySymbol]) -> KeySymbolSet {
    let mut set = KeySymbolSet::new();
    for key in keys {
        set.insert(*key);
    }
    set
}

fn sorted(set: &KeySymbolSet) -> Vec<usize> {
    let mut ids: Vec<usize> = set.to_vec().iter().map(|key| key.id).collect();
    ids.sort();
    ids
}

#[test]
fn replacing_the_keys_of_a_definition_forgets_the_old_ones() {
    let mut table = SymbolTable::new();
    let greeting = table.intern("greeting");
    let farewell = table.intern("farewell");
    let definition = DefinitionFile::new(
        "messages.js".to_string(),
        SourceFileMeta::new("translate".to_string()),
        set_of(&[greeting, farewell]),
    );
    let mut file = SourceFile::Definition(definition);
    assert_eq!(file.message_keys().len(), 2);
    file.set_message_keys(set_of(&[greeting]));
    assert_eq!(file.message_keys().len(), 1);
    assert!(file.message_keys().contains(greeting));
    assert!(!file.message_keys().contains(farewell));
    assert_eq!(sorted(file.message_keys()), vec![greeting.id]);
    assert_eq!(file.file(), "messages.js");
}

#[test]
fn translation_file_is_read_through_the_common_accessors() {
    let mut table = SymbolTable::new();
    let greeting = table.intern("greeting");
    let locale = table.intern("fr");
    let translation =
        TranslationFile::new("messages.fr.json".to_string(), locale, set_of(&[greeting]));
    assert_eq!(translation.file(), "messages.fr.json");
    assert_eq!(*translation.locale(), locale);
    assert_eq!(table.resolve(*translation.locale()).unwrap(), "fr");
    assert_eq!(sorted(translation.message_keys()), vec![greeting.id]);
    let file = SourceFile::Translation(translation);
    assert_eq!(file.file(), "messages.fr.json");
    assert_eq!(sorted(file.message_keys()), vec![greeting.id]);

    let definition = DefinitionFile::new(
        "messages.js".to_string(),
        SourceFileMeta::new(String::new()),
        set_of(&[greeting]),
    );
    assert_eq!(definition.meta().text(), "");
    let other = SourceFile::Definition(definition);
    assert_eq!(other.file(), "messages.js");
    assert_eq!(sorted(other.message_keys()), sorted(file.message_keys()));
}

#[test]
fn replacing_the_keys_of_a_translation_keeps_path_and_locale() {
    let mut table = SymbolTable::new();
    let a = table.intern("a");
    let b = table.intern("b");
    let locale = table.intern("de");
    let mut file =
        SourceFile::Translation(TranslationFile::new("de.json".to_string(), locale, set_of(&[a])));
    file.set_message_keys(set_of(&[b]));
    assert_eq!(sorted(file.message_keys()), vec![b.id]);
    file.set_message_keys(KeySymbolSet::new());
    assert!(file.message_keys().is_empty());
    assert_eq!(file.file(), "de.json");
    match file {
        SourceFile::Translation(translation) => assert_eq!(*translation.locale(), locale),
        SourceFile::Definition(_) => panic!("a translation stays a translation"),
    }
}

#[test]
fn keys_can_be_changed_in_place_through_the_mutable_view() {
    let mut table = SymbolTable::new();
    let a = table.intern("a");
    let b = table.intern("b");
    let mut file = SourceFile::Definition(DefinitionFile::new(
        "m.js".to_string(),
        SourceFileMeta::new(String::new()),
        set_of(&[a]),
    ));
    assert!(file.message_keys_mut().insert(b));
    assert!(!file.message_keys_mut().insert(a));
    assert_eq!(sorted(file.message_keys()), vec![a.id, b.id]);
    *file.message_keys_mut() = set_of(&[b]);
    assert_eq!(sorted(file.message_keys()), vec![b.id]);
}

#[test]
fn kind_names() {
    assert_eq!(SourceFileKind::Definition.name(), "Definition");
    assert_eq!(SourceFileKind::Translation.name(), "Translation");
    assert_ne!(SourceFileKind::Definition, SourceFileKind::Translation);
}

#[test]
fn interning_the_same_text_twice_gives_the_same_symbol() {
    let mut table = SymbolTable::new();
    assert_eq!(table.len(), 0);
    let first = table.intern("greeting");
    let second = table.intern("farewell");
    let again = table.intern("greeting");
    assert_eq!(first, again);
    assert_ne!(first, second);
    assert_eq!(table.len(), 2);
    assert_eq!(first.id, 0);
    assert_eq!(second.id, 1);
    assert_eq!(table.resolve(first).unwrap(), "greeting");
    assert_eq!(table.resolve(second).unwrap(), "farewell");
}

#[test]
fn lookup_finds_only_what_was_interned() {
    let mut table = SymbolTable::new();
    assert_eq!(table.lookup("greeting"), None);
    let greeting = table.intern("greeting");
    assert_eq!(table.lookup("greeting"), Some(greeting));
    assert_eq!(table.lookup("Greeting"), None);
    assert_eq!(table.lookup(""), None);
    let empty = table.intern("");
    assert_eq!(table.lookup(""), Some(empty));
    assert_eq!(table.len(), 2);
}

#[test]
fn resolve_refuses_a_symbol_the_table_never_made() {
    let mut table = SymbolTable::new();
    table.intern("only");
    assert!(table.resolve(KeySymbol { id: 1 }).is_none());
    assert!(table.resolve(KeySymbol { id: usize::MAX }).is_none());
}

#[test]
fn key_sets_hold_each_symbol_once() {
    let mut set = KeySymbolSet::new();
    assert!(set.is_empty());
    assert_eq!(set.len(), 0);
    assert!(set.to_vec().is_empty());
    assert!(set.insert(KeySymbol { id: 7 }));
    assert!(set.insert(KeySymbol { id: 3 }));
    assert!(!set.insert(KeySymbol { id: 7 }));
    assert!(!set.is_empty());
    assert_eq!(set.len(), 2);
    assert!(set.contains(KeySymbol { id: 3 }));
    assert!(set.contains(KeySymbol { id: 7 }));
    assert!(!set.contains(KeySymbol { id: 0 }));
    assert_eq!(sorted(&set), vec![3, 7]);
}
