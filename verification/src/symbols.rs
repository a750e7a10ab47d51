//! Interned symbols: small handles that stand for message keys and locales.
//!
//! A [`SymbolTable`] hands out one [`KeySymbol`] per distinct text, so that
//! two symbols of one table are equal exactly when their texts are. Sets of
//! keys are sets of symbols, never sets of strings.

use std::collections::HashSet;
use vstd::prelude::*;
use vstd::seq_lib::seq_to_set_is_finite;
use vstd::set_lib::lemma_map_size;
use vstd::std_specs::hash::spec_hash_keys_iter;
use vstd::std_specs::iter::IteratorSpec;

verus! {

broadcast use vstd::std_specs::hash::group_hash_axioms;

/// A handle for one interned text: its position in the table that made it.
#[derive(Clone, Copy, Debug, PartialEq, Eq, Structural, Hash)]
pub struct KeySymbol {
    pub id: usize,
}

/// The texts interned so far, each once, in the order they first arrived.
#[derive(Debug)]
pub struct SymbolTable {
    names: Vec<String>,
}

impl View for SymbolTable {
    type V = Seq<Seq<char>>;

    /// The interned texts by symbol: the text of symbol `i` stands at `i`.
    closed spec fn view(&self) -> Seq<Seq<char>> {
        Seq::new(self.names@.len(), |i: int| self.names@[i]@)
    }
}

impl SymbolTable {
    /// The table's invariant: no text is interned twice.
    pub closed spec fn wf(&self) -> bool {
        forall|i: int, j: int|
            0 <= i < j < self.names@.len() ==> self.names@[i]@ != self.names@[j]@
    }

    /// Whether `symbol` was handed out by a table in this state.
    pub open spec fn knows(&self, symbol: KeySymbol) -> bool {
        symbol.id < self@.len()
    }

    /// Whether `symbol` is the one symbol of this table whose text is `text`.
    pub open spec fn stands_for(&self, symbol: KeySymbol, text: Seq<char>) -> bool {
        &&& self.knows(symbol)
        &&& self@[symbol.id as int] == text
        &&& forall|i: int| 0 <= i < self@.len() && self@[i] == text ==> i == symbol.id
    }

    /// Two symbols of one table with the same text are the same symbol.
    pub proof fn symbols_of_one_text_are_equal(&self, a: KeySymbol, b: KeySymbol)
        requires
            self.wf(),
            self.knows(a),
            self.knows(b),
            self@[a.id as int] == self@[b.id as int],
        ensures
            a == b,
    {
        if a.id < b.id {
            assert(self.names@[a.id as int]@ != self.names@[b.id as int]@);
        } else if b.id < a.id {
            assert(self.names@[b.id as int]@ != self.names@[a.id as int]@);
        }
    }

    /// A table with nothing interned.
    pub fn new() -> (table: Self)
        ensures
            table.wf(),
            table@ == Seq::<Seq<char>>::empty(),
    {
        let table = SymbolTable { names: Vec::new() };
        assert(table@ =~= Seq::<Seq<char>>::empty());
        table
    }

    /// How many distinct texts are interned.
    pub fn len(&self) -> (len: usize)
        ensures
            len == self@.len(),
    {
        self.names.len()
    }

    /// The symbol of `text`, where `text` is interned already. No other
    /// symbol of the table stands for the same text.
    pub fn lookup(&self, text: &str) -> (found: Option<KeySymbol>)
        requires
            self.wf(),
        ensures
            match found {
                Some(symbol) => self.stands_for(symbol, text@),
                None => !self@.contains(text@),
            },
    {
        let wanted = text.to_owned();
        let mut i: usize = 0;
        while i < self.names.len()
            invariant
                self.wf(),
                i <= self.names@.len(),
                wanted@ == text@,
                forall|j: int| 0 <= j < i ==> self@[j] != text@,
            decreases self.names@.len() - i,
        {
            if self.names[i] == wanted {
                assert forall|k: int| 0 <= k < self@.len() && self@[k] == text@ implies k == i by {
                    if k > i {
                        assert(self.names@[i as int]@ != self.names@[k]@);
                    }
                }
                return Some(KeySymbol { id: i });
            }
            i += 1;
        }
        None
    }

    /// The symbol of `text`: the one it has already, or else a fresh one, for
    /// which `text` is appended to the table.
    pub fn intern(&mut self, text: &str) -> (symbol: KeySymbol)
        requires
            old(self).wf(),
        ensures
            final(self).wf(),
            final(self).stands_for(symbol, text@),
            old(self)@.contains(text@) ==> final(self)@ == old(self)@,
            !old(self)@.contains(text@) ==> final(self)@ == old(self)@.push(text@),
    {
        match self.lookup(text) {
            Some(symbol) => symbol,
            None => {
                let id = self.names.len();
                self.names.push(text.to_owned());
                proof {
                    assert(self@ =~= old(self)@.push(text@));
                    assert forall|i: int, j: int|
                        0 <= i < j < self.names@.len() implies self.names@[i]@
                        != self.names@[j]@ by {
                        if j == id {
                            assert(old(self)@[i] == self.names@[i]@);
                        } else {
                            assert(old(self).names@[i] == self.names@[i]);
                            assert(old(self).names@[j] == self.names@[j]);
                        }
                    }
                }
                KeySymbol { id }
            },
        }
    }

    /// The text that `symbol` stands for, where this table knows the symbol.
    pub fn resolve(&self, symbol: KeySymbol) -> (text: Option<&String>)
        ensures
            match text {
                Some(text) => self.knows(symbol) && text@ == self@[symbol.id as int],
                None => !self.knows(symbol),
            },
    {
        if symbol.id < self.names.len() {
            Some(&self.names[symbol.id])
        } else {
            None
        }
    }
}

/// A set of symbols.
#[derive(Debug)]
pub struct KeySymbolSet {
    ids: HashSet<usize>,
}

impl View for KeySymbolSet {
    type V = Set<KeySymbol>;

    closed spec fn view(&self) -> Set<KeySymbol> {
        self.ids@.map(|id: usize| KeySymbol { id })
    }
}

impl KeySymbolSet {
    proof fn view_contains(&self, key: KeySymbol)
        ensures
            self@.contains(key) == self.ids@.contains(key.id),
    {
        if self.ids@.contains(key.id) {
            assert(KeySymbol { id: key.id } == key);
        }
    }

    proof fn ids_are_finite(&self)
        ensures
            self.ids@.finite(),
    {
        let listed = IteratorSpec::remaining(&spec_hash_keys_iter(&self.ids)).unref();
        seq_to_set_is_finite(listed);
    }

    /// A set is finite.
    pub proof fn view_is_finite(&self)
        ensures
            self@.finite(),
    {
        self.ids_are_finite();
        self.ids@.lemma_map_finite(|id: usize| KeySymbol { id });
    }

    /// The empty set.
    pub fn new() -> (keys: Self)
        ensures
            keys@ == Set::<KeySymbol>::empty(),
    {
        let keys = KeySymbolSet { ids: HashSet::new() };
        assert(keys@ =~= Set::<KeySymbol>::empty());
        keys
    }

    /// Adds `key`; says whether it was new to the set.
    pub fn insert(&mut self, key: KeySymbol) -> (added: bool)
        ensures
            final(self)@ == old(self)@.insert(key),
            added == !old(self)@.contains(key),
    {
        proof {
            self.view_contains(key);
        }
        let added = self.ids.insert(key.id);
        proof {
            old(self).ids@.lemma_set_map_insert_commute(key.id, |id: usize| KeySymbol { id });
        }
        added
    }

    /// Whether `key` is in the set.
    pub fn contains(&self, key: KeySymbol) -> (found: bool)
        ensures
            found == self@.contains(key),
    {
        proof {
            self.view_contains(key);
        }
        self.ids.contains(&key.id)
    }

    /// How many symbols the set holds.
    pub fn len(&self) -> (len: usize)
        ensures
            len == self@.len(),
    {
        proof {
            self.ids_are_finite();
            lemma_map_size(self.ids@, self@, |id: usize| KeySymbol { id });
        }
        self.ids.len()
    }

    /// The symbols of the set, each once, in no particular order.
    pub fn to_vec(&self) -> (listed: Vec<KeySymbol>)
        ensures
            listed@.to_set() == self@,
            listed@.no_duplicates(),
    {
        let mut listed: Vec<KeySymbol> = Vec::new();
        for id in it: self.ids.iter()
            invariant
                listed@.len() == it.index(),
                forall|j: int|
                    0 <= j < listed@.len() ==> (#[trigger] listed@[j]).id == *it.seq()[j],
        {
            listed.push(KeySymbol { id: *id });
        }
        proof {
            let ids = IteratorSpec::remaining(&spec_hash_keys_iter(&self.ids)).unref();
            assert(listed@.len() == ids.len());
            assert forall|j: int| 0 <= j < listed@.len() implies (#[trigger] listed@[j]).id
                == ids[j] by {}
            assert(listed@.no_duplicates());
            assert forall|key: KeySymbol| listed@.to_set().contains(key) == self@.contains(key) by {
                self.view_contains(key);
                if listed@.to_set().contains(key) {
                    let j = choose|j: int| 0 <= j < listed@.len() && listed@[j] == key;
                    assert(ids[j] == key.id);
                    assert(ids.to_set().contains(key.id));
                }
                if self.ids@.contains(key.id) {
                    assert(ids.to_set().contains(key.id));
                    let j = choose|j: int| 0 <= j < ids.len() && ids[j] == key.id;
                    assert(listed@[j] == key);
                }
            }
            assert(listed@.to_set() =~= self@);
        }
        listed
    }

    /// Whether the set holds no symbol.
    pub fn is_empty(&self) -> (empty: bool)
        ensures
            empty == (self@ == Set::<KeySymbol>::empty()),
    {
        proof {
            if self.ids@.is_empty() {
                assert(self@ =~= Set::<KeySymbol>::empty());
            } else {
                let id = choose|id: usize| self.ids@.contains(id);
                self.view_contains(KeySymbol { id });
            }
        }
        self.ids.is_empty()
    }
}

} // verus!
