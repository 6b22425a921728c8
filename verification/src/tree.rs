//! The document tree and what is assumed of the crates that own it.
//!
//! `Yaml` and its hash are defined by `yaml_rust` and `linked_hash_map`, and
//! Verus sees nothing inside them. Contracts speak of them through [`Tree`],
//! a mathematical mirror of the `Yaml` enumeration. Every function in this
//! module marked `external_body` is believed, not proved.

use std::string::FromUtf8Error;
use vstd::prelude::*;
use vstd::utf8::*;
use yaml_rust::yaml;
use yaml_rust::EmitError;
use yaml_rust::Yaml;
use yaml_rust::YamlEmitter;

verus! {

/// `yaml_rust::Yaml`, carried opaquely.
#[verifier::external_type_specification]
#[verifier::external_body]
pub struct ExYaml(yaml_rust::Yaml);

/// `linked_hash_map::LinkedHashMap`, the insertion-ordered map behind
/// `yaml_rust::yaml::Hash`, carried opaquely.
#[verifier::external_type_specification]
#[verifier::external_body]
#[verifier::reject_recursive_types(K)]
#[verifier::reject_recursive_types(V)]
#[verifier::reject_recursive_types(S)]
pub struct ExLinkedHashMap<K, V, S>(linked_hash_map::LinkedHashMap<K, V, S>);

/// `yaml_rust::EmitError`, carried opaquely.
#[verifier::external_type_specification]
#[verifier::external_body]
pub struct ExEmitError(yaml_rust::EmitError);

/// `std::string::FromUtf8Error`, carried opaquely.
#[verifier::external_type_specification]
#[verifier::external_body]
pub struct ExFromUtf8Error(std::string::FromUtf8Error);

/// What a document holds: one variant for each variant of `Yaml`.
///
/// The encoder builds only `Null`, `Boolean`, `Integer`, `Real`, `String`,
/// `Array` and `Hash`; the other two are here so that every `Yaml` has a
/// tree.
pub enum Tree {
    /// A floating-point number, kept as its text.
    Real(Seq<char>),
    Integer(i64),
    String(Seq<char>),
    Boolean(bool),
    Array(Seq<Tree>),
    /// Key and value pairs, oldest first.
    Hash(Seq<(Tree, Tree)>),
    Alias(usize),
    Null,
    BadValue,
}

/// The tree that a `Yaml` value holds.
pub uninterp spec fn tree_of(doc: Yaml) -> Tree;

/// The entries of a hash, oldest first.
pub uninterp spec fn entries_of(hash: yaml::Hash) -> Seq<(Tree, Tree)>;

/// The text that the renderer writes for a document, from the opening `---`
/// line on, or `None` where it reports a failure.
pub uninterp spec fn rendered(doc: Tree) -> Option<Seq<char>>;

/// The trees of a sequence of documents, in order.
pub open spec fn trees_of(docs: Seq<Yaml>) -> Seq<Tree> {
    docs.map_values(|doc: Yaml| tree_of(doc))
}

/// Holds of the entries whose key is not `key`.
pub open spec fn has_other_key(key: Tree) -> spec_fn((Tree, Tree)) -> bool {
    |entry: (Tree, Tree)| entry.0 != key
}

/// The entries of a hash after `key` is given `value`: an entry that had
/// this key is dropped, and the new pair becomes the youngest entry.
pub open spec fn put_entry(entries: Seq<(Tree, Tree)>, key: Tree, value: Tree) -> Seq<(Tree, Tree)> {
    entries.filter(has_other_key(key)).push((key, value))
}

/// Putting a pair into a hash without entries leaves that one pair.
pub proof fn lemma_put_into_empty(key: Tree, value: Tree)
    ensures
        put_entry(Seq::empty(), key, value) == seq![(key, value)],
{
    reveal(Seq::filter);
    assert(put_entry(Seq::empty(), key, value) =~= seq![(key, value)]);
}

/// Putting a pair whose key no entry has appends it and leaves the other
/// entries as they are.
pub proof fn lemma_put_fresh_key(entries: Seq<(Tree, Tree)>, key: Tree, value: Tree)
    requires
        forall|i: int| 0 <= i < entries.len() ==> (#[trigger] entries[i]).0 != key,
    ensures
        put_entry(entries, key, value) == entries.push((key, value)),
{
    lemma_all_kept(entries, key);
}

/// Where no entry has `key`, dropping the entries with that key drops none.
proof fn lemma_all_kept(entries: Seq<(Tree, Tree)>, key: Tree)
    requires
        forall|i: int| 0 <= i < entries.len() ==> (#[trigger] entries[i]).0 != key,
    ensures
        entries.filter(has_other_key(key)) == entries,
    decreases entries.len(),
{
    reveal(Seq::filter);
    if entries.len() > 0 {
        lemma_all_kept(entries.drop_last(), key);
        assert(entries.drop_last().push(entries.last()) =~= entries);
    }
}

/// `Yaml::Null`.
#[verifier::external_body]
pub(crate) fn yaml_null() -> (doc: Yaml)
    ensures
        tree_of(doc) == Tree::Null,
{
    Yaml::Null
}

/// `Yaml::Boolean`, holding `v`.
#[verifier::external_body]
pub(crate) fn yaml_boolean(v: bool) -> (doc: Yaml)
    ensures
        tree_of(doc) == Tree::Boolean(v),
{
    Yaml::Boolean(v)
}

/// `Yaml::Integer`, holding `v`.
#[verifier::external_body]
pub(crate) fn yaml_integer(v: i64) -> (doc: Yaml)
    ensures
        tree_of(doc) == Tree::Integer(v),
{
    Yaml::Integer(v)
}

/// `Yaml::Real`, holding the text as it is given.
#[verifier::external_body]
pub(crate) fn yaml_real(text: String) -> (doc: Yaml)
    ensures
        tree_of(doc) == Tree::Real(text@),
{
    Yaml::Real(text)
}

/// `Yaml::String`, holding the text as it is given.
#[verifier::external_body]
pub(crate) fn yaml_string(text: String) -> (doc: Yaml)
    ensures
        tree_of(doc) == Tree::String(text@),
{
    Yaml::String(text)
}

/// `Yaml::Array`, holding the given documents in their order.
#[verifier::external_body]
pub(crate) fn yaml_array(items: yaml::Array) -> (doc: Yaml)
    ensures
        tree_of(doc) == Tree::Array(trees_of(items@)),
{
    Yaml::Array(items)
}

/// `Yaml::Hash`, holding the given hash.
#[verifier::external_body]
pub(crate) fn yaml_hash(hash: yaml::Hash) -> (doc: Yaml)
    ensures
        tree_of(doc) == Tree::Hash(entries_of(hash)),
{
    Yaml::Hash(hash)
}

/// `LinkedHashMap::new`: a hash without entries.
#[verifier::external_body]
pub(crate) fn hash_new() -> (hash: yaml::Hash)
    ensures
        entries_of(hash) == Seq::<(Tree, Tree)>::empty(),
{
    yaml::Hash::new()
}

/// `LinkedHashMap::insert`. Keys are compared as `Yaml` values, which are
/// equal exactly when their trees are. A key that the hash already holds
/// keeps a single entry: its value is replaced and the entry moves behind
/// all others. A new key is appended.
#[verifier::external_body]
pub(crate) fn hash_insert(hash: &mut yaml::Hash, key: Yaml, value: Yaml)
    ensures
        entries_of(*final(hash)) == put_entry(entries_of(*old(hash)), tree_of(key), tree_of(value)),
{
    hash.insert(key, value);
}

/// `YamlEmitter::dump` on a fresh emitter that writes into an empty
/// `String`. What it writes depends on the document alone; on failure the
/// text written so far is dropped.
#[verifier::external_body]
pub(crate) fn emit(doc: &Yaml) -> (r: Result<String, EmitError>)
    ensures
        (match r {
            Ok(text) => rendered(tree_of(*doc)) == Some(text@),
            Err(_) => rendered(tree_of(*doc)) is None,
        }),
{
    let mut text = String::new();
    match YamlEmitter::new(&mut text).dump(doc) {
        Ok(()) => Ok(text),
        Err(e) => Err(e),
    }
}

/// `String::from_utf8`: succeeds exactly on valid UTF-8, and the string
/// then holds the characters that the bytes encode.
#[verifier::external_body]
pub(crate) fn string_from_utf8(bytes: Vec<u8>) -> (r: Result<String, FromUtf8Error>)
    ensures
        r is Ok <==> valid_utf8(bytes@),
        r matches Ok(text) ==> text@ == decode_utf8(bytes@),
{
    String::from_utf8(bytes)
}

/// `char::to_string`: the string of that one character.
#[verifier::external_body]
pub(crate) fn char_to_string(c: char) -> (text: String)
    ensures
        text@ == seq![c],
{
    c.to_string()
}

} // verus!
