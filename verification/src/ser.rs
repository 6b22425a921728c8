//! The encoder.
//!
//! A [`Serializer`] receives one call for each event of a value's traversal
//! and holds the document most recently completed. A container is built in
//! three steps: one call opens a builder, one call for each element extends
//! it, and one call closes it into the document held.
//!
//! Where an element is itself a value to be traversed, the call takes the
//! document that the element was encoded to.

use crate::error::Error;
use crate::tree::{
    char_to_string, entries_of, hash_insert, hash_new, lemma_put_into_empty, put_entry, tree_of,
    trees_of, yaml_array, yaml_boolean, yaml_hash, yaml_integer, yaml_null, yaml_real,
    yaml_string, Tree,
};
use vstd::prelude::*;
use yaml_rust::yaml;
use yaml_rust::Yaml;

verus! {

/// A sequence under construction: its elements so far.
pub type SeqState = yaml::Array;

/// A tuple variant under construction: the variant's name and its fields so
/// far.
pub type TupleVariantState = (&'static str, yaml::Array);

/// A map under construction: a key that still waits for its value, and the
/// hash of the pairs completed so far.
pub type MapState = (Option<Yaml>, yaml::Hash);

/// A struct variant under construction: the variant's name and its fields so
/// far.
pub type StructVariantState = (&'static str, (Option<Yaml>, yaml::Hash));

/// A map under construction, as contracts see it.
pub struct MapModel {
    /// The key that waits for its value.
    pub key: Option<Tree>,
    /// The pairs completed so far, oldest first.
    pub entries: Seq<(Tree, Tree)>,
}

impl MapModel {
    /// A map just opened.
    pub open spec fn empty() -> MapModel {
        MapModel { key: None, entries: Seq::empty() }
    }

    /// The map after a key is submitted. A key that was still waiting is
    /// forgotten.
    pub open spec fn with_key(self, key: Tree) -> MapModel {
        MapModel { key: Some(key), entries: self.entries }
    }

    /// The map after a value is submitted, or `None` where no key waits for
    /// it.
    pub open spec fn with_value(self, value: Tree) -> Option<MapModel> {
        match self.key {
            Some(key) => Some(self.with_entry(key, value)),
            None => None,
        }
    }

    /// The map after a key and its value are submitted one after the other.
    pub open spec fn with_entry(self, key: Tree, value: Tree) -> MapModel {
        MapModel { key: None, entries: put_entry(self.entries, key, value) }
    }
}

/// What a map builder holds.
pub open spec fn map_model(state: MapState) -> MapModel {
    MapModel {
        key: match state.0 {
            Some(key) => Some(tree_of(key)),
            None => None,
        },
        entries: entries_of(state.1),
    }
}

/// The text of the error for a value submitted to a map in which no key
/// waits.
pub open spec fn missing_key_message() -> Seq<char> {
    "serialize_map_value called without matching serialize_map_key call"@
}

/// The tree of a hash with the single entry `key` to `value`.
pub open spec fn singleton(key: Tree, value: Tree) -> Tree {
    Tree::Hash(seq![(key, value)])
}

/// The 64-bit signed integer that stands for `v`: `v` itself where it is at
/// most `i64::MAX`, and `v` less 2 to the 64th above that.
pub open spec fn wrapped(v: int) -> i64 {
    if v <= i64::MAX {
        v as i64
    } else {
        (v - 0x1_0000_0000_0000_0000) as i64
    }
}

/// The tree of a byte sequence: an array with one integer for each byte.
pub open spec fn bytes_tree(bytes: Seq<u8>) -> Tree {
    Tree::Array(bytes.map_values(|b: u8| Tree::Integer(b as i64)))
}

/// A structure for serializing a value into a YAML document.
///
/// It holds one document: the one most recently completed.
pub struct Serializer {
    doc: Yaml,
}

impl View for Serializer {
    type V = Tree;

    /// The tree of the document held.
    closed spec fn view(&self) -> Tree {
        tree_of(self.doc)
    }
}

impl Default for Serializer {
    fn default() -> (ser: Self)
        ensures
            ser@ == Tree::Null,
    {
        Serializer::new()
    }
}

impl Serializer {
    /// A serializer holding the null document.
    pub fn new() -> (ser: Self)
        ensures
            ser@ == Tree::Null,
    {
        Serializer { doc: yaml_null() }
    }

    /// Hands out the document held.
    pub fn take(self) -> (doc: Yaml)
        ensures
            tree_of(doc) == self@,
    {
        self.doc
    }

    /// A boolean becomes `Boolean`.
    pub fn serialize_bool(&mut self, v: bool) -> (r: Result<(), Error>)
        ensures
            r is Ok,
            final(self)@ == Tree::Boolean(v),
    {
        self.doc = yaml_boolean(v);
        Ok(())
    }

    /// A signed integer of the machine's width becomes `Integer` of the same
    /// value.
    pub fn serialize_isize(&mut self, v: isize) -> (r: Result<(), Error>)
        ensures
            r is Ok,
            final(self)@ == Tree::Integer(v as i64),
    {
        self.serialize_i64(v as i64)
    }

    /// An 8-bit signed integer becomes `Integer` of the same value.
    pub fn serialize_i8(&mut self, v: i8) -> (r: Result<(), Error>)
        ensures
            r is Ok,
            final(self)@ == Tree::Integer(v as i64),
    {
        self.serialize_i64(v as i64)
    }

    /// A 16-bit signed integer becomes `Integer` of the same value.
    pub fn serialize_i16(&mut self, v: i16) -> (r: Result<(), Error>)
        ensures
            r is Ok,
            final(self)@ == Tree::Integer(v as i64),
    {
        self.serialize_i64(v as i64)
    }

    /// A 32-bit signed integer becomes `Integer` of the same value.
    pub fn serialize_i32(&mut self, v: i32) -> (r: Result<(), Error>)
        ensures
            r is Ok,
            final(self)@ == Tree::Integer(v as i64),
    {
        self.serialize_i64(v as i64)
    }

    /// A 64-bit signed integer becomes `Integer`. Every other integer is
    /// widened to one first.
    pub fn serialize_i64(&mut self, v: i64) -> (r: Result<(), Error>)
        ensures
            r is Ok,
            final(self)@ == Tree::Integer(v),
    {
        self.doc = yaml_integer(v);
        Ok(())
    }

    /// An unsigned integer of the machine's width becomes `Integer` of the
    /// same value where that is at most `i64::MAX`; a greater one wraps to a
    /// negative integer.
    pub fn serialize_usize(&mut self, v: usize) -> (r: Result<(), Error>)
        ensures
            r is Ok,
            final(self)@ == Tree::Integer(wrapped(v as int)),
            v <= i64::MAX ==> final(self)@ == Tree::Integer(v as i64),
    {
        self.serialize_u64(v as u64)
    }

    /// An 8-bit unsigned integer becomes `Integer` of the same value.
    pub fn serialize_u8(&mut self, v: u8) -> (r: Result<(), Error>)
        ensures
            r is Ok,
            final(self)@ == Tree::Integer(v as i64),
    {
        self.serialize_i64(v as i64)
    }

    /// A 16-bit unsigned integer becomes `Integer` of the same value.
    pub fn serialize_u16(&mut self, v: u16) -> (r: Result<(), Error>)
        ensures
            r is Ok,
            final(self)@ == Tree::Integer(v as i64),
    {
        self.serialize_i64(v as i64)
    }

    /// A 32-bit unsigned integer becomes `Integer` of the same value.
    pub fn serialize_u32(&mut self, v: u32) -> (r: Result<(), Error>)
        ensures
            r is Ok,
            final(self)@ == Tree::Integer(v as i64),
    {
        self.serialize_i64(v as i64)
    }

    /// A 64-bit unsigned integer becomes `Integer` of the same value where
    /// that is at most `i64::MAX`; a greater one wraps to a negative integer.
    pub fn serialize_u64(&mut self, v: u64) -> (r: Result<(), Error>)
        ensures
            r is Ok,
            final(self)@ == Tree::Integer(wrapped(v as int)),
            v <= i64::MAX ==> final(self)@ == Tree::Integer(v as i64),
    {
        let w = v as i64;
        assert(w == wrapped(v as int)) by {
            assert(v > 0x7fff_ffff_ffff_ffffu64 ==> (v as i64) as int == v as int
                - 0x1_0000_0000_0000_0000) by (bit_vector);
        }
        self.serialize_i64(w)
    }

    /// A floating-point number, given as its text, becomes `Real` of that
    /// text.
    pub fn serialize_real(&mut self, text: String) -> (r: Result<(), Error>)
        ensures
            r is Ok,
            final(self)@ == Tree::Real(text@),
    {
        self.doc = yaml_real(text);
        Ok(())
    }

    /// A character becomes the `String` of that one character.
    pub fn serialize_char(&mut self, value: char) -> (r: Result<(), Error>)
        ensures
            r is Ok,
            final(self)@ == Tree::String(seq![value]),
    {
        self.doc = yaml_string(char_to_string(value));
        Ok(())
    }

    /// A string becomes `String`.
    pub fn serialize_str(&mut self, value: &str) -> (r: Result<(), Error>)
        ensures
            r is Ok,
            final(self)@ == Tree::String(value@),
    {
        self.doc = yaml_string(value.to_owned());
        Ok(())
    }

    /// A byte sequence becomes an array with one integer for each byte.
    pub fn serialize_bytes(&mut self, value: &[u8]) -> (r: Result<(), Error>)
        ensures
            r is Ok,
            final(self)@ == bytes_tree(value@),
    {
        let mut state = self.serialize_seq(Some(value.len()))?;
        let mut i: usize = 0;
        while i < value.len()
            invariant
                i <= value.len(),
                trees_of(state@) == value@.take(i as int).map_values(
                    |b: u8| Tree::Integer(b as i64),
                ),
            decreases value.len() - i,
        {
            let ghost before = state@;
            let elem = byte_to_yaml(value[i])?;
            self.serialize_seq_elt(&mut state, elem)?;
            proof {
                assert(trees_of(state@) =~= trees_of(before).push(tree_of(elem)));
                assert(value@.take(i + 1) =~= value@.take(i as int).push(value@[i as int]));
                assert(value@.take(i + 1).map_values(|b: u8| Tree::Integer(b as i64))
                    =~= value@.take(i as int).map_values(|b: u8| Tree::Integer(b as i64)).push(
                    Tree::Integer(value@[i as int] as i64),
                ));
            }
            i += 1;
        }
        proof {
            assert(value@.take(i as int) =~= value@);
        }
        self.serialize_seq_end(state)
    }

    /// The unit value becomes `Null`.
    pub fn serialize_unit(&mut self) -> (r: Result<(), Error>)
        ensures
            r is Ok,
            final(self)@ == Tree::Null,
    {
        self.doc = yaml_null();
        Ok(())
    }

    /// A unit struct becomes `Null`; its name leaves no trace.
    pub fn serialize_unit_struct(&mut self, _name: &'static str) -> (r: Result<(), Error>)
        ensures
            r is Ok,
            final(self)@ == Tree::Null,
    {
        self.doc = yaml_null();
        Ok(())
    }

    /// A unit variant becomes the `String` of the variant's name.
    pub fn serialize_unit_variant(
        &mut self,
        _name: &str,
        _variant_index: usize,
        variant: &str,
    ) -> (r: Result<(), Error>)
        ensures
            r is Ok,
            final(self)@ == Tree::String(variant@),
    {
        self.doc = yaml_string(variant.to_owned());
        Ok(())
    }

    /// A newtype struct becomes what it wraps; its name leaves no trace.
    pub fn serialize_newtype_struct(&mut self, _name: &'static str, value: Yaml) -> (r: Result<(), Error>)
        ensures
            r is Ok,
            final(self)@ == tree_of(value),
    {
        self.doc = value;
        Ok(())
    }

    /// A newtype variant becomes a hash with one entry, from the variant's
    /// name to what the variant wraps.
    pub fn serialize_newtype_variant(
        &mut self,
        _name: &str,
        _variant_index: usize,
        variant: &str,
        value: Yaml,
    ) -> (r: Result<(), Error>)
        ensures
            r is Ok,
            final(self)@ == singleton(Tree::String(variant@), tree_of(value)),
    {
        self.doc = singleton_hash(to_yaml(variant)?, value);
        Ok(())
    }

    /// An absent optional value becomes `Null`, as the unit value does.
    pub fn serialize_none(&mut self) -> (r: Result<(), Error>)
        ensures
            r is Ok,
            final(self)@ == Tree::Null,
    {
        self.serialize_unit()
    }

    /// A present optional value becomes what it holds: the wrapper leaves
    /// no trace.
    pub fn serialize_some(&mut self, value: Yaml) -> (r: Result<(), Error>)
        ensures
            r is Ok,
            final(self)@ == tree_of(value),
    {
        self.doc = value;
        Ok(())
    }

    /// Opens a sequence. A length, where one is known, only sizes the
    /// builder; one for which no room can be had is let pass.
    pub fn serialize_seq(&mut self, len: Option<usize>) -> (r: Result<SeqState, Error>)
        ensures
            *final(self) == *old(self),
            r matches Ok(state) && state@ == Seq::<Yaml>::empty(),
    {
        let mut state: SeqState = Vec::new();
        match len {
            None => {},
            Some(len) => {
                let _ = state.try_reserve(len);
            },
        }
        Ok(state)
    }

    /// Appends an element to a sequence.
    pub fn serialize_seq_elt(&mut self, state: &mut SeqState, elem: Yaml) -> (r: Result<(), Error>)
        ensures
            *final(self) == *old(self),
            r is Ok,
            final(state)@ == old(state)@.push(elem),
    {
        state.push(elem);
        Ok(())
    }

    /// Closes a sequence: the array of its elements becomes the document
    /// held.
    pub fn serialize_seq_end(&mut self, state: SeqState) -> (r: Result<(), Error>)
        ensures
            r is Ok,
            final(self)@ == Tree::Array(trees_of(state@)),
    {
        self.doc = yaml_array(state);
        Ok(())
    }

    /// Opens a sequence of a fixed size.
    pub fn serialize_seq_fixed_size(&mut self, len: usize) -> (r: Result<SeqState, Error>)
        ensures
            *final(self) == *old(self),
            r matches Ok(state) && state@ == Seq::<Yaml>::empty(),
    {
        self.serialize_seq(Some(len))
    }

    /// Opens a tuple, which is built as a sequence is.
    pub fn serialize_tuple(&mut self, len: usize) -> (r: Result<SeqState, Error>)
        ensures
            *final(self) == *old(self),
            r matches Ok(state) && state@ == Seq::<Yaml>::empty(),
    {
        self.serialize_seq(Some(len))
    }

    /// Appends an element to a tuple.
    pub fn serialize_tuple_elt(&mut self, state: &mut SeqState, elem: Yaml) -> (r: Result<(), Error>)
        ensures
            *final(self) == *old(self),
            r is Ok,
            final(state)@ == old(state)@.push(elem),
    {
        self.serialize_seq_elt(state, elem)
    }

    /// Closes a tuple into an array.
    pub fn serialize_tuple_end(&mut self, state: SeqState) -> (r: Result<(), Error>)
        ensures
            r is Ok,
            final(self)@ == Tree::Array(trees_of(state@)),
    {
        self.serialize_seq_end(state)
    }

    /// Opens a tuple struct, which is built as a sequence is; its name
    /// leaves no trace.
    pub fn serialize_tuple_struct(&mut self, _name: &'static str, len: usize) -> (r: Result<SeqState, Error>)
        ensures
            *final(self) == *old(self),
            r matches Ok(state) && state@ == Seq::<Yaml>::empty(),
    {
        self.serialize_seq(Some(len))
    }

    /// Appends a field to a tuple struct.
    pub fn serialize_tuple_struct_elt(&mut self, state: &mut SeqState, value: Yaml) -> (r: Result<(), Error>)
        ensures
            *final(self) == *old(self),
            r is Ok,
            final(state)@ == old(state)@.push(value),
    {
        self.serialize_seq_elt(state, value)
    }

    /// Closes a tuple struct into an array.
    pub fn serialize_tuple_struct_end(&mut self, state: SeqState) -> (r: Result<(), Error>)
        ensures
            r is Ok,
            final(self)@ == Tree::Array(trees_of(state@)),
    {
        self.serialize_seq_end(state)
    }

    /// Opens a tuple variant: a sequence that remembers the variant's name.
    pub fn serialize_tuple_variant(
        &mut self,
        _enum: &'static str,
        _idx: usize,
        variant: &'static str,
        len: usize,
    ) -> (r: Result<TupleVariantState, Error>)
        ensures
            *final(self) == *old(self),
            r matches Ok(state) && state.0 == variant && state.1@ == Seq::<Yaml>::empty(),
    {
        let state = self.serialize_seq(Some(len))?;
        Ok((variant, state))
    }

    /// Appends a field to a tuple variant.
    pub fn serialize_tuple_variant_elt(&mut self, state: &mut TupleVariantState, v: Yaml) -> (r: Result<(), Error>)
        ensures
            *final(self) == *old(self),
            r is Ok,
            final(state).0 == old(state).0,
            final(state).1@ == old(state).1@.push(v),
    {
        self.serialize_seq_elt(&mut state.1, v)
    }

    /// Closes a tuple variant into a hash with one entry, from the
    /// variant's name to the array of its fields.
    pub fn serialize_tuple_variant_end(&mut self, state: TupleVariantState) -> (r: Result<(), Error>)
        ensures
            r is Ok,
            final(self)@ == singleton(Tree::String(state.0@), Tree::Array(trees_of(state.1@))),
    {
        self.serialize_seq_end(state.1)?;
        let mut fields = yaml_null();
        core::mem::swap(&mut self.doc, &mut fields);
        self.doc = singleton_hash(to_yaml(state.0)?, fields);
        Ok(())
    }

    /// Opens a map. The length hint is not used.
    pub fn serialize_map(&mut self, _len: Option<usize>) -> (r: Result<MapState, Error>)
        ensures
            *final(self) == *old(self),
            r matches Ok(state) && map_model(state) == MapModel::empty(),
    {
        Ok((None, hash_new()))
    }

    /// Submits a key to a map. It waits for the value that the next call
    /// brings; a key that was still waiting is replaced.
    pub fn serialize_map_key(&mut self, state: &mut MapState, key: Yaml) -> (r: Result<(), Error>)
        ensures
            *final(self) == *old(self),
            r is Ok,
            map_model(*final(state)) == map_model(*old(state)).with_key(tree_of(key)),
    {
        state.0 = Some(key);
        Ok(())
    }

    /// Submits a value to a map. It is paired with the key that waits, and
    /// the pair is put into the hash. Where no key waits, the map is left as
    /// it is and the call fails.
    pub fn serialize_map_value(&mut self, state: &mut MapState, value: Yaml) -> (r: Result<(), Error>)
        ensures
            *final(self) == *old(self),
            (match map_model(*old(state)).with_value(tree_of(value)) {
                Some(next) => r is Ok && map_model(*final(state)) == next,
                None => r matches Err(Error::Custom(text)) && text@ == missing_key_message()
                    && *final(state) == *old(state),
            }),
    {
        match state.0.take() {
            Some(key) => {
                hash_insert(&mut state.1, key, value);
                Ok(())
            },
            None => Err(
                Error::Custom(
                    "serialize_map_value called without matching serialize_map_key call".to_owned(),
                ),
            ),
        }
    }

    /// Closes a map: its hash becomes the document held. A key that still
    /// waits is dropped.
    pub fn serialize_map_end(&mut self, state: MapState) -> (r: Result<(), Error>)
        ensures
            r is Ok,
            final(self)@ == Tree::Hash(map_model(state).entries),
    {
        self.doc = yaml_hash(state.1);
        Ok(())
    }

    /// Opens a struct, which is built as a map is; its name leaves no
    /// trace.
    pub fn serialize_struct(&mut self, _name: &'static str, len: usize) -> (r: Result<MapState, Error>)
        ensures
            *final(self) == *old(self),
            r matches Ok(state) && map_model(state) == MapModel::empty(),
    {
        self.serialize_map(Some(len))
    }

    /// Submits a field of a struct: the field's name as a `String` key, then
    /// its value.
    pub fn serialize_struct_elt(&mut self, state: &mut MapState, key: &'static str, value: Yaml) -> (r: Result<(), Error>)
        ensures
            *final(self) == *old(self),
            r is Ok,
            map_model(*final(state)) == map_model(*old(state)).with_entry(
                Tree::String(key@),
                tree_of(value),
            ),
    {
        self.serialize_map_key(state, to_yaml(key)?)?;
        self.serialize_map_value(state, value)
    }

    /// Closes a struct into a hash.
    pub fn serialize_struct_end(&mut self, state: MapState) -> (r: Result<(), Error>)
        ensures
            r is Ok,
            final(self)@ == Tree::Hash(map_model(state).entries),
    {
        self.serialize_map_end(state)
    }

    /// Opens a struct variant: a map that remembers the variant's name.
    pub fn serialize_struct_variant(
        &mut self,
        _enum: &'static str,
        _idx: usize,
        variant: &'static str,
        len: usize,
    ) -> (r: Result<StructVariantState, Error>)
        ensures
            *final(self) == *old(self),
            r matches Ok(state) && state.0 == variant && map_model(state.1) == MapModel::empty(),
    {
        let state = self.serialize_map(Some(len))?;
        Ok((variant, state))
    }

    /// Submits a field of a struct variant: the field's name as a `String`
    /// key, then its value.
    pub fn serialize_struct_variant_elt(
        &mut self,
        state: &mut StructVariantState,
        field: &'static str,
        v: Yaml,
    ) -> (r: Result<(), Error>)
        ensures
            *final(self) == *old(self),
            r is Ok,
            final(state).0 == old(state).0,
            map_model(final(state).1) == map_model(old(state).1).with_entry(
                Tree::String(field@),
                tree_of(v),
            ),
    {
        self.serialize_map_key(&mut state.1, to_yaml(field)?)?;
        self.serialize_map_value(&mut state.1, v)
    }

    /// Closes a struct variant into a hash with one entry, from the
    /// variant's name to the hash of its fields.
    pub fn serialize_struct_variant_end(&mut self, state: StructVariantState) -> (r: Result<(), Error>)
        ensures
            r is Ok,
            final(self)@ == singleton(
                Tree::String(state.0@),
                Tree::Hash(map_model(state.1).entries),
            ),
    {
        self.serialize_map_end(state.1)?;
        let mut fields = yaml_null();
        core::mem::swap(&mut self.doc, &mut fields);
        self.doc = singleton_hash(to_yaml(state.0)?, fields);
        Ok(())
    }
}

/// Encodes a string with a serializer of its own.
pub fn to_yaml(elem: &str) -> (r: Result<Yaml, Error>)
    ensures
        r matches Ok(doc) && tree_of(doc) == Tree::String(elem@),
{
    let mut ser = Serializer::new();
    ser.serialize_str(elem)?;
    Ok(ser.take())
}

/// Encodes a byte with a serializer of its own.
pub fn byte_to_yaml(elem: u8) -> (r: Result<Yaml, Error>)
    ensures
        r matches Ok(doc) && tree_of(doc) == Tree::Integer(elem as i64),
{
    let mut ser = Serializer::new();
    ser.serialize_u8(elem)?;
    Ok(ser.take())
}

/// The hash with the single entry `k` to `v`.
pub fn singleton_hash(k: Yaml, v: Yaml) -> (doc: Yaml)
    ensures
        tree_of(doc) == singleton(tree_of(k), tree_of(v)),
{
    let mut hash = hash_new();
    hash_insert(&mut hash, k, v);
    proof {
        lemma_put_into_empty(tree_of(k), tree_of(v));
    }
    yaml_hash(hash)
}

} // verus!
