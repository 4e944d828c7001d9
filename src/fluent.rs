//! A mutable, string-keyed bag of JSON values.
use serde_json::Value;
use vstd::prelude::*;
use crate::json::{
    Attributes, attributes_of, text_of, is_null_node, object_of, null_node, new_attributes,
    insert_attribute, lookup_attribute, lookup_attribute_mut, extend_attributes, attribute_values, object_node, lists_values, object_text,
    encode_compact, encode_pretty,
};

verus! {

/// The text of a serialisation, or `{}` where the encoder failed.
pub fn json_or_empty_object(encoded: Result<String, serde_json::Error>) -> (r: String)
    ensures
        match encoded {
            Ok(s) => r@ == s@,
            Err(_) => r@ == "{}"@,
        },
{
    match encoded {
        Ok(s) => s,
        Err(_) => "{}".to_string(),
    }
}

/// `m` after setting each key of `pairs` to its value, in order.
pub open spec fn with_pairs(m: Map<Seq<char>, Value>, pairs: Seq<(Seq<char>, Value)>) -> Map<Seq<char>, Value>
    decreases pairs.len(),
{
    if pairs.len() == 0 {
        m
    } else {
        with_pairs(m, pairs.drop_last()).insert(pairs.last().0, pairs.last().1)
    }
}

/// The keys of `pairs` as character sequences, beside their values.
pub open spec fn pairs_view(pairs: Seq<(&str, Value)>) -> Seq<(Seq<char>, Value)> {
    pairs.map_values(|p: (&str, Value)| (p.0@, p.1))
}

/// A bag of attributes: each key present at most once, mapped to a JSON
/// node. A key mapped to null is present; it is not the same as an absent key.
#[derive(Debug, Clone, PartialEq, Eq, Default)]
pub struct Fluent {
    attributes: Attributes,
}

impl View for Fluent {
    type V = Map<Seq<char>, Value>;

    closed spec fn view(&self) -> Map<Seq<char>, Value> {
        attributes_of(self.attributes)
    }
}

/// Indexed access asks that the key be present. Setting a key makes it
/// present, so an indexed write may follow; writing `w` there leaves the same
/// bag as setting `w` at once.
pub proof fn lemma_index_mut_after_set(bag: Fluent, key: Seq<char>, v: Value, w: Value)
    ensures
        bag@.insert(key, v).contains_key(key),
        bag@.insert(key, v).insert(key, w) == bag@.insert(key, w),
{
    assert(bag@.insert(key, v).insert(key, w) =~= bag@.insert(key, w));
}

impl Fluent {
    /// An empty bag.
    pub fn new() -> (r: Self)
        ensures
            r@ == Map::<Seq<char>, Value>::empty(),
    {
        let r = Fluent { attributes: new_attributes() };
        proof {
            assert(r@ =~= Map::<Seq<char>, Value>::empty());
        }
        r
    }

    /// An empty bag; the same as `new`.
    pub fn make() -> (r: Self)
        ensures
            r@ == Map::<Seq<char>, Value>::empty(),
    {
        Self::new()
    }

    /// A bag holding exactly the entries of `attributes`.
    pub fn from(attributes: Attributes) -> (r: Self)
        ensures
            r@ == attributes_of(attributes),
    {
        Fluent { attributes }
    }

    /// A bag built by setting each pair in turn, so a later pair wins over an
    /// earlier one with the same key.
    pub fn from_pairs(pairs: Vec<(&str, Value)>) -> (r: Self)
        ensures
            r@ == with_pairs(Map::<Seq<char>, Value>::empty(), pairs_view(pairs@)),
    {
        let mut bag = Self::new();
        let mut i: usize = 0;
        while i < pairs.len()
            invariant
                i <= pairs@.len(),
                bag@ == with_pairs(Map::<Seq<char>, Value>::empty(), pairs_view(pairs@.take(i as int))),
            decreases pairs@.len() - i,
        {
            let (k, v) = &pairs[i];
            bag.set(k, v.clone());
            proof {
                let next = pairs_view(pairs@.take(i as int + 1));
                assert(next.drop_last() =~= pairs_view(pairs@.take(i as int)));
            }
            i = i + 1;
        }
        proof {
            assert(pairs@.take(pairs@.len() as int) =~= pairs@);
        }
        bag
    }

    /// Maps `key` to `value`, replacing what was there.
    pub fn set(&mut self, key: &str, value: Value)
        ensures
            final(self)@ == old(self)@.insert(key@, value),
    {
        insert_attribute(&mut self.attributes, key, value);
    }

    /// The node at `key`, or `None` where the key is absent.
    pub fn get(&self, key: &str) -> (r: Option<&Value>)
        ensures
            r == (if self@.contains_key(key@) { Some(&self@[key@]) } else { None::<&Value> }),
    {
        lookup_attribute(&self.attributes, key)
    }

    /// The text at `key`, where the key is present and its node is a JSON
    /// string; `None` otherwise.
    pub fn get_as_str(&self, key: &str) -> (r: Option<&str>)
        ensures
            match r {
                Some(s) => self@.contains_key(key@) && text_of(self@[key@]) == Some(s@),
                None => !self@.contains_key(key@) || text_of(self@[key@]) is None,
            },
    {
        match self.get(key) {
            Some(v) => v.as_str(),
            None => None,
        }
    }

    /// Merges `attributes` into the bag; on a shared key the incoming value
    /// wins. Returns the bag for chaining.
    pub fn fill(&mut self, attributes: Attributes) -> (r: &mut Self)
        ensures
            (*r)@ == old(self)@.union_prefer_right(attributes_of(attributes)),
            final(self)@ == final(r)@,
    {
        extend_attributes(&mut self.attributes, attributes);
        self
    }

    /// Whether `key` is present, null or not.
    pub fn has(&self, key: &str) -> (r: bool)
        ensures
            r == self@.contains_key(key@),
    {
        lookup_attribute(&self.attributes, key).is_some()
    }

    /// All entries.
    pub fn all(&self) -> (r: &Attributes)
        ensures
            attributes_of(*r) == self@,
    {
        &self.attributes
    }

    /// A copy of the node at `key`, or `default` where the key is absent.
    pub fn value(&self, key: &str, default: Value) -> (r: Value)
        ensures
            r == (if self@.contains_key(key@) { self@[key@] } else { default }),
    {
        match self.get(key) {
            Some(v) => v.clone(),
            None => default,
        }
    }

    /// A new bag with one entry: `key` mapped to `self.value(key, default)`.
    pub fn scope(&self, key: &str, default: Value) -> (r: Self)
        ensures
            r@ == Map::<Seq<char>, Value>::empty().insert(
                key@,
                if self@.contains_key(key@) { self@[key@] } else { default },
            ),
    {
        let mut map = new_attributes();
        insert_attribute(&mut map, key, self.value(key, default));
        proof {
            assert(attributes_of(map) =~= Map::<Seq<char>, Value>::empty().insert(
                key@,
                if self@.contains_key(key@) { self@[key@] } else { default },
            ));
        }
        Fluent { attributes: map }
    }

    /// All entries; the same as `all`.
    pub fn get_attributes(&self) -> (r: &Attributes)
        ensures
            attributes_of(*r) == self@,
    {
        &self.attributes
    }

    /// Maps `key` to the given node, or to JSON null where there is none.
    /// Either way the key is present afterwards.
    pub fn set_from_option(&mut self, key: &str, value: Option<Value>)
        ensures
            final(self)@.dom() == old(self)@.dom().insert(key@),
            forall|k: Seq<char>| k != key@ && #[trigger] old(self)@.contains_key(k) ==> final(self)@[k] == old(self)@[k],
            match value {
                Some(v) => final(self)@[key@] == v,
                None => is_null_node(final(self)@[key@]),
            },
    {
        match value {
            Some(v) => {
                insert_attribute(&mut self.attributes, key, v);
            },
            None => {
                insert_attribute(&mut self.attributes, key, null_node());
            },
        }
    }

    /// The node at `key`, which must be present.
    pub fn index(&self, key: &str) -> (r: &Value)
        requires
            self@.contains_key(key@),
        ensures
            *r == self@[key@],
    {
        lookup_attribute(&self.attributes, key).unwrap()
    }

    /// A place to write the node at `key`, which must be present; what is
    /// written there becomes the node at `key`.
    pub fn index_mut(&mut self, key: &str) -> (r: &mut Value)
        requires
            old(self)@.contains_key(key@),
        ensures
            *r == old(self)@[key@],
            final(self)@ == old(self)@.insert(key@, *final(r)),
    {
        lookup_attribute_mut(&mut self.attributes, key).unwrap()
    }

    /// The bag as one JSON object node with exactly its entries.
    pub fn json_serialize(&self) -> (r: Value)
        ensures
            r == object_of(self@),
    {
        object_node(&self.attributes)
    }

    /// Compact JSON text of the bag (`{}` would stand where encoding failed,
    /// which it does not for these maps): the text of an object, `{}` exactly
    /// for an empty bag.
    pub fn to_json(&self) -> (r: String)
        ensures
            object_text(r@, self@),
    {
        proof {
            reveal_strlit("{}");
        }
        json_or_empty_object(encode_compact(&self.attributes))
    }

    /// Indented JSON text of the bag (`{}` would stand where encoding failed,
    /// which it does not for these maps): the text of an object, `{}` exactly
    /// for an empty bag.
    pub fn to_json_pretty(&self) -> (r: String)
        ensures
            object_text(r@, self@),
    {
        proof {
            reveal_strlit("{}");
        }
        json_or_empty_object(encode_pretty(&self.attributes))
    }

    /// The values of the bag, keys dropped, in no promised order: one for
    /// each entry.
    pub fn to_vec(&self) -> (r: Vec<Value>)
        ensures
            lists_values(r@, self@),
    {
        attribute_values(&self.attributes)
    }

    /// The values of the bag; the same as `to_vec`.
    pub fn to_array(&self) -> (r: Vec<Value>)
        ensures
            lists_values(r@, self@),
    {
        self.to_vec()
    }
}

} // verus!
