//! The dynamically typed config value representation.

use vstd::prelude::*;

use crate::text::key_lt;
use crate::text::lemma_key_lt_trans;

verus! {

/// Representation of a config value: a closed set of scalar and container
/// variants. A value is only read by this crate, never rewritten.
#[derive(Debug, PartialEq)]
pub enum Value {
    String(String),
    Integer(i64),
    /// A 64-bit IEEE-754 value, carried as its raw bit pattern; this crate
    /// never interprets the number itself.
    Float(u64),
    Boolean(bool),
    /// An ISO-8601 datetime kept as opaque text, never parsed here.
    Datetime(String),
    Array(Array),
    Table(Table),
}

/// Payload of the `Value::Array` variant: an ordered, possibly
/// heterogeneous sequence of values.
pub type Array = Vec<Value>;

/// Payload of the `Value::Table` variant: a mapping from string keys to
/// values whose entries are kept unique and sorted by key.
#[derive(Debug, PartialEq)]
pub struct Table {
    entries: Vec<(String, Value)>,
}

impl View for Table {
    type V = Seq<(String, Value)>;

    closed spec fn view(&self) -> Seq<(String, Value)> {
        self.entries@
    }
}

/// The value at the first entry whose key reads `key`, if there is one.
pub open spec fn table_lookup(entries: Seq<(String, Value)>, key: Seq<char>) -> Option<Value>
    decreases entries.len(),
{
    if entries.len() == 0 {
        None::<Value>
    } else if entries[0].0@ == key {
        Some(entries[0].1)
    } else {
        table_lookup(entries.drop_first(), key)
    }
}

/// The entries are strictly sorted by key, so every key occurs at most once.
pub open spec fn table_sorted(entries: Seq<(String, Value)>) -> bool {
    forall|i: int, j: int|
        0 <= i < j < entries.len() ==> #[trigger] key_lt(entries[i].0@, entries[j].0@)
}

/// Where an insertion places a pair: before the first entry whose key is
/// not smaller, replacing that entry when the keys read the same.
pub open spec fn table_insert(entries: Seq<(String, Value)>, pair: (String, Value)) -> Seq<
    (String, Value),
>
    decreases entries.len(),
{
    if entries.len() == 0 {
        seq![pair]
    } else if key_lt(pair.0@, entries[0].0@) {
        seq![pair] + entries
    } else if pair.0@ == entries[0].0@ {
        seq![pair] + entries.drop_first()
    } else {
        seq![entries[0]] + table_insert(entries.drop_first(), pair)
    }
}

/// A table behaves as a map: inserting a pair makes a lookup of its key
/// find the new value, and leaves the lookup of every other key unchanged.
pub proof fn lemma_table_insert_lookup(
    entries: Seq<(String, Value)>,
    pair: (String, Value),
    key: Seq<char>,
)
    ensures
        table_lookup(table_insert(entries, pair), pair.0@) == Some(pair.1),
        key != pair.0@ ==> table_lookup(table_insert(entries, pair), key) == table_lookup(
            entries,
            key,
        ),
    decreases entries.len(),
{
    let inserted = table_insert(entries, pair);
    if entries.len() == 0 {
        assert(inserted == seq![pair]);
        assert(inserted[0] == pair);
        assert(inserted.drop_first() =~= Seq::<(String, Value)>::empty());
        if key != pair.0@ {
            assert(table_lookup(inserted, key) == table_lookup(inserted.drop_first(), key));
            assert(table_lookup(Seq::<(String, Value)>::empty(), key) is None);
        }
    } else if key_lt(pair.0@, entries[0].0@) {
        assert(inserted == seq![pair] + entries);
        assert(inserted[0] == pair);
        assert(inserted.drop_first() =~= entries);
        if key != pair.0@ {
            assert(table_lookup(inserted, key) == table_lookup(entries, key));
        }
    } else if pair.0@ == entries[0].0@ {
        assert(inserted == seq![pair] + entries.drop_first());
        assert(inserted[0] == pair);
        assert(inserted.drop_first() =~= entries.drop_first());
        if key != pair.0@ {
            assert(table_lookup(inserted, key) == table_lookup(entries.drop_first(), key));
            assert(table_lookup(entries, key) == table_lookup(entries.drop_first(), key));
        }
    } else {
        assert(inserted == seq![entries[0]] + table_insert(entries.drop_first(), pair));
        assert(inserted[0] == entries[0]);
        assert(inserted.drop_first() =~= table_insert(entries.drop_first(), pair));
        lemma_table_insert_lookup(entries.drop_first(), pair, key);
        assert(table_lookup(inserted, pair.0@) == table_lookup(
            table_insert(entries.drop_first(), pair),
            pair.0@,
        ));
        if key != pair.0@ {
            if key == entries[0].0@ {
                assert(table_lookup(inserted, key) == Some(entries[0].1));
                assert(table_lookup(entries, key) == Some(entries[0].1));
            } else {
                assert(table_lookup(inserted, key) == table_lookup(
                    table_insert(entries.drop_first(), pair),
                    key,
                ));
                assert(table_lookup(entries, key) == table_lookup(entries.drop_first(), key));
            }
        }
    }
}

impl Table {
    /// The empty table.
    pub fn new() -> (r: Table)
        ensures
            r@ == Seq::<(String, Value)>::empty(),
    {
        Table { entries: Vec::new() }
    }

    /// How many entries the table holds.
    pub fn len(&self) -> (r: usize)
        ensures
            r == self@.len(),
    {
        self.entries.len()
    }

    /// The entry at position `i` in key order, if `i` is in range.
    pub fn entry(&self, i: usize) -> (r: Option<&(String, Value)>)
        ensures
            match r {
                Some(p) => i < self@.len() && *p == self@[i as int],
                None => i >= self@.len(),
            },
    {
        if i < self.entries.len() {
            Some(&self.entries[i])
        } else {
            None
        }
    }

    /// Looks a key up, returning the value stored under it, if any.
    pub fn get(&self, key: &str) -> (r: Option<&Value>)
        ensures
            match r {
                Some(v) => table_lookup(self@, key@) == Some(*v),
                None => table_lookup(self@, key@) is None,
            },
    {
        let n = self.entries.len();
        let mut i: usize = 0;
        proof {
            assert(self@.skip(0) =~= self@);
        }
        while i < n
            invariant
                n == self@.len(),
                i <= n,
                table_lookup(self@, key@) == table_lookup(self@.skip(i as int), key@),
            decreases n - i,
        {
            let e = &self.entries[i];
            match e.0.as_str().cmp(key) {
                core::cmp::Ordering::Equal => {
                    proof {
                        assert(self@.skip(i as int)[0] == self@[i as int]);
                    }
                    return Some(&self.entries[i].1);
                },
                _ => {
                    proof {
                        assert(self@.skip(i as int)[0] == self@[i as int]);
                        assert(self@.skip(i as int).drop_first() =~= self@.skip(i as int + 1));
                    }
                    i += 1;
                },
            }
        }
        proof {
            assert(self@.skip(n as int) =~= Seq::<(String, Value)>::empty());
        }
        None
    }

    /// Stores `value` under `key`, replacing the value kept for an equal
    /// key, otherwise making room at the position key order asks for.
    pub fn insert(&mut self, key: String, value: Value)
        ensures
            final(self)@ == table_insert(old(self)@, (key, value)),
            table_sorted(old(self)@) ==> table_sorted(final(self)@),
    {
        let ghost orig: Seq<(String, Value)> = self@;
        let ghost p: (String, Value) = (key, value);
        let n = self.entries.len();
        let mut i: usize = 0;
        proof {
            assert(orig.skip(0) =~= orig);
            assert(orig.take(0) + table_insert(orig, p) =~= table_insert(orig, p));
        }
        while i < n
            invariant
                n == self.entries@.len(),
                i <= n,
                orig == old(self)@,
                self.entries@ == orig,
                p == (key, value),
                forall|j: int| 0 <= j < i ==> key_lt(#[trigger] orig[j].0@, key@),
                table_insert(orig, p) == orig.take(i as int) + table_insert(
                    orig.skip(i as int),
                    p,
                ),
            decreases n - i,
        {
            let e = &self.entries[i];
            match e.0.as_str().cmp(key.as_str()) {
                core::cmp::Ordering::Less => {
                    proof {
                        assert(orig.skip(i as int)[0] == orig[i as int]);
                        assert(orig.skip(i as int).drop_first() =~= orig.skip(i as int + 1));
                        assert(table_insert(orig.skip(i as int), p) == seq![orig[i as int]]
                            + table_insert(orig.skip(i as int + 1), p));
                        assert(orig.take(i as int) + table_insert(orig.skip(i as int), p)
                            =~= orig.take(i as int + 1) + table_insert(orig.skip(i as int + 1), p));
                    }
                    i += 1;
                },
                core::cmp::Ordering::Equal => {
                    proof {
                        assert(orig.skip(i as int)[0] == orig[i as int]);
                        assert(orig.skip(i as int).drop_first() =~= orig.skip(i as int + 1));
                        assert(table_insert(orig.skip(i as int), p) == seq![p] + orig.skip(
                            i as int + 1,
                        ));
                    }
                    let _ = self.entries.remove(i);
                    self.entries.insert(i, (key, value));
                    proof {
                        assert(self.entries@ =~= orig.take(i as int) + (seq![p] + orig.skip(
                            i as int + 1,
                        )));
                        if table_sorted(orig) {
                            assert forall|a: int, b: int|
                                0 <= a < b < self.entries@.len() implies #[trigger] key_lt(
                                self.entries@[a].0@,
                                self.entries@[b].0@,
                            ) by {
                                assert(key_lt(orig[a].0@, orig[b].0@));
                                assert(self.entries@[a].0@ == orig[a].0@);
                                assert(self.entries@[b].0@ == orig[b].0@);
                            }
                        }
                    }
                    return ;
                },
                core::cmp::Ordering::Greater => {
                    proof {
                        assert(orig.skip(i as int)[0] == orig[i as int]);
                        assert(table_insert(orig.skip(i as int), p) == seq![p] + orig.skip(
                            i as int,
                        ));
                    }
                    self.entries.insert(i, (key, value));
                    proof {
                        assert(self.entries@ =~= orig.take(i as int) + (seq![p] + orig.skip(
                            i as int,
                        )));
                        if table_sorted(orig) {
                            assert forall|a: int, b: int|
                                0 <= a < b < self.entries@.len() implies #[trigger] key_lt(
                                self.entries@[a].0@,
                                self.entries@[b].0@,
                            ) by {
                                if b < i {
                                    assert(key_lt(orig[a].0@, orig[b].0@));
                                } else if b == i {
                                    assert(key_lt(orig[a].0@, key@));
                                } else if a < i {
                                    assert(key_lt(orig[a].0@, key@));
                                    if b == i + 1 {
                                        assert(key_lt(key@, orig[i as int].0@));
                                        lemma_key_lt_trans(orig[a].0@, key@, orig[b - 1].0@);
                                    } else {
                                        assert(key_lt(orig[a].0@, orig[b - 1].0@));
                                    }
                                } else if a == i {
                                    if b == i + 1 {
                                        assert(key_lt(key@, orig[i as int].0@));
                                    } else {
                                        assert(key_lt(orig[i as int].0@, orig[b - 1].0@));
                                        lemma_key_lt_trans(key@, orig[i as int].0@, orig[b - 1].0@);
                                    }
                                } else {
                                    assert(key_lt(orig[a - 1].0@, orig[b - 1].0@));
                                }
                            }
                        }
                    }
                    return ;
                },
            }
        }
        self.entries.push((key, value));
        proof {
            assert(orig.skip(n as int) =~= Seq::<(String, Value)>::empty());
            assert(table_insert(orig.skip(n as int), p) == seq![p]);
            assert(self.entries@ =~= orig.take(n as int) + seq![p]);
            if table_sorted(orig) {
                assert forall|a: int, b: int|
                    0 <= a < b < self.entries@.len() implies #[trigger] key_lt(
                    self.entries@[a].0@,
                    self.entries@[b].0@,
                ) by {
                    if b < n {
                        assert(key_lt(orig[a].0@, orig[b].0@));
                    } else {
                        assert(key_lt(orig[a].0@, key@));
                    }
                }
            }
        }
    }
}

/// Whether two values share the same variant, whatever their payloads hold.
pub open spec fn same_type_spec(a: Value, b: Value) -> bool {
    match (a, b) {
        (Value::String(..), Value::String(..)) => true,
        (Value::Integer(..), Value::Integer(..)) => true,
        (Value::Float(..), Value::Float(..)) => true,
        (Value::Boolean(..), Value::Boolean(..)) => true,
        (Value::Datetime(..), Value::Datetime(..)) => true,
        (Value::Array(..), Value::Array(..)) => true,
        (Value::Table(..), Value::Table(..)) => true,
        _ => false,
    }
}

/// The fixed lowercase name of a value's variant, as it appears verbatim in
/// error payloads.
pub open spec fn spec_type_str(v: Value) -> Seq<char> {
    match v {
        Value::String(..) => "string"@,
        Value::Integer(..) => "integer"@,
        Value::Float(..) => "float"@,
        Value::Boolean(..) => "boolean"@,
        Value::Datetime(..) => "datetime"@,
        Value::Array(..) => "array"@,
        Value::Table(..) => "table"@,
    }
}

impl Value {
    /// Tests whether this and another value have the same type.
    pub fn same_type(&self, other: &Value) -> (r: bool)
        ensures
            r == same_type_spec(*self, *other),
    {
        match (self, other) {
            (Value::String(..), Value::String(..)) => true,
            (Value::Integer(..), Value::Integer(..)) => true,
            (Value::Float(..), Value::Float(..)) => true,
            (Value::Boolean(..), Value::Boolean(..)) => true,
            (Value::Datetime(..), Value::Datetime(..)) => true,
            (Value::Array(..), Value::Array(..)) => true,
            (Value::Table(..), Value::Table(..)) => true,
            _ => false,
        }
    }

    /// Returns a human-readable representation of the type of this value.
    pub fn type_str(&self) -> (r: &'static str)
        ensures
            r@ == spec_type_str(*self),
    {
        match *self {
            Value::String(..) => "string",
            Value::Integer(..) => "integer",
            Value::Float(..) => "float",
            Value::Boolean(..) => "boolean",
            Value::Datetime(..) => "datetime",
            Value::Array(..) => "array",
            Value::Table(..) => "table",
        }
    }

    /// Extracts the text of this value if it is a string.
    pub fn as_str(&self) -> (r: Option<&str>)
        ensures
            match *self {
                Value::String(s) => r matches Some(t) && t@ == s@,
                _ => r is None,
            },
    {
        match self {
            Value::String(s) => Some(s.as_str()),
            _ => None,
        }
    }

    /// Extracts the integer value if it is an integer.
    pub fn as_integer(&self) -> (r: Option<i64>)
        ensures
            match *self {
                Value::Integer(i) => r == Some(i),
                _ => r is None,
            },
    {
        match self {
            Value::Integer(i) => Some(*i),
            _ => None,
        }
    }

    /// Extracts the bit pattern of the float value if it is a float.
    pub fn as_float(&self) -> (r: Option<u64>)
        ensures
            match *self {
                Value::Float(bits) => r == Some(bits),
                _ => r is None,
            },
    {
        match self {
            Value::Float(bits) => Some(*bits),
            _ => None,
        }
    }

    /// Extracts the boolean value if it is a boolean.
    pub fn as_bool(&self) -> (r: Option<bool>)
        ensures
            match *self {
                Value::Boolean(b) => r == Some(b),
                _ => r is None,
            },
    {
        match self {
            Value::Boolean(b) => Some(*b),
            _ => None,
        }
    }

    /// Extracts the datetime text if it is a datetime.
    pub fn as_datetime(&self) -> (r: Option<&str>)
        ensures
            match *self {
                Value::Datetime(s) => r matches Some(t) && t@ == s@,
                _ => r is None,
            },
    {
        match self {
            Value::Datetime(s) => Some(s.as_str()),
            _ => None,
        }
    }

    /// Extracts the array of child values if this value is an array.
    pub fn as_slice(&self) -> (r: Option<&[Value]>)
        ensures
            match *self {
                Value::Array(a) => r matches Some(s) && s@ == a@,
                _ => r is None,
            },
    {
        match self {
            Value::Array(a) => Some(a.as_slice()),
            _ => None,
        }
    }

    /// Extracts the table if this value is a table.
    pub fn as_table(&self) -> (r: Option<&Table>)
        ensures
            match *self {
                Value::Table(t) => r matches Some(u) && *u == t,
                _ => r is None,
            },
    {
        match self {
            Value::Table(t) => Some(t),
            _ => None,
        }
    }
}

/// Sharing a type is reflexive: every value has the type of itself.
pub proof fn lemma_same_type_reflexive(v: Value)
    ensures
        same_type_spec(v, v),
{
}

/// Sharing a type is symmetric.
pub proof fn lemma_same_type_symmetric(a: Value, b: Value)
    ensures
        same_type_spec(a, b) == same_type_spec(b, a),
{
}

/// Sharing a type is transitive, since it depends on the variants alone.
pub proof fn lemma_same_type_transitive(a: Value, b: Value, c: Value)
    requires
        same_type_spec(a, b),
        same_type_spec(b, c),
    ensures
        same_type_spec(a, c),
{
}

/// Every value matches exactly one variant, so exactly one typed projector
/// finds it present and the six others report it absent.
pub proof fn lemma_exactly_one_projector(v: Value)
    ensures
        (if v matches Value::String(..) { 1int } else { 0 }) + (if v matches Value::Integer(..) {
            1int
        } else {
            0
        }) + (if v matches Value::Float(..) { 1int } else { 0 }) + (if v matches Value::Boolean(..) {
            1int
        } else {
            0
        }) + (if v matches Value::Datetime(..) { 1int } else { 0 }) + (if v matches Value::Array(..) {
            1int
        } else {
            0
        }) + (if v matches Value::Table(..) { 1int } else { 0 }) == 1,
{
}

/// The name `type_str` reports identifies the variant, so it always agrees
/// with the one projector that succeeds.
pub proof fn lemma_type_str_identifies_variant(v: Value)
    ensures
        (spec_type_str(v) == "string"@) <==> (v matches Value::String(..)),
        (spec_type_str(v) == "integer"@) <==> (v matches Value::Integer(..)),
        (spec_type_str(v) == "float"@) <==> (v matches Value::Float(..)),
        (spec_type_str(v) == "boolean"@) <==> (v matches Value::Boolean(..)),
        (spec_type_str(v) == "datetime"@) <==> (v matches Value::Datetime(..)),
        (spec_type_str(v) == "array"@) <==> (v matches Value::Array(..)),
        (spec_type_str(v) == "table"@) <==> (v matches Value::Table(..)),
{
    broadcast use vstd::string::group_string_axioms;

    reveal_strlit("string");
    reveal_strlit("integer");
    reveal_strlit("float");
    reveal_strlit("boolean");
    reveal_strlit("datetime");
    reveal_strlit("array");
    reveal_strlit("table");
    assert("string"@.len() == 6);
    assert("integer"@.len() == 7);
    assert("float"@.len() == 5);
    assert("boolean"@.len() == 7);
    assert("datetime"@.len() == 8);
    assert("array"@.len() == 5);
    assert("table"@.len() == 5);
    assert("integer"@[0] == 'i');
    assert("boolean"@[0] == 'b');
    assert("float"@[0] == 'f');
    assert("array"@[0] == 'a');
    assert("table"@[0] == 't');
}

} // verus!
