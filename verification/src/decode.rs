//! The path cursor over a value tree, and the errors decoding can raise.
//!
//! Note that at this level:
//!
//! - we do not know what kind of configuration the tree holds;
//! - we do not know where it came from;
//! - we do not assume a human will read it.

use vstd::prelude::*;

use crate::value::table_lookup;
use crate::value::Table;
use crate::value::Value;

verus! {

/// A named, described table field referenced by an error, independent of
/// whether the field is present.
#[derive(Debug)]
pub struct Property {
    pub name: String,
    pub desc: String,
}

/// Everything that can go wrong while decoding: one kind per expectation
/// that a value can fail to meet.
#[derive(Debug)]
pub enum Error {
    ExpectedTable { desc: String },
    ExpectedString { desc: String },
    ExpectedInteger { desc: String },
    ExpectedFloat { desc: String },
    ExpectedBool { desc: String },
    ExpectedDatetime { desc: String },
    ExpectedSlice { desc: String },
    ExpectedOneOfTypes { found_type: String, possible_list: Vec<String> },
    ExpectedProperty(Property),
    ExpectedProperties(Vec<Property>),
    ExpectedOneOfProperties(Vec<Property>),
    IncorrectValue { explanation: Option<String>, value: Value, possible_list: Vec<Value> },
}

impl Error {
    /// Attaches the dotted path at which this error occurred.
    pub fn at(self, path: String) -> (r: At<Error>)
        ensures
            r.error == self,
            r.path == path,
    {
        At { error: self, path }
    }
}

/// An error together with the dotted path identifying where it occurred;
/// no error leaves this crate without one.
#[derive(Debug)]
pub struct At<E> {
    pub error: E,
    pub path: String,
}

/// The views of the components of a path.
pub open spec fn component_views(path: Seq<&str>) -> Seq<Seq<char>> {
    path.map_values(|s: &str| s@)
}

/// Components joined with `.`: no separator before the first component, no
/// trailing separator, and no escaping of component text (a component that
/// itself holds a `.` cannot be told from a key boundary; keys are expected
/// to be identifier-like).
pub open spec fn render_path(components: Seq<Seq<char>>) -> Seq<char>
    decreases components.len(),
{
    if components.len() == 0 {
        Seq::empty()
    } else if components.len() == 1 {
        components[0]
    } else {
        render_path(components.drop_last()) + seq!['.'] + components.last()
    }
}

/// A root path, one that took no components yet, renders as the empty
/// string.
pub proof fn lemma_render_path_root()
    ensures
        render_path(Seq::<Seq<char>>::empty()) == Seq::<char>::empty(),
{
}

/// Rendering a path extended by one more component appends exactly one `.`
/// and then that component.
pub proof fn lemma_render_path_step(components: Seq<Seq<char>>, c: Seq<char>)
    requires
        components.len() > 0,
    ensures
        render_path(components.push(c)) == render_path(components) + seq!['.'] + c,
{
    assert(components.push(c).drop_last() =~= components);
    assert(components.push(c).last() == c);
}

/// A cursor over a borrowed `Value` tree: the sequence of table keys taken
/// from the root, the node currently examined, and a description of what
/// that node semantically represents, used in error reports.
///
/// Every traversal method is a pure step from one immutable cursor to the
/// next (or to a path-tagged error); nothing is ever mutated in place.
#[derive(Debug, Clone)]
pub struct Path<'a> {
    path: Vec<&'a str>,
    value: &'a Value,
    desc: &'a str,
}

/// Copies a component list; the components themselves are shared.
fn clone_components<'r>(path: &Vec<&'r str>) -> (r: Vec<&'r str>)
    ensures
        r@ == path@,
{
    let mut r: Vec<&'r str> = Vec::new();
    let mut i: usize = 0;
    while i < path.len()
        invariant
            i <= path@.len(),
            r@ == path@.take(i as int),
        decreases path@.len() - i,
    {
        r.push(path[i]);
        proof {
            assert(path@.take(i as int).push(path@[i as int]) =~= path@.take(i as int + 1));
        }
        i += 1;
    }
    proof {
        assert(path@.take(path@.len() as int) =~= path@);
    }
    r
}

/// Renders a component list as a dotted path string.
fn components_to_string(path: &Vec<&str>) -> (r: String)
    ensures
        r@ == render_path(component_views(path@)),
{
    let ghost views: Seq<Seq<char>> = component_views(path@);
    let mut r = String::new();
    let mut i: usize = 0;
    while i < path.len()
        invariant
            i <= path@.len(),
            views == component_views(path@),
            r@ == render_path(views.take(i as int)),
        decreases path@.len() - i,
    {
        if i > 0 {
            r.push('.');
        }
        r.push_str(path[i]);
        proof {
            assert(views[i as int] == path@[i as int]@);
            if i == 0 {
                assert(views.take(1)[0] == views[0]);
                assert(r@ =~= views.take(1)[0]);
            } else {
                assert(views.take(i as int + 1).drop_last() =~= views.take(i as int));
                assert(views.take(i as int + 1).last() == views[i as int]);
                assert(r@ =~= render_path(views.take(i as int)) + seq!['.'] + views[i as int]);
            }
        }
        i += 1;
    }
    proof {
        assert(views.take(path@.len() as int) =~= views);
    }
    r
}

impl<'a> Path<'a> {
    /// The views of the key components taken from the root.
    pub closed spec fn spec_components(&self) -> Seq<Seq<char>> {
        component_views(self.path@)
    }

    /// The value this cursor points at.
    pub closed spec fn spec_value(&self) -> Value {
        *self.value
    }

    /// The description of the node this cursor points at.
    pub closed spec fn spec_desc(&self) -> Seq<char> {
        self.desc@
    }

    /// Constructs a root cursor with the specified description.
    pub fn new<'r>(value: &'r Value, desc: &'r str) -> (r: Path<'r>)
        ensures
            r.spec_components() == Seq::<Seq<char>>::empty(),
            r.spec_value() == *value,
            r.spec_desc() == desc@,
    {
        let r = Path { path: Vec::new(), value, desc };
        proof {
            assert(r.spec_components() =~= Seq::<Seq<char>>::empty());
        }
        r
    }

    /// Constructs a cursor directly at the specified path.
    pub fn new_at<'r>(value: &'r Value, path: Vec<&'r str>, desc: &'r str) -> (r: Path<'r>)
        ensures
            r.spec_components() == component_views(path@),
            r.spec_value() == *value,
            r.spec_desc() == desc@,
    {
        Path { path, value, desc }
    }

    /// Produces a sibling cursor at the same path and description, pointed
    /// at a different value.
    pub fn clone_with(&self, value: &'a Value) -> (r: Path<'a>)
        ensures
            r.spec_components() == self.spec_components(),
            r.spec_value() == *value,
            r.spec_desc() == self.spec_desc(),
    {
        Path { path: clone_components(&self.path), value, desc: self.desc }
    }

    /// Returns the path to this configuration node.
    pub fn components(&self) -> (r: &[&str])
        ensures
            component_views(r@) == self.spec_components(),
    {
        self.path.as_slice()
    }

    /// Returns the raw value of this configuration node.
    pub fn value(&self) -> (r: &Value)
        ensures
            *r == self.spec_value(),
    {
        self.value
    }

    /// Returns the description of the configuration at this path.
    pub fn description(&self) -> (r: &str)
        ensures
            r@ == self.spec_desc(),
    {
        self.desc
    }

    /// Renders the path to this node as its components joined with `.`.
    pub fn path_as_string(&self) -> (r: String)
        ensures
            r@ == render_path(self.spec_components()),
    {
        components_to_string(&self.path)
    }

    /// Descends into the property of this table value named `property_name`.
    ///
    /// Fails with `ExpectedTable` at the current path when this node is not
    /// a table, and with `ExpectedProperty` at the extended path — where the
    /// missing property would live — when the table has no such key.
    pub fn table_property(&self, property_name: &'a str, property_desc: &'a str) -> (r: Result<
        Path<'a>,
        At<Error>,
    >)
        ensures
            match r {
                Ok(child) => {
                    &&& self.spec_value() matches Value::Table(t) && table_lookup(
                        t@,
                        property_name@,
                    ) == Some(child.spec_value())
                    &&& child.spec_components() == self.spec_components().push(property_name@)
                    &&& child.spec_desc() == property_desc@
                },
                Err(e) => match e.error {
                    Error::ExpectedTable { desc } => {
                        &&& !(self.spec_value() matches Value::Table(..))
                        &&& desc@ == self.spec_desc()
                        &&& e.path@ == render_path(self.spec_components())
                    },
                    Error::ExpectedProperty(p) => {
                        &&& self.spec_value() matches Value::Table(t) && table_lookup(
                            t@,
                            property_name@,
                        ) is None
                        &&& p.name@ == property_name@
                        &&& p.desc@ == property_desc@
                        &&& e.path@ == render_path(
                            self.spec_components().push(property_name@),
                        )
                    },
                    _ => false,
                },
            },
    {
        let mut path = clone_components(&self.path);
        path.push(property_name);
        proof {
            assert(component_views(path@) =~= self.spec_components().push(property_name@));
        }
        match self.value {
            Value::Table(t) => match t.get(property_name) {
                Some(value) => Ok(Path { path, value, desc: property_desc }),
                None => Err(
                    Error::ExpectedProperty(
                        Property {
                            name: property_name.to_owned(),
                            desc: property_desc.to_owned(),
                        },
                    ).at(components_to_string(&path)),
                ),
            },
            _ => Err(
                Error::ExpectedTable { desc: self.desc.to_owned() }.at(
                    components_to_string(&self.path),
                ),
            ),
        }
    }

    /// Descends one path component, taking `value` as if it were the child
    /// stored under `property_name`; never fails, since nothing is looked up.
    pub fn join(&self, value: &'a Value, property_name: &'a str, property_desc: &'a str) -> (r:
        Path<'a>)
        ensures
            r.spec_components() == self.spec_components().push(property_name@),
            r.spec_value() == *value,
            r.spec_desc() == property_desc@,
    {
        let mut path = clone_components(&self.path);
        path.push(property_name);
        proof {
            assert(component_views(path@) =~= self.spec_components().push(property_name@));
        }
        Path { path, value, desc: property_desc }
    }

    /// Extracts the text of this node, or fails with `ExpectedString` at
    /// this cursor's own path.
    pub fn as_str(&self) -> (r: Result<&str, At<Error>>)
        ensures
            match r {
                Ok(s) => self.spec_value() matches Value::String(t) && s@ == t@,
                Err(e) => {
                    &&& !(self.spec_value() matches Value::String(..))
                    &&& e.error matches Error::ExpectedString { desc } && desc@
                        == self.spec_desc()
                    &&& e.path@ == render_path(self.spec_components())
                },
            },
    {
        match self.value.as_str() {
            Some(s) => Ok(s),
            None => Err(
                Error::ExpectedString { desc: self.desc.to_owned() }.at(self.path_as_string()),
            ),
        }
    }

    /// Extracts the integer value of this node, or fails with
    /// `ExpectedInteger` at this cursor's own path.
    pub fn as_integer(&self) -> (r: Result<i64, At<Error>>)
        ensures
            match r {
                Ok(i) => self.spec_value() matches Value::Integer(j) && i == j,
                Err(e) => {
                    &&& !(self.spec_value() matches Value::Integer(..))
                    &&& e.error matches Error::ExpectedInteger { desc } && desc@
                        == self.spec_desc()
                    &&& e.path@ == render_path(self.spec_components())
                },
            },
    {
        match self.value.as_integer() {
            Some(i) => Ok(i),
            None => Err(
                Error::ExpectedInteger { desc: self.desc.to_owned() }.at(self.path_as_string()),
            ),
        }
    }

    /// Extracts the bit pattern of the float value of this node, or fails
    /// with `ExpectedFloat` at this cursor's own path.
    pub fn as_float(&self) -> (r: Result<u64, At<Error>>)
        ensures
            match r {
                Ok(bits) => self.spec_value() matches Value::Float(b) && bits == b,
                Err(e) => {
                    &&& !(self.spec_value() matches Value::Float(..))
                    &&& e.error matches Error::ExpectedFloat { desc } && desc@
                        == self.spec_desc()
                    &&& e.path@ == render_path(self.spec_components())
                },
            },
    {
        match self.value.as_float() {
            Some(bits) => Ok(bits),
            None => Err(
                Error::ExpectedFloat { desc: self.desc.to_owned() }.at(self.path_as_string()),
            ),
        }
    }

    /// Extracts the boolean value of this node, or fails with
    /// `ExpectedBool` at this cursor's own path.
    pub fn as_bool(&self) -> (r: Result<bool, At<Error>>)
        ensures
            match r {
                Ok(b) => self.spec_value() matches Value::Boolean(c) && b == c,
                Err(e) => {
                    &&& !(self.spec_value() matches Value::Boolean(..))
                    &&& e.error matches Error::ExpectedBool { desc } && desc@
                        == self.spec_desc()
                    &&& e.path@ == render_path(self.spec_components())
                },
            },
    {
        match self.value.as_bool() {
            Some(b) => Ok(b),
            None => Err(
                Error::ExpectedBool { desc: self.desc.to_owned() }.at(self.path_as_string()),
            ),
        }
    }

    /// Extracts the datetime text of this node, or fails with
    /// `ExpectedDatetime` at this cursor's own path.
    pub fn as_datetime(&self) -> (r: Result<&str, At<Error>>)
        ensures
            match r {
                Ok(s) => self.spec_value() matches Value::Datetime(t) && s@ == t@,
                Err(e) => {
                    &&& !(self.spec_value() matches Value::Datetime(..))
                    &&& e.error matches Error::ExpectedDatetime { desc } && desc@
                        == self.spec_desc()
                    &&& e.path@ == render_path(self.spec_components())
                },
            },
    {
        match self.value.as_datetime() {
            Some(s) => Ok(s),
            None => Err(
                Error::ExpectedDatetime { desc: self.desc.to_owned() }.at(self.path_as_string()),
            ),
        }
    }

    /// Extracts the children of this array node, or fails with
    /// `ExpectedSlice` at this cursor's own path.
    pub fn as_slice(&self) -> (r: Result<&[Value], At<Error>>)
        ensures
            match r {
                Ok(s) => self.spec_value() matches Value::Array(a) && s@ == a@,
                Err(e) => {
                    &&& !(self.spec_value() matches Value::Array(..))
                    &&& e.error matches Error::ExpectedSlice { desc } && desc@
                        == self.spec_desc()
                    &&& e.path@ == render_path(self.spec_components())
                },
            },
    {
        match self.value.as_slice() {
            Some(s) => Ok(s),
            None => Err(
                Error::ExpectedSlice { desc: self.desc.to_owned() }.at(self.path_as_string()),
            ),
        }
    }

    /// Extracts the table of this node, or fails with `ExpectedTable` at
    /// this cursor's own path.
    pub fn as_table(&self) -> (r: Result<&Table, At<Error>>)
        ensures
            match r {
                Ok(t) => self.spec_value() matches Value::Table(u) && *t == u,
                Err(e) => {
                    &&& !(self.spec_value() matches Value::Table(..))
                    &&& e.error matches Error::ExpectedTable { desc } && desc@
                        == self.spec_desc()
                    &&& e.path@ == render_path(self.spec_components())
                },
            },
    {
        match self.value.as_table() {
            Some(t) => Ok(t),
            None => Err(
                Error::ExpectedTable { desc: self.desc.to_owned() }.at(self.path_as_string()),
            ),
        }
    }
}

} // verus!
