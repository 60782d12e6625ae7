//! The model of an LWM2M object definition, from which the Rust trait of the
//! object is generated: its validation and the names used in the generated
//! code.

use crate::text::str_eq;
use convert_case::Casing;
use vstd::prelude::*;

verus! {

/// Whether an object or resource has multiple instances.
#[derive(Clone, Copy, Debug, PartialEq, Eq, Structural)]
pub enum MultipleInstances {
    Multiple,
    Single,
}

/// Whether an object or resource must be implemented.
#[derive(Clone, Copy, Debug, PartialEq, Eq, Structural)]
pub enum Mandatory {
    Mandatory,
    Optional,
}

/// The operations a resource supports.
#[derive(Clone, Copy, Debug, PartialEq, Eq, Structural)]
pub enum Operations {
    ReadOnly,
    WriteOnly,
    ReadWrite,
    Execute,
    /// No operations (an empty entry).
    Absent,
}

/// The type of a resource.
#[derive(Clone, Copy, Debug, PartialEq, Eq, Structural)]
pub enum Type {
    String,
    Integer,
    Float,
    Boolean,
    Opaque,
    Time,
    Objlnk,
    /// No type (an empty entry).
    Absent,
    UnsignedInteger,
    Corelnk,
}

/// A resource of an object.
#[derive(Debug)]
pub struct ResourceItem {
    pub id: u16,
    pub name: String,
    pub operations: Operations,
    pub multiple_instances: MultipleInstances,
    pub mandatory: Mandatory,
    pub resource_type: Type,
    pub range_enumeration: String,
    pub units: String,
    pub description: String,
}

/// The Rust type that holds a value of a resource of type `t`.
pub open spec fn spec_rust_type(t: Type) -> Seq<char> {
    match t {
        Type::String => "String"@,
        Type::Integer => "i64"@,
        Type::UnsignedInteger => "u64"@,
        Type::Float => "f64"@,
        Type::Boolean => "bool"@,
        Type::Opaque => "Vec<u8>"@,
        Type::Time => "std::time::SystemTime"@,
        Type::Objlnk => "ObjectLink"@,
        Type::Corelnk => "CoreLink"@,
        Type::Absent => "()"@,
    }
}

/// The Rust type of a resource carries its LWM2M value without loss: text
/// as `String`, integers as 64-bit signed or unsigned integers, floats as
/// `f64`, opaque data as bytes, times as `SystemTime`, links as link types,
/// and an absent type as `()`.
pub proof fn law_resource_rust_types()
    ensures
        spec_rust_type(Type::String) == "String"@,
        spec_rust_type(Type::Integer) == "i64"@,
        spec_rust_type(Type::UnsignedInteger) == "u64"@,
        spec_rust_type(Type::Float) == "f64"@,
        spec_rust_type(Type::Boolean) == "bool"@,
        spec_rust_type(Type::Opaque) == "Vec<u8>"@,
        spec_rust_type(Type::Time) == "std::time::SystemTime"@,
        spec_rust_type(Type::Objlnk) == "ObjectLink"@,
        spec_rust_type(Type::Corelnk) == "CoreLink"@,
        spec_rust_type(Type::Absent) == "()"@,
{
    reveal_strlit("String");
    reveal_strlit("i64");
    reveal_strlit("u64");
    reveal_strlit("f64");
    reveal_strlit("bool");
    reveal_strlit("Vec<u8>");
    reveal_strlit("std::time::SystemTime");
    reveal_strlit("ObjectLink");
    reveal_strlit("CoreLink");
    reveal_strlit("()");
}

impl ResourceItem {
    /// The Rust type that holds a value of this resource, as source text.
    pub fn rust_type(&self) -> (r: &'static str)
        ensures
            r@ == spec_rust_type(self.resource_type),
    {
        let r = match self.resource_type {
            Type::String => "String",
            Type::Integer => "i64",
            Type::UnsignedInteger => "u64",
            Type::Float => "f64",
            Type::Boolean => "bool",
            Type::Opaque => "Vec<u8>",
            Type::Time => "std::time::SystemTime",
            Type::Objlnk => "ObjectLink",
            Type::Corelnk => "CoreLink",
            Type::Absent => "()",
        };
        proof {
            reveal_strlit("String");
            reveal_strlit("i64");
            reveal_strlit("u64");
            reveal_strlit("f64");
            reveal_strlit("bool");
            reveal_strlit("Vec<u8>");
            reveal_strlit("std::time::SystemTime");
            reveal_strlit("ObjectLink");
            reveal_strlit("CoreLink");
            reveal_strlit("()");
        }
        r
    }
}

/// The resources of an object.
#[derive(Debug)]
pub struct Resources {
    pub items: Vec<ResourceItem>,
}

/// An object definition.
#[derive(Debug)]
pub struct Object {
    pub object_type: String,
    pub name: String,
    pub description1: String,
    pub description2: String,
    pub id: u16,
    pub urn: String,
    pub lwm2m_version: String,
    pub version: String,
    pub multiple_instances: MultipleInstances,
    pub mandatory: Mandatory,
    pub resources: Resources,
}

/// A definition file: its schema attributes and objects.
#[derive(Debug)]
pub struct Lwm2m {
    pub xmlns_xsi: String,
    pub no_ns_schema_location: String,
    pub objects: Vec<Object>,
}

/// Why a definition file is not supported.
#[derive(Debug)]
pub enum DefinitionError {
    /// "unsupported xmlns:xsi: {0}"
    UnsupportedXmlnsXsi(String),
    /// "unsupported xsi:noNamespaceSchemaLocation: {0}"
    UnsupportedSchemaLocation(String),
    /// "invalid number of objects: {0}"
    InvalidNumberOfObjects(usize),
    /// "unsupported object type: {0}"
    UnsupportedObjectType(String),
    /// "unsupported object lwm2m-version: {0}"
    UnsupportedLwm2mVersion(String),
}

/// The schema instance namespace that definitions use.
pub open spec fn supported_xmlns_xsi(s: Seq<char>) -> bool {
    s == "http://www.w3.org/2001/XMLSchema-instance"@
}

/// The schemas that definitions may refer to.
pub open spec fn supported_schema_location(s: Seq<char>) -> bool {
    ||| s == "http://www.openmobilealliance.org/tech/profiles/LWM2M-v1_1.xsd"@
    ||| s == "http://openmobilealliance.org/tech/profiles/LWM2M-v1_1.xsd"@
    ||| s == "http://www.openmobilealliance.org/tech/profiles/LWM2M.xsd"@
    ||| s == "http://openmobilealliance.org/tech/profiles/LWM2M.xsd"@
}

/// The LWM2M versions that object definitions may have.
pub open spec fn supported_lwm2m_version(s: Seq<char>) -> bool {
    s == "1.0"@ || s == "1.1"@ || s == "1.2"@
}

/// The object type of an object definition.
pub open spec fn supported_object_type(s: Seq<char>) -> bool {
    s == "MODefinition"@
}

impl Lwm2m {
    /// The single object of a supported definition file, or why the file
    /// is not supported (the first check that fails, in this order: schema
    /// instance namespace, schema location, number of objects, object type,
    /// LWM2M version).
    pub fn into_object(self) -> (r: Result<Object, DefinitionError>)
        ensures
            !supported_xmlns_xsi(self.xmlns_xsi@) ==> (r matches Err(
                DefinitionError::UnsupportedXmlnsXsi(s),
            ) && s == self.xmlns_xsi),
            supported_xmlns_xsi(self.xmlns_xsi@) && !supported_schema_location(
                self.no_ns_schema_location@,
            ) ==> (r matches Err(DefinitionError::UnsupportedSchemaLocation(s)) && s
                == self.no_ns_schema_location),
            supported_xmlns_xsi(self.xmlns_xsi@) && supported_schema_location(
                self.no_ns_schema_location@,
            ) ==> {
                if self.objects@.len() != 1 {
                    r matches Err(DefinitionError::InvalidNumberOfObjects(n)) && n
                        == self.objects@.len()
                } else if !supported_object_type(self.objects@[0].object_type@) {
                    r matches Err(DefinitionError::UnsupportedObjectType(s)) && s
                        == self.objects@[0].object_type
                } else if !supported_lwm2m_version(self.objects@[0].lwm2m_version@) {
                    r matches Err(DefinitionError::UnsupportedLwm2mVersion(s)) && s
                        == self.objects@[0].lwm2m_version
                } else {
                    r matches Ok(o) && o == self.objects@[0]
                }
            },
    {
        let Lwm2m { xmlns_xsi, no_ns_schema_location, mut objects } = self;
        proof {
            reveal_strlit("http://www.w3.org/2001/XMLSchema-instance");
            reveal_strlit("http://www.openmobilealliance.org/tech/profiles/LWM2M-v1_1.xsd");
            reveal_strlit("http://openmobilealliance.org/tech/profiles/LWM2M-v1_1.xsd");
            reveal_strlit("http://www.openmobilealliance.org/tech/profiles/LWM2M.xsd");
            reveal_strlit("http://openmobilealliance.org/tech/profiles/LWM2M.xsd");
            reveal_strlit("MODefinition");
            reveal_strlit("1.0");
            reveal_strlit("1.1");
            reveal_strlit("1.2");
        }
        if !str_eq(xmlns_xsi.as_str(), "http://www.w3.org/2001/XMLSchema-instance") {
            return Err(DefinitionError::UnsupportedXmlnsXsi(xmlns_xsi));
        }
        let location = no_ns_schema_location.as_str();
        if !(str_eq(location, "http://www.openmobilealliance.org/tech/profiles/LWM2M-v1_1.xsd")
            || str_eq(location, "http://openmobilealliance.org/tech/profiles/LWM2M-v1_1.xsd")
            || str_eq(location, "http://www.openmobilealliance.org/tech/profiles/LWM2M.xsd")
            || str_eq(location, "http://openmobilealliance.org/tech/profiles/LWM2M.xsd")) {
            return Err(DefinitionError::UnsupportedSchemaLocation(no_ns_schema_location));
        }
        if objects.len() != 1 {
            return Err(DefinitionError::InvalidNumberOfObjects(objects.len()));
        }
        let object = objects.remove(0);
        if !str_eq(object.object_type.as_str(), "MODefinition") {
            return Err(DefinitionError::UnsupportedObjectType(object.object_type));
        }
        let version = object.lwm2m_version.as_str();
        if !(str_eq(version, "1.0") || str_eq(version, "1.1") || str_eq(version, "1.2")) {
            return Err(DefinitionError::UnsupportedLwm2mVersion(object.lwm2m_version));
        }
        Ok(object)
    }
}

/// Whether `c` is numeric in Unicode (general category `Nd`, `Nl` or `No`).
pub uninterp spec fn unicode_numeric(c: char) -> bool;

/// `s` in Unicode lower case.
pub uninterp spec fn lowercase(s: Seq<char>) -> Seq<char>;

/// The letter cases that identifiers are written in.
#[derive(Clone, Copy, Debug, PartialEq, Eq, Structural)]
pub enum IdentCase {
    /// `UPPER_SNAKE`, for constants
    UpperSnake,
    /// `snake`, for functions and modules
    Snake,
    /// `Pascal`, for types
    Pascal,
}

/// `s` converted to the letter case `case` by `convert_case`.
pub uninterp spec fn cased(s: Seq<char>, case: IdentCase) -> Seq<char>;

/// Calls `char::is_numeric`. Trusted: the result is `unicode_numeric` of the
/// character, and the ASCII digits are numeric, as its documentation shows.
#[verifier::external_body]
fn char_is_numeric(c: char) -> (r: bool)
    ensures
        r == unicode_numeric(c),
        '0' <= c <= '9' ==> r,
{
    c.is_numeric()
}

/// Calls `str::to_lowercase`. Trusted: the result is `lowercase` of the
/// text.
#[verifier::external_body]
fn to_lowercase(s: &str) -> (r: String)
    ensures
        r@ == lowercase(s@),
{
    s.to_lowercase()
}

/// Calls `convert_case::Casing::to_case` with the matching case. Trusted:
/// the result is `cased` of the text.
#[verifier::external_body]
fn to_case(s: &str, case: IdentCase) -> (r: String)
    ensures
        r@ == cased(s@, case),
{
    let case = match case {
        IdentCase::UpperSnake => convert_case::Case::UpperSnake,
        IdentCase::Snake => convert_case::Case::Snake,
        IdentCase::Pascal => convert_case::Case::Pascal,
    };
    s.to_case(case)
}

/// The characters that identifiers drop.
pub open spec fn dropped_char(c: char) -> bool {
    c == '/' || c == '(' || c == ')' || c == ',' || c == '.' || c == '&' || c == '+' || c == '|'
}

/// `s` without the characters that identifiers drop.
pub open spec fn without_dropped(s: Seq<char>) -> Seq<char>
    decreases s.len(),
{
    if s.len() == 0 {
        s
    } else if dropped_char(s.last()) {
        without_dropped(s.drop_last())
    } else {
        without_dropped(s.drop_last()).push(s.last())
    }
}

/// The text of an identifier for the name `name`: the dropped characters
/// removed, `num` put before a leading numeric character, and the name
/// `type` in any case replaced.
pub open spec fn spec_escapestr(name: Seq<char>) -> Seq<char> {
    let s = without_dropped(name);
    if s.len() > 0 && unicode_numeric(s[0]) {
        "num"@ + s
    } else if lowercase(name) == "type"@ {
        "type_escaped"@
    } else {
        s
    }
}

/// The text of an identifier for a name from a definition.
pub fn escapestr(string: &str) -> (r: String)
    ensures
        r@ == spec_escapestr(string@),
{
    let mut s = String::new();
    let mut first: Option<char> = None;
    for c in it: string.chars()
        invariant
            it.seq() == string@,
            s@ == without_dropped(string@.take(it.index() as int)),
            first == (if s@.len() > 0 {
                Some(s@[0])
            } else {
                None::<char>
            }),
    {
        proof {
            assert(string@.take(it.index() + 1).drop_last() == string@.take(it.index() as int));
        }
        if !(c == '/' || c == '(' || c == ')' || c == ',' || c == '.' || c == '&' || c == '+'
            || c == '|') {
            if first.is_none() {
                first = Some(c);
            }
            s.push(c);
        }
    }
    proof {
        assert(string@.take(string@.len() as int) == string@);
        reveal_strlit("num");
        reveal_strlit("type");
        reveal_strlit("type_escaped");
    }
    let leading_numeric = match first {
        Some(c) => char_is_numeric(c),
        None => false,
    };
    if leading_numeric {
        let mut r = "num".to_owned();
        r.push_str(s.as_str());
        r
    } else if str_eq(to_lowercase(string).as_str(), "type") {
        "type_escaped".to_owned()
    } else {
        s
    }
}

/// The text of an identifier in the letter case `case` for a name from a
/// definition.
pub fn ident_text(string: &str, case: IdentCase) -> (r: String)
    ensures
        r@ == cased(spec_escapestr(string@), case),
{
    let escaped = escapestr(string);
    to_case(escaped.as_str(), case)
}

impl Object {
    /// The object's id as used in paths: its name in snake case.
    pub fn strid(&self) -> (r: String)
        ensures
            r@ == cased(self.name@, IdentCase::Snake),
    {
        to_case(self.name.as_str(), IdentCase::Snake)
    }

    /// The object's URN.
    pub fn urn(&self) -> (r: &str)
        ensures
            r@ == self.urn@,
    {
        self.urn.as_str()
    }
}

/// Whether a resource with the operations `op` can be read.
pub open spec fn readable(op: Operations) -> bool {
    op is ReadOnly || op is ReadWrite
}

/// Whether a resource with the operations `op` can be written.
pub open spec fn writable(op: Operations) -> bool {
    op is WriteOnly || op is ReadWrite
}

/// How a readable resource is passed to the function that builds an
/// object's JSON value.
#[derive(Clone, Copy, Debug, PartialEq, Eq, Structural)]
pub enum JsonShape {
    /// One optional value per instance.
    Array,
    /// An optional value, stored where present.
    Optional,
    /// A value, always stored.
    Plain,
}

/// The shape of a readable resource in the JSON builder.
pub open spec fn spec_json_shape(m: MultipleInstances, mandatory: Mandatory) -> JsonShape {
    match (m, mandatory) {
        (MultipleInstances::Multiple, _) => JsonShape::Array,
        (MultipleInstances::Single, Mandatory::Optional) => JsonShape::Optional,
        (MultipleInstances::Single, Mandatory::Mandatory) => JsonShape::Plain,
    }
}

/// What is generated for one resource of an object.
#[derive(Debug)]
pub struct ResourcePlan {
    /// The constant that holds the resource's id.
    pub const_name: String,
    /// The trait's getter, where the resource can be read.
    pub getter: Option<String>,
    /// The trait's setter, where the resource can be written.
    pub setter: Option<String>,
    /// The trait's function that executes the resource, where it can be.
    pub execute: Option<String>,
    /// Whether the trait's functions have no default body: the resource is
    /// mandatory. An optional one answers that it is unsupported.
    pub required: bool,
    /// The resource's name as used in paths.
    pub path_name: String,
    pub id: usize,
    pub is_array: bool,
    /// How the JSON builder takes the resource, where it can be read.
    pub json: Option<JsonShape>,
}

/// `p` is what is generated for the resource `r` of the object whose trait
/// is named `trait_ident`.
pub open spec fn resource_plan_fits(trait_ident: Seq<char>, r: ResourceItem, p: ResourcePlan) -> bool {
    &&& p.const_name@ == cased(spec_escapestr(trait_ident + "_"@ + r.name@), IdentCase::UpperSnake)
    &&& match p.getter {
        Some(g) => readable(r.operations) && g@ == cased(spec_escapestr(r.name@), IdentCase::Snake),
        None => !readable(r.operations),
    }
    &&& match p.setter {
        Some(f) => writable(r.operations) && f@ == cased(
            spec_escapestr("set_"@ + r.name@),
            IdentCase::Snake,
        ),
        None => !writable(r.operations),
    }
    &&& match p.execute {
        Some(f) => r.operations is Execute && f@ == cased(spec_escapestr(r.name@), IdentCase::Snake),
        None => !(r.operations is Execute),
    }
    &&& p.required == (r.mandatory is Mandatory)
    &&& p.path_name@ == cased(r.name@, IdentCase::Snake)
    &&& p.id == r.id
    &&& p.is_array == (r.multiple_instances is Multiple)
    &&& p.json == if readable(r.operations) {
        Some(spec_json_shape(r.multiple_instances, r.mandatory))
    } else {
        None
    }
}

/// What is generated for an object.
#[derive(Debug)]
pub struct ObjectPlan {
    /// The object's trait.
    pub trait_name: String,
    /// The handler that serves the trait as an object.
    pub handler_name: String,
    /// The function that builds the object's JSON value.
    pub makejson_name: String,
    /// The trait's documentation.
    pub doc: String,
    /// One entry per resource, in order.
    pub resources: Vec<ResourcePlan>,
}

/// `c` with square brackets made round.
pub open spec fn bracket_to_paren(c: char) -> char {
    if c == '[' {
        '('
    } else if c == ']' {
        ')'
    } else {
        c
    }
}

/// The documentation of an object's trait: its two descriptions, a blank
/// line between them, with square brackets made round.
pub open spec fn spec_doc(description1: Seq<char>, description2: Seq<char>) -> Seq<char> {
    (description1 + "\n\n"@ + description2).map_values(|c: char| bracket_to_paren(c))
}

/// `s` with square brackets made round.
fn brackets_to_parens(s: &str) -> (r: String)
    ensures
        r@ == s@.map_values(|c: char| bracket_to_paren(c)),
{
    let mut r = String::new();
    for c in it: s.chars()
        invariant
            it.seq() == s@,
            r@ == s@.take(it.index() as int).map_values(|c: char| bracket_to_paren(c)),
    {
        let d = if c == '[' {
            '('
        } else if c == ']' {
            ')'
        } else {
            c
        };
        r.push(d);
        proof {
            assert(s@.take(it.index() + 1).map_values(|c: char| bracket_to_paren(c)) == s@.take(
                it.index() as int,
            ).map_values(|c: char| bracket_to_paren(c)).push(d));
        }
    }
    proof {
        assert(s@.take(s@.len() as int) == s@);
    }
    r
}

/// `a` followed by `b` and `c`.
fn joined(a: &str, b: &str, c: &str) -> (r: String)
    ensures
        r@ == a@ + b@ + c@,
{
    let mut r = a.to_owned();
    r.push_str(b);
    r.push_str(c);
    r
}

/// The supported-operations mask of a resource with the operations `op`,
/// from the bits that stand for reading, writing and executing.
pub open spec fn spec_operations_mask(op: Operations, read: usize, write: usize, execute: usize) -> usize {
    match op {
        Operations::ReadOnly => read,
        Operations::WriteOnly => write,
        Operations::ReadWrite => read | write,
        Operations::Execute => execute,
        Operations::Absent => 0,
    }
}

impl ResourceItem {
    /// The supported-operations mask of this resource, from the bits that
    /// stand for reading, writing and executing.
    pub fn operations_mask(&self, read: usize, write: usize, execute: usize) -> (r: usize)
        ensures
            r == spec_operations_mask(self.operations, read, write, execute),
    {
        match self.operations {
            Operations::ReadOnly => read,
            Operations::WriteOnly => write,
            Operations::ReadWrite => read | write,
            Operations::Execute => execute,
            Operations::Absent => 0,
        }
    }
}

impl ResourceItem {
    /// What is generated for this resource of the object whose trait is
    /// named `trait_ident`.
    pub fn plan(&self, trait_ident: &str) -> (p: ResourcePlan)
        ensures
            resource_plan_fits(trait_ident@, *self, p),
    {
        proof {
            reveal_strlit("_");
            reveal_strlit("set_");
            reveal_strlit("");
        }
        let readable = match self.operations {
            Operations::ReadOnly | Operations::ReadWrite => true,
            _ => false,
        };
        let writable = match self.operations {
            Operations::WriteOnly | Operations::ReadWrite => true,
            _ => false,
        };
        let executable = match self.operations {
            Operations::Execute => true,
            _ => false,
        };
        let const_name = ident_text(joined(trait_ident, "_", self.name.as_str()).as_str(), IdentCase::UpperSnake);
        let getter = if readable {
            Some(ident_text(self.name.as_str(), IdentCase::Snake))
        } else {
            None
        };
        let setter = if writable {
            Some(ident_text(joined("set_", self.name.as_str(), "").as_str(), IdentCase::Snake))
        } else {
            None
        };
        let execute = if executable {
            Some(ident_text(self.name.as_str(), IdentCase::Snake))
        } else {
            None
        };
        let json = if readable {
            Some(
                match (self.multiple_instances, self.mandatory) {
                    (MultipleInstances::Multiple, _) => JsonShape::Array,
                    (MultipleInstances::Single, Mandatory::Optional) => JsonShape::Optional,
                    (MultipleInstances::Single, Mandatory::Mandatory) => JsonShape::Plain,
                },
            )
        } else {
            None
        };
        proof {
            assert("set_"@ + self.name@ + ""@ == "set_"@ + self.name@);
        }
        ResourcePlan {
            const_name,
            getter,
            setter,
            execute,
            required: match self.mandatory {
                Mandatory::Mandatory => true,
                Mandatory::Optional => false,
            },
            path_name: to_case(self.name.as_str(), IdentCase::Snake),
            id: self.id as usize,
            is_array: match self.multiple_instances {
                MultipleInstances::Multiple => true,
                MultipleInstances::Single => false,
            },
            json,
        }
    }
}

impl Object {
    /// What is generated for this object: the names of its trait, handler
    /// and JSON builder, the trait's documentation and, for each resource,
    /// its plan.
    pub fn plan(&self) -> (p: ObjectPlan)
        ensures
            p.trait_name@ == cased(spec_escapestr(self.name@), IdentCase::Pascal),
            p.handler_name@ == cased(spec_escapestr(self.name@ + "Handler"@), IdentCase::Pascal),
            p.makejson_name@ == cased(
                spec_escapestr("make_"@ + self.name@ + "_json"@),
                IdentCase::Snake,
            ),
            p.doc@ == spec_doc(self.description1@, self.description2@),
            p.resources@.len() == self.resources.items@.len(),
            forall|i: int|
                0 <= i < p.resources@.len() ==> resource_plan_fits(
                    p.trait_name@,
                    self.resources.items@[i],
                    #[trigger] p.resources@[i],
                ),
    {
        proof {
            reveal_strlit("");
            reveal_strlit("Handler");
            reveal_strlit("make_");
            reveal_strlit("_json");
            reveal_strlit("\n\n");
        }
        let trait_name = ident_text(self.name.as_str(), IdentCase::Pascal);
        let handler_name = ident_text(joined("", self.name.as_str(), "Handler").as_str(), IdentCase::Pascal);
        let makejson_name = ident_text(
            joined("make_", self.name.as_str(), "_json").as_str(),
            IdentCase::Snake,
        );
        let doc = brackets_to_parens(
            joined(self.description1.as_str(), "\n\n", self.description2.as_str()).as_str(),
        );
        proof {
            assert(""@ + self.name@ + "Handler"@ == self.name@ + "Handler"@);
        }
        let mut resources: Vec<ResourcePlan> = Vec::new();
        let mut i: usize = 0;
        while i < self.resources.items.len()
            invariant
                i <= self.resources.items@.len(),
                resources@.len() == i,
                forall|j: int|
                    0 <= j < i ==> resource_plan_fits(
                        trait_name@,
                        self.resources.items@[j],
                        #[trigger] resources@[j],
                    ),
            decreases self.resources.items@.len() - i,
        {
            let p = self.resources.items[i].plan(trait_name.as_str());
            resources.push(p);
            i += 1;
        }
        ObjectPlan { trait_name, handler_name, makejson_name, doc, resources }
    }
}

} // verus!
