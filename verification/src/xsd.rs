//! The model of an XSD schema from which Rust types are generated, and its
//! normalization: complex types nested in elements are lifted to the top
//! level, simple contents are folded into their types, and sequences or
//! choices that only wrap one another are unwrapped.

use crate::text::{parse_usize, spec_parse_usize, str_eq};
use vstd::prelude::*;

verus! {

/// Whether an attribute must be present.
#[derive(Clone, Copy, Debug, PartialEq, Eq, Structural)]
pub enum Use {
    Required,
    Optional,
}

/// An attribute of a complex type.
#[derive(Debug)]
pub struct Attribute {
    pub name: String,
    pub type_: String,
    pub use_: Use,
}

/// How often an item may occur.
#[derive(Clone, Copy, Debug, PartialEq, Eq, Structural)]
pub enum Occurs {
    Unbounded,
    Number(usize),
}

impl Default for Occurs {
    /// Once, as XSD defaults.
    fn default() -> (r: Self)
        ensures
            r == Occurs::Number(1),
    {
        Occurs::Number(1)
    }
}

/// Why an occurrence count could not be read.
#[derive(Debug)]
pub struct OccursError(pub String);

/// What the text `s` says as occurrence count, if anything.
pub open spec fn spec_occurs(s: Seq<char>) -> Option<Occurs> {
    if s == "unbounded"@ {
        Some(Occurs::Unbounded)
    } else {
        match spec_parse_usize(s) {
            Some(n) => Some(Occurs::Number(n)),
            None => None,
        }
    }
}

impl Occurs {
    /// Reads an occurrence count: `unbounded` or a decimal number.
    pub fn parse(s: &str) -> (r: Result<Occurs, OccursError>)
        ensures
            match spec_occurs(s@) {
                Some(o) => r == Ok::<Occurs, OccursError>(o),
                None => r matches Err(OccursError(t)) && t@ == s@,
            },
    {
        if str_eq(s, "unbounded") {
            return Ok(Occurs::Unbounded);
        }
        match parse_usize(s) {
            Some(n) => {
                proof {
                    reveal_strlit("unbounded");
                }
                Ok(Occurs::Number(n))
            },
            None => Err(OccursError(s.to_owned())),
        }
    }
}

/// An element: a named field of a complex type, of a named type or of a
/// complex type given in place.
#[derive(Debug)]
pub struct Element {
    pub name: String,
    pub min_occurs: Occurs,
    pub max_occurs: Occurs,
    pub type_: Option<String>,
    pub complex_type: Option<ComplexType>,
}

/// A sequence of elements and choices.
#[derive(Debug)]
pub struct Sequence {
    pub min_occurs: Occurs,
    pub max_occurs: Occurs,
    pub elements: Vec<Element>,
    pub choices: Vec<Choice>,
}

/// A choice between elements and sequences.
#[derive(Debug)]
pub struct Choice {
    pub min_occurs: Occurs,
    pub max_occurs: Occurs,
    pub elements: Vec<Element>,
    pub sequences: Vec<Sequence>,
}

/// The extension of a simple content: its base type and attributes.
#[derive(Debug)]
pub struct Extension {
    pub base: String,
    pub attributes: Vec<Attribute>,
}

/// A simple content: text of a base type, with attributes.
#[derive(Debug)]
pub struct SimpleContent {
    pub extension: Extension,
}

/// A complex type.
#[derive(Debug)]
pub struct ComplexType {
    pub name: Option<String>,
    pub attributes: Vec<Attribute>,
    pub sequences: Vec<Sequence>,
    pub choices: Vec<Choice>,
    pub simple_contents: Vec<SimpleContent>,
    pub content_type_: Option<String>,
}

/// A schema: its root element and its complex types.
#[derive(Debug)]
pub struct Xsd {
    pub target_namespace: String,
    pub xmlns: String,
    pub xmlns_xs: String,
    pub element_form_default: String,
    pub complex_types: Vec<ComplexType>,
    pub element: Element,
}

/// What a complex type consists of.
pub enum ComplexTypeInner<'a> {
    Sequence(&'a Sequence),
    Choice(&'a Choice),
    SimpleContent(&'a SimpleContent),
}

/// The Rust type for the XSD type `xsd`, if it is a supported builtin.
pub open spec fn spec_type_xsd2rust(xsd: Seq<char>) -> Option<Seq<char>> {
    if xsd == "xs:unsignedInt"@ {
        Some("u32"@)
    } else if xsd == "xs:unsignedLong"@ {
        Some("u64"@)
    } else if xsd == "xs:unsignedByte"@ {
        Some("u8"@)
    } else if xsd == "xs:int"@ {
        Some("i32"@)
    } else if xsd == "xs:string"@ {
        Some("String"@)
    } else if xsd == "xs:double"@ {
        Some("f64"@)
    } else if xsd == "xs:hexBinary"@ {
        Some("String"@)
    } else {
        None
    }
}

/// Each supported XSD builtin gets the Rust type that holds its whole value
/// range: 32-, 64- and 8-bit unsigned integers, a 32-bit signed integer, a
/// double, and text for strings and hexadecimal binary data; any other type
/// is no supported builtin.
pub proof fn law_builtin_rust_types()
    ensures
        spec_type_xsd2rust("xs:unsignedInt"@) == Some("u32"@),
        spec_type_xsd2rust("xs:unsignedLong"@) == Some("u64"@),
        spec_type_xsd2rust("xs:unsignedByte"@) == Some("u8"@),
        spec_type_xsd2rust("xs:int"@) == Some("i32"@),
        spec_type_xsd2rust("xs:string"@) == Some("String"@),
        spec_type_xsd2rust("xs:double"@) == Some("f64"@),
        spec_type_xsd2rust("xs:hexBinary"@) == Some("String"@),
        forall|x: Seq<char>| #[trigger] spec_type_xsd2rust(x) is Some ==> x == "xs:unsignedInt"@ || x == "xs:unsignedLong"@ || x == "xs:unsignedByte"@ || x == "xs:int"@ || x == "xs:string"@ || x == "xs:double"@ || x == "xs:hexBinary"@,
{
    reveal_strlit("xs:unsignedInt");
    reveal_strlit("xs:unsignedLong");
    reveal_strlit("xs:unsignedByte");
    reveal_strlit("xs:int");
    reveal_strlit("xs:string");
    reveal_strlit("xs:double");
    reveal_strlit("xs:hexBinary");
    assert("xs:unsignedLong"@.len() != "xs:unsignedInt"@.len());
    assert("xs:unsignedByte"@.len() != "xs:unsignedInt"@.len());
    assert("xs:unsignedByte"@[11] != "xs:unsignedLong"@[11]);
    assert("xs:int"@.len() != "xs:unsignedInt"@.len());
    assert("xs:int"@.len() != "xs:unsignedLong"@.len());
    assert("xs:int"@.len() != "xs:unsignedByte"@.len());
    assert("xs:string"@.len() != "xs:unsignedInt"@.len());
    assert("xs:string"@.len() != "xs:unsignedLong"@.len());
    assert("xs:string"@.len() != "xs:unsignedByte"@.len());
    assert("xs:string"@.len() != "xs:int"@.len());
    assert("xs:double"@.len() != "xs:unsignedInt"@.len());
    assert("xs:double"@.len() != "xs:unsignedLong"@.len());
    assert("xs:double"@.len() != "xs:unsignedByte"@.len());
    assert("xs:double"@.len() != "xs:int"@.len());
    assert("xs:double"@[3] != "xs:string"@[3]);
    assert("xs:hexBinary"@.len() != "xs:unsignedInt"@.len());
    assert("xs:hexBinary"@.len() != "xs:unsignedLong"@.len());
    assert("xs:hexBinary"@.len() != "xs:unsignedByte"@.len());
    assert("xs:hexBinary"@.len() != "xs:int"@.len());
    assert("xs:hexBinary"@.len() != "xs:string"@.len());
    assert("xs:hexBinary"@.len() != "xs:double"@.len());
    reveal_strlit("String");
    reveal_strlit("f64");
    reveal_strlit("i32");
    reveal_strlit("u32");
    reveal_strlit("u64");
    reveal_strlit("u8");
}

/// An XSD type that is no supported builtin.
#[derive(Debug)]
pub struct UnsupportedType;

/// The Rust type for a builtin XSD type.
pub fn type_xsd2rust(xsd: &str) -> (r: Result<&'static str, UnsupportedType>)
    ensures
        match spec_type_xsd2rust(xsd@) {
            Some(t) => r matches Ok(u) && u@ == t,
            None => r is Err,
        },
{
    if str_eq(xsd, "xs:unsignedInt") {
        Ok("u32")
    } else if str_eq(xsd, "xs:unsignedLong") {
        Ok("u64")
    } else if str_eq(xsd, "xs:unsignedByte") {
        Ok("u8")
    } else if str_eq(xsd, "xs:int") {
        Ok("i32")
    } else if str_eq(xsd, "xs:string") {
        Ok("String")
    } else if str_eq(xsd, "xs:double") {
        Ok("f64")
    } else if str_eq(xsd, "xs:hexBinary") {
        Ok("String")
    } else {
        Err(UnsupportedType)
    }
}

/// The Rust field name for an XSD name: `virtual` is a keyword in Rust and
/// becomes `virtual_`.
pub open spec fn spec_fieldname(s: Seq<char>) -> Seq<char> {
    if s == "virtual"@ {
        "virtual_"@
    } else {
        s
    }
}

/// The Rust field name for an XSD name.
pub fn convert_fieldname(s: &str) -> (r: String)
    ensures
        r@ == spec_fieldname(s@),
{
    if str_eq(s, "virtual") {
        "virtual_".to_owned()
    } else {
        proof {
            reveal_strlit("virtual");
        }
        s.to_owned()
    }
}

/// A complex type consists of at most one sequence, choice or simple
/// content, and not of two of them.
pub open spec fn inner_ok(ct: ComplexType) -> bool {
    &&& ct.sequences@.len() < 2
    &&& ct.choices@.len() < 2
    &&& ct.simple_contents@.len() < 2
    &&& ct.sequences@.len() == 1 ==> ct.choices@.len() == 0 && ct.simple_contents@.len() == 0
    &&& ct.choices@.len() == 1 ==> ct.sequences@.len() == 0 && ct.simple_contents@.len() == 0
    &&& ct.simple_contents@.len() == 1 ==> ct.sequences@.len() == 0 && ct.choices@.len() == 0
}

impl ComplexType {
    /// What the complex type consists of, if anything.
    pub fn inner(&self) -> (r: Option<ComplexTypeInner<'_>>)
        requires
            inner_ok(*self),
        ensures
            match r {
                Some(ComplexTypeInner::Sequence(s)) => self.sequences@.len() == 1 && *s
                    == self.sequences@[0],
                Some(ComplexTypeInner::Choice(c)) => self.choices@.len() == 1 && *c
                    == self.choices@[0],
                Some(ComplexTypeInner::SimpleContent(c)) => self.simple_contents@.len() == 1 && *c
                    == self.simple_contents@[0],
                None => self.sequences@.len() == 0 && self.choices@.len() == 0
                    && self.simple_contents@.len() == 0,
            },
    {
        if self.sequences.len() > 0 {
            Some(ComplexTypeInner::Sequence(&self.sequences[0]))
        } else if self.choices.len() > 0 {
            Some(ComplexTypeInner::Choice(&self.choices[0]))
        } else if self.simple_contents.len() > 0 {
            Some(ComplexTypeInner::SimpleContent(&self.simple_contents[0]))
        } else {
            None
        }
    }
}

// ---------------------------------------------------------------------
// Complex types nested in elements, counted through the whole tree.

/// The number of complex types given in place below the element `e`,
/// its own included.
pub open spec fn elem_nested(e: Element) -> nat
    decreases e,
{
    match e.complex_type {
        Some(c) => 1 + ct_nested(c),
        None => 0,
    }
}

/// The number of complex types given in place below the elements `es`.
pub open spec fn elems_nested(es: Seq<Element>) -> nat
    decreases es,
{
    if es.len() == 0 {
        0
    } else {
        elems_nested(es.drop_last()) + elem_nested(es.last())
    }
}

/// The number of complex types given in place below the sequence `s`.
pub open spec fn seq_nested(s: Sequence) -> nat
    decreases s,
{
    elems_nested(s.elements@) + choices_nested(s.choices@)
}

/// The number of complex types given in place below the sequences `ss`.
pub open spec fn seqs_nested(ss: Seq<Sequence>) -> nat
    decreases ss,
{
    if ss.len() == 0 {
        0
    } else {
        seqs_nested(ss.drop_last()) + seq_nested(ss.last())
    }
}

/// The number of complex types given in place below the choice `c`.
pub open spec fn choice_nested(c: Choice) -> nat
    decreases c,
{
    elems_nested(c.elements@) + seqs_nested(c.sequences@)
}

/// The number of complex types given in place below the choices `cs`.
pub open spec fn choices_nested(cs: Seq<Choice>) -> nat
    decreases cs,
{
    if cs.len() == 0 {
        0
    } else {
        choices_nested(cs.drop_last()) + choice_nested(cs.last())
    }
}

/// The number of complex types given in place below the complex type `ct`.
pub open spec fn ct_nested(ct: ComplexType) -> nat
    decreases ct,
{
    seqs_nested(ct.sequences@) + choices_nested(ct.choices@)
}

/// The number of complex types given in place below the complex types `cts`.
pub open spec fn cts_nested(cts: Seq<ComplexType>) -> nat
    decreases cts.len(),
{
    if cts.len() == 0 {
        0
    } else {
        cts_nested(cts.drop_last()) + ct_nested(cts.last())
    }
}

// ---------------------------------------------------------------------
// Schemas that can be normalized.

/// An element with a complex type in place has no named type, and all
/// complex types below it are well formed.
pub open spec fn elem_ok(e: Element) -> bool
    decreases e,
{
    match e.complex_type {
        Some(c) => e.type_ is None && ct_ok(c),
        None => true,
    }
}

/// Every element of `es` is well formed.
pub open spec fn elems_ok(es: Seq<Element>) -> bool
    decreases es,
{
    if es.len() == 0 {
        true
    } else {
        elems_ok(es.drop_last()) && elem_ok(es.last())
    }
}

/// Every element below the sequence `s` is well formed.
pub open spec fn seq_ok(s: Sequence) -> bool
    decreases s,
{
    elems_ok(s.elements@) && choices_ok(s.choices@)
}

/// Every element below the sequences `ss` is well formed.
pub open spec fn seqs_ok(ss: Seq<Sequence>) -> bool
    decreases ss,
{
    if ss.len() == 0 {
        true
    } else {
        seqs_ok(ss.drop_last()) && seq_ok(ss.last())
    }
}

/// Every element below the choice `c` is well formed.
pub open spec fn choice_ok(c: Choice) -> bool
    decreases c,
{
    elems_ok(c.elements@) && seqs_ok(c.sequences@)
}

/// Every element below the choices `cs` is well formed.
pub open spec fn choices_ok(cs: Seq<Choice>) -> bool
    decreases cs,
{
    if cs.len() == 0 {
        true
    } else {
        choices_ok(cs.drop_last()) && choice_ok(cs.last())
    }
}

/// The complex type `ct` and everything below it is well formed.
pub open spec fn ct_ok(ct: ComplexType) -> bool
    decreases ct,
{
    inner_ok(ct) && seqs_ok(ct.sequences@) && choices_ok(ct.choices@)
}

/// Every complex type of `cts` is well formed.
pub open spec fn cts_ok(cts: Seq<ComplexType>) -> bool {
    forall|i: int| 0 <= i < cts.len() ==> ct_ok(#[trigger] cts[i])
}

/// The sums over the concatenation of two lists of complex types.
pub proof fn lemma_cts_nested_append(a: Seq<ComplexType>, b: Seq<ComplexType>)
    ensures
        cts_nested(a + b) == cts_nested(a) + cts_nested(b),
    decreases b.len(),
{
    if b.len() == 0 {
        assert(a + b == a);
    } else {
        lemma_cts_nested_append(a, b.drop_last());
        assert((a + b).drop_last() == a + b.drop_last());
    }
}

/// An element with a complex type in place has no named type as well.
pub open spec fn elem_form_ok(e: Element) -> bool {
    e.complex_type is Some ==> e.type_ is None
}

/// Every element of `es` has at most one form of type.
pub open spec fn elems_form_ok(es: Seq<Element>) -> bool {
    forall|i: int| 0 <= i < es.len() ==> elem_form_ok(#[trigger] es[i])
}

/// Every element reachable below the sequence `s` (not inside the complex
/// types in place) has at most one form of type.
pub open spec fn seq_form_ok(s: Sequence) -> bool
    decreases s,
{
    elems_form_ok(s.elements@) && choices_form_ok(s.choices@)
}

/// The same for the sequences `ss`.
pub open spec fn seqs_form_ok(ss: Seq<Sequence>) -> bool
    decreases ss,
{
    ss.len() > 0 ==> seqs_form_ok(ss.drop_last()) && seq_form_ok(ss.last())
}

/// The same for the choice `c`.
pub open spec fn choice_form_ok(c: Choice) -> bool
    decreases c,
{
    elems_form_ok(c.elements@) && seqs_form_ok(c.sequences@)
}

/// The same for the choices `cs`.
pub open spec fn choices_form_ok(cs: Seq<Choice>) -> bool
    decreases cs,
{
    cs.len() > 0 ==> choices_form_ok(cs.drop_last()) && choice_form_ok(cs.last())
}

proof fn lemma_seqs_form_index(ss: Seq<Sequence>, i: int)
    requires
        seqs_form_ok(ss),
        0 <= i < ss.len(),
    ensures
        seq_form_ok(ss[i]),
    decreases ss.len(),
{
    if i < ss.len() - 1 {
        lemma_seqs_form_index(ss.drop_last(), i);
    }
}

proof fn lemma_choices_form_index(cs: Seq<Choice>, i: int)
    requires
        choices_form_ok(cs),
        0 <= i < cs.len(),
    ensures
        choice_form_ok(cs[i]),
    decreases cs.len(),
{
    if i < cs.len() - 1 {
        lemma_choices_form_index(cs.drop_last(), i);
    }
}

proof fn lemma_elems_ok_form(es: Seq<Element>)
    requires
        elems_ok(es),
    ensures
        elems_form_ok(es),
{
    assert forall|i: int| 0 <= i < es.len() implies elem_form_ok(#[trigger] es[i]) by {
        lemma_elems_ok_index(es, i);
    }
}

proof fn lemma_seq_ok_form(s: Sequence)
    requires
        seq_ok(s),
    ensures
        seq_form_ok(s),
    decreases s,
{
    lemma_elems_ok_form(s.elements@);
    lemma_choices_ok_form(s.choices@);
}

proof fn lemma_seqs_ok_form(ss: Seq<Sequence>)
    requires
        seqs_ok(ss),
    ensures
        seqs_form_ok(ss),
    decreases ss,
{
    if ss.len() > 0 {
        lemma_seqs_ok_form(ss.drop_last());
        lemma_seq_ok_form(ss.last());
    }
}

proof fn lemma_choice_ok_form(c: Choice)
    requires
        choice_ok(c),
    ensures
        choice_form_ok(c),
    decreases c,
{
    lemma_elems_ok_form(c.elements@);
    lemma_seqs_ok_form(c.sequences@);
}

proof fn lemma_choices_ok_form(cs: Seq<Choice>)
    requires
        choices_ok(cs),
    ensures
        choices_form_ok(cs),
    decreases cs,
{
    if cs.len() > 0 {
        lemma_choices_ok_form(cs.drop_last());
        lemma_choice_ok_form(cs.last());
    }
}

/// The name of the type lifted out of the element named `name`.
pub open spec fn lifted_name(name: Seq<char>) -> Seq<char> {
    name + "Type"@
}

/// Lift the complex type given in place in `element` out of it: the type
/// is named after the element with `Type` appended, and the element refers
/// to it by that name.
pub fn extract_complex_type(element: Element) -> (r: (Element, Option<ComplexType>))
    requires
        elem_form_ok(element),
    ensures
        r.0.complex_type is None,
        r.0.name == element.name,
        r.0.min_occurs == element.min_occurs,
        r.0.max_occurs == element.max_occurs,
        match element.complex_type {
            Some(c) => {
                &&& r.0.type_ matches Some(t) && t@ == lifted_name(element.name@)
                &&& r.1 matches Some(x) && {
                    &&& x.name matches Some(n) && n@ == lifted_name(element.name@)
                    &&& x.attributes == c.attributes
                    &&& x.sequences == c.sequences
                    &&& x.choices == c.choices
                    &&& x.simple_contents == c.simple_contents
                    &&& x.content_type_ == c.content_type_
                    &&& elem_ok(element) ==> ct_ok(x)
                    &&& ct_nested(x) == ct_nested(c)
                }
            },
            None => r.0.type_ == element.type_ && r.1 is None,
        },
{
    let Element { name, min_occurs, max_occurs, type_, complex_type } = element;
    match complex_type {
        Some(ct) => {
            let mut ty = name.clone();
            ty.push_str("Type");
            let ComplexType { name: _, attributes, sequences, choices, simple_contents, content_type_ } = ct;
            let lifted = ComplexType {
                name: Some(ty.clone()),
                attributes,
                sequences,
                choices,
                simple_contents,
                content_type_,
            };
            proof {
                reveal_strlit("Type");
            }
            (Element { name, min_occurs, max_occurs, type_: Some(ty), complex_type: None }, Some(lifted))
        },
        None => (Element { name, min_occurs, max_occurs, type_, complex_type: None }, None),
    }
}

/// `after` is `before` with complex types appended that account for
/// `nested` lifted types: one for each, plus those still nested in them.
/// All of them are well formed.
pub open spec fn extended(before: Seq<ComplexType>, after: Seq<ComplexType>, nested: nat) -> bool {
    &&& after.len() >= before.len()
    &&& after.take(before.len() as int) == before
    &&& nested == (after.len() - before.len()) + cts_nested(after.skip(before.len() as int))
    &&& cts_ok(after)
}

proof fn lemma_extended_trans(
    a: Seq<ComplexType>,
    b: Seq<ComplexType>,
    c: Seq<ComplexType>,
    n1: nat,
    n2: nat,
)
    requires
        extended(a, b, n1),
        extended(b, c, n2),
    ensures
        extended(a, c, n1 + n2),
{
    assert(c.take(a.len() as int) == b.take(a.len() as int));
    assert(c.skip(a.len() as int) == b.skip(a.len() as int) + c.skip(b.len() as int));
    lemma_cts_nested_append(b.skip(a.len() as int), c.skip(b.len() as int));
}

proof fn lemma_extended_refl(a: Seq<ComplexType>)
    requires
        cts_ok(a),
    ensures
        extended(a, a, 0),
{
    assert(a.take(a.len() as int) == a);
    assert(a.skip(a.len() as int).len() == 0);
}

proof fn lemma_extended_push(a: Seq<ComplexType>, b: Seq<ComplexType>, n: nat, x: ComplexType)
    requires
        extended(a, b, n),
        ct_ok(x),
    ensures
        extended(a, b.push(x), n + 1 + ct_nested(x)),
{
    assert(b.push(x).take(a.len() as int) == b.take(a.len() as int));
    assert(b.push(x).skip(a.len() as int).drop_last() == b.skip(a.len() as int));
}

proof fn lemma_elems_ok_index(es: Seq<Element>, i: int)
    requires
        elems_ok(es),
        0 <= i < es.len(),
    ensures
        elem_ok(es[i]),
    decreases es.len(),
{
    if i < es.len() - 1 {
        lemma_elems_ok_index(es.drop_last(), i);
    }
}

proof fn lemma_seqs_ok_index(ss: Seq<Sequence>, i: int)
    requires
        seqs_ok(ss),
        0 <= i < ss.len(),
    ensures
        seq_ok(ss[i]),
    decreases ss.len(),
{
    if i < ss.len() - 1 {
        lemma_seqs_ok_index(ss.drop_last(), i);
    }
}

proof fn lemma_choices_ok_index(cs: Seq<Choice>, i: int)
    requires
        choices_ok(cs),
        0 <= i < cs.len(),
    ensures
        choice_ok(cs[i]),
    decreases cs.len(),
{
    if i < cs.len() - 1 {
        lemma_choices_ok_index(cs.drop_last(), i);
    }
}

// ---------------------------------------------------------------------
// What one round of lifting does: each element with a complex type in
// place refers to it by the lifted name instead, and the lifted types are
// collected in document order (elements before choices in a sequence,
// elements before sequences in a choice).

/// `x` is the complex type `c` lifted out of the element named `name`: the
/// same type, named after the element.
pub open spec fn renamed(c: ComplexType, x: ComplexType, name: Seq<char>) -> bool {
    &&& x.name matches Some(n)
    &&& x.name->Some_0@ == lifted_name(name)
    &&& x.attributes == c.attributes
    &&& x.sequences == c.sequences
    &&& x.choices == c.choices
    &&& x.simple_contents == c.simple_contents
    &&& x.content_type_ == c.content_type_
}

/// `r` is the element `e` with its complex type in place lifted out: it
/// refers to the lifted type by name.
pub open spec fn elem_lifted(e: Element, r: Element) -> bool {
    &&& r.name == e.name
    &&& r.min_occurs == e.min_occurs
    &&& r.max_occurs == e.max_occurs
    &&& r.complex_type is None
    &&& match e.complex_type {
        Some(_) => r.type_ matches Some(t) && r.type_->Some_0@ == lifted_name(e.name@),
        None => r.type_ == e.type_,
    }
}

/// `rs` are the elements `es`, each with its complex type lifted out.
pub open spec fn elems_lifted(es: Seq<Element>, rs: Seq<Element>) -> bool {
    &&& rs.len() == es.len()
    &&& forall|i: int| 0 <= i < es.len() ==> elem_lifted(#[trigger] es[i], rs[i])
}

/// The number of elements of `es` with a complex type in place.
pub open spec fn elems_direct(es: Seq<Element>) -> nat
    decreases es.len(),
{
    if es.len() == 0 {
        0
    } else {
        elems_direct(es.drop_last()) + if es.last().complex_type is Some {
            1nat
        } else {
            0nat
        }
    }
}

/// `xs` are the complex types in place in the elements `es`, in order,
/// each named after its element.
pub open spec fn elems_types(es: Seq<Element>, xs: Seq<ComplexType>) -> bool
    decreases es.len(),
{
    if es.len() == 0 {
        xs.len() == 0
    } else {
        match es.last().complex_type {
            Some(c) => {
                &&& xs.len() > 0
                &&& renamed(c, xs.last(), es.last().name@)
                &&& elems_types(es.drop_last(), xs.drop_last())
            },
            None => elems_types(es.drop_last(), xs),
        }
    }
}

/// The number of complex types in place directly below the sequence `s`
/// (not inside those types).
pub open spec fn seq_direct(s: Sequence) -> nat
    decreases s,
{
    elems_direct(s.elements@) + choices_direct(s.choices@)
}

/// The same for the sequences `ss`.
pub open spec fn seqs_direct(ss: Seq<Sequence>) -> nat
    decreases ss,
{
    if ss.len() == 0 {
        0
    } else {
        seqs_direct(ss.drop_last()) + seq_direct(ss.last())
    }
}

/// The same for the choice `c`.
pub open spec fn choice_direct(c: Choice) -> nat
    decreases c,
{
    elems_direct(c.elements@) + seqs_direct(c.sequences@)
}

/// The same for the choices `cs`.
pub open spec fn choices_direct(cs: Seq<Choice>) -> nat
    decreases cs,
{
    if cs.len() == 0 {
        0
    } else {
        choices_direct(cs.drop_last()) + choice_direct(cs.last())
    }
}

/// `r` is the sequence `s` with the complex types in place directly below
/// it lifted out.
pub open spec fn seq_lifted(s: Sequence, r: Sequence) -> bool
    decreases s,
{
    &&& r.min_occurs == s.min_occurs
    &&& r.max_occurs == s.max_occurs
    &&& elems_lifted(s.elements@, r.elements@)
    &&& choices_lifted(s.choices@, r.choices@)
}

/// The same for the sequences `ss`, one by one.
pub open spec fn seqs_lifted(ss: Seq<Sequence>, rs: Seq<Sequence>) -> bool
    decreases ss,
{
    &&& rs.len() == ss.len()
    &&& ss.len() > 0 ==> seqs_lifted(ss.drop_last(), rs.drop_last()) && seq_lifted(
        ss.last(),
        rs.last(),
    )
}

/// The same for the choice `c`.
pub open spec fn choice_lifted(c: Choice, r: Choice) -> bool
    decreases c,
{
    &&& r.min_occurs == c.min_occurs
    &&& r.max_occurs == c.max_occurs
    &&& elems_lifted(c.elements@, r.elements@)
    &&& seqs_lifted(c.sequences@, r.sequences@)
}

/// The same for the choices `cs`, one by one.
pub open spec fn choices_lifted(cs: Seq<Choice>, rs: Seq<Choice>) -> bool
    decreases cs,
{
    &&& rs.len() == cs.len()
    &&& cs.len() > 0 ==> choices_lifted(cs.drop_last(), rs.drop_last()) && choice_lifted(
        cs.last(),
        rs.last(),
    )
}

/// `xs` are the complex types in place directly below the sequence `s`, in
/// document order: those of its elements, then those below its choices.
pub open spec fn seq_types(s: Sequence, xs: Seq<ComplexType>) -> bool
    decreases s,
{
    let k = elems_direct(s.elements@) as int;
    &&& xs.len() == seq_direct(s)
    &&& elems_types(s.elements@, xs.take(k))
    &&& choices_types(s.choices@, xs.skip(k))
}

/// The same for the sequences `ss`, in order.
pub open spec fn seqs_types(ss: Seq<Sequence>, xs: Seq<ComplexType>) -> bool
    decreases ss,
{
    if ss.len() == 0 {
        xs.len() == 0
    } else {
        let k = xs.len() - seq_direct(ss.last());
        &&& k >= 0
        &&& seqs_types(ss.drop_last(), xs.take(k))
        &&& seq_types(ss.last(), xs.skip(k))
    }
}

/// The same for the choice `c`: those of its elements, then those below its
/// sequences.
pub open spec fn choice_types(c: Choice, xs: Seq<ComplexType>) -> bool
    decreases c,
{
    let k = elems_direct(c.elements@) as int;
    &&& xs.len() == choice_direct(c)
    &&& elems_types(c.elements@, xs.take(k))
    &&& seqs_types(c.sequences@, xs.skip(k))
}

/// The same for the choices `cs`, in order.
pub open spec fn choices_types(cs: Seq<Choice>, xs: Seq<ComplexType>) -> bool
    decreases cs,
{
    if cs.len() == 0 {
        xs.len() == 0
    } else {
        let k = xs.len() - choice_direct(cs.last());
        &&& k >= 0
        &&& choices_types(cs.drop_last(), xs.take(k))
        &&& choice_types(cs.last(), xs.skip(k))
    }
}

/// `r` is the complex type `ct` with the complex types in place directly
/// below it lifted out; nothing else changes.
pub open spec fn ct_lifted(ct: ComplexType, r: ComplexType) -> bool {
    &&& r.name == ct.name
    &&& r.attributes == ct.attributes
    &&& r.simple_contents == ct.simple_contents
    &&& r.content_type_ == ct.content_type_
    &&& seqs_lifted(ct.sequences@, r.sequences@)
    &&& choices_lifted(ct.choices@, r.choices@)
}

/// The number of complex types in place directly below `ct`.
pub open spec fn ct_direct(ct: ComplexType) -> nat {
    seqs_direct(ct.sequences@) + choices_direct(ct.choices@)
}

/// `xs` are the complex types in place directly below `ct`, in document
/// order: those below its sequences, then those below its choices.
pub open spec fn ct_types(ct: ComplexType, xs: Seq<ComplexType>) -> bool {
    let k = seqs_direct(ct.sequences@) as int;
    &&& xs.len() == ct_direct(ct)
    &&& seqs_types(ct.sequences@, xs.take(k))
    &&& choices_types(ct.choices@, xs.skip(k))
}

/// The number of complex types in place directly below the types `cts`.
pub open spec fn cts_direct(cts: Seq<ComplexType>) -> nat
    decreases cts.len(),
{
    if cts.len() == 0 {
        0
    } else {
        cts_direct(cts.drop_last()) + ct_direct(cts.last())
    }
}

/// `xs` are the complex types in place directly below the types `cts`, in
/// order.
pub open spec fn cts_types(cts: Seq<ComplexType>, xs: Seq<ComplexType>) -> bool
    decreases cts.len(),
{
    if cts.len() == 0 {
        xs.len() == 0
    } else {
        let k = xs.len() - ct_direct(cts.last());
        &&& k >= 0
        &&& cts_types(cts.drop_last(), xs.take(k))
        &&& ct_types(cts.last(), xs.skip(k))
    }
}

/// One round of lifting takes the types `l` to `m`: each type of `l` with
/// the complex types in place directly below it lifted out, followed by the
/// lifted types in order.
pub open spec fn lift_step(l: Seq<ComplexType>, m: Seq<ComplexType>) -> bool {
    &&& m.len() >= l.len()
    &&& forall|i: int| 0 <= i < l.len() ==> ct_lifted(#[trigger] l[i], m[i])
    &&& cts_types(l, m.skip(l.len() as int))
}

/// Each list of types in `chain` is one round of lifting from the one
/// before.
pub open spec fn lift_chain(chain: Seq<Seq<ComplexType>>) -> bool {
    &&& chain.len() >= 1
    &&& forall|i: int| 0 <= i < chain.len() - 1 ==> lift_step(#[trigger] chain[i], chain[i + 1])
}

/// Lift the complex types given in place in the elements `es`, in order,
/// appending them to `extracted`.
fn extract_from_elements(es: Vec<Element>, extracted: &mut Vec<ComplexType>) -> (r: Vec<Element>)
    requires
        elems_form_ok(es@),
    ensures
        r@.len() == es@.len(),
        elems_nested(r@) == 0,
        elems_ok(r@),
        forall|i: int|
            0 <= i < r@.len() ==> {
                &&& (#[trigger] r@[i]).name == es@[i].name
                &&& r@[i].complex_type is None
                &&& es@[i].complex_type is None ==> r@[i].type_ == es@[i].type_
            },
        elems_ok(es@) && cts_ok(old(extracted)@) ==> extended(
            old(extracted)@,
            final(extracted)@,
            elems_nested(es@),
        ),
        elems_lifted(es@, r@),
        final(extracted)@.len() == old(extracted)@.len() + elems_direct(es@),
        final(extracted)@.take(old(extracted)@.len() as int) == old(extracted)@,
        elems_types(es@, final(extracted)@.skip(old(extracted)@.len() as int)),
{
    let ghost orig = es@;
    let ghost start = extracted@;
    let ghost deep = elems_ok(es@) && cts_ok(start);
    let n = es.len();
    let mut rest = es;
    let mut r: Vec<Element> = Vec::new();
    let mut k: usize = 0;
    proof {
        if deep {
            lemma_extended_refl(start);
        }
        assert(orig.take(0).len() == 0);
    }
    while k < n
        invariant
            n == orig.len(),
            k <= n,
            rest@ == orig.skip(k as int),
            r@.len() == k,
            elems_nested(r@) == 0,
            elems_ok(r@),
            elems_form_ok(orig),
            deep == (elems_ok(orig) && cts_ok(start)),
            forall|i: int|
                0 <= i < k ==> {
                    &&& (#[trigger] r@[i]).name == orig[i].name
                    &&& r@[i].complex_type is None
                    &&& orig[i].complex_type is None ==> r@[i].type_ == orig[i].type_
                },
            deep ==> extended(start, extracted@, elems_nested(orig.take(k as int))),
            elems_lifted(orig.take(k as int), r@),
            extracted@.len() == start.len() + elems_direct(orig.take(k as int)),
            extracted@.take(start.len() as int) == start,
            elems_types(orig.take(k as int), extracted@.skip(start.len() as int)),
        decreases n - k,
    {
        let e = rest.remove(0);
        proof {
            assert(e == orig[k as int]);
            assert(rest@ == orig.skip(k + 1));
            if deep {
                lemma_elems_ok_index(orig, k as int);
            }
            assert(elem_form_ok(orig[k as int]));
            assert(orig.take(k + 1).drop_last() == orig.take(k as int));
            assert(orig.take(k + 1).last() == orig[k as int]);
        }
        let ghost e_view = e;
        let (e2, lifted) = extract_complex_type(e);
        let ghost before = extracted@;
        proof {
            assert(elems_nested(orig.take(k + 1)) == elems_nested(orig.take(k as int)) + elem_nested(
                e_view,
            ));
        }
        match lifted {
            Some(ct) => {
                proof {
                    assert(elem_nested(e_view) == 1 + ct_nested(ct));
                }
                extracted.push(ct);
                proof {
                    if deep {
                        lemma_extended_push(start, before, elems_nested(orig.take(k as int)), ct);
                    }
                    assert(extracted@.skip(start.len() as int) == before.skip(start.len() as int).push(ct));
                    assert(extracted@.skip(start.len() as int).drop_last() == before.skip(start.len() as int));
                }
            },
            None => {
                assert(elem_nested(e_view) == 0);
            },
        }
        let ghost r_before = r@;
        let ghost e2_view = e2;
        r.push(e2);
        proof {
            assert(r@.drop_last() == r_before);
            assert(r@.last() == e2_view);
            assert(elem_nested(e2_view) == 0);
            assert(elem_ok(e2_view));
            let t1 = orig.take(k + 1);
            assert forall|i: int| 0 <= i < t1.len() implies elem_lifted(#[trigger] t1[i], r@[i]) by {
                if i < k {
                    assert(t1[i] == orig.take(k as int)[i]);
                }
            }
        }
        k += 1;
    }
    proof {
        assert(orig.take(n as int) == orig);
    }
    r
}

/// Lift the complex types given in place below the sequence `seq` (in its
/// elements, then in its choices), appending them to `extracted`.
fn extract_ct_from_sequence(seq: Sequence, extracted: &mut Vec<ComplexType>) -> (r: Sequence)
    requires
        seq_form_ok(seq),
    ensures
        seq_nested(r) == 0,
        seq_ok(r),
        r.min_occurs == seq.min_occurs,
        r.max_occurs == seq.max_occurs,
        r.elements@.len() == seq.elements@.len(),
        r.choices@.len() == seq.choices@.len(),
        seq_ok(seq) && cts_ok(old(extracted)@) ==> extended(
            old(extracted)@,
            final(extracted)@,
            seq_nested(seq),
        ),
        seq_lifted(seq, r),
        final(extracted)@.len() == old(extracted)@.len() + seq_direct(seq),
        final(extracted)@.take(old(extracted)@.len() as int) == old(extracted)@,
        seq_types(seq, final(extracted)@.skip(old(extracted)@.len() as int)),
    decreases seq,
{
    let ghost e0 = extracted@;
    let Sequence { min_occurs, max_occurs, elements, choices } = seq;
    let elements = extract_from_elements(elements, extracted);
    let ghost e1 = extracted@;
    proof {
        assert(decreases_to!(seq => seq.choices@));
    }
    let choices = extract_from_choices(choices, extracted);
    proof {
        if seq_ok(seq) && cts_ok(e0) {
            lemma_extended_trans(e0, e1, extracted@, elems_nested(seq.elements@), choices_nested(seq.choices@));
        }
        assert(extracted@.take(e0.len() as int) == e1.take(e0.len() as int));
        let xs = extracted@.skip(e0.len() as int);
        let k = elems_direct(seq.elements@) as int;
        assert(xs.take(k) == e1.skip(e0.len() as int));
        assert(xs.skip(k) == extracted@.skip(e1.len() as int));
    }
    Sequence { min_occurs, max_occurs, elements, choices }
}

/// Lift the complex types given in place below the choices `cs`, in order.
fn extract_from_choices(cs: Vec<Choice>, extracted: &mut Vec<ComplexType>) -> (r: Vec<Choice>)
    requires
        choices_form_ok(cs@),
    ensures
        r@.len() == cs@.len(),
        choices_nested(r@) == 0,
        choices_ok(r@),
        choices_ok(cs@) && cts_ok(old(extracted)@) ==> extended(
            old(extracted)@,
            final(extracted)@,
            choices_nested(cs@),
        ),
        choices_lifted(cs@, r@),
        final(extracted)@.len() == old(extracted)@.len() + choices_direct(cs@),
        final(extracted)@.take(old(extracted)@.len() as int) == old(extracted)@,
        choices_types(cs@, final(extracted)@.skip(old(extracted)@.len() as int)),
    decreases cs@,
{
    let ghost orig = cs@;
    let ghost start = extracted@;
    let ghost deep = choices_ok(cs@) && cts_ok(start);
    let n = cs.len();
    let mut rest = cs;
    let mut r: Vec<Choice> = Vec::new();
    let mut k: usize = 0;
    proof {
        if deep {
            lemma_extended_refl(start);
        }
        assert(orig.take(0).len() == 0);
    }
    while k < n
        invariant
            n == orig.len(),
            orig == cs@,
            k <= n,
            rest@ == orig.skip(k as int),
            r@.len() == k,
            choices_nested(r@) == 0,
            choices_ok(r@),
            choices_form_ok(orig),
            deep == (choices_ok(orig) && cts_ok(start)),
            deep ==> extended(start, extracted@, choices_nested(orig.take(k as int))),
            choices_lifted(orig.take(k as int), r@),
            extracted@.len() == start.len() + choices_direct(orig.take(k as int)),
            extracted@.take(start.len() as int) == start,
            choices_types(orig.take(k as int), extracted@.skip(start.len() as int)),
        decreases n - k,
    {
        let c = rest.remove(0);
        proof {
            assert(c == orig[k as int]);
            assert(rest@ == orig.skip(k + 1));
            lemma_choices_form_index(orig, k as int);
            if deep {
                lemma_choices_ok_index(orig, k as int);
            }
            assert(orig.take(k + 1).drop_last() == orig.take(k as int));
            assert(decreases_to!(cs@ => cs@[k as int]));
        }
        let ghost before = extracted@;
        let c2 = extract_ct_from_choice(c, extracted);
        proof {
            if deep {
                lemma_extended_trans(start, before, extracted@, choices_nested(orig.take(k as int)), choice_nested(c));
            }
            let xs = extracted@.skip(start.len() as int);
            let j = xs.len() - choice_direct(c);
            assert(xs.take(j) == before.skip(start.len() as int));
            assert(xs.skip(j) == extracted@.skip(before.len() as int));
            assert(orig.take(k + 1).last() == c);
        }
        let ghost r_before = r@;
        r.push(c2);
        proof {
            assert(r@.drop_last() == r_before);
        }
        k += 1;
    }
    proof {
        assert(orig.take(n as int) == orig);
    }
    r
}

/// Lift the complex types given in place below the choice `choice` (in its
/// elements, then in its sequences), appending them to `extracted`.
fn extract_ct_from_choice(choice: Choice, extracted: &mut Vec<ComplexType>) -> (r: Choice)
    requires
        choice_form_ok(choice),
    ensures
        choice_nested(r) == 0,
        choice_ok(r),
        r.min_occurs == choice.min_occurs,
        r.max_occurs == choice.max_occurs,
        r.elements@.len() == choice.elements@.len(),
        r.sequences@.len() == choice.sequences@.len(),
        choice_ok(choice) && cts_ok(old(extracted)@) ==> extended(
            old(extracted)@,
            final(extracted)@,
            choice_nested(choice),
        ),
        choice_lifted(choice, r),
        final(extracted)@.len() == old(extracted)@.len() + choice_direct(choice),
        final(extracted)@.take(old(extracted)@.len() as int) == old(extracted)@,
        choice_types(choice, final(extracted)@.skip(old(extracted)@.len() as int)),
    decreases choice,
{
    let ghost e0 = extracted@;
    let Choice { min_occurs, max_occurs, elements, sequences } = choice;
    let elements = extract_from_elements(elements, extracted);
    let ghost e1 = extracted@;
    proof {
        assert(decreases_to!(choice => choice.sequences@));
    }
    let sequences = extract_from_sequences(sequences, extracted);
    proof {
        if choice_ok(choice) && cts_ok(e0) {
            lemma_extended_trans(e0, e1, extracted@, elems_nested(choice.elements@), seqs_nested(choice.sequences@));
        }
        assert(extracted@.take(e0.len() as int) == e1.take(e0.len() as int));
        let xs = extracted@.skip(e0.len() as int);
        let k = elems_direct(choice.elements@) as int;
        assert(xs.take(k) == e1.skip(e0.len() as int));
        assert(xs.skip(k) == extracted@.skip(e1.len() as int));
    }
    Choice { min_occurs, max_occurs, elements, sequences }
}

/// Lift the complex types given in place below the sequences `ss`, in
/// order.
fn extract_from_sequences(ss: Vec<Sequence>, extracted: &mut Vec<ComplexType>) -> (r: Vec<Sequence>)
    requires
        seqs_form_ok(ss@),
    ensures
        r@.len() == ss@.len(),
        seqs_nested(r@) == 0,
        seqs_ok(r@),
        seqs_ok(ss@) && cts_ok(old(extracted)@) ==> extended(
            old(extracted)@,
            final(extracted)@,
            seqs_nested(ss@),
        ),
        seqs_lifted(ss@, r@),
        final(extracted)@.len() == old(extracted)@.len() + seqs_direct(ss@),
        final(extracted)@.take(old(extracted)@.len() as int) == old(extracted)@,
        seqs_types(ss@, final(extracted)@.skip(old(extracted)@.len() as int)),
    decreases ss@,
{
    let ghost orig = ss@;
    let ghost start = extracted@;
    let ghost deep = seqs_ok(ss@) && cts_ok(start);
    let n = ss.len();
    let mut rest = ss;
    let mut r: Vec<Sequence> = Vec::new();
    let mut k: usize = 0;
    proof {
        if deep {
            lemma_extended_refl(start);
        }
        assert(orig.take(0).len() == 0);
    }
    while k < n
        invariant
            n == orig.len(),
            orig == ss@,
            k <= n,
            rest@ == orig.skip(k as int),
            r@.len() == k,
            seqs_nested(r@) == 0,
            seqs_ok(r@),
            seqs_form_ok(orig),
            deep == (seqs_ok(orig) && cts_ok(start)),
            deep ==> extended(start, extracted@, seqs_nested(orig.take(k as int))),
            seqs_lifted(orig.take(k as int), r@),
            extracted@.len() == start.len() + seqs_direct(orig.take(k as int)),
            extracted@.take(start.len() as int) == start,
            seqs_types(orig.take(k as int), extracted@.skip(start.len() as int)),
        decreases n - k,
    {
        let s = rest.remove(0);
        proof {
            assert(s == orig[k as int]);
            assert(rest@ == orig.skip(k + 1));
            lemma_seqs_form_index(orig, k as int);
            if deep {
                lemma_seqs_ok_index(orig, k as int);
            }
            assert(orig.take(k + 1).drop_last() == orig.take(k as int));
            assert(decreases_to!(ss@ => ss@[k as int]));
        }
        let ghost before = extracted@;
        let s2 = extract_ct_from_sequence(s, extracted);
        proof {
            if deep {
                lemma_extended_trans(start, before, extracted@, seqs_nested(orig.take(k as int)), seq_nested(s));
            }
            let xs = extracted@.skip(start.len() as int);
            let j = xs.len() - seq_direct(s);
            assert(xs.take(j) == before.skip(start.len() as int));
            assert(xs.skip(j) == extracted@.skip(before.len() as int));
            assert(orig.take(k + 1).last() == s);
        }
        let ghost r_before = r@;
        r.push(s2);
        proof {
            assert(r@.drop_last() == r_before);
        }
        k += 1;
    }
    proof {
        assert(orig.take(n as int) == orig);
    }
    r
}

/// Lift the complex types given in place below the complex type `ct` (in
/// its sequences, then in its choices), appending them to `extracted`.
fn extract_from_ct(ct: ComplexType, extracted: &mut Vec<ComplexType>) -> (r: ComplexType)
    requires
        ct_ok(ct),
        cts_ok(old(extracted)@),
    ensures
        ct_nested(r) == 0,
        ct_ok(r),
        r.name == ct.name,
        r.attributes == ct.attributes,
        r.simple_contents == ct.simple_contents,
        r.content_type_ == ct.content_type_,
        r.sequences@.len() == ct.sequences@.len(),
        r.choices@.len() == ct.choices@.len(),
        extended(old(extracted)@, final(extracted)@, ct_nested(ct)),
        ct_lifted(ct, r),
        final(extracted)@.len() == old(extracted)@.len() + ct_direct(ct),
        ct_types(ct, final(extracted)@.skip(old(extracted)@.len() as int)),
{
    let ghost e0 = extracted@;
    proof {
        lemma_seqs_ok_form(ct.sequences@);
        lemma_choices_ok_form(ct.choices@);
    }
    let ComplexType { name, attributes, sequences, choices, simple_contents, content_type_ } = ct;
    let sequences = extract_from_sequences(sequences, extracted);
    let ghost e1 = extracted@;
    let choices = extract_from_choices(choices, extracted);
    proof {
        lemma_extended_trans(e0, e1, extracted@, seqs_nested(ct.sequences@), choices_nested(ct.choices@));
        let xs = extracted@.skip(e0.len() as int);
        let k = seqs_direct(ct.sequences@) as int;
        assert(xs.take(k) == e1.skip(e0.len() as int));
        assert(xs.skip(k) == extracted@.skip(e1.len() as int));
    }
    ComplexType { name, attributes, sequences, choices, simple_contents, content_type_ }
}

/// One round of lifting over the complex types `cts`: the types with their
/// nested types lifted out, and the lifted types.
fn lift_round(cts: Vec<ComplexType>) -> (r: (Vec<ComplexType>, Vec<ComplexType>))
    requires
        cts_ok(cts@),
    ensures
        r.0@.len() == cts@.len(),
        forall|i: int| 0 <= i < r.0@.len() ==> ct_nested(#[trigger] r.0@[i]) == 0,
        forall|i: int| 0 <= i < r.0@.len() ==> (#[trigger] r.0@[i]).name == cts@[i].name,
        cts_ok(r.0@),
        cts_nested(r.0@) == 0,
        extended(Seq::empty(), r.1@, cts_nested(cts@)),
        forall|i: int| 0 <= i < cts@.len() ==> ct_lifted(#[trigger] cts@[i], r.0@[i]),
        r.1@.len() == cts_direct(cts@),
        cts_types(cts@, r.1@),
{
    let ghost orig = cts@;
    let n = cts.len();
    let mut rest = cts;
    let mut done: Vec<ComplexType> = Vec::new();
    let mut extracted: Vec<ComplexType> = Vec::new();
    let mut k: usize = 0;
    proof {
        lemma_extended_refl(Seq::empty());
        assert(orig.take(0).len() == 0);
    }
    while k < n
        invariant
            n == orig.len(),
            k <= n,
            rest@ == orig.skip(k as int),
            cts_ok(orig),
            done@.len() == k,
            forall|i: int| 0 <= i < k ==> ct_nested(#[trigger] done@[i]) == 0,
            forall|i: int| 0 <= i < k ==> (#[trigger] done@[i]).name == orig[i].name,
            cts_ok(done@),
            cts_nested(done@) == 0,
            extended(Seq::empty(), extracted@, cts_nested(orig.take(k as int))),
            forall|i: int| 0 <= i < k ==> ct_lifted(#[trigger] orig[i], done@[i]),
            extracted@.len() == cts_direct(orig.take(k as int)),
            cts_types(orig.take(k as int), extracted@),
        decreases n - k,
    {
        let ct = rest.remove(0);
        proof {
            assert(ct == orig[k as int]);
            assert(rest@ == orig.skip(k + 1));
            assert(orig.take(k + 1).drop_last() == orig.take(k as int));
            assert(orig.take(k + 1).last() == orig[k as int]);
        }
        let ghost before = extracted@;
        let ct2 = extract_from_ct(ct, &mut extracted);
        proof {
            lemma_extended_trans(
                Seq::empty(),
                before,
                extracted@,
                cts_nested(orig.take(k as int)),
                ct_nested(orig[k as int]),
            );
            let xs = extracted@;
            let j = xs.len() - ct_direct(orig[k as int]);
            assert(xs.take(j) == before);
            assert(xs.skip(j) == extracted@.skip(before.len() as int));
            assert(before.skip(0) == before);
        }
        let ghost done_before = done@;
        let ghost ct2_view = ct2;
        done.push(ct2);
        proof {
            assert(done@.drop_last() == done_before);
            assert(done@.last() == ct2_view);
        }
        k += 1;
    }
    proof {
        assert(orig.take(n as int) == orig);
    }
    (done, extracted)
}

/// Fold a simple content into its complex type: its attributes are added to
/// the type's and its base becomes the type's content type.
fn fold_simple_content(ct: ComplexType) -> (r: ComplexType)
    requires
        ct_ok(ct),
    ensures
        ct_ok(r),
        ct_nested(r) == ct_nested(ct),
        r.name == ct.name,
        r.sequences == ct.sequences,
        r.choices == ct.choices,
        r.simple_contents@.len() == 0,
        match (if ct.simple_contents@.len() == 1 {
            Some(ct.simple_contents@[0])
        } else {
            None
        }) {
            Some(simple) => {
                &&& r.attributes@ == ct.attributes@ + simple.extension.attributes@
                &&& r.content_type_ matches Some(b) && b == simple.extension.base
            },
            None => r.attributes == ct.attributes && r.content_type_ == ct.content_type_,
        },
{
    let ComplexType { name, mut attributes, sequences, choices, mut simple_contents, content_type_ } = ct;
    if simple_contents.len() == 1 {
        let ghost sc = simple_contents@[0];
        let simple = simple_contents.pop().unwrap();
        let SimpleContent { extension } = simple;
        let Extension { base, attributes: mut extra } = extension;
        attributes.append(&mut extra);
        proof {
            assert(simple_contents@.len() == 0);
        }
        ComplexType { name, attributes, sequences, choices, simple_contents, content_type_: Some(base) }
    } else {
        ComplexType { name, attributes, sequences, choices, simple_contents, content_type_ }
    }
}

/// The sequence and choice nodes below the sequence `s`, its own included.
pub open spec fn seq_nodes(s: Sequence) -> nat
    decreases s,
{
    1 + choices_nodes(s.choices@)
}

/// The sequence and choice nodes below the sequences `ss`.
pub open spec fn seqs_nodes(ss: Seq<Sequence>) -> nat
    decreases ss,
{
    if ss.len() == 0 {
        0
    } else {
        seqs_nodes(ss.drop_last()) + seq_nodes(ss.last())
    }
}

/// The sequence and choice nodes below the choice `c`, its own included.
pub open spec fn choice_nodes(c: Choice) -> nat
    decreases c,
{
    1 + seqs_nodes(c.sequences@)
}

/// The sequence and choice nodes below the choices `cs`.
pub open spec fn choices_nodes(cs: Seq<Choice>) -> nat
    decreases cs,
{
    if cs.len() == 0 {
        0
    } else {
        choices_nodes(cs.drop_last()) + choice_nodes(cs.last())
    }
}

/// The sequence and choice nodes of the complex type `ct`.
pub open spec fn ct_nodes(ct: ComplexType) -> nat {
    seqs_nodes(ct.sequences@) + choices_nodes(ct.choices@)
}

/// A choice that only wraps one sequence, once: it does not change what is
/// valid.
pub open spec fn wrapping_choice(c: Choice) -> bool {
    &&& c.elements@.len() == 0
    &&& c.sequences@.len() == 1
    &&& c.min_occurs == Occurs::Number(1)
    &&& c.max_occurs == Occurs::Number(1)
}

/// A sequence that only wraps one choice, once.
pub open spec fn wrapping_sequence(s: Sequence) -> bool {
    &&& s.elements@.len() == 0
    &&& s.choices@.len() == 1
    &&& s.min_occurs == Occurs::Number(1)
    &&& s.max_occurs == Occurs::Number(1)
}

/// The complex type consists of a choice or sequence that only wraps
/// another.
pub open spec fn unwrappable(ct: ComplexType) -> bool {
    ||| ct.sequences@.len() == 0 && ct.simple_contents@.len() == 0 && ct.choices@.len() == 1
        && wrapping_choice(ct.choices@[0])
    ||| ct.choices@.len() == 0 && ct.simple_contents@.len() == 0 && ct.sequences@.len() == 1
        && wrapping_sequence(ct.sequences@[0])
}

/// The sequences and choices that a complex type with the sequences `ss`
/// and the choices `cs` keeps once the choices and sequences that only
/// wrap one another are unwrapped: the first one down the chain of
/// wrappers that does more.
pub open spec fn unwrapped(ss: Seq<Sequence>, cs: Seq<Choice>) -> (Seq<Sequence>, Seq<Choice>)
    decreases seqs_nodes(ss) + choices_nodes(cs),
{
    if ss.len() == 0 && cs.len() == 1 && wrapping_choice(cs[0]) {
        proof {
            assert(cs.drop_last().len() == 0);
            assert(cs.last() == cs[0]);
            assert(choices_nodes(cs.drop_last()) == 0);
            assert(choices_nodes(cs) == choice_nodes(cs[0]));
            assert(choices_nodes(Seq::<Choice>::empty()) == 0);
            assert(seqs_nodes(ss) == 0);
        }
        unwrapped(cs[0].sequences@, Seq::empty())
    } else if cs.len() == 0 && ss.len() == 1 && wrapping_sequence(ss[0]) {
        proof {
            assert(ss.drop_last().len() == 0);
            assert(ss.last() == ss[0]);
            assert(seqs_nodes(ss.drop_last()) == 0);
            assert(seqs_nodes(ss) == seq_nodes(ss[0]));
            assert(seqs_nodes(Seq::<Sequence>::empty()) == 0);
            assert(choices_nodes(cs) == 0);
        }
        unwrapped(Seq::empty(), ss[0].choices@)
    } else {
        (ss, cs)
    }
}

/// Unwrap the choices and sequences of a complex type that only wrap one
/// another, until it consists of one that does more.
fn unwrap_nested(ct: ComplexType) -> (r: ComplexType)
    requires
        ct_ok(ct),
    ensures
        ct_ok(r),
        !unwrappable(r),
        ct_nested(r) == ct_nested(ct),
        r.name == ct.name,
        r.attributes == ct.attributes,
        r.simple_contents == ct.simple_contents,
        r.content_type_ == ct.content_type_,
        (r.sequences@, r.choices@) == unwrapped(ct.sequences@, ct.choices@),
{
    let ghost orig = ct;
    let mut ct = ct;
    loop
        invariant
            ct_ok(ct),
            unwrapped(ct.sequences@, ct.choices@) == unwrapped(orig.sequences@, orig.choices@),
            ct_nested(ct) == ct_nested(orig),
            ct.name == orig.name,
            ct.attributes == orig.attributes,
            ct.simple_contents == orig.simple_contents,
            ct.content_type_ == orig.content_type_,
        ensures
            ct_ok(ct),
            !unwrappable(ct),
            (ct.sequences@, ct.choices@) == unwrapped(orig.sequences@, orig.choices@),
            ct_nested(ct) == ct_nested(orig),
            ct.name == orig.name,
            ct.attributes == orig.attributes,
            ct.simple_contents == orig.simple_contents,
            ct.content_type_ == orig.content_type_,
        decreases ct_nodes(ct),
    {
        let unwrap_choice = match ct.inner() {
            Some(ComplexTypeInner::Choice(c)) => c.elements.len() == 0 && c.sequences.len() == 1
                && c.min_occurs == Occurs::Number(1) && c.max_occurs == Occurs::Number(1),
            _ => false,
        };
        if unwrap_choice {
            let ghost old_ct = ct;
            let ComplexType { name, attributes, sequences: _, mut choices, simple_contents, content_type_ } = ct;
            let c = choices.remove(0);
            proof {
                let cs = old_ct.choices@;
                assert(cs.drop_last().len() == 0);
                assert(choices_ok(cs) == choice_ok(c));
                assert(choices_nested(cs) == choice_nested(c));
                assert(cs.last() == c);
                assert(choices_nodes(cs.drop_last()) == 0);
                assert(choices_nodes(cs) == choice_nodes(c));
                assert(elems_nested(c.elements@) == 0);
                assert(choices@.len() == 0);
            }
            let Choice { min_occurs: _, max_occurs: _, elements: _, sequences } = c;
            proof {
                assert(old_ct.choices@[0] == c);
                assert(choices@ =~= Seq::<Choice>::empty());
                assert(unwrapped(old_ct.sequences@, old_ct.choices@) == unwrapped(
                    sequences@,
                    Seq::<Choice>::empty(),
                ));
            }
            ct = ComplexType { name, attributes, sequences, choices, simple_contents, content_type_ };
            continue;
        }
        let unwrap_sequence = match ct.inner() {
            Some(ComplexTypeInner::Sequence(s)) => s.elements.len() == 0 && s.choices.len() == 1
                && s.min_occurs == Occurs::Number(1) && s.max_occurs == Occurs::Number(1),
            _ => false,
        };
        if unwrap_sequence {
            let ghost old_ct = ct;
            let ComplexType { name, attributes, mut sequences, choices: _, simple_contents, content_type_ } = ct;
            let s = sequences.remove(0);
            proof {
                let ss = old_ct.sequences@;
                assert(ss.drop_last().len() == 0);
                assert(seqs_ok(ss) == seq_ok(s));
                assert(seqs_nested(ss) == seq_nested(s));
                assert(ss.last() == s);
                assert(seqs_nodes(ss.drop_last()) == 0);
                assert(seqs_nodes(ss) == seq_nodes(s));
                assert(elems_nested(s.elements@) == 0);
                assert(sequences@.len() == 0);
            }
            let Sequence { min_occurs: _, max_occurs: _, elements: _, choices } = s;
            proof {
                assert(old_ct.sequences@[0] == s);
                assert(sequences@ =~= Seq::<Sequence>::empty());
                assert(unwrapped(old_ct.sequences@, old_ct.choices@) == unwrapped(
                    Seq::<Sequence>::empty(),
                    choices@,
                ));
            }
            ct = ComplexType { name, attributes, sequences, choices, simple_contents, content_type_ };
            continue;
        }
        break;
    }
    ct
}

/// A complex type in normal form: well formed, with no complex type given
/// in place below it, no simple content left, and not consisting of a
/// choice or sequence that only wraps another.
pub open spec fn normal_ct(ct: ComplexType) -> bool {
    &&& ct_ok(ct)
    &&& ct_nested(ct) == 0
    &&& ct.simple_contents@.len() == 0
    &&& !unwrappable(ct)
}

/// A schema that can be normalized: every element with a complex type in
/// place has no named type, and every complex type consists of at most one
/// sequence, choice or simple content.
pub open spec fn xsd_ok(xsd: Xsd) -> bool {
    elem_ok(xsd.element) && cts_ok(xsd.complex_types@)
}

proof fn lemma_chain_push(chain: Seq<Seq<ComplexType>>, m: Seq<ComplexType>)
    requires
        lift_chain(chain),
        lift_step(chain.last(), m),
    ensures
        lift_chain(chain.push(m)),
{
    let c2 = chain.push(m);
    assert forall|i: int| 0 <= i < c2.len() - 1 implies lift_step(#[trigger] c2[i], c2[i + 1]) by {
        if i < chain.len() - 1 {
            assert(c2[i] == chain[i]);
            assert(c2[i + 1] == chain[i + 1]);
        } else {
            assert(c2[i] == chain.last());
        }
    }
}

/// `l` is the schema's types `cts` followed by the complex type in place in
/// its root element `element`, if any, named after the element.
pub open spec fn root_lifted(cts: Seq<ComplexType>, element: Element, l: Seq<ComplexType>) -> bool {
    &&& l.len() >= cts.len()
    &&& l.take(cts.len() as int) == cts
    &&& match element.complex_type {
        Some(c) => l.len() == cts.len() + 1 && renamed(c, l.last(), element.name@),
        None => l.len() == cts.len(),
    }
}

/// `r` is the lifted type `ct` with its simple content folded in (its base
/// is the content type, its attributes follow the type's own) and its
/// wrapping choices and sequences unwrapped.
pub open spec fn normalized_from(ct: ComplexType, r: ComplexType) -> bool {
    &&& r.name == ct.name
    &&& r.simple_contents@.len() == 0
    &&& if ct.simple_contents@.len() == 1 {
        let simple = ct.simple_contents@[0];
        &&& r.attributes@ == ct.attributes@ + simple.extension.attributes@
        &&& r.content_type_ == Some(simple.extension.base)
    } else {
        r.attributes == ct.attributes && r.content_type_ == ct.content_type_
    }
    &&& (r.sequences@, r.choices@) == unwrapped(ct.sequences@, ct.choices@)
}

impl Xsd {
    /// Normalize a schema as read: lift the complex types given in place to
    /// the top level (the root element's first, then round by round those
    /// nested in the top-level types, appended in order), fold simple
    /// contents into their types, and unwrap choices and sequences that
    /// only wrap one another.
    pub fn normalize(self) -> (r: Xsd)
        requires
            xsd_ok(self),
        ensures
            r.element.complex_type is None,
            r.element.name == self.element.name,
            match self.element.complex_type {
                Some(_) => r.element.type_ matches Some(t) && t@ == lifted_name(self.element.name@),
                None => r.element.type_ == self.element.type_,
            },
            forall|i: int| 0 <= i < r.complex_types@.len() ==> normal_ct(#[trigger] r.complex_types@[i]),
            r.complex_types@.len() == self.complex_types@.len() + elem_nested(self.element)
                + cts_nested(self.complex_types@),
            forall|i: int|
                0 <= i < self.complex_types@.len() ==> (#[trigger] r.complex_types@[i]).name
                    == self.complex_types@[i].name,
            r.target_namespace == self.target_namespace,
            r.xmlns == self.xmlns,
            r.xmlns_xs == self.xmlns_xs,
            r.element_form_default == self.element_form_default,
            exists|chain: Seq<Seq<ComplexType>>|
                {
                    &&& #[trigger] lift_chain(chain)
                    &&& root_lifted(self.complex_types@, self.element, chain[0])
                    &&& chain.last().len() == r.complex_types@.len()
                    &&& forall|i: int|
                        0 <= i < r.complex_types@.len() ==> ct_nested(#[trigger] chain.last()[i]) == 0
                    &&& forall|i: int|
                        0 <= i < r.complex_types@.len() ==> normalized_from(
                            chain.last()[i],
                            #[trigger] r.complex_types@[i],
                        )
                },
    {
        let ghost orig = self;
        let Xsd { target_namespace, xmlns, xmlns_xs, element_form_default, complex_types, element } = self;
        let mut complex_types = complex_types;
        let (element, lifted) = extract_complex_type(element);
        match lifted {
            Some(ct) => {
                complex_types.push(ct);
            },
            None => {},
        }
        let ghost total = orig.complex_types@.len() + elem_nested(orig.element) + cts_nested(
            orig.complex_types@,
        );
        proof {
            let l0 = orig.complex_types@;
            if complex_types@.len() > l0.len() {
                assert(complex_types@.drop_last() == l0);
                assert(complex_types@.take(l0.len() as int) == l0);
            } else {
                assert(complex_types@ == l0);
                assert(complex_types@.take(l0.len() as int) == l0);
            }
        }
        let ghost mut chain: Seq<Seq<ComplexType>> = seq![complex_types@];
        loop
            invariant
                lift_chain(chain),
                root_lifted(orig.complex_types@, orig.element, chain[0]),
                chain.last() == complex_types@,
                cts_ok(complex_types@),
                complex_types@.len() + cts_nested(complex_types@) == total,
                complex_types@.len() >= orig.complex_types@.len(),
                forall|i: int|
                    0 <= i < orig.complex_types@.len() ==> (#[trigger] complex_types@[i]).name
                        == orig.complex_types@[i].name,
            ensures
                lift_chain(chain),
                root_lifted(orig.complex_types@, orig.element, chain[0]),
                chain.last() == complex_types@,
                cts_ok(complex_types@),
                complex_types@.len() == total,
                forall|i: int|
                    0 <= i < complex_types@.len() ==> ct_nested(#[trigger] complex_types@[i]) == 0,
                forall|i: int|
                    0 <= i < orig.complex_types@.len() ==> (#[trigger] complex_types@[i]).name
                        == orig.complex_types@[i].name,
            decreases cts_nested(complex_types@),
        {
            let ghost before = complex_types@;
            let (done, mut extracted) = lift_round(complex_types);
            proof {
                assert(extracted@.skip(0) == extracted@);
                assert(extracted@.take(0).len() == 0);
            }
            if extracted.len() == 0 {
                complex_types = done;
                proof {
                    assert(complex_types@.skip(before.len() as int) =~= extracted@);
                    lemma_chain_push(chain, complex_types@);
                    chain = chain.push(complex_types@);
                }
                break;
            }
            let ghost done_view = done@;
            let ghost extracted_view = extracted@;
            complex_types = done;
            complex_types.append(&mut extracted);
            proof {
                lemma_cts_nested_append(done_view, extracted_view);
                assert(complex_types@ == done_view + extracted_view);
                assert(complex_types@.skip(before.len() as int) == extracted_view);
                assert forall|i: int| 0 <= i < before.len() implies ct_lifted(
                    #[trigger] before[i],
                    complex_types@[i],
                ) by {
                    assert(complex_types@[i] == done_view[i]);
                }
                lemma_chain_push(chain, complex_types@);
                chain = chain.push(complex_types@);
                assert forall|i: int| 0 <= i < complex_types@.len() implies ct_ok(
                    #[trigger] complex_types@[i],
                ) by {
                    if i < done_view.len() {
                        assert(complex_types@[i] == done_view[i]);
                    } else {
                        assert(complex_types@[i] == extracted_view[i - done_view.len()]);
                    }
                }
                assert forall|i: int| 0 <= i < orig.complex_types@.len() implies (
                #[trigger] complex_types@[i]).name == orig.complex_types@[i].name by {
                    assert(complex_types@[i] == done_view[i]);
                    assert(done_view[i].name == before[i].name);
                }
            }
        }
        let ghost lifted_all = complex_types@;
        let ghost final_chain = chain;
        let n = complex_types.len();
        let mut rest = complex_types;
        let mut result: Vec<ComplexType> = Vec::new();
        let mut k: usize = 0;
        while k < n
            invariant
                n == lifted_all.len(),
                k <= n,
                rest@ == lifted_all.skip(k as int),
                result@.len() == k,
                cts_ok(lifted_all),
                forall|i: int| 0 <= i < n ==> ct_nested(#[trigger] lifted_all[i]) == 0,
                forall|i: int| 0 <= i < k ==> normal_ct(#[trigger] result@[i]),
                forall|i: int| 0 <= i < k ==> (#[trigger] result@[i]).name == lifted_all[i].name,
                forall|i: int| 0 <= i < k ==> normalized_from(lifted_all[i], #[trigger] result@[i]),
            decreases n - k,
        {
            let ct = rest.remove(0);
            proof {
                assert(ct == lifted_all[k as int]);
                assert(rest@ == lifted_all.skip(k + 1));
            }
            let ct = fold_simple_content(ct);
            let ct = unwrap_nested(ct);
            let ghost before_result = result@;
            result.push(ct);
            proof {
                assert forall|i: int| 0 <= i < k + 1 implies normalized_from(
                    lifted_all[i],
                    #[trigger] result@[i],
                ) by {
                    if i < k {
                        assert(result@[i] == before_result[i]);
                    }
                }
            }
            k += 1;
        }
        proof {
            assert(lift_chain(final_chain));
        }
        Xsd { target_namespace, xmlns, xmlns_xs, element_form_default, complex_types: result, element }
    }
}

proof fn lemma_elems_ok_all(es: Seq<Element>)
    ensures
        elems_ok(es) <==> forall|i: int| 0 <= i < es.len() ==> elem_ok(#[trigger] es[i]),
    decreases es.len(),
{
    if es.len() > 0 {
        lemma_elems_ok_all(es.drop_last());
        assert forall|i: int| 0 <= i < es.len() - 1 implies es.drop_last()[i] == es[i] by {}
    }
}

proof fn lemma_seqs_ok_all(ss: Seq<Sequence>)
    ensures
        seqs_ok(ss) <==> forall|i: int| 0 <= i < ss.len() ==> seq_ok(#[trigger] ss[i]),
    decreases ss.len(),
{
    if ss.len() > 0 {
        lemma_seqs_ok_all(ss.drop_last());
        assert forall|i: int| 0 <= i < ss.len() - 1 implies ss.drop_last()[i] == ss[i] by {}
    }
}

proof fn lemma_choices_ok_all(cs: Seq<Choice>)
    ensures
        choices_ok(cs) <==> forall|i: int| 0 <= i < cs.len() ==> choice_ok(#[trigger] cs[i]),
    decreases cs.len(),
{
    if cs.len() > 0 {
        lemma_choices_ok_all(cs.drop_last());
        assert forall|i: int| 0 <= i < cs.len() - 1 implies cs.drop_last()[i] == cs[i] by {}
    }
}

/// Whether a complex type is well formed, everything below it included.
fn check_ct(ct: &ComplexType) -> (r: bool)
    ensures
        r == ct_ok(*ct),
    decreases *ct,
{
    let ns = ct.sequences.len();
    let nc = ct.choices.len();
    let nsc = ct.simple_contents.len();
    let inner = ns < 2 && nc < 2 && nsc < 2 && (ns != 1 || (nc == 0 && nsc == 0)) && (nc != 1 || (ns
        == 0 && nsc == 0)) && (nsc != 1 || (ns == 0 && nc == 0));
    if !inner {
        return false;
    }
    proof {
        assert(decreases_to!(*ct => ct.sequences@));
        assert(decreases_to!(*ct => ct.choices@));
    }
    check_seqs(&ct.sequences) && check_choices(&ct.choices)
}

/// Whether an element is well formed, everything below it included.
fn check_elem(e: &Element) -> (r: bool)
    ensures
        r == elem_ok(*e),
    decreases *e,
{
    match &e.complex_type {
        Some(c) => e.type_.is_none() && check_ct(c),
        None => true,
    }
}

/// Whether all elements of `es` are well formed.
fn check_elems(es: &Vec<Element>) -> (r: bool)
    ensures
        r == elems_ok(es@),
    decreases es@,
{
    proof {
        lemma_elems_ok_all(es@);
    }
    let mut i: usize = 0;
    while i < es.len()
        invariant
            i <= es@.len(),
            forall|j: int| 0 <= j < i ==> elem_ok(#[trigger] es@[j]),
        decreases es@.len() - i,
    {
        proof {
            assert(decreases_to!(es@ => es@[i as int]));
        }
        if !check_elem(&es[i]) {
            proof {
                lemma_elems_ok_all(es@);
            }
            return false;
        }
        i += 1;
    }
    true
}

/// Whether a sequence is well formed, everything below it included.
fn check_seq(s: &Sequence) -> (r: bool)
    ensures
        r == seq_ok(*s),
    decreases *s,
{
    proof {
        assert(decreases_to!(*s => s.elements@));
        assert(decreases_to!(*s => s.choices@));
    }
    check_elems(&s.elements) && check_choices(&s.choices)
}

/// Whether all sequences of `ss` are well formed.
fn check_seqs(ss: &Vec<Sequence>) -> (r: bool)
    ensures
        r == seqs_ok(ss@),
    decreases ss@,
{
    proof {
        lemma_seqs_ok_all(ss@);
    }
    let mut i: usize = 0;
    while i < ss.len()
        invariant
            i <= ss@.len(),
            forall|j: int| 0 <= j < i ==> seq_ok(#[trigger] ss@[j]),
        decreases ss@.len() - i,
    {
        proof {
            assert(decreases_to!(ss@ => ss@[i as int]));
        }
        if !check_seq(&ss[i]) {
            proof {
                lemma_seqs_ok_all(ss@);
            }
            return false;
        }
        i += 1;
    }
    true
}

/// Whether a choice is well formed, everything below it included.
fn check_choice(c: &Choice) -> (r: bool)
    ensures
        r == choice_ok(*c),
    decreases *c,
{
    proof {
        assert(decreases_to!(*c => c.elements@));
        assert(decreases_to!(*c => c.sequences@));
    }
    check_elems(&c.elements) && check_seqs(&c.sequences)
}

/// Whether all choices of `cs` are well formed.
fn check_choices(cs: &Vec<Choice>) -> (r: bool)
    ensures
        r == choices_ok(cs@),
    decreases cs@,
{
    proof {
        lemma_choices_ok_all(cs@);
    }
    let mut i: usize = 0;
    while i < cs.len()
        invariant
            i <= cs@.len(),
            forall|j: int| 0 <= j < i ==> choice_ok(#[trigger] cs@[j]),
        decreases cs@.len() - i,
    {
        proof {
            assert(decreases_to!(cs@ => cs@[i as int]));
        }
        if !check_choice(&cs[i]) {
            proof {
                lemma_choices_ok_all(cs@);
            }
            return false;
        }
        i += 1;
    }
    true
}

impl Xsd {
    /// Whether the schema can be normalized (see [`xsd_ok`]).
    pub fn is_normalizable(&self) -> (r: bool)
        ensures
            r == xsd_ok(*self),
    {
        if !check_elem(&self.element) {
            return false;
        }
        let mut i: usize = 0;
        while i < self.complex_types.len()
            invariant
                i <= self.complex_types@.len(),
                forall|j: int| 0 <= j < i ==> ct_ok(#[trigger] self.complex_types@[j]),
            decreases self.complex_types@.len() - i,
        {
            if !check_ct(&self.complex_types[i]) {
                return false;
            }
            i += 1;
        }
        true
    }
}

} // verus!
