//! What is generated for the complex types of a normalized XSD schema: for
//! each type a struct with one field per attribute, the elements it holds
//! (a list of one element type, or the variants of a choice) and the type
//! of its text content.

use crate::xsd::{
    convert_fieldname, inner_ok, spec_fieldname, spec_type_xsd2rust, type_xsd2rust, Attribute,
    ComplexType, Element, Use,
};
use vstd::prelude::*;

verus! {

/// Why no Rust type can be generated for a complex type.
#[derive(Debug)]
pub enum CodegenError {
    /// The type has no name.
    NoName,
    /// The type consists of more than one sequence, choice or simple
    /// content.
    MixedContent,
    /// A simple content was not folded into the type.
    SimpleContent,
    /// An element the type holds has no type.
    UntypedElement,
    /// "sequence with choices"
    SequenceWithChoices,
    /// "sequence with {n} element(s)": a sequence must hold exactly one
    /// element.
    SequenceElements(usize),
    /// "choice with sequences"
    ChoiceWithSequences,
    /// The text content has no supported builtin type.
    UnsupportedContentType,
    /// An attribute has no supported builtin type.
    UnsupportedAttributeType,
}

/// The field generated for an attribute.
#[derive(Debug)]
pub struct FieldPlan {
    /// The field's name.
    pub field: String,
    /// The attribute's name in XML.
    pub xml_name: String,
    /// The Rust type of its value.
    pub rust_type: &'static str,
    /// Whether the field is an `Option`.
    pub optional: bool,
}

/// An element that a type holds.
#[derive(Debug)]
pub struct SubtypePlan {
    /// The element's tag.
    pub xml_name: String,
    /// The Rust type that holds it: the builtin for a builtin XSD type,
    /// else the type's own name.
    pub rust_type: String,
}

/// How the elements a type holds are kept.
#[derive(Debug)]
pub enum BodyPlan {
    /// It holds no elements.
    Empty,
    /// A list of the one element of its sequence, with the element's tag.
    List { element: String },
    /// A list of the variants of its choice: the enum and its variants,
    /// named as the elements.
    Choice { enum_name: String, variants: Vec<String> },
}

/// What is generated for a complex type.
#[derive(Debug)]
pub struct TypePlan {
    pub name: String,
    pub attributes: Vec<FieldPlan>,
    pub subtypes: Vec<SubtypePlan>,
    pub body: BodyPlan,
    /// Whether a value is written with tags inside it.
    pub has_tags: bool,
    /// The Rust type of the text content, where the type has one.
    pub value_type: Option<&'static str>,
}

/// The elements that the complex type `ct` holds: those of its sequence or
/// of its choice.
pub open spec fn inner_elements(ct: ComplexType) -> Seq<Element> {
    if ct.sequences@.len() == 1 {
        ct.sequences@[0].elements@
    } else if ct.choices@.len() == 1 {
        ct.choices@[0].elements@
    } else {
        Seq::empty()
    }
}

/// Some element in `es` has no type.
pub open spec fn has_untyped(es: Seq<Element>) -> bool {
    exists|i: int| 0 <= i < es.len() && (#[trigger] es[i]).type_ is None
}

/// Some attribute in `attrs` has no supported builtin type.
pub open spec fn has_unsupported_attribute(attrs: Seq<Attribute>) -> bool {
    exists|i: int| 0 <= i < attrs.len() && spec_type_xsd2rust((#[trigger] attrs[i]).type_@) is None
}

/// Why no Rust type can be generated for `ct`, checked in this order.
pub open spec fn type_plan_error(ct: ComplexType) -> Option<CodegenError> {
    if ct.name is None {
        Some(CodegenError::NoName)
    } else if !inner_ok(ct) {
        Some(CodegenError::MixedContent)
    } else if ct.simple_contents@.len() == 1 {
        Some(CodegenError::SimpleContent)
    } else if has_untyped(inner_elements(ct)) {
        Some(CodegenError::UntypedElement)
    } else if ct.sequences@.len() == 1 && ct.sequences@[0].choices@.len() > 0 {
        Some(CodegenError::SequenceWithChoices)
    } else if ct.sequences@.len() == 1 && ct.sequences@[0].elements@.len() != 1 {
        Some(CodegenError::SequenceElements(ct.sequences@[0].elements@.len() as usize))
    } else if ct.choices@.len() == 1 && ct.choices@[0].sequences@.len() > 0 {
        Some(CodegenError::ChoiceWithSequences)
    } else if ct.content_type_ matches Some(t) && spec_type_xsd2rust(t@) is None {
        Some(CodegenError::UnsupportedContentType)
    } else if has_unsupported_attribute(ct.attributes@) {
        Some(CodegenError::UnsupportedAttributeType)
    } else {
        None
    }
}

/// `f` is the field generated for the attribute `a`.
pub open spec fn field_fits(a: Attribute, f: FieldPlan) -> bool {
    &&& f.field@ == spec_fieldname(a.name@)
    &&& f.xml_name@ == a.name@
    &&& spec_type_xsd2rust(a.type_@) == Some(f.rust_type@)
    &&& f.optional == (a.use_ is Optional)
}

/// The Rust type that holds an element of the XSD type `t`.
pub open spec fn element_rust_type(t: Seq<char>) -> Seq<char> {
    match spec_type_xsd2rust(t) {
        Some(r) => r,
        None => t,
    }
}

/// `s` describes the element `e`.
pub open spec fn subtype_fits(e: Element, s: SubtypePlan) -> bool {
    &&& s.xml_name@ == e.name@
    &&& e.type_ matches Some(t)
    &&& s.rust_type@ == element_rust_type(e.type_->Some_0@)
}

/// `b` is how the elements of `ct` are kept.
pub open spec fn body_fits(ct: ComplexType, b: BodyPlan) -> bool {
    if ct.sequences@.len() == 1 {
        b matches BodyPlan::List { element } && element@ == ct.sequences@[0].elements@[0].name@
    } else if ct.choices@.len() == 1 {
        &&& b matches BodyPlan::Choice { enum_name, variants }
        &&& b->Choice_enum_name@ == ct.name->Some_0@ + "Inner"@
        &&& b->Choice_variants@.len() == ct.choices@[0].elements@.len()
        &&& forall|i: int|
            0 <= i < b->Choice_variants@.len() ==> (#[trigger] b->Choice_variants@[i])@
                == ct.choices@[0].elements@[i].name@
    } else {
        b is Empty
    }
}

/// `p` is what is generated for `ct`.
pub open spec fn type_plan_fits(ct: ComplexType, p: TypePlan) -> bool {
    &&& ct.name matches Some(n)
    &&& p.name@ == ct.name->Some_0@
    &&& p.attributes@.len() == ct.attributes@.len()
    &&& forall|i: int|
        0 <= i < p.attributes@.len() ==> field_fits(ct.attributes@[i], #[trigger] p.attributes@[i])
    &&& p.subtypes@.len() == inner_elements(ct).len()
    &&& forall|i: int|
        0 <= i < p.subtypes@.len() ==> subtype_fits(inner_elements(ct)[i], #[trigger] p.subtypes@[i])
    &&& body_fits(ct, p.body)
    &&& p.has_tags == (inner_elements(ct).len() > 0 || ct.content_type_ is Some)
    &&& match ct.content_type_ {
        Some(t) => p.value_type matches Some(v) && spec_type_xsd2rust(t@) == Some(v@),
        None => p.value_type is None,
    }
}

/// The subtypes for the elements `es`, or that one has no type.
fn subtypes_of(es: &Vec<Element>) -> (r: Option<Vec<SubtypePlan>>)
    ensures
        match r {
            Some(v) => !has_untyped(es@) && v@.len() == es@.len() && forall|i: int|
                0 <= i < v@.len() ==> subtype_fits(es@[i], #[trigger] v@[i]),
            None => has_untyped(es@),
        },
{
    let mut v: Vec<SubtypePlan> = Vec::new();
    let mut i: usize = 0;
    while i < es.len()
        invariant
            i <= es@.len(),
            v@.len() == i,
            forall|j: int| 0 <= j < i ==> (#[trigger] es@[j]).type_ is Some,
            forall|j: int| 0 <= j < i ==> subtype_fits(es@[j], #[trigger] v@[j]),
        decreases es@.len() - i,
    {
        let e = &es[i];
        let t = match &e.type_ {
            Some(t) => t,
            None => {
                proof {
                    assert(es@[i as int].type_ is None);
                }
                return None;
            },
        };
        let rust_type = match type_xsd2rust(t.as_str()) {
            Ok(b) => b.to_owned(),
            Err(_) => t.clone(),
        };
        v.push(SubtypePlan { xml_name: e.name.clone(), rust_type });
        i += 1;
    }
    Some(v)
}

/// The fields for the attributes `attrs`, or that one has no supported
/// type.
fn fields_of(attrs: &Vec<Attribute>) -> (r: Option<Vec<FieldPlan>>)
    ensures
        match r {
            Some(v) => !has_unsupported_attribute(attrs@) && v@.len() == attrs@.len() && forall|
                i: int,
            | 0 <= i < v@.len() ==> field_fits(attrs@[i], #[trigger] v@[i]),
            None => has_unsupported_attribute(attrs@),
        },
{
    let mut v: Vec<FieldPlan> = Vec::new();
    let mut i: usize = 0;
    while i < attrs.len()
        invariant
            i <= attrs@.len(),
            v@.len() == i,
            forall|j: int| 0 <= j < i ==> spec_type_xsd2rust((#[trigger] attrs@[j]).type_@) is Some,
            forall|j: int| 0 <= j < i ==> field_fits(attrs@[j], #[trigger] v@[j]),
        decreases attrs@.len() - i,
    {
        let a = &attrs[i];
        let rust_type = match type_xsd2rust(a.type_.as_str()) {
            Ok(t) => t,
            Err(_) => {
                proof {
                    assert(spec_type_xsd2rust(attrs@[i as int].type_@) is None);
                }
                return None;
            },
        };
        v.push(
            FieldPlan {
                field: convert_fieldname(a.name.as_str()),
                xml_name: a.name.clone(),
                rust_type,
                optional: match a.use_ {
                    Use::Required => false,
                    Use::Optional => true,
                },
            },
        );
        i += 1;
    }
    Some(v)
}

/// The names of the elements `es`.
fn element_names(es: &Vec<Element>) -> (r: Vec<String>)
    ensures
        r@.len() == es@.len(),
        forall|i: int| 0 <= i < r@.len() ==> (#[trigger] r@[i])@ == es@[i].name@,
{
    let mut v: Vec<String> = Vec::new();
    let mut i: usize = 0;
    while i < es.len()
        invariant
            i <= es@.len(),
            v@.len() == i,
            forall|j: int| 0 <= j < i ==> (#[trigger] v@[j])@ == es@[j].name@,
        decreases es@.len() - i,
    {
        v.push(es[i].name.clone());
        i += 1;
    }
    v
}

impl ComplexType {
    /// What is generated for this complex type of a normalized schema, or
    /// why nothing can be.
    pub fn plan(&self) -> (r: Result<TypePlan, CodegenError>)
        ensures
            match r {
                Ok(p) => type_plan_error(*self) is None && type_plan_fits(*self, p),
                Err(e) => type_plan_error(*self) == Some(e),
            },
    {
        let name = match &self.name {
            Some(n) => n,
            None => return Err(CodegenError::NoName),
        };
        let sequences = self.sequences.len();
        let choices = self.choices.len();
        let simple_contents = self.simple_contents.len();
        if !(sequences < 2 && choices < 2 && simple_contents < 2 && sequences + choices
            + simple_contents <= 1) {
            return Err(CodegenError::MixedContent);
        }
        if self.simple_contents.len() == 1 {
            return Err(CodegenError::SimpleContent);
        }
        let subtypes = if self.sequences.len() == 1 {
            subtypes_of(&self.sequences[0].elements)
        } else if self.choices.len() == 1 {
            subtypes_of(&self.choices[0].elements)
        } else {
            Some(Vec::new())
        };
        let subtypes = match subtypes {
            Some(s) => s,
            None => return Err(CodegenError::UntypedElement),
        };
        let body = if self.sequences.len() == 1 {
            let sequence = &self.sequences[0];
            if sequence.choices.len() > 0 {
                return Err(CodegenError::SequenceWithChoices);
            }
            if sequence.elements.len() != 1 {
                return Err(CodegenError::SequenceElements(sequence.elements.len()));
            }
            BodyPlan::List { element: sequence.elements[0].name.clone() }
        } else if self.choices.len() == 1 {
            let choice = &self.choices[0];
            if choice.sequences.len() > 0 {
                return Err(CodegenError::ChoiceWithSequences);
            }
            let mut enum_name = name.clone();
            enum_name.push_str("Inner");
            proof {
                reveal_strlit("Inner");
            }
            BodyPlan::Choice { enum_name, variants: element_names(&choice.elements) }
        } else {
            BodyPlan::Empty
        };
        let value_type = match &self.content_type_ {
            Some(t) => match type_xsd2rust(t.as_str()) {
                Ok(v) => Some(v),
                Err(_) => return Err(CodegenError::UnsupportedContentType),
            },
            None => None,
        };
        let attributes = match fields_of(&self.attributes) {
            Some(a) => a,
            None => return Err(CodegenError::UnsupportedAttributeType),
        };
        let has_tags = subtypes.len() > 0 || self.content_type_.is_some();
        Ok(
            TypePlan {
                name: name.clone(),
                attributes,
                subtypes,
                body,
                has_tags,
                value_type,
            },
        )
    }
}

} // verus!
