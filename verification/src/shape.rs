//! The derivation rule for aggregate types.
//!
//! A user-defined struct or enum obtains the capability by derivation: from
//! the shape of the type — its fields, its variants and which variant, if
//! any, the author marked as the default — a checking plan is synthesized.
//! The rules are:
//!
//! - a struct is default exactly when every field is default (a struct
//!   with no fields is always default);
//! - an enum with one marked variant is default exactly when that variant
//!   is active and all of its fields are default;
//! - an enum with no marked variant falls back to constructing the type's
//!   own default value and comparing against it, which requires the type
//!   to support both default construction and equality.
//!
//! Two marker spellings designate a default variant — the capability's own
//! marker and the conventional default-value marker — and they are
//! synonyms: either one, or both together on the same variant, names that
//! variant.  Marking two different variants is ambiguous and derivation
//! fails.  All failures are reported at derivation time, naming the
//! offending field or variant; none is deferred to the synthesized check.

use vstd::prelude::*;

verus! {

/// The shape of one field: whether the field's own type supports the
/// capability.  Derivation requires that it does; this is a static
/// constraint on the type, not a runtime check.
pub struct FieldShape {
    pub has_capability: bool,
}

/// The shape of one enum variant: its fields, and the two synonymous
/// marker spellings by which its author may designate it as the default
/// variant.
pub struct VariantShape {
    pub fields: Vec<FieldShape>,
    /// The capability's own default-variant marker.
    pub marked_is_default: bool,
    /// The conventional default-value marker, an equally valid synonym.
    pub marked_default: bool,
}

impl VariantShape {
    /// A variant is marked if either marker spelling names it.
    pub open spec fn is_marked(&self) -> bool {
        self.marked_is_default || self.marked_default
    }
}

/// The shape of an aggregate type: an ordered product of fields, or a sum
/// of variants of which exactly one is active per instance.
pub enum TypeShape {
    Struct { fields: Vec<FieldShape> },
    Enum {
        variants: Vec<VariantShape>,
        /// Whether the type can construct its own default value.
        has_default_value: bool,
        /// Whether two instances of the type can be compared for equality.
        has_equality: bool,
    },
}

/// Why derivation failed.  Every failure is reported at derivation time.
pub enum DeriveError {
    /// Two distinct variants carry a default marker; the indices name the
    /// first two, in declaration order.
    AmbiguousDefault { first: usize, second: usize },
    /// A field's type does not support the capability.  For a struct the
    /// variant is `None`; for an enum it names the marked variant whose
    /// field is at fault.
    FieldWithoutCapability { variant: Option<usize>, field: usize },
    /// An enum has no marked variant and does not support both default
    /// construction and equality, so the fallback is unavailable.
    FallbackUnavailable,
}

/// The synthesized check: how an instance of the shaped type decides
/// whether it is default.
pub enum CheckPlan {
    /// Evaluate the capability on each field in declaration order and
    /// combine with logical AND; an empty product is default.
    AllFields,
    /// Return `false` unless the named variant is active, then apply the
    /// field rule to its fields.
    MarkedVariant { variant: usize },
    /// Construct the type's own default value and compare against it.
    CompareWithDefault,
}

/// Every field in `fields` supports the capability.
pub open spec fn fields_supported(fields: Seq<FieldShape>) -> bool {
    forall|i: int| 0 <= i < fields.len() ==> fields[i].has_capability
}

/// `field` is the first index in `fields` whose type lacks the capability.
pub open spec fn first_unsupported(fields: Seq<FieldShape>, field: int) -> bool {
    &&& 0 <= field < fields.len()
    &&& !fields[field].has_capability
    &&& forall|i: int| 0 <= i < field ==> fields[i].has_capability
}

/// No variant in `variants` is marked as the default.
pub open spec fn no_variant_marked(variants: Seq<VariantShape>) -> bool {
    forall|i: int| 0 <= i < variants.len() ==> !variants[i].is_marked()
}

/// `variant` is marked and no other variant is.
pub open spec fn unique_marked(variants: Seq<VariantShape>, variant: int) -> bool {
    &&& 0 <= variant < variants.len()
    &&& variants[variant].is_marked()
    &&& forall|i: int| 0 <= i < variants.len() && i != variant ==> !variants[i].is_marked()
}

/// `first` and `second` are the first two marked indices, in order.
pub open spec fn first_two_marked(variants: Seq<VariantShape>, first: int, second: int) -> bool {
    &&& 0 <= first < second < variants.len()
    &&& variants[first].is_marked()
    &&& variants[second].is_marked()
    &&& forall|i: int| 0 <= i < second && i != first ==> !variants[i].is_marked()
}

/// Finds the first index in `fields` whose type lacks the capability.
fn find_unsupported(fields: &Vec<FieldShape>) -> (r: Option<usize>)
    ensures
        match r {
            None => fields_supported(fields@),
            Some(field) => first_unsupported(fields@, field as int),
        },
{
    let mut i: usize = 0;
    while i < fields.len()
        invariant
            i <= fields@.len(),
            forall|j: int| 0 <= j < i ==> fields@[j].has_capability,
        decreases fields@.len() - i,
    {
        if !fields[i].has_capability {
            return Some(i);
        }
        i += 1;
    }
    None
}

/// Synthesizes the checking plan for a type of the given shape, or reports
/// why no plan can be derived.
///
/// For a struct, every field must support the capability and the plan
/// combines the fields with logical AND.  For an enum, at most one variant
/// may be marked as the default: if exactly one is, the plan inspects the
/// active variant and applies the field rule to the marked variant's
/// fields; if none is, the plan falls back to comparing against the type's
/// own constructed default value, which the type must support; if two are,
/// the declaration is ambiguous and rejected.
#[verifier::loop_isolation(false)]
pub fn derive_plan(shape: &TypeShape) -> (r: Result<CheckPlan, DeriveError>)
    ensures
        match r {
            Ok(CheckPlan::AllFields) => {
                &&& shape matches TypeShape::Struct { fields } && fields_supported(fields@)
            },
            Ok(CheckPlan::MarkedVariant { variant }) => {
                &&& shape matches TypeShape::Enum { variants, .. }
                &&& unique_marked(variants@, variant as int)
                &&& fields_supported(variants@[variant as int].fields@)
            },
            Ok(CheckPlan::CompareWithDefault) => {
                &&& shape matches TypeShape::Enum { variants, has_default_value, has_equality }
                &&& no_variant_marked(variants@)
                &&& *has_default_value
                &&& *has_equality
            },
            Err(DeriveError::AmbiguousDefault { first, second }) => {
                &&& shape matches TypeShape::Enum { variants, .. }
                &&& first_two_marked(variants@, first as int, second as int)
            },
            Err(DeriveError::FieldWithoutCapability { variant: None, field }) => {
                &&& shape matches TypeShape::Struct { fields }
                &&& first_unsupported(fields@, field as int)
            },
            Err(DeriveError::FieldWithoutCapability { variant: Some(v), field }) => {
                &&& shape matches TypeShape::Enum { variants, .. }
                &&& unique_marked(variants@, v as int)
                &&& first_unsupported(variants@[v as int].fields@, field as int)
            },
            Err(DeriveError::FallbackUnavailable) => {
                &&& shape matches TypeShape::Enum { variants, has_default_value, has_equality }
                &&& no_variant_marked(variants@)
                &&& !(*has_default_value && *has_equality)
            },
        },
{
    match shape {
        TypeShape::Struct { fields } => {
            match find_unsupported(fields) {
                None => Ok(CheckPlan::AllFields),
                Some(field) => Err(DeriveError::FieldWithoutCapability { variant: None, field }),
            }
        },
        TypeShape::Enum { variants, has_default_value, has_equality } => {
            let mut marked: Option<usize> = None;
            let mut i: usize = 0;
            while i < variants.len()
                invariant
                    i <= variants@.len(),
                    match marked {
                        None => forall|j: int| 0 <= j < i ==> !variants@[j].is_marked(),
                        Some(m) => {
                            &&& m < i
                            &&& variants@[m as int].is_marked()
                            &&& forall|j: int|
                                0 <= j < i && j != m ==> !variants@[j].is_marked()
                        },
                    },
                decreases variants@.len() - i,
            {
                if variants[i].marked_is_default || variants[i].marked_default {
                    match marked {
                        None => {
                            marked = Some(i);
                        },
                        Some(first) => {
                            return Err(DeriveError::AmbiguousDefault { first, second: i });
                        },
                    }
                }
                i += 1;
            }
            match marked {
                Some(variant) => {
                    match find_unsupported(&variants[variant].fields) {
                        None => Ok(CheckPlan::MarkedVariant { variant }),
                        Some(field) => Err(DeriveError::FieldWithoutCapability {
                            variant: Some(variant),
                            field,
                        }),
                    }
                },
                None => {
                    if *has_default_value && *has_equality {
                        Ok(CheckPlan::CompareWithDefault)
                    } else {
                        Err(DeriveError::FallbackUnavailable)
                    }
                },
            }
        },
    }
}

} // verus!
