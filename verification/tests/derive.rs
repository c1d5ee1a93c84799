use is_default::IsDefault;
use is_default::shape::{derive_plan, CheckPlan, DeriveError, FieldShape, TypeShape, VariantShape};
use is_default::value::{run_plan, value_is_default, values_equal, Value};

struct Ref<'a>(&'a u8);

impl<'a> IsDefault for Ref<'a> {
    fn is_default(&self) -> bool {
        self.0.is_default()
    }
}

struct RefMut<'a>(&'a u8);

impl<'a> IsDefault for RefMut<'a> {
    fn is_default(&self) -> bool {
        self.0.is_default()
    }
}

#[test]
fn tuple_ref_structs() {
    let mut zero: u8 = 0;
    let mut non_zero: u8 = 1;

    assert!(Ref(&zero).is_default());
    assert!(RefMut(&mut zero).is_default());
    assert!(!Ref(&non_zero).is_default());
    assert!(!RefMut(&mut non_zero).is_default());
}

struct Aggregate {
    x: i16,
    y: f32,
}

impl IsDefault for Aggregate {
    fn is_default(&self) -> bool {
        self.x.is_default() && self.y.to_bits() == 0
    }
}

#[test]
fn aggregate_field_independence() {
    assert!(Aggregate { x: 0, y: 0.0 }.is_default());
    assert!(!Aggregate { x: 1, y: 0.0 }.is_default());
    assert!(!Aggregate { x: 0, y: 1.1 }.is_default());
}

fn capable(n: usize) -> Vec<FieldShape> {
    let mut fields: Vec<FieldShape> = Vec::new();
    for _ in 0..n {
        fields.push(FieldShape { has_capability: true });
    }
    fields
}

fn variant(n_fields: usize, marked_is_default: bool, marked_default: bool) -> VariantShape {
    VariantShape { fields: capable(n_fields), marked_is_default, marked_default }
}

#[test]
fn derive_struct_plan() {
    let empty = TypeShape::Struct { fields: capable(0) };
    assert!(matches!(derive_plan(&empty), Ok(CheckPlan::AllFields)));

    let two = TypeShape::Struct { fields: capable(2) };
    assert!(matches!(derive_plan(&two), Ok(CheckPlan::AllFields)));
}

#[test]
fn derive_struct_missing_capability() {
    let fields = vec![
        FieldShape { has_capability: true },
        FieldShape { has_capability: false },
        FieldShape { has_capability: false },
    ];
    let shape = TypeShape::Struct { fields };
    assert!(matches!(
        derive_plan(&shape),
        Err(DeriveError::FieldWithoutCapability { variant: None, field: 1 })
    ));
}

#[test]
fn derive_marked_variant() {
    let shape = TypeShape::Enum {
        variants: vec![variant(0, false, false), variant(2, true, false)],
        has_default_value: false,
        has_equality: false,
    };
    assert!(matches!(derive_plan(&shape), Ok(CheckPlan::MarkedVariant { variant: 1 })));
}

#[test]
fn derive_marker_synonyms() {
    let conventional = TypeShape::Enum {
        variants: vec![variant(0, false, true), variant(1, false, false)],
        has_default_value: false,
        has_equality: false,
    };
    assert!(matches!(derive_plan(&conventional), Ok(CheckPlan::MarkedVariant { variant: 0 })));

    let both_on_one = TypeShape::Enum {
        variants: vec![variant(0, true, true), variant(1, false, false)],
        has_default_value: false,
        has_equality: false,
    };
    assert!(matches!(derive_plan(&both_on_one), Ok(CheckPlan::MarkedVariant { variant: 0 })));
}

#[test]
fn derive_ambiguous_markers() {
    let shape = TypeShape::Enum {
        variants: vec![variant(0, false, false), variant(0, true, false), variant(1, false, true)],
        has_default_value: true,
        has_equality: true,
    };
    assert!(matches!(
        derive_plan(&shape),
        Err(DeriveError::AmbiguousDefault { first: 1, second: 2 })
    ));
}

#[test]
fn derive_marked_variant_missing_capability() {
    let bad = VariantShape {
        fields: vec![FieldShape { has_capability: false }],
        marked_is_default: true,
        marked_default: false,
    };
    let shape = TypeShape::Enum {
        variants: vec![variant(0, false, false), bad],
        has_default_value: false,
        has_equality: false,
    };
    assert!(matches!(
        derive_plan(&shape),
        Err(DeriveError::FieldWithoutCapability { variant: Some(1), field: 0 })
    ));
}

#[test]
fn derive_fallback() {
    let shape = TypeShape::Enum {
        variants: vec![variant(1, false, false), variant(0, false, false)],
        has_default_value: true,
        has_equality: true,
    };
    assert!(matches!(derive_plan(&shape), Ok(CheckPlan::CompareWithDefault)));
}

#[test]
fn derive_fallback_unavailable() {
    let no_eq = TypeShape::Enum {
        variants: vec![variant(1, false, false)],
        has_default_value: true,
        has_equality: false,
    };
    assert!(matches!(derive_plan(&no_eq), Err(DeriveError::FallbackUnavailable)));

    let no_default = TypeShape::Enum {
        variants: vec![variant(1, false, false)],
        has_default_value: false,
        has_equality: true,
    };
    assert!(matches!(derive_plan(&no_default), Err(DeriveError::FallbackUnavailable)));
}

#[test]
fn struct_value_field_rule() {
    let empty = Value::Struct { fields: Vec::new() };
    assert!(value_is_default(&empty));

    let all_default = Value::Struct { fields: vec![Value::Int(0), Value::Bool(false)] };
    assert!(value_is_default(&all_default));

    let first_bad = Value::Struct { fields: vec![Value::Int(1), Value::Bool(false)] };
    assert!(!value_is_default(&first_bad));

    let second_bad = Value::Struct { fields: vec![Value::Int(0), Value::Bool(true)] };
    assert!(!value_is_default(&second_bad));

    let nested = Value::Struct {
        fields: vec![Value::Struct { fields: vec![Value::Char('\x00')] }, Value::Unit],
    };
    assert!(value_is_default(&nested));
}

#[test]
fn marked_variant_rule() {
    let plan = CheckPlan::MarkedVariant { variant: 0 };
    let none = Value::Unit;

    let marked_all_default = Value::Variant {
        active: 0,
        marked: Some(0),
        fields: vec![Value::Int(0), Value::Bool(false)],
    };
    assert!(run_plan(&plan, &marked_all_default, &none));

    let first_field_bad = Value::Variant {
        active: 0,
        marked: Some(0),
        fields: vec![Value::Int(7), Value::Bool(false)],
    };
    assert!(!run_plan(&plan, &first_field_bad, &none));

    let second_field_bad = Value::Variant {
        active: 0,
        marked: Some(0),
        fields: vec![Value::Int(0), Value::Bool(true)],
    };
    assert!(!run_plan(&plan, &second_field_bad, &none));

    let other_variant = Value::Variant {
        active: 1,
        marked: Some(0),
        fields: vec![Value::Int(0), Value::Bool(false)],
    };
    assert!(!run_plan(&plan, &other_variant, &none));
}

#[test]
fn fallback_rule() {
    let plan = CheckPlan::CompareWithDefault;
    let constructed = Value::Variant { active: 2, marked: None, fields: vec![Value::Int(4)] };

    let equal = Value::Variant { active: 2, marked: None, fields: vec![Value::Int(4)] };
    assert!(run_plan(&plan, &equal, &constructed));

    let different_field = Value::Variant { active: 2, marked: None, fields: vec![Value::Int(5)] };
    assert!(!run_plan(&plan, &different_field, &constructed));

    let different_variant = Value::Variant { active: 1, marked: None, fields: vec![Value::Int(4)] };
    assert!(!run_plan(&plan, &different_variant, &constructed));
}

#[test]
fn variant_intrinsic_defaultness() {
    let unmarked = Value::Variant { active: 0, marked: None, fields: vec![] };
    assert!(!value_is_default(&unmarked));

    let marked_active = Value::Variant { active: 0, marked: Some(0), fields: vec![] };
    assert!(value_is_default(&marked_active));

    let marked_inactive = Value::Variant { active: 1, marked: Some(0), fields: vec![] };
    assert!(!value_is_default(&marked_inactive));

    let nested = Value::Struct {
        fields: vec![Value::Variant { active: 1, marked: Some(1), fields: vec![Value::Int(0)] }],
    };
    assert!(value_is_default(&nested));
}

#[test]
fn structural_equality() {
    let a = Value::Struct { fields: vec![Value::Int(3), Value::Char('q')] };
    let b = Value::Struct { fields: vec![Value::Int(3), Value::Char('q')] };
    let c = Value::Struct { fields: vec![Value::Int(3), Value::Char('r')] };
    let shorter = Value::Struct { fields: vec![Value::Int(3)] };

    assert!(values_equal(&a, &b));
    assert!(values_equal(&a, &a));
    assert!(!values_equal(&a, &c));
    assert!(!values_equal(&a, &shorter));
    assert!(!values_equal(&a, &Value::Unit));
}
