use rustjvm::{parse_field_descriptor, parse_field_descriptor_incomplete, ComponentType, FieldType};

#[test]
fn int_type() {
    let i = parse_field_descriptor_incomplete("I");
    assert_eq!(
        i,
        Some((
            "",
            FieldType {
                dim: 0,
                ty: ComponentType::Int
            }
        ))
    );
    let ty = i.unwrap().1;
    assert_eq!(&ty.to_string(), "I");
    assert_eq!(&ty.java_name(), "int");
}

#[test]
fn reference() {
    let i = parse_field_descriptor_incomplete("Ljava/lang/Object;");
    assert_eq!(
        i,
        Some((
            "",
            FieldType {
                dim: 0,
                ty: ComponentType::Reference("java/lang/Object".into())
            }
        ))
    );
    let ty = i.unwrap().1;
    assert_eq!(&ty.to_string(), "Ljava/lang/Object;");
    assert_eq!(&ty.java_name(), "java.lang.Object");
}

#[test]
fn array() {
    let i = parse_field_descriptor_incomplete("[[[D");
    assert_eq!(
        i,
        Some((
            "",
            FieldType {
                dim: 3,
                ty: ComponentType::Double
            }
        ))
    );

    let ty = i.unwrap().1;
    assert_eq!(&ty.to_string(), "[[[D");
    assert_eq!(&ty.java_name(), "double[][][]");
}

#[test]
fn reference_array() {
    let i = parse_field_descriptor_incomplete("[Ljava/lang/Object;");
    assert_eq!(
        i,
        Some((
            "",
            FieldType {
                dim: 1,
                ty: ComponentType::Reference("java/lang/Object".into())
            }
        ))
    );

    let ty = i.unwrap().1;
    assert_eq!(&ty.to_string(), "[Ljava/lang/Object;");
    assert_eq!(&ty.java_name(), "java.lang.Object[]");
}

#[test]
fn missing_ref_end() {
    let i = parse_field_descriptor_incomplete("[Ljava/lang/Object");
    assert_eq!(i, None);
}

#[test]
fn trailing() {
    let i = parse_field_descriptor_incomplete("[Ljava/lang/Object;[[Ljava/lang/Object;");
    assert_eq!(
        i,
        Some((
            "[[Ljava/lang/Object;",
            FieldType {
                dim: 1,
                ty: ComponentType::Reference("java/lang/Object".into())
            }
        ))
    );
}

#[test]
fn trailing_on_complete() {
    let i = parse_field_descriptor("[Ljava/lang/Object;[[Ljava/lang/Object;");
    assert_eq!(i, None);
}

#[test]
fn lib_it_works() {
    assert_eq!(2 + 2, 4);
}

#[test]
fn whole_descriptors_round_trip() {
    for text in ["B", "C", "D", "F", "I", "J", "S", "Z", "[[[D", "[Ljava/lang/Object;", "L;"] {
        let ty = parse_field_descriptor(text).unwrap();
        assert_eq!(ty.to_string(), text);
    }
}

#[test]
fn rejects_malformed_descriptors() {
    for text in ["", "[", "[[", "X", "[Q", "V", "Ljava/lang/Object"] {
        assert_eq!(parse_field_descriptor(text), None);
        assert_eq!(parse_field_descriptor_incomplete(text), None);
    }
}

#[test]
fn dimension_limit() {
    let deepest = format!("{}I", "[".repeat(255));
    let ty = parse_field_descriptor(&deepest).unwrap();
    assert_eq!(ty.dim, 255);
    assert_eq!(ty.to_string(), deepest);
    let too_deep = format!("{}I", "[".repeat(256));
    assert_eq!(parse_field_descriptor(&too_deep), None);
}

#[test]
fn primitive_java_names() {
    let names = [
        ("B", "byte"),
        ("C", "char"),
        ("F", "float"),
        ("J", "long"),
        ("S", "short"),
        ("[Z", "boolean[]"),
    ];
    for (text, name) in names {
        assert_eq!(parse_field_descriptor(text).unwrap().java_name(), name);
    }
}
