use notify_rust::wire::{copy_bytes, copy_strings, DictEntry, Variant, WireValue};

#[test]
fn variants_carry_their_signature() {
    assert_eq!(Variant::Str("x".to_string()).signature(), "s");
    assert_eq!(Variant::Int32(1).signature(), "i");
    assert_eq!(Variant::Byte(1).signature(), "y");
    assert_eq!(Variant::Bool(true).signature(), "b");
    assert_eq!(Variant::ByteArray(vec![]).signature(), "ay");
    assert_eq!(Variant::Unrecognized("(iiibiiay)".to_string()).signature(), "(iiibiiay)");
}

#[test]
fn values_carry_their_signature() {
    assert_eq!(WireValue::Str("x".to_string()).signature(), "s");
    assert_eq!(WireValue::UInt32(1).signature(), "u");
    assert_eq!(WireValue::Int32(-1).signature(), "i");
    assert_eq!(WireValue::StrArray(vec![]).signature(), "as");
    assert_eq!(WireValue::Dict(vec![]).signature(), "a{sv}");
    assert_eq!(
        WireValue::Dict(vec![DictEntry { key: "k".to_string(), value: Variant::Byte(1) }]).signature(),
        "a{sv}"
    );
    assert_eq!(WireValue::Other("d".to_string()).signature(), "d");
}

#[test]
fn copies_are_equal() {
    assert_eq!(copy_bytes(&vec![1, 2, 3]), vec![1, 2, 3]);
    assert_eq!(copy_bytes(&vec![]), Vec::<u8>::new());
    let strings = vec!["a".to_string(), "bc".to_string()];
    assert_eq!(copy_strings(&strings), strings);
}
