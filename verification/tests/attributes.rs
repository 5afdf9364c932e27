use uniffi_bindgen::interface::attributes::{
    ArgumentAttributes, Attribute, ConstructorAttributes, EnumAttributes, FunctionAttributes,
    InterfaceAttributes,
};

#[test]
fn test_byref() -> Result<(), String> {
    let attr = Attribute::from_udl("ByRef").unwrap()?;
    assert!(matches!(attr, Attribute::ByRef));
    Ok(())
}

#[test]
fn test_enum() -> Result<(), String> {
    let attr = Attribute::from_udl("Enum").unwrap()?;
    assert!(matches!(attr, Attribute::Enum));
    assert!(attr.is_enum());
    Ok(())
}

#[test]
fn test_error() -> Result<(), String> {
    let attr = Attribute::from_udl("Error").unwrap()?;
    assert!(matches!(attr, Attribute::Error));
    assert!(attr.is_error());
    Ok(())
}

#[test]
fn test_name() -> Result<(), String> {
    let attr = Attribute::from_udl("Name=Value").unwrap()?;
    assert!(matches!(attr, Attribute::Name(nm) if nm == "Value"));

    let err = Attribute::from_udl("Name").unwrap().unwrap_err();
    assert_eq!(err.to_string(), "ExtendedAttributeNoArgs not supported: \"Name\"");
    Ok(())
}

#[test]
fn test_threadsafe() -> Result<(), String> {
    let attr = Attribute::from_udl("Threadsafe").unwrap()?;
    assert!(matches!(attr, Attribute::Threadsafe));
    Ok(())
}

#[test]
fn test_throws() -> Result<(), String> {
    let attr = Attribute::from_udl("Throws=Name").unwrap()?;
    assert!(matches!(attr, Attribute::Throws(nm) if nm == "Name"));

    let err = Attribute::from_udl("Throws").unwrap().unwrap_err();
    assert_eq!(err.to_string(), "ExtendedAttributeNoArgs not supported: \"Throws\"");
    Ok(())
}

#[test]
fn test_unsupported() -> Result<(), String> {
    let err = Attribute::from_udl("UnsupportedAttribute").unwrap().unwrap_err();
    assert_eq!(
        err.to_string(),
        "ExtendedAttributeNoArgs not supported: \"UnsupportedAttribute\""
    );

    let err = Attribute::from_udl("Unsupported=Attribute").unwrap().unwrap_err();
    assert_eq!(err.to_string(), "Attribute identity Identifier not supported: \"Unsupported\"");
    Ok(())
}

#[test]
fn test_other_attributes_not_supported_for_enums() -> Result<(), String> {
    let err = EnumAttributes::from_udl("[Error, ByRef]").unwrap().unwrap_err();
    assert_eq!(err.to_string(), "ByRef not supported for enums");
    Ok(())
}

#[test]
fn test_throws_attribute() -> Result<(), String> {
    let attrs = FunctionAttributes::from_udl("[Throws=Error]").unwrap().unwrap();
    assert!(matches!(attrs.get_throws_err(), Some("Error")));

    let attrs = FunctionAttributes::from_udl("[]").unwrap().unwrap();
    assert!(matches!(attrs.get_throws_err(), None));
    Ok(())
}

#[test]
fn test_other_attributes_not_supported_for_functions() -> Result<(), String> {
    let err = FunctionAttributes::from_udl("[Throws=Error, ByRef]").unwrap().unwrap_err();
    assert_eq!(err.to_string(), "ByRef not supported for functions or methods");
    Ok(())
}

#[test]
fn test_constructor_attributes() -> Result<(), String> {
    let attrs = ConstructorAttributes::from_udl("[Throws=Error]").unwrap().unwrap();
    assert!(matches!(attrs.get_throws_err(), Some("Error")));
    assert!(matches!(attrs.get_name(), None));

    let attrs = ConstructorAttributes::from_udl("[Name=MyFactory]").unwrap().unwrap();
    assert!(matches!(attrs.get_throws_err(), None));
    assert!(matches!(attrs.get_name(), Some("MyFactory")));

    let attrs =
        ConstructorAttributes::from_udl("[Throws=Error, Name=MyFactory]").unwrap().unwrap();
    assert!(matches!(attrs.get_throws_err(), Some("Error")));
    assert!(matches!(attrs.get_name(), Some("MyFactory")));
    Ok(())
}

#[test]
fn test_other_attributes_not_supported_for_constructors() -> Result<(), String> {
    let err = ConstructorAttributes::from_udl("[Throws=Error, ByRef]").unwrap().unwrap_err();
    assert_eq!(err.to_string(), "ByRef not supported for constructors");
    Ok(())
}

#[test]
fn test_byref_attribute() -> Result<(), String> {
    let attrs = ArgumentAttributes::from_udl("[ByRef]").unwrap().unwrap();
    assert!(matches!(attrs.by_ref(), true));

    let attrs = ArgumentAttributes::from_udl("[]").unwrap().unwrap();
    assert!(matches!(attrs.by_ref(), false));
    Ok(())
}

#[test]
fn test_other_attributes_not_supported_for_arguments() -> Result<(), String> {
    let err = ArgumentAttributes::from_udl("[Throws=Error, ByRef]").unwrap().unwrap_err();
    assert_eq!(err.to_string(), "Throws(\"Error\") not supported for arguments");
    Ok(())
}

#[test]
fn test_threadsafe_attribute() -> Result<(), String> {
    let attrs = InterfaceAttributes::from_udl("[Threadsafe]").unwrap().unwrap();
    assert!(matches!(attrs.threadsafe(), true));

    let attrs = InterfaceAttributes::from_udl("[]").unwrap().unwrap();
    assert!(matches!(attrs.threadsafe(), false));
    Ok(())
}

#[test]
fn test_enum_attribute() -> Result<(), String> {
    let attrs = InterfaceAttributes::from_udl("[Enum]").unwrap().unwrap();
    assert!(matches!(attrs.contains_enum_attr(), true));

    let attrs = InterfaceAttributes::from_udl("[]").unwrap().unwrap();
    assert!(matches!(attrs.contains_enum_attr(), false));

    let attrs = InterfaceAttributes::from_udl("[Threadsafe]").unwrap().unwrap();
    assert!(matches!(attrs.contains_enum_attr(), false));

    let err = InterfaceAttributes::from_udl("[Threadsafe, Enum]").unwrap().unwrap_err();
    assert_eq!(err.to_string(), "conflicting attributes on interface definition");
    Ok(())
}

#[test]
fn test_other_attributes_not_supported_for_interfaces() -> Result<(), String> {
    let err = InterfaceAttributes::from_udl("[Threadsafe, Error]").unwrap().unwrap_err();
    assert_eq!(err.to_string(), "Error not supported for interface definition");
    Ok(())
}

#[test]
fn duplicated_attributes_are_an_error() {
    let err = FunctionAttributes::from_udl("[Throws=Error, Throws=Error]").unwrap().unwrap_err();
    assert!(err.starts_with("Duplicated ExtendedAttribute: "));
    // The same name with another value is no duplicate, but both are kept.
    let attrs = FunctionAttributes::from_udl("[Throws=A, Throws=B]").unwrap().unwrap();
    assert_eq!(attrs.get_throws_err(), Some("A"));
}

#[test]
fn unsupported_attribute_forms_are_an_error() {
    let err = Attribute::from_udl("Exposed=(Window,Worker)").unwrap().unwrap_err();
    assert!(err.starts_with("Attribute not supported: "));
    assert!(Attribute::from_udl("").is_none());
}

#[test]
fn enum_attributes_see_the_error_attribute() {
    let attrs = EnumAttributes::from_udl("[Error]").unwrap().unwrap();
    assert!(attrs.contains_error_attr());
    let attrs = EnumAttributes::from_udl("[]").unwrap().unwrap();
    assert!(!attrs.contains_error_attr());
    assert!(!EnumAttributes::new().contains_error_attr());
}

#[test]
fn string_values_name_too() {
    let attr = Attribute::from_udl("Name=\"quoted\"").unwrap().unwrap();
    assert!(matches!(attr, Attribute::Name(nm) if nm == "quoted"));
}
