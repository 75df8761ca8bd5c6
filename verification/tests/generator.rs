use proc_macro2::TokenStream;
use safercom::error::IdentifierError;
use safercom::idl::{
    com_interface, com_interface_impl, find_attr_value_by_name, get_iid, to_guid_byte_array,
    ItemStruct, Lit, NestedMeta, SlotSignature,
};
use safercom::types::IID;

fn name_value(ident: &str, lit: Lit) -> NestedMeta {
    NestedMeta::NameValue { ident: ident.to_string(), lit }
}

fn text(value: &str) -> Lit {
    Lit::Str(value.to_string())
}

fn unit_struct(ident: &str) -> ItemStruct {
    ItemStruct { ident: ident.to_string(), fields: vec![] }
}

fn tokens(source: &str) -> String {
    let stream: TokenStream = source.parse().unwrap();
    format!("{}", stream)
}

#[test]
fn get_iid_success_test() {
    let meta = name_value("iid", text("00112233-4455-6677-8899-aabbccddeeff"));
    let actual = get_iid(&vec![meta]).unwrap();

    let expected = [
        51u8, 34u8, 17u8, 0u8, 85u8, 68u8, 119u8, 102u8, 136u8, 153u8, 170u8, 187u8, 204u8, 221u8,
        238u8, 255u8,
    ];

    assert_eq!(expected, actual);
}

#[test]
fn get_iid_failure_wrong_name_test() {
    let meta = name_value("foo", text("d8f015c0-c278-11ce-a49e-444553540000"));

    assert_eq!(get_iid(&vec![meta]).expect_err("should fail").message(), "No IID parameter");
}

#[test]
fn get_iid_failure_value_not_a_string_test() {
    let meta = name_value("iid", Lit::Int(3454325));

    assert_eq!(get_iid(&vec![meta]).expect_err("should fail").message(), "value_not_a_string");
}

#[test]
fn com_interface_impl_test() {
    let attr = {
        let iid = name_value("iid", text("00112233-4455-6677-8899-aabbccddeeff"));
        vec![iid]
    };

    let item = unit_struct("Foo");

    let actual = com_interface_impl(attr, item).unwrap();

    let expected = tokens(
        "struct Foo {
            vtable: *const Foo_VTable
        }

        impl ::safercom::ComInterface for Foo {
            type VTable = Foo_VTable;

            const IID: ::safercom::types::IID =
                ::safercom::types::IID::new([51u8, 34u8, 17u8, 0u8, 85u8, 68u8, 119u8, 102u8, 136u8, 153u8, 170u8, 187u8, 204u8, 221u8, 238u8, 255u8]);

            unsafe fn vtable(&self) -> *const Self::VTable {
                self.vtable
            }
        }",
    );

    assert_eq!(expected, tokens(&actual.to_string()));
}

#[test]
fn binding_holds_what_was_declared() {
    let attr = vec![
        NestedMeta::Word("internal".to_string()),
        name_value("iid", text("00020400-0000-0000-c000-000000000046")),
    ];
    let item = ItemStruct {
        ident: "IDispatch".to_string(),
        fields: vec![
            "GetTypeInfoCount".to_string(),
            "GetTypeInfo".to_string(),
            "GetIDsOfNames".to_string(),
            "Invoke".to_string(),
        ],
    };
    let binding = com_interface_impl(attr, item).unwrap();
    assert_eq!(binding.struct_name, "IDispatch");
    assert_eq!(binding.vtable_name, "IDispatch_VTable");
    assert_eq!(
        binding.iid,
        IID::new([0x00, 0x04, 0x02, 0x00, 0, 0, 0, 0, 0xC0, 0, 0, 0, 0, 0, 0, 0x46])
    );
    let slots: Vec<(&str, SlotSignature)> =
        binding.slots.iter().map(|slot| (slot.name.as_str(), slot.signature)).collect();
    assert_eq!(
        slots,
        vec![
            ("query_interface", SlotSignature::QueryInterface),
            ("add_ref", SlotSignature::AddRef),
            ("release", SlotSignature::Release),
            ("GetTypeInfoCount", SlotSignature::Method),
            ("GetTypeInfo", SlotSignature::Method),
            ("GetIDsOfNames", SlotSignature::Method),
            ("Invoke", SlotSignature::Method),
        ]
    );
}

#[test]
fn table_of_an_item_without_fields_is_the_base_table() {
    let attr = vec![name_value("iid", text("00000000-0000-0000-0000-000000000046"))];
    let binding = com_interface_impl(attr, unit_struct("IUnknown")).unwrap();
    let names: Vec<&str> = binding.slots.iter().map(|slot| slot.name.as_str()).collect();
    assert_eq!(names, vec!["query_interface", "add_ref", "release"]);
}

#[test]
fn table_source_is_written_out_exactly() {
    let attr = vec![name_value("iid", text("00020400-0000-0000-c000-000000000046"))];
    let item = ItemStruct {
        ident: "IDispatch".to_string(),
        fields: vec!["GetTypeInfoCount".to_string(), "Invoke".to_string()],
    };
    let binding = com_interface_impl(attr, item).unwrap();
    assert_eq!(
        binding.table_to_string(),
        "#[repr(C)]\npub struct IDispatch_VTable {\n    pub query_interface: extern \"stdcall\" fn(*const IDispatch, &::safercom::types::IID, *mut *mut ::core::ffi::c_void) -> ::safercom::types::HRESULT,\n    pub add_ref: extern \"stdcall\" fn(*const IDispatch) -> u32,\n    pub release: extern \"stdcall\" fn(*const IDispatch) -> u32,\n    pub GetTypeInfoCount: *mut ::core::ffi::c_void,\n    pub Invoke: *mut ::core::ffi::c_void,\n}\n"
    );
}

#[test]
fn generated_source_is_the_table_and_then_the_binding() {
    let declared = || vec![name_value("iid", text("00112233-4455-6677-8899-aabbccddeeff"))];
    let binding = com_interface_impl(declared(), unit_struct("Foo")).unwrap();
    let source = com_interface(declared(), unit_struct("Foo")).unwrap();
    assert_eq!(source, format!("{}\n{}", binding.table_to_string(), binding.to_string()));
    assert!(source.starts_with(
        "#[repr(C)]\npub struct Foo_VTable {\n    pub query_interface: extern \"stdcall\" fn(*const Foo, "
    ));
    // The text is source that a compiler can read: three items.
    let stream: TokenStream = source.parse().unwrap();
    let items = format!("{}", stream);
    assert_eq!(items.matches("struct").count(), 2);
    assert_eq!(items.matches("impl").count(), 1);
}

#[test]
fn binding_source_is_written_out_exactly() {
    let attr = vec![name_value("iid", text("00112233-4455-6677-8899-aabbccddeeff"))];
    let source = com_interface_impl(attr, unit_struct("Foo")).unwrap().to_string();
    assert_eq!(
        source,
        "struct Foo {\n    vtable: *const Foo_VTable\n}\n\nimpl ::safercom::ComInterface for Foo {\n    type VTable = Foo_VTable;\n\n    const IID: ::safercom::types::IID = ::safercom::types::IID::new([51u8, 34u8, 17u8, 0u8, 85u8, 68u8, 119u8, 102u8, 136u8, 153u8, 170u8, 187u8, 204u8, 221u8, 238u8, 255u8]);\n\n    unsafe fn vtable(&self) -> *const Self::VTable {\n        self.vtable\n    }\n}\n"
    );
}

#[test]
fn bytes_are_written_in_decimal() {
    let attr = vec![name_value("iid", text("0a090064-6300-c7c8-ff80-7f0105101112"))];
    let source = com_interface(attr, unit_struct("Digits")).unwrap();
    assert!(source.contains(
        "IID::new([100u8, 0u8, 9u8, 10u8, 0u8, 99u8, 200u8, 199u8, 255u8, 128u8, 127u8, 1u8, 5u8, 16u8, 17u8, 18u8]);"
    ));
}

#[test]
fn generation_fails_without_an_identifier() {
    assert_eq!(
        com_interface_impl(vec![], unit_struct("Foo")).unwrap_err(),
        IdentifierError::MissingIdentifier
    );
    let only_a_word = vec![NestedMeta::Word("iid".to_string()), NestedMeta::Other];
    assert_eq!(
        com_interface_impl(only_a_word, unit_struct("Foo")).unwrap_err(),
        IdentifierError::MissingIdentifier
    );
    assert_eq!(com_interface(vec![], unit_struct("Foo")), Err(IdentifierError::MissingIdentifier));
}

#[test]
fn generation_fails_with_a_malformed_identifier() {
    for value in [
        "not-a-guid",
        "00112233-4455-6677-8899",
        "",
        "0xd8f015c0-c278-11ce-a49e-444553540000",
        "100112233-4455-6677-8899-aabbccddeeff",
    ] {
        let attr = vec![name_value("iid", text(value))];
        assert_eq!(
            com_interface_impl(attr, unit_struct("Foo")).unwrap_err(),
            IdentifierError::MalformedIdentifier
        );
    }
    let attr = vec![name_value("iid", text("not-a-guid"))];
    assert_eq!(com_interface(attr, unit_struct("Foo")), Err(IdentifierError::MalformedIdentifier));
}

#[test]
fn generation_fails_with_an_identifier_that_is_no_string() {
    for lit in [Lit::Int(0), Lit::Other] {
        let attr = vec![name_value("iid", lit)];
        assert_eq!(
            com_interface_impl(attr, unit_struct("Foo")).unwrap_err(),
            IdentifierError::ValueNotAString
        );
    }
}

#[test]
fn first_argument_of_the_name_decides() {
    let args = vec![
        NestedMeta::Other,
        NestedMeta::Word("internal".to_string()),
        name_value("clsid", text("ffffffff-ffff-ffff-ffff-ffffffffffff")),
        name_value("iid", Lit::Int(7)),
        name_value("iid", text("00112233-4455-6677-8899-aabbccddeeff")),
    ];
    assert!(matches!(find_attr_value_by_name(&args, "iid"), Some(Lit::Int(7))));
    assert!(matches!(find_attr_value_by_name(&args, "clsid"), Some(Lit::Str(_))));
    assert!(find_attr_value_by_name(&args, "internal").is_none());
    assert!(find_attr_value_by_name(&args, "IID").is_none());
    assert_eq!(get_iid(&args), Err(IdentifierError::ValueNotAString));
}

#[test]
fn value_is_read_as_an_identifier() {
    assert_eq!(
        to_guid_byte_array(&text("13709620-C279-11CE-A49E-444553540000")),
        Ok([0x20, 0x96, 0x70, 0x13, 0x79, 0xC2, 0xCE, 0x11, 0xA4, 0x9E, 0x44, 0x45, 0x53, 0x54, 0x00, 0x00])
    );
    assert_eq!(to_guid_byte_array(&text("13709620")), Err(IdentifierError::MalformedIdentifier));
    assert_eq!(to_guid_byte_array(&Lit::Int(3454325)), Err(IdentifierError::ValueNotAString));
}
