use safercom::idl::{com_interface_impl, ItemStruct, Lit, NestedMeta};
use safercom::types::IID;
use safercom::ComInterface;

#[allow(non_camel_case_types)]
pub struct Foo_VTable;

pub struct Foo {
    vtable: usize,
}

impl ComInterface for Foo {
    type VTable = Foo_VTable;

    // What the declaration `iid = "00112233-4455-6677-8899-aabbccddeeff"` on
    // `pub struct Foo;` generates.
    fn iid() -> IID {
        let attr = vec![NestedMeta::NameValue {
            ident: "iid".to_string(),
            lit: Lit::Str("00112233-4455-6677-8899-aabbccddeeff".to_string()),
        }];
        let item = ItemStruct { ident: "Foo".to_string(), fields: vec![] };
        com_interface_impl(attr, item).unwrap().iid
    }

    fn vtable(&self) -> usize {
        self.vtable
    }
}

fn address_of(table: &Foo_VTable) -> usize {
    std::ptr::from_ref(table).addr()
}

#[test]
fn foo_iid_test() {
    let expected_iid = safercom::types::IID::new([
        0x33, 0x22, 0x11, 0x00, 0x55, 0x44, 0x77, 0x66, 0x88, 0x99, 0xAA, 0xBB, 0xCC, 0xDD, 0xEE, 0xFF,
    ]);
    let actual_iid = <Foo as ComInterface>::iid();

    assert_eq!(actual_iid, expected_iid);
}

#[test]
fn foo_vtable_pointer_test() {
    let vtable = &Foo_VTable {};
    let foo = Foo { vtable: address_of(vtable) };
    assert!(foo.vtable() == address_of(vtable));
}
