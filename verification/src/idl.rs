use vstd::prelude::*;
use vstd::string::*;
use crate::error::IdentifierError;
use crate::guid::{parse_guid_parts, parsed_guid};
use crate::types::IID;

verus! {

/// The value of an argument of a declaration, as far as it is read here.
#[derive(Debug)]
pub enum Lit {
    /// A string, with its escapes resolved.
    Str(String),
    /// An integer.
    Int(u64),
    /// Any other value.
    Other,
}

/// One argument of a declaration.
#[derive(Debug)]
pub enum NestedMeta {
    /// A bare word, such as `internal`.
    Word(String),
    /// A name and a value, such as `iid = "..."`.
    NameValue { ident: String, lit: Lit },
    /// Any other argument.
    Other,
}

/// The arguments of a declaration, in their order.
pub type AttributeArgs = Vec<NestedMeta>;

/// The declared item: the name of the interface, and the names of the
/// functions of its own in the order of their slots.
#[derive(Debug)]
pub struct ItemStruct {
    pub ident: String,
    pub fields: Vec<String>,
}

/// The value of the first argument of `args` that has the name `name`.
pub open spec fn named_value(args: Seq<NestedMeta>, name: Seq<char>) -> Option<Lit>
    decreases args.len(),
{
    if args.len() == 0 {
        None
    } else {
        match args[0] {
            NestedMeta::NameValue { ident, lit } if ident@ == name => Some(lit),
            _ => named_value(args.drop_first(), name),
        }
    }
}

/// The identifier that a value gives, in its layout: the value has to be a
/// string, and the whole string has to be an identifier in canonical form.
pub open spec fn identifier_of_value(value: Lit) -> Result<Seq<u8>, IdentifierError> {
    match value {
        Lit::Str(text) => match parsed_guid(text@) {
            Some(bytes) => Ok(bytes),
            None => Err(IdentifierError::MalformedIdentifier),
        },
        _ => Err(IdentifierError::ValueNotAString),
    }
}

/// The identifier that the arguments of a declaration give, in its layout,
/// or the reason why they give none. The identifier is the value of the
/// first argument with the name `iid`.
pub open spec fn declared_iid(args: Seq<NestedMeta>) -> Result<Seq<u8>, IdentifierError> {
    match named_value(args, "iid"@) {
        Some(value) => identifier_of_value(value),
        None => Err(IdentifierError::MissingIdentifier),
    }
}

/// `found` holds the 16 bytes of `expected`, or fails for the same reason.
pub open spec fn same_identifier(
    found: Result<[u8; 16], IdentifierError>,
    expected: Result<Seq<u8>, IdentifierError>,
) -> bool {
    match expected {
        Ok(bytes) => found matches Ok(data) && data@ == bytes,
        Err(reason) => found matches Err(given) && given == reason,
    }
}

/// Looks for the first argument with the name `name` and gives its value.
pub fn find_attr_value_by_name<'a>(args: &'a AttributeArgs, name: &str) -> (found: Option<&'a Lit>)
    ensures
        match named_value(args@, name@) {
            Some(lit) => found matches Some(value) && *value == lit,
            None => found is None,
        },
{
    let wanted = String::from_str(name);
    let mut i: usize = 0;
    assert(args@.skip(0) =~= args@);
    while i < args.len()
        invariant
            i <= args.len(),
            wanted@ == name@,
            named_value(args@, name@) == named_value(args@.skip(i as int), name@),
        decreases args.len() - i,
    {
        assert(args@.skip(i as int).drop_first() =~= args@.skip(i + 1));
        assert(args@.skip(i as int)[0] == args@[i as int]);
        if let NestedMeta::NameValue { ident, lit } = &args[i] {
            if *ident == wanted {
                return Some(lit);
            }
        }
        i += 1;
    }
    None
}

/// Reads the value of an `iid` argument: it has to be a string, and the
/// whole string has to be an identifier in canonical form.
pub fn to_guid_byte_array(attr: &Lit) -> (bytes: Result<[u8; 16], IdentifierError>)
    ensures
        same_identifier(bytes, identifier_of_value(*attr)),
{
    if let Lit::Str(value) = attr {
        parse_guid_parts(value.as_str())
    } else {
        Err(IdentifierError::ValueNotAString)
    }
}

/// Reads the identifier that the arguments of a declaration give. Its name is `iid`.
pub fn get_iid(args: &AttributeArgs) -> (bytes: Result<[u8; 16], IdentifierError>)
    ensures
        same_identifier(bytes, declared_iid(args@)),
{
    match find_attr_value_by_name(args, "iid") {
        Some(attr) => to_guid_byte_array(attr),
        None => Err(IdentifierError::MissingIdentifier),
    }
}

/// What kind of function a slot of a table holds: one of the three with
/// which every table begins, or a function of the interface's own.
#[derive(Clone, Copy, Debug, PartialEq, Eq, Structural)]
pub enum SlotSignature {
    /// Takes an identifier and a place for a pointer, gives a status.
    QueryInterface,
    /// Gives the count of references after one was added.
    AddRef,
    /// Gives the count of references after one was given back.
    Release,
    /// A function of the interface's own.
    Method,
}

/// One slot of a table of functions.
#[derive(Debug)]
pub struct Slot {
    pub name: String,
    pub signature: SlotSignature,
}

impl View for Slot {
    type V = (Seq<char>, SlotSignature);

    open spec fn view(&self) -> (Seq<char>, SlotSignature) {
        (self.name@, self.signature)
    }
}

/// The three slots with which the table of every interface begins.
pub open spec fn base_slot(i: int) -> (Seq<char>, SlotSignature) {
    if i == 0 {
        ("query_interface"@, SlotSignature::QueryInterface)
    } else if i == 1 {
        ("add_ref"@, SlotSignature::AddRef)
    } else {
        ("release"@, SlotSignature::Release)
    }
}

/// The table of an interface whose own functions are `fields`: the three
/// base slots, then one slot for each function, in the declared order.
pub open spec fn table_shape(fields: Seq<String>) -> Seq<(Seq<char>, SlotSignature)> {
    Seq::new(
        3 + fields.len(),
        |i: int|
            if i < 3 {
                base_slot(i)
            } else {
                (fields[i - 3]@, SlotSignature::Method)
            },
    )
}

/// The table begins with the three base slots.
pub open spec fn leads_with_base_slots(shape: Seq<(Seq<char>, SlotSignature)>) -> bool {
    shape.len() >= 3 && shape[0] == base_slot(0) && shape[1] == base_slot(1) && shape[2]
        == base_slot(2)
}

/// What is generated for one declared interface.
#[derive(Debug)]
pub struct InterfaceBinding {
    /// The name of the instance type: the declared name.
    pub struct_name: String,
    /// The name of the type of the table.
    pub vtable_name: String,
    /// The identifier of the interface.
    pub iid: IID,
    /// The slots of the table, in their order.
    pub slots: Vec<Slot>,
}

/// A number in decimal digits.
pub open spec fn decimal_text(n: nat) -> Seq<char>
    decreases n,
{
    if n < 10 {
        seq![('0' as nat + n) as char]
    } else {
        decimal_text(n / 10).push(('0' as nat + n % 10) as char)
    }
}

/// The bytes as they stand between the brackets of an array: each in decimal
/// with its type behind it, and a comma and a blank between neighbours.
pub open spec fn byte_list_text(bytes: Seq<u8>) -> Seq<char>
    decreases bytes.len(),
{
    if bytes.len() == 0 {
        Seq::empty()
    } else if bytes.len() == 1 {
        decimal_text(bytes[0] as nat) + "u8"@
    } else {
        byte_list_text(bytes.drop_last()) + ", "@ + decimal_text(bytes.last() as nat) + "u8"@
    }
}

/// The source text of a binding, as the code that reaches into foreign
/// memory compiles it: the instance type, which holds the pointer to the
/// table and nothing else, and the implementation of the interface binding
/// for it, which names the type of the table and gives the identifier as a
/// constant of 16 bytes.
pub open spec fn binding_source(name: Seq<char>, vtable: Seq<char>, iid: Seq<u8>) -> Seq<char> {
    "struct "@ + name + " {\n    vtable: *const "@ + vtable
        + "\n}\n\nimpl ::safercom::ComInterface for "@ + name + " {\n    type VTable = "@ + vtable
        + ";\n\n    const IID: ::safercom::types::IID = ::safercom::types::IID::new(["@
        + byte_list_text(iid)
        + "]);\n\n    unsafe fn vtable(&self) -> *const Self::VTable {\n        self.vtable\n    }\n}\n"@
}

/// The source text of one slot of the table of the interface `interface`.
/// The three base slots have the signatures of the base functions; of a
/// function of the interface's own only the name is declared, so its slot is
/// a plain pointer.
pub open spec fn slot_source(interface: Seq<char>, slot: (Seq<char>, SlotSignature)) -> Seq<char> {
    match slot.1 {
        SlotSignature::QueryInterface => "    pub "@ + slot.0 + ": extern \"stdcall\" fn(*const "@
            + interface
            + ", &::safercom::types::IID, *mut *mut ::core::ffi::c_void) -> ::safercom::types::HRESULT,\n"@,
        SlotSignature::AddRef => "    pub "@ + slot.0 + ": extern \"stdcall\" fn(*const "@
            + interface + ") -> u32,\n"@,
        SlotSignature::Release => "    pub "@ + slot.0 + ": extern \"stdcall\" fn(*const "@
            + interface + ") -> u32,\n"@,
        SlotSignature::Method => "    pub "@ + slot.0 + ": *mut ::core::ffi::c_void,\n"@,
    }
}

/// The source text of the slots of a table, one line for each, in their order.
pub open spec fn slots_source(interface: Seq<char>, shape: Seq<(Seq<char>, SlotSignature)>) -> Seq<
    char,
>
    decreases shape.len(),
{
    if shape.len() == 0 {
        Seq::empty()
    } else {
        slots_source(interface, shape.drop_last()) + slot_source(interface, shape.last())
    }
}

/// The source text of the type of the table: a record in the layout of the
/// foreign side that holds the slots in their order.
pub open spec fn table_source(
    interface: Seq<char>,
    vtable: Seq<char>,
    shape: Seq<(Seq<char>, SlotSignature)>,
) -> Seq<char> {
    "#[repr(C)]\npub struct "@ + vtable + " {\n"@ + slots_source(interface, shape) + "}\n"@
}

impl InterfaceBinding {
    /// The table of the interface, slot by slot.
    pub open spec fn shape(&self) -> Seq<(Seq<char>, SlotSignature)> {
        Seq::new(self.slots@.len(), |i: int| self.slots@[i]@)
    }

    /// The source text of the type of the table.
    pub fn table_to_string(&self) -> (text: String)
        ensures
            text@ == table_source(self.struct_name@, self.vtable_name@, self.shape()),
    {
        let mut text = String::from_str("#[repr(C)]\npub struct ");
        text.append(self.vtable_name.as_str());
        text.append(" {\n");
        let ghost head = text@;
        let mut i: usize = 0;
        assert(self.shape().take(0) =~= Seq::<(Seq<char>, SlotSignature)>::empty());
        while i < self.slots.len()
            invariant
                i <= self.slots.len(),
                text@ == head + slots_source(self.struct_name@, self.shape().take(i as int)),
            decreases self.slots.len() - i,
        {
            let slot = &self.slots[i];
            let ghost before = text@;
            text.append("    pub ");
            text.append(slot.name.as_str());
            match slot.signature {
                SlotSignature::QueryInterface => {
                    text.append(": extern \"stdcall\" fn(*const ");
                    text.append(self.struct_name.as_str());
                    text.append(
                        ", &::safercom::types::IID, *mut *mut ::core::ffi::c_void) -> ::safercom::types::HRESULT,\n",
                    );
                },
                SlotSignature::AddRef => {
                    text.append(": extern \"stdcall\" fn(*const ");
                    text.append(self.struct_name.as_str());
                    text.append(") -> u32,\n");
                },
                SlotSignature::Release => {
                    text.append(": extern \"stdcall\" fn(*const ");
                    text.append(self.struct_name.as_str());
                    text.append(") -> u32,\n");
                },
                SlotSignature::Method => {
                    text.append(": *mut ::core::ffi::c_void,\n");
                },
            }
            proof {
                let done = self.shape().take(i as int);
                let next = self.shape().take(i + 1);
                assert(next.drop_last() =~= done);
                assert(next.last() == slot@);
                assert(text@ =~= before + slot_source(self.struct_name@, slot@));
                assert(text@ =~= head + slots_source(self.struct_name@, next));
            }
            i += 1;
        }
        assert(self.shape().take(self.slots.len() as int) =~= self.shape());
        text.append("}\n");
        text
    }

    /// The source text of the instance type and of the implementation of the
    /// interface binding.
    pub fn to_string(&self) -> (text: String)
        ensures
            text@ == binding_source(self.struct_name@, self.vtable_name@, self.iid@),
    {
        let mut text = String::from_str("struct ");
        text.append(self.struct_name.as_str());
        text.append(" {\n    vtable: *const ");
        text.append(self.vtable_name.as_str());
        text.append("\n}\n\nimpl ::safercom::ComInterface for ");
        text.append(self.struct_name.as_str());
        text.append(" {\n    type VTable = ");
        text.append(self.vtable_name.as_str());
        text.append(
            ";\n\n    const IID: ::safercom::types::IID = ::safercom::types::IID::new([",
        );
        append_byte_list(&mut text, self.iid.as_bytes());
        text.append(
            "]);\n\n    unsafe fn vtable(&self) -> *const Self::VTable {\n        self.vtable\n    }\n}\n",
        );
        text
    }
}

/// `made` is the binding of the declaration with the arguments `args` and
/// the item `item`: it has the declared name, names the table after it,
/// holds the declared identifier, and its table is the one of the item.
pub open spec fn generated(args: Seq<NestedMeta>, item: ItemStruct, made: InterfaceBinding) -> bool {
    &&& declared_iid(args) matches Ok(bytes)
    &&& made.struct_name@ == item.ident@
    &&& made.vtable_name@ == item.ident@ + "_VTable"@
    &&& made.iid@ == bytes
    &&& made.shape() == table_shape(item.fields@)
}

/// Generates the binding of a declared interface. The declaration has to
/// give an identifier: without one, or with one that is malformed, nothing
/// is generated, and no identifier is made up in its place. The table of the
/// binding begins with the three base slots and goes on with the declared
/// functions in their order.
pub fn com_interface_impl(attr: AttributeArgs, item: ItemStruct) -> (made: Result<
    InterfaceBinding,
    IdentifierError,
>)
    ensures
        match declared_iid(attr@) {
            Ok(_) => made matches Ok(binding) && generated(attr@, item, binding)
                && leads_with_base_slots(binding.shape()),
            Err(reason) => made matches Err(given) && given == reason,
        },
{
    let data = match get_iid(&attr) {
        Ok(data) => data,
        Err(reason) => {
            return Err(reason);
        },
    };
    let slots = table_slots(&item.fields);
    let mut vtable_name = item.ident.clone();
    vtable_name.append("_VTable");
    let binding = InterfaceBinding {
        struct_name: item.ident,
        vtable_name,
        iid: IID::new(data),
        slots,
    };
    assert(binding.shape() =~= table_shape(item.fields@));
    Ok(binding)
}

/// All that is generated for a declaration with the item `item` and the
/// identifier `iid`, as source text: the type of the table, a blank line,
/// then the instance type and the implementation of the interface binding.
pub open spec fn generated_source(item: ItemStruct, iid: Seq<u8>) -> Seq<char> {
    table_source(item.ident@, item.ident@ + "_VTable"@, table_shape(item.fields@)) + "\n"@
        + binding_source(item.ident@, item.ident@ + "_VTable"@, iid)
}

/// Generates the source text for a declared interface: the type of its
/// table, its instance type and the implementation of the interface binding.
/// A declaration without an identifier, or with a malformed one, gives no
/// text at all.
pub fn com_interface(attr: AttributeArgs, item: ItemStruct) -> (text: Result<
    String,
    IdentifierError,
>)
    ensures
        match declared_iid(attr@) {
            Ok(bytes) => text matches Ok(source) && source@ == generated_source(item, bytes),
            Err(reason) => text matches Err(given) && given == reason,
        },
{
    match com_interface_impl(attr, item) {
        Ok(binding) => {
            let mut text = binding.table_to_string();
            text.append("\n");
            text.append(binding.to_string().as_str());
            Ok(text)
        },
        Err(reason) => Err(reason),
    }
}

fn table_slots(fields: &Vec<String>) -> (slots: Vec<Slot>)
    ensures
        slots@.len() == 3 + fields@.len(),
        forall|i: int| 0 <= i < slots@.len() ==> (#[trigger] slots@[i])@ == table_shape(fields@)[i],
{
    let mut slots: Vec<Slot> = Vec::new();
    slots.push(
        Slot { name: String::from_str("query_interface"), signature: SlotSignature::QueryInterface },
    );
    slots.push(Slot { name: String::from_str("add_ref"), signature: SlotSignature::AddRef });
    slots.push(Slot { name: String::from_str("release"), signature: SlotSignature::Release });
    let mut j: usize = 0;
    while j < fields.len()
        invariant
            j <= fields.len(),
            slots@.len() == 3 + j,
            forall|i: int|
                0 <= i < slots@.len() ==> (#[trigger] slots@[i])@ == table_shape(fields@)[i],
        decreases fields.len() - j,
    {
        slots.push(Slot { name: fields[j].clone(), signature: SlotSignature::Method });
        j += 1;
    }
    slots
}

fn decimal_digit_str(d: u8) -> (digit: &'static str)
    requires
        d < 10,
    ensures
        digit@ == seq![('0' as nat + d as nat) as char],
{
    proof {
        reveal_strlit("0");
        reveal_strlit("1");
        reveal_strlit("2");
        reveal_strlit("3");
        reveal_strlit("4");
        reveal_strlit("5");
        reveal_strlit("6");
        reveal_strlit("7");
        reveal_strlit("8");
        reveal_strlit("9");
    }
    let digit = match d {
        0 => "0",
        1 => "1",
        2 => "2",
        3 => "3",
        4 => "4",
        5 => "5",
        6 => "6",
        7 => "7",
        8 => "8",
        _ => "9",
    };
    assert(digit@ =~= seq![('0' as nat + d as nat) as char]);
    digit
}

fn append_decimal(out: &mut String, n: u8)
    ensures
        final(out)@ == old(out)@ + decimal_text(n as nat),
{
    if n >= 100 {
        out.append(decimal_digit_str(n / 100));
    }
    if n >= 10 {
        out.append(decimal_digit_str((n / 10) % 10));
    }
    out.append(decimal_digit_str(n % 10));
    proof {
        let v = n as nat;
        if n >= 100 {
            assert(decimal_text(v / 10 / 10) =~= seq![('0' as nat + v / 100) as char]);
            assert(decimal_text(v / 10) =~= decimal_text(v / 10 / 10).push(
                ('0' as nat + (v / 10) % 10) as char,
            ));
        } else if n >= 10 {
            assert(decimal_text(v / 10) =~= seq![('0' as nat + v / 10) as char]);
        }
        assert(out@ =~= old(out)@ + decimal_text(v));
    }
}

fn append_byte_list(out: &mut String, bytes: &[u8; 16])
    ensures
        final(out)@ == old(out)@ + byte_list_text(bytes@),
{
    let mut i: usize = 0;
    assert(bytes@.take(0) =~= Seq::<u8>::empty());
    while i < 16
        invariant
            i <= 16,
            out@ == old(out)@ + byte_list_text(bytes@.take(i as int)),
        decreases 16 - i,
    {
        let ghost before = out@;
        if i > 0 {
            out.append(", ");
        }
        append_decimal(out, bytes[i]);
        out.append("u8");
        proof {
            let done = bytes@.take(i as int);
            let next = bytes@.take(i + 1);
            assert(next.drop_last() =~= done);
            assert(next.last() == bytes[i as int]);
            if i == 0 {
                assert(byte_list_text(done) =~= Seq::<char>::empty());
            }
            assert(out@ =~= old(out)@ + byte_list_text(next));
        }
        i += 1;
    }
    assert(bytes@.take(16) =~= bytes@);
}

} // verus!
