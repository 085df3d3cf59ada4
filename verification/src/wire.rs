//! Typed values as they travel on the bus, and the messages made of them.

use vstd::prelude::*;
use vstd::string::StringExecFns;

verus! {

/// The payload of one dictionary entry: a value together with its type.
#[derive(Debug, PartialEq, Eq)]
pub enum Variant {
    /// A string, signature `s`.
    Str(String),
    /// A signed 32-bit integer, signature `i`.
    Int32(i32),
    /// A byte, signature `y`.
    Byte(u8),
    /// A boolean, signature `b`.
    Bool(bool),
    /// An array of bytes, signature `ay`.
    ByteArray(Vec<u8>),
    /// A value of any other type, of which only the signature is kept.
    Unrecognized(String),
}

/// What a [`Variant`] stands for.
pub enum VariantView {
    Str(Seq<char>),
    Int32(i32),
    Byte(u8),
    Bool(bool),
    ByteArray(Seq<u8>),
    Unrecognized(Seq<char>),
}

impl VariantView {
    /// The type signature that the value carries on the wire.
    pub open spec fn signature(self) -> Seq<char> {
        match self {
            VariantView::Str(_) => "s"@,
            VariantView::Int32(_) => "i"@,
            VariantView::Byte(_) => "y"@,
            VariantView::Bool(_) => "b"@,
            VariantView::ByteArray(_) => "ay"@,
            VariantView::Unrecognized(sig) => sig,
        }
    }
}

impl View for Variant {
    type V = VariantView;

    open spec fn view(&self) -> VariantView {
        match self {
            Variant::Str(s) => VariantView::Str(s@),
            Variant::Int32(n) => VariantView::Int32(*n),
            Variant::Byte(b) => VariantView::Byte(*b),
            Variant::Bool(b) => VariantView::Bool(*b),
            Variant::ByteArray(bytes) => VariantView::ByteArray(bytes@),
            Variant::Unrecognized(sig) => VariantView::Unrecognized(sig@),
        }
    }
}

/// Copies a byte vector.
pub fn copy_bytes(bytes: &Vec<u8>) -> (copy: Vec<u8>)
    ensures
        copy@ == bytes@,
{
    let mut copy: Vec<u8> = Vec::new();
    let mut i: usize = 0;
    while i < bytes.len()
        invariant
            i <= bytes.len(),
            copy@ == bytes@.take(i as int),
        decreases bytes.len() - i,
    {
        copy.push(bytes[i]);
        i += 1;
    }
    assert(bytes@.take(bytes.len() as int) == bytes@);
    copy
}

/// Copies a vector of strings.
pub fn copy_strings(strings: &Vec<String>) -> (copy: Vec<String>)
    ensures
        copy@ == strings@,
{
    let mut copy: Vec<String> = Vec::new();
    let mut i: usize = 0;
    while i < strings.len()
        invariant
            i <= strings.len(),
            copy@ == strings@.take(i as int),
        decreases strings.len() - i,
    {
        copy.push(strings[i].clone());
        i += 1;
    }
    assert(strings@.take(strings.len() as int) == strings@);
    copy
}

impl Clone for Variant {
    fn clone(&self) -> (copy: Self)
        ensures
            copy@ == self@,
    {
        match self {
            Variant::Str(s) => Variant::Str(s.clone()),
            Variant::Int32(n) => Variant::Int32(*n),
            Variant::Byte(b) => Variant::Byte(*b),
            Variant::Bool(b) => Variant::Bool(*b),
            Variant::ByteArray(bytes) => Variant::ByteArray(copy_bytes(bytes)),
            Variant::Unrecognized(sig) => Variant::Unrecognized(sig.clone()),
        }
    }
}

impl Variant {
    /// The type signature that the value carries on the wire.
    pub fn signature(&self) -> (sig: String)
        ensures
            sig@ == self@.signature(),
    {
        match self {
            Variant::Str(_) => String::from_str("s"),
            Variant::Int32(_) => String::from_str("i"),
            Variant::Byte(_) => String::from_str("y"),
            Variant::Bool(_) => String::from_str("b"),
            Variant::ByteArray(_) => String::from_str("ay"),
            Variant::Unrecognized(sig) => sig.clone(),
        }
    }
}

/// One entry of a dictionary from strings to variants.
#[derive(Debug, PartialEq, Eq)]
pub struct DictEntry {
    pub key: String,
    pub value: Variant,
}

/// What a [`DictEntry`] stands for.
pub struct DictEntryView {
    pub key: Seq<char>,
    pub value: VariantView,
}

impl View for DictEntry {
    type V = DictEntryView;

    open spec fn view(&self) -> DictEntryView {
        DictEntryView { key: self.key@, value: self.value@ }
    }
}

impl Clone for DictEntry {
    fn clone(&self) -> (copy: Self)
        ensures
            copy@ == self@,
    {
        DictEntry { key: self.key.clone(), value: self.value.clone() }
    }
}

/// The strings of a sequence, each by its characters.
pub open spec fn strings_view(strings: Seq<String>) -> Seq<Seq<char>> {
    strings.map_values(|s: String| s@)
}

/// The entries of a dictionary, each by what it stands for.
pub open spec fn entries_view(entries: Seq<DictEntry>) -> Seq<DictEntryView> {
    entries.map_values(|e: DictEntry| e@)
}

/// No key occurs in two entries.
pub open spec fn distinct_keys(entries: Seq<DictEntryView>) -> bool {
    forall|i: int, j: int| 0 <= i < j < entries.len() ==> entries[i].key != entries[j].key
}

/// One argument of a message.
#[derive(Debug, PartialEq, Eq)]
pub enum WireValue {
    /// A string, signature `s`.
    Str(String),
    /// An unsigned 32-bit integer, signature `u`.
    UInt32(u32),
    /// A signed 32-bit integer, signature `i`.
    Int32(i32),
    /// An array of strings, signature `as`. It is typed also when empty.
    StrArray(Vec<String>),
    /// A dictionary from strings to variants, signature `a{sv}`. It is typed
    /// also when empty.
    Dict(Vec<DictEntry>),
    /// A value of any other type, of which only the signature is kept.
    Other(String),
}

/// What a [`WireValue`] stands for.
pub enum WireValueView {
    Str(Seq<char>),
    UInt32(u32),
    Int32(i32),
    StrArray(Seq<Seq<char>>),
    Dict(Seq<DictEntryView>),
    Other(Seq<char>),
}

impl WireValueView {
    /// The type signature that the value carries on the wire.
    pub open spec fn signature(self) -> Seq<char> {
        match self {
            WireValueView::Str(_) => "s"@,
            WireValueView::UInt32(_) => "u"@,
            WireValueView::Int32(_) => "i"@,
            WireValueView::StrArray(_) => "as"@,
            WireValueView::Dict(_) => "a{sv}"@,
            WireValueView::Other(sig) => sig,
        }
    }
}

impl View for WireValue {
    type V = WireValueView;

    open spec fn view(&self) -> WireValueView {
        match self {
            WireValue::Str(s) => WireValueView::Str(s@),
            WireValue::UInt32(n) => WireValueView::UInt32(*n),
            WireValue::Int32(n) => WireValueView::Int32(*n),
            WireValue::StrArray(items) => WireValueView::StrArray(strings_view(items@)),
            WireValue::Dict(entries) => WireValueView::Dict(entries_view(entries@)),
            WireValue::Other(sig) => WireValueView::Other(sig@),
        }
    }
}

impl WireValue {
    /// The type signature that the value carries on the wire.
    pub fn signature(&self) -> (sig: String)
        ensures
            sig@ == self@.signature(),
    {
        match self {
            WireValue::Str(_) => String::from_str("s"),
            WireValue::UInt32(_) => String::from_str("u"),
            WireValue::Int32(_) => String::from_str("i"),
            WireValue::StrArray(_) => String::from_str("as"),
            WireValue::Dict(_) => String::from_str("a{sv}"),
            WireValue::Other(sig) => sig.clone(),
        }
    }
}

/// The arguments of a message, each by what it stands for.
pub open spec fn values_view(values: Seq<WireValue>) -> Seq<WireValueView> {
    values.map_values(|v: WireValue| v@)
}

/// A request to call a method of an object on the bus.
#[derive(Debug, PartialEq, Eq)]
pub struct MethodCall {
    /// The bus name of the service that is called.
    pub destination: String,
    /// The path of the object.
    pub path: String,
    /// The interface that declares the method.
    pub interface: String,
    /// The method's name.
    pub member: String,
    /// The arguments, in order.
    pub args: Vec<WireValue>,
    /// How long the caller waits for the reply, in milliseconds.
    pub reply_timeout_ms: i32,
}

/// What a [`MethodCall`] stands for.
pub struct MethodCallView {
    pub destination: Seq<char>,
    pub path: Seq<char>,
    pub interface: Seq<char>,
    pub member: Seq<char>,
    pub args: Seq<WireValueView>,
    pub reply_timeout_ms: i32,
}

impl View for MethodCall {
    type V = MethodCallView;

    open spec fn view(&self) -> MethodCallView {
        MethodCallView {
            destination: self.destination@,
            path: self.path@,
            interface: self.interface@,
            member: self.member@,
            args: values_view(self.args@),
            reply_timeout_ms: self.reply_timeout_ms,
        }
    }
}

/// A signal as it arrives from the bus.
#[derive(Debug, PartialEq, Eq)]
pub struct BusSignal {
    /// The path of the object that sent it.
    pub path: String,
    /// The interface that declares the signal.
    pub interface: String,
    /// The signal's name.
    pub member: String,
    /// What the signal carries, in order.
    pub items: Vec<WireValue>,
}

/// What a [`BusSignal`] stands for.
pub struct BusSignalView {
    pub path: Seq<char>,
    pub interface: Seq<char>,
    pub member: Seq<char>,
    pub items: Seq<WireValueView>,
}

impl View for BusSignal {
    type V = BusSignalView;

    open spec fn view(&self) -> BusSignalView {
        BusSignalView {
            path: self.path@,
            interface: self.interface@,
            member: self.member@,
            items: values_view(self.items@),
        }
    }
}

} // verus!
