//! The scalar types that Rust and C++ both have a spelling for.

use crate::text::str_eq;
use proc_macro2::Ident;
use vstd::prelude::*;

verus! {

/// A built-in type of the bridge: one of the scalars, or one of the two
/// string types.
#[derive(Copy, Clone, Debug, PartialEq, Eq, Structural)]
pub enum Atom {
    Bool,
    U8,
    U16,
    U32,
    U64,
    Usize,
    I8,
    I16,
    I32,
    I64,
    Isize,
    CxxString,
    RustString,
}

/// `proc_macro2::Ident`, a word of Rust source. Nothing inside it is
/// visible here; its text is read through [`ident_text`].
#[verifier::external_type_specification]
#[verifier::external_body]
pub struct ExIdent(Ident);

/// The text of an identifier: the characters that `to_string` gives for it.
pub uninterp spec fn ident_text(ident: Ident) -> Seq<char>;

/// Calls `to_string` on a `proc_macro2::Ident`, which goes through the
/// identifier's `Display` impl: that writes the identifier's characters,
/// behind `r#` where the identifier is a raw one. Taken on trust: the string
/// that comes back depends on the identifier alone, and is its text.
#[verifier::external_body]
fn ident_to_string(ident: &Ident) -> (text: String)
    ensures
        text@ == ident_text(*ident),
{
    ident.to_string()
}

impl Atom {
    /// The name under which a bridge definition writes this atom.
    pub open spec fn rust_name(self) -> Seq<char> {
        match self {
            Atom::Bool => "bool"@,
            Atom::U8 => "u8"@,
            Atom::U16 => "u16"@,
            Atom::U32 => "u32"@,
            Atom::U64 => "u64"@,
            Atom::Usize => "usize"@,
            Atom::I8 => "i8"@,
            Atom::I16 => "i16"@,
            Atom::I32 => "i32"@,
            Atom::I64 => "i64"@,
            Atom::Isize => "isize"@,
            Atom::CxxString => "CxxString"@,
            Atom::RustString => "String"@,
        }
    }

    /// The spelling of this atom in generated C++.
    pub open spec fn cxx_name(self) -> Seq<char> {
        match self {
            Atom::Bool => "bool"@,
            Atom::U8 => "uint8_t"@,
            Atom::U16 => "uint16_t"@,
            Atom::U32 => "uint32_t"@,
            Atom::U64 => "uint64_t"@,
            Atom::Usize => "size_t"@,
            Atom::I8 => "int8_t"@,
            Atom::I16 => "int16_t"@,
            Atom::I32 => "int32_t"@,
            Atom::I64 => "int64_t"@,
            Atom::Isize => "ssize_t"@,
            Atom::CxxString => "std::string"@,
            Atom::RustString => "cxxbridge::RustString"@,
        }
    }

    /// The atom that a type name stands for, if it stands for one.
    pub open spec fn classify(name: Seq<char>) -> Option<Atom> {
        if name == "bool"@ {
            Some(Atom::Bool)
        } else if name == "u8"@ {
            Some(Atom::U8)
        } else if name == "u16"@ {
            Some(Atom::U16)
        } else if name == "u32"@ {
            Some(Atom::U32)
        } else if name == "u64"@ {
            Some(Atom::U64)
        } else if name == "usize"@ {
            Some(Atom::Usize)
        } else if name == "i8"@ {
            Some(Atom::I8)
        } else if name == "i16"@ {
            Some(Atom::I16)
        } else if name == "i32"@ {
            Some(Atom::I32)
        } else if name == "i64"@ {
            Some(Atom::I64)
        } else if name == "isize"@ {
            Some(Atom::Isize)
        } else if name == "CxxString"@ {
            Some(Atom::CxxString)
        } else if name == "String"@ {
            Some(Atom::RustString)
        } else {
            None
        }
    }

    /// Classifies an identifier by its text.
    pub fn from(ident: &Ident) -> (atom: Option<Self>)
        ensures
            atom == Self::classify(ident_text(*ident)),
    {
        let text = ident_to_string(ident);
        Self::from_name(text.as_str())
    }

    /// Classifies a type name: the atom it names, or `None` where the name
    /// is not that of a built-in and has to be resolved elsewhere.
    pub fn from_name(name: &str) -> (atom: Option<Self>)
        ensures
            atom == Self::classify(name@),
    {
        if str_eq(name, "bool") {
            Some(Atom::Bool)
        } else if str_eq(name, "u8") {
            Some(Atom::U8)
        } else if str_eq(name, "u16") {
            Some(Atom::U16)
        } else if str_eq(name, "u32") {
            Some(Atom::U32)
        } else if str_eq(name, "u64") {
            Some(Atom::U64)
        } else if str_eq(name, "usize") {
            Some(Atom::Usize)
        } else if str_eq(name, "i8") {
            Some(Atom::I8)
        } else if str_eq(name, "i16") {
            Some(Atom::I16)
        } else if str_eq(name, "i32") {
            Some(Atom::I32)
        } else if str_eq(name, "i64") {
            Some(Atom::I64)
        } else if str_eq(name, "isize") {
            Some(Atom::Isize)
        } else if str_eq(name, "CxxString") {
            Some(Atom::CxxString)
        } else if str_eq(name, "String") {
            Some(Atom::RustString)
        } else {
            None
        }
    }

    /// The spelling of this atom in generated C++.
    pub fn to_cxx(&self) -> (spelling: &'static str)
        ensures
            spelling@ == self.cxx_name(),
    {
        match self {
            Atom::Bool => "bool",
            Atom::U8 => "uint8_t",
            Atom::U16 => "uint16_t",
            Atom::U32 => "uint32_t",
            Atom::U64 => "uint64_t",
            Atom::Usize => "size_t",
            Atom::I8 => "int8_t",
            Atom::I16 => "int16_t",
            Atom::I32 => "int32_t",
            Atom::I64 => "int64_t",
            Atom::Isize => "ssize_t",
            Atom::CxxString => "std::string",
            Atom::RustString => "cxxbridge::RustString",
        }
    }
}

/// Makes the characters of the thirteen Rust-side names known.
proof fn reveal_rust_names()
    ensures
        "bool"@ == seq!['b', 'o', 'o', 'l'],
        "u8"@ == seq!['u', '8'],
        "u16"@ == seq!['u', '1', '6'],
        "u32"@ == seq!['u', '3', '2'],
        "u64"@ == seq!['u', '6', '4'],
        "usize"@ == seq!['u', 's', 'i', 'z', 'e'],
        "i8"@ == seq!['i', '8'],
        "i16"@ == seq!['i', '1', '6'],
        "i32"@ == seq!['i', '3', '2'],
        "i64"@ == seq!['i', '6', '4'],
        "isize"@ == seq!['i', 's', 'i', 'z', 'e'],
        "CxxString"@ == seq!['C', 'x', 'x', 'S', 't', 'r', 'i', 'n', 'g'],
        "String"@ == seq!['S', 't', 'r', 'i', 'n', 'g'],
{
    reveal_strlit("bool");
    reveal_strlit("u8");
    reveal_strlit("u16");
    reveal_strlit("u32");
    reveal_strlit("u64");
    reveal_strlit("usize");
    reveal_strlit("i8");
    reveal_strlit("i16");
    reveal_strlit("i32");
    reveal_strlit("i64");
    reveal_strlit("isize");
    reveal_strlit("CxxString");
    reveal_strlit("String");
    assert("bool"@ =~= seq!['b', 'o', 'o', 'l']);
    assert("u8"@ =~= seq!['u', '8']);
    assert("u16"@ =~= seq!['u', '1', '6']);
    assert("u32"@ =~= seq!['u', '3', '2']);
    assert("u64"@ =~= seq!['u', '6', '4']);
    assert("usize"@ =~= seq!['u', 's', 'i', 'z', 'e']);
    assert("i8"@ =~= seq!['i', '8']);
    assert("i16"@ =~= seq!['i', '1', '6']);
    assert("i32"@ =~= seq!['i', '3', '2']);
    assert("i64"@ =~= seq!['i', '6', '4']);
    assert("isize"@ =~= seq!['i', 's', 'i', 'z', 'e']);
    assert("CxxString"@ =~= seq!['C', 'x', 'x', 'S', 't', 'r', 'i', 'n', 'g']);
    assert("String"@ =~= seq!['S', 't', 'r', 'i', 'n', 'g']);
}

/// Makes the characters of the thirteen C++ spellings known.
proof fn reveal_cxx_names()
    ensures
        "bool"@ == seq!['b', 'o', 'o', 'l'],
        "uint8_t"@ == seq!['u', 'i', 'n', 't', '8', '_', 't'],
        "uint16_t"@ == seq!['u', 'i', 'n', 't', '1', '6', '_', 't'],
        "uint32_t"@ == seq!['u', 'i', 'n', 't', '3', '2', '_', 't'],
        "uint64_t"@ == seq!['u', 'i', 'n', 't', '6', '4', '_', 't'],
        "size_t"@ == seq!['s', 'i', 'z', 'e', '_', 't'],
        "int8_t"@ == seq!['i', 'n', 't', '8', '_', 't'],
        "int16_t"@ == seq!['i', 'n', 't', '1', '6', '_', 't'],
        "int32_t"@ == seq!['i', 'n', 't', '3', '2', '_', 't'],
        "int64_t"@ == seq!['i', 'n', 't', '6', '4', '_', 't'],
        "ssize_t"@ == seq!['s', 's', 'i', 'z', 'e', '_', 't'],
        "std::string"@.len() == 11,
        "std::string"@[3] == ':',
        "cxxbridge::RustString"@.len() == 21,
{
    reveal_strlit("bool");
    reveal_strlit("uint8_t");
    reveal_strlit("uint16_t");
    reveal_strlit("uint32_t");
    reveal_strlit("uint64_t");
    reveal_strlit("size_t");
    reveal_strlit("int8_t");
    reveal_strlit("int16_t");
    reveal_strlit("int32_t");
    reveal_strlit("int64_t");
    reveal_strlit("ssize_t");
    reveal_strlit("std::string");
    reveal_strlit("cxxbridge::RustString");
    assert("bool"@ =~= seq!['b', 'o', 'o', 'l']);
    assert("uint8_t"@ =~= seq!['u', 'i', 'n', 't', '8', '_', 't']);
    assert("uint16_t"@ =~= seq!['u', 'i', 'n', 't', '1', '6', '_', 't']);
    assert("uint32_t"@ =~= seq!['u', 'i', 'n', 't', '3', '2', '_', 't']);
    assert("uint64_t"@ =~= seq!['u', 'i', 'n', 't', '6', '4', '_', 't']);
    assert("size_t"@ =~= seq!['s', 'i', 'z', 'e', '_', 't']);
    assert("int8_t"@ =~= seq!['i', 'n', 't', '8', '_', 't']);
    assert("int16_t"@ =~= seq!['i', 'n', 't', '1', '6', '_', 't']);
    assert("int32_t"@ =~= seq!['i', 'n', 't', '3', '2', '_', 't']);
    assert("int64_t"@ =~= seq!['i', 'n', 't', '6', '4', '_', 't']);
    assert("ssize_t"@ =~= seq!['s', 's', 'i', 'z', 'e', '_', 't']);
}

/// No two atoms share a Rust-side name, stated of all pairs at once.
proof fn lemma_rust_names_distinct()
    ensures
        forall|a: Atom, b: Atom| #[trigger] a.rust_name() == #[trigger] b.rust_name() ==> a == b,
{
    reveal_rust_names();
    assert forall|a: Atom, b: Atom| #[trigger] a.rust_name() == #[trigger] b.rust_name() implies a
        == b by {
        let x = a.rust_name();
        let y = b.rust_name();
        if a != b {
            assert(x.len() != y.len() || x[0] != y[0] || x[1] != y[1] || x[2] != y[2]);
        }
    }
}

/// Every atom is found again from its own Rust-side name.
pub proof fn lemma_classify_rust_name(atom: Atom)
    ensures
        Atom::classify(atom.rust_name()) == Some(atom),
{
    lemma_classify_is_rust_name(atom.rust_name(), atom);
}

/// A name classifies as an atom exactly when it is that atom's Rust-side
/// name: the thirteen names and the thirteen atoms match one to one.
pub proof fn lemma_classify_is_rust_name(name: Seq<char>, atom: Atom)
    ensures
        Atom::classify(name) == Some(atom) <==> name == atom.rust_name(),
{
    lemma_rust_names_distinct();
    match Atom::classify(name) {
        Some(found) => {
            assert(name == found.rust_name());
        },
        None => {},
    }
}

/// A name classifies as nothing exactly when it is no atom's Rust-side
/// name.
pub proof fn lemma_classify_none(name: Seq<char>)
    ensures
        Atom::classify(name).is_none() <==> forall|atom: Atom| name != atom.rust_name(),
{
    lemma_rust_names_distinct();
    match Atom::classify(name) {
        Some(found) => {
            assert(name == found.rust_name());
        },
        None => {},
    }
}

/// Two atoms with the same Rust-side name are the same atom.
pub proof fn lemma_rust_names_differ(a: Atom, b: Atom)
    requires
        a.rust_name() == b.rust_name(),
    ensures
        a == b,
{
    lemma_rust_names_distinct();
}

/// Two atoms with the same C++ spelling are the same atom, so no two
/// generated declarations can collide.
pub proof fn lemma_cxx_names_differ(a: Atom, b: Atom)
    requires
        a.cxx_name() == b.cxx_name(),
    ensures
        a == b,
{
    reveal_cxx_names();
    let x = a.cxx_name();
    let y = b.cxx_name();
    if a != b {
        assert(x.len() != y.len() || x[0] != y[0] || x[3] != y[3] || x[4] != y[4]);
    }
}

/// The C++ spelling that `to_cxx` returns is a name that `from_name` takes
/// only for `bool`, which both languages spell alike.
pub proof fn lemma_classify_cxx_name(atom: Atom)
    ensures
        Atom::classify(atom.cxx_name()) == (if atom == Atom::Bool {
            Some(Atom::Bool)
        } else {
            None
        }),
{
    reveal_rust_names();
    reveal_cxx_names();
    let x = atom.cxx_name();
    if atom != Atom::Bool {
        assert(x.len() >= 6);
        assert(x.len() != 6 || x[0] == 's' || x[0] == 'i');
        assert(x.len() != 9);
    }
}

} // verus!
