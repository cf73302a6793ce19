use vstd::prelude::*;
use vstd::string::StringExecFns;
use crate::envelope::{
    access, access_outcome, envelope_bytes, is_valid_version_id, valid_version, write_envelope,
};
use crate::error::{AccessError, HeaderError};
use crate::header::{header_of, peek, Header, HEADER_SIZE};
use crate::identity::{crc32_of_name, derive_id};

verus! {

/// Refusal of a declaration that is not a sum type.
pub const NOT_AN_ENUM_MESSAGE: &'static str = "#[derive(VersionedArchiveContainer)] is only defined for enums";

/// Refusal of a tuple variant without exactly one field; the variant follows.
pub const FIELD_COUNT_MESSAGE: &'static str = "Only one unnamed field per enum variant is supported, found multiple fields in ";

/// Refusal of a variant that is not a tuple variant; the variant follows.
pub const NOT_UNNAMED_MESSAGE: &'static str = "Only unnamed fields supported in enum variants, unsupported variant found in ";

/// The fields a declared variant carries.
#[derive(Debug, Clone, PartialEq, Eq)]
pub enum VariantFields {
    /// A tuple variant with this many fields.
    Unnamed(usize),
    /// A variant with this many named fields.
    Named(usize),
    /// A variant without fields.
    Unit,
}

/// One variant of a declared sum type.
#[derive(Debug, Clone, PartialEq, Eq)]
pub struct VariantDecl {
    pub name: String,
    pub fields: VariantFields,
}

/// A declared type: its name, whether it is a sum type, and its variants in
/// declaration order.
#[derive(Debug, Clone, PartialEq, Eq)]
pub struct Declaration {
    pub name: String,
    pub is_enum: bool,
    pub variants: Vec<VariantDecl>,
}

/// Why a declaration cannot be bound to an envelope type.
#[derive(Debug, Clone, PartialEq, Eq)]
pub enum DeclarationError {
    /// The declared type is not a sum type.
    NotAnEnum { enum_name: String },
    /// A tuple variant carries zero or several fields instead of one.
    FieldCount { enum_name: String, variant: String },
    /// A variant is not a tuple variant.
    NotUnnamed { enum_name: String, variant: String },
}

/// The error a variant of type `enum_name` gives, if it does not carry
/// exactly one unnamed field.
pub open spec fn variant_error(enum_name: String, v: VariantDecl) -> Option<DeclarationError> {
    match v.fields {
        VariantFields::Unnamed(n) => if n == 1 {
            None
        } else {
            Some(DeclarationError::FieldCount { enum_name, variant: v.name })
        },
        _ => Some(DeclarationError::NotUnnamed { enum_name, variant: v.name }),
    }
}

/// The errors of the variants `vs`, in declaration order.
pub open spec fn variant_errors(enum_name: String, vs: Seq<VariantDecl>) -> Seq<DeclarationError>
    decreases vs.len(),
{
    if vs.len() == 0 {
        Seq::empty()
    } else {
        let prev = variant_errors(enum_name, vs.drop_last());
        match variant_error(enum_name, vs.last()) {
            Some(e) => prev.push(e),
            None => prev,
        }
    }
}

/// The errors of a declaration.
pub open spec fn declaration_errors(d: Declaration) -> Seq<DeclarationError> {
    if d.is_enum {
        variant_errors(d.name, d.variants@)
    } else {
        seq![DeclarationError::NotAnEnum { enum_name: d.name }]
    }
}

/// An envelope type bound to a declaration: its name, its type id and its
/// variant names, whose positions are their version ids.
#[derive(Debug, Clone)]
pub struct VersionedType {
    pub name: String,
    pub type_id: u32,
    pub variants: Vec<String>,
}

impl VersionedType {
    /// The type id is derived from the name, and every position is a `u32`.
    pub open spec fn wf(&self) -> bool {
        &&& self.type_id == crc32_of_name(self.name@)
        &&& self.variants@.len() <= u32::MAX
    }

    /// The number of declared versions.
    pub open spec fn count(&self) -> u32 {
        self.variants@.len() as u32
    }

    /// The type's identifier.
    pub fn archive_type_id(&self) -> (r: u32)
        ensures
            r == self.type_id,
    {
        self.type_id
    }

    /// The number of declared versions.
    pub fn variant_count(&self) -> (r: u32)
        requires
            self.wf(),
        ensures
            r == self.count(),
            r == self.variants@.len(),
    {
        self.variants.len() as u32
    }

    /// Whether `version` is one of the ids `0 .. variant_count`.
    pub fn is_valid_version_id(&self, version: u32) -> (r: bool)
        requires
            self.wf(),
        ensures
            r == valid_version(version, self.count()),
            r == (version < self.variants@.len()),
    {
        is_valid_version_id(version, self.variant_count())
    }

    /// The version id of the variant named `variant`: its position among
    /// the declared variants, or `None` if no variant has that name.
    pub fn get_entry_version_id(&self, variant: &String) -> (r: Option<u32>)
        requires
            self.wf(),
        ensures
            match r {
                Some(v) => v < self.variants@.len() && self.variants@[v as int]@ == variant@
                    && forall|j: int| 0 <= j < v ==> self.variants@[j]@ != variant@,
                None => forall|j: int| 0 <= j < self.variants@.len() ==> self.variants@[j]@ != variant@,
            },
    {
        let mut i: usize = 0;
        while i < self.variants.len()
            invariant
                i <= self.variants@.len() <= u32::MAX,
                forall|j: int| 0 <= j < i ==> self.variants@[j]@ != variant@,
            decreases self.variants@.len() - i,
        {
            if self.variants[i].eq(variant) {
                return Some(i as u32);
            }
            i = i + 1;
        }
        None
    }

    /// Builds an envelope of this type for a payload serialized as version
    /// `version`.
    pub fn to_tagged_bytes(&self, version: u32, payload: &[u8]) -> (r: Vec<u8>)
        requires
            self.wf(),
            valid_version(version, self.count()),
        ensures
            r@ == envelope_bytes(self.type_id, version, payload@),
    {
        write_envelope(self.type_id, version, payload)
    }

    /// Reads the header of an envelope.
    pub fn get_type_and_version_from_tagged_bytes(buf: &[u8]) -> (r: Result<Header, AccessError>)
        ensures
            buf@.len() < HEADER_SIZE <==> r == Err::<Header, AccessError>(AccessError::HeaderTooShort),
            r is Ok ==> r == Ok::<Header, AccessError>(header_of(buf@)),
            r == Err::<Header, AccessError>(AccessError::HeaderMalformed) ==> buf@.len() >= HEADER_SIZE,
            r is Ok || r == Err::<Header, AccessError>(AccessError::HeaderTooShort) || r == Err::<Header, AccessError>(AccessError::HeaderMalformed),
    {
        match peek(buf) {
            Ok(h) => Ok(h),
            Err(HeaderError::TooShort) => Err(AccessError::HeaderTooShort),
            Err(HeaderError::Malformed) => Err(AccessError::HeaderMalformed),
        }
    }

    /// Reads an envelope of this type: its version and its payload region.
    pub fn get_ref_from_tagged_bytes<'a>(&self, buf: &'a [u8]) -> (r: Result<(u32, &'a [u8]), AccessError>)
        requires
            self.wf(),
        ensures
            match r {
                Ok((v, p)) => access_outcome(buf@, self.type_id, self.count()) == Ok::<
                    (u32, Seq<u8>),
                    AccessError,
                >((v, p@)),
                Err(e) => access_outcome(buf@, self.type_id, self.count()) == Err::<
                    (u32, Seq<u8>),
                    AccessError,
                >(e) || (e == AccessError::HeaderMalformed && buf@.len() >= HEADER_SIZE),
            },
    {
        access(buf, self.type_id, self.variant_count())
    }
}

/// Binds a declaration to an envelope type, or lists every reason it cannot
/// be: a type that is not a sum type, or each variant, in order, that does
/// not carry exactly one unnamed field.
pub fn generate(decl: &Declaration) -> (r: Result<VersionedType, Vec<DeclarationError>>)
    requires
        decl.variants@.len() <= u32::MAX,
    ensures
        r is Ok <==> declaration_errors(*decl).len() == 0,
        r matches Err(errs) ==> errs@ == declaration_errors(*decl),
        r matches Ok(t) ==> t.wf() && t.name@ == decl.name@ && t.variants@.len()
            == decl.variants@.len() && forall|i: int|
            0 <= i < decl.variants@.len() ==> #[trigger] t.variants@[i]@ == decl.variants@[i].name@,
{
    if !decl.is_enum {
        let mut errs: Vec<DeclarationError> = Vec::new();
        errs.push(DeclarationError::NotAnEnum { enum_name: decl.name.clone() });
        assert(errs@ =~= declaration_errors(*decl));
        return Err(errs);
    }
    let mut errs: Vec<DeclarationError> = Vec::new();
    let mut names: Vec<String> = Vec::new();
    let mut i: usize = 0;
    while i < decl.variants.len()
        invariant
            decl.is_enum,
            i <= decl.variants@.len(),
            errs@ == variant_errors(decl.name, decl.variants@.subrange(0, i as int)),
            names@.len() == i,
            forall|j: int| 0 <= j < i ==> #[trigger] names@[j]@ == decl.variants@[j].name@,
        decreases decl.variants@.len() - i,
    {
        let v = &decl.variants[i];
        proof {
            let s = decl.variants@.subrange(0, i + 1);
            assert(s.drop_last() =~= decl.variants@.subrange(0, i as int));
            assert(s.last() == decl.variants@[i as int]);
        }
        match &v.fields {
            VariantFields::Unnamed(n) => {
                if *n != 1 {
                    errs.push(
                        DeclarationError::FieldCount {
                            enum_name: decl.name.clone(),
                            variant: v.name.clone(),
                        },
                    );
                }
            },
            _ => {
                errs.push(
                    DeclarationError::NotUnnamed {
                        enum_name: decl.name.clone(),
                        variant: v.name.clone(),
                    },
                );
            },
        }
        names.push(v.name.clone());
        i = i + 1;
    }
    assert(decl.variants@.subrange(0, i as int) =~= decl.variants@);
    if errs.len() > 0 {
        return Err(errs);
    }
    Ok(VersionedType { name: decl.name.clone(), type_id: derive_id(decl.name.as_str()), variants: names })
}

impl DeclarationError {
    /// The text of this error, naming the offending type or variant as
    /// `Type::Variant`.
    pub fn message(&self) -> (r: String)
        ensures
            r@ == match self {
                DeclarationError::NotAnEnum { .. } => NOT_AN_ENUM_MESSAGE@,
                DeclarationError::FieldCount { enum_name, variant } => FIELD_COUNT_MESSAGE@
                    + enum_name@ + "::"@ + variant@,
                DeclarationError::NotUnnamed { enum_name, variant } => NOT_UNNAMED_MESSAGE@
                    + enum_name@ + "::"@ + variant@,
            },
    {
        match self {
            DeclarationError::NotAnEnum { .. } => String::from_str(NOT_AN_ENUM_MESSAGE),
            DeclarationError::FieldCount { enum_name, variant } => {
                let mut s = String::from_str(FIELD_COUNT_MESSAGE);
                s.append(enum_name.as_str());
                s.append("::");
                s.append(variant.as_str());
                s
            },
            DeclarationError::NotUnnamed { enum_name, variant } => {
                let mut s = String::from_str(NOT_UNNAMED_MESSAGE);
                s.append(enum_name.as_str());
                s.append("::");
                s.append(variant.as_str());
                s
            },
        }
    }
}

/// Every variant of a sum type that does not carry exactly one unnamed field
/// (zero fields, several, or named ones) is reported by name, so the
/// declaration is refused and no envelope type is bound to it.
pub proof fn lemma_malformed_variant_rejected(d: Declaration, i: int)
    requires
        d.is_enum,
        0 <= i < d.variants@.len(),
        d.variants@[i].fields != VariantFields::Unnamed(1),
    ensures
        declaration_errors(d).len() > 0,
        declaration_errors(d).contains(
            match d.variants@[i].fields {
                VariantFields::Unnamed(_) => DeclarationError::FieldCount {
                    enum_name: d.name,
                    variant: d.variants@[i].name,
                },
                _ => DeclarationError::NotUnnamed { enum_name: d.name, variant: d.variants@[i].name },
            },
        ),
{
    lemma_variant_errors_contain(d.name, d.variants@, i);
}

proof fn lemma_variant_errors_contain(t: String, vs: Seq<VariantDecl>, i: int)
    requires
        0 <= i < vs.len(),
        variant_error(t, vs[i]) is Some,
    ensures
        variant_errors(t, vs).contains(variant_error(t, vs[i])->Some_0),
    decreases vs.len(),
{
    let prev = variant_errors(t, vs.drop_last());
    let e = variant_error(t, vs[i])->Some_0;
    if i == vs.len() - 1 {
        assert(variant_errors(t, vs) == prev.push(e));
        assert(variant_errors(t, vs)[prev.len() as int] == e);
    } else {
        assert(vs.drop_last()[i] == vs[i]);
        lemma_variant_errors_contain(t, vs.drop_last(), i);
        let j = choose|j: int| 0 <= j < prev.len() && prev[j] == e;
        match variant_error(t, vs.last()) {
            Some(x) => {
                assert(variant_errors(t, vs)[j] == e);
            },
            None => {
                assert(variant_errors(t, vs)[j] == e);
            },
        }
    }
}

} // verus!
