//! References to icons: by key, by name, or by family and variant.

use vstd::prelude::*;
use crate::text::str_eq;
use vstd::std_specs::cmp::PartialEqSpec;

verus! {

/// Key of a registered icon. Two keys are equal when their texts are.
#[derive(Clone, Copy, Debug, Eq, Hash)]
pub struct IconKey(&'static str);

impl PartialEq for IconKey {
    fn eq(&self, other: &Self) -> (r: bool) {
        str_eq(self.0, other.0)
    }
}

impl vstd::std_specs::cmp::PartialEqSpecImpl for IconKey {
    open spec fn obeys_eq_spec() -> bool {
        true
    }

    open spec fn eq_spec(&self, other: &Self) -> bool {
        self@ == other@
    }
}

/// Name of an icon family.
#[derive(Clone, Copy, Debug, PartialEq, Eq, Hash)]
pub struct IconFamily(&'static str);

/// Name of a variant within an icon family.
#[derive(Clone, Copy, Debug, PartialEq, Eq, Hash)]
pub struct IconVariant(&'static str);

impl View for IconKey {
    type V = Seq<char>;

    closed spec fn view(&self) -> Seq<char> {
        self.0@
    }
}

impl View for IconFamily {
    type V = Seq<char>;

    closed spec fn view(&self) -> Seq<char> {
        self.0@
    }
}

impl View for IconVariant {
    type V = Seq<char>;

    closed spec fn view(&self) -> Seq<char> {
        self.0@
    }
}

impl IconKey {
    /// The key `value`.
    pub fn new(value: &'static str) -> (r: Self)
        ensures
            r@ == value@,
    {
        IconKey(value)
    }

    /// The key's text.
    pub fn as_str(self) -> (r: &'static str)
        ensures
            r@ == self@,
    {
        self.0
    }
}

impl IconFamily {
    /// The family `value`.
    pub fn new(value: &'static str) -> (r: Self)
        ensures
            r@ == value@,
    {
        IconFamily(value)
    }

    /// The family's name.
    pub fn as_str(self) -> (r: &'static str)
        ensures
            r@ == self@,
    {
        self.0
    }
}

impl IconVariant {
    /// The variant `value`.
    pub fn new(value: &'static str) -> (r: Self)
        ensures
            r@ == value@,
    {
        IconVariant(value)
    }

    /// The variant's name.
    pub fn as_str(self) -> (r: &'static str)
        ensures
            r@ == self@,
    {
        self.0
    }
}

/// A reference to an icon.
#[derive(Clone, Copy, Debug, PartialEq, Eq, Hash)]
pub enum IconRef<'a> {
    /// A registered key.
    Key(IconKey),
    /// An icon name.
    Name(&'a str),
    /// A family and, optionally, one of its variants.
    FamilyVariant { family: IconFamily, variant: Option<IconVariant> },
    /// A family and variant named at run time.
    DynamicFamilyVariant { family: &'a str, variant: Option<&'a str> },
}

impl<'a> IconRef<'a> {
    /// The icon `variant` (or the default one) of `family`.
    pub fn family_variant(family: IconFamily, variant: Option<IconVariant>) -> (r: Self)
        ensures
            r == (IconRef::FamilyVariant { family, variant }),
    {
        IconRef::FamilyVariant { family, variant }
    }

    /// The icon `variant` (or the default one) of the family named `family`.
    pub fn dynamic_family_variant(family: &'a str, variant: Option<&'a str>) -> (r: Self)
        ensures
            r == (IconRef::DynamicFamilyVariant { family, variant }),
    {
        IconRef::DynamicFamilyVariant { family, variant }
    }
}

impl<'a> From<IconKey> for IconRef<'a> {
    fn from(value: IconKey) -> (r: Self) {
        IconRef::Key(value)
    }
}

impl<'a> vstd::std_specs::convert::FromSpecImpl<IconKey> for IconRef<'a> {
    open spec fn obeys_from_spec() -> bool {
        true
    }

    open spec fn from_spec(value: IconKey) -> Self {
        IconRef::Key(value)
    }
}

impl<'a> From<&'a str> for IconRef<'a> {
    fn from(value: &'a str) -> (r: Self) {
        IconRef::Name(value)
    }
}

impl<'a> vstd::std_specs::convert::FromSpecImpl<&'a str> for IconRef<'a> {
    open spec fn obeys_from_spec() -> bool {
        true
    }

    open spec fn from_spec(value: &'a str) -> Self {
        IconRef::Name(value)
    }
}

/// Two icon keys are equal exactly when their texts are: `==` on keys
/// compares the keys' texts, so keys made from equal texts are equal.
pub proof fn law_icon_keys_equal_iff_same_text(a: IconKey, b: IconKey)
    ensures
        a.eq_spec(&b) <==> a@ == b@,
        a.eq_spec(&b) == b.eq_spec(&a),
        a.eq_spec(&a),
{
}

} // verus!
