//! Names of generated items.

use vstd::prelude::*;
use vstd::string::*;
use crate::text::{
    chars_of, matches_at, occurs_at, concat2, ends_with, replace, replace_all, str_eq, strip_prefix_or_copy, strip_prefix_or_keep,
    strip_suffix_or_copy, strip_suffix_or_keep, is_suffix_of,
};

verus! {

/// The feature name of a bindings trait: `Ui<Feature>Bindings` gives `<Feature>`
/// (the `Bindings` suffix, then the `Ui` prefix, are dropped where present).
pub open spec fn feature_name_of(trait_name: Seq<char>) -> Seq<char> {
    strip_prefix_or_keep(strip_suffix_or_keep(trait_name, "Bindings"@), "Ui"@)
}

/// Feature name of the bindings trait `trait_name`.
pub fn binding_feature_name(trait_name: &str) -> (r: String)
    ensures
        r@ == feature_name_of(trait_name@),
{
    let trimmed = strip_suffix_or_copy(trait_name, "Bindings");
    strip_prefix_or_copy(trimmed.as_str(), "Ui")
}

/// Trace scope of a binding method: `Ui.<Feature>.<method>`.
pub fn build_binding_scope(trait_name: &str, method_name: &str) -> (r: String)
    ensures
        r@ == "Ui."@ + feature_name_of(trait_name@) + "."@ + method_name@,
{
    let mut r = String::from_str("Ui.");
    let feature = binding_feature_name(trait_name);
    r.append(feature.as_str());
    r.append(".");
    r.append(method_name);
    r
}

/// Slint types that generated code names by their full path.
pub fn qualify_known_type_str(ty: &str) -> (r: String)
    ensures
        ty@ == "SharedString"@ ==> r@ == "slint::SharedString"@,
        ty@ == "Image"@ ==> r@ == "slint::Image"@,
        ty@ == "Color"@ ==> r@ == "slint::Color"@,
        ty@ != "SharedString"@ && ty@ != "Image"@ && ty@ != "Color"@ ==> r@ == ty@,
{
    proof {
        reveal_strlit("SharedString");
        reveal_strlit("Image");
        reveal_strlit("Color");
        assert("SharedString"@ != "Image"@) by {
            assert("SharedString"@.len() != "Image"@.len());
        }
        assert("SharedString"@ != "Color"@) by {
            assert("SharedString"@.len() != "Color"@.len());
        }
        assert("Image"@ != "Color"@) by {
            assert("Image"@[0] != "Color"@[0]);
        }
    }
    if str_eq(ty, "SharedString") {
        String::from_str("slint::SharedString")
    } else if str_eq(ty, "Image") {
        String::from_str("slint::Image")
    } else if str_eq(ty, "Color") {
        String::from_str("slint::Color")
    } else {
        String::from_str(ty)
    }
}

/// Names of Rust's primitive number types.
pub open spec fn is_numeric_type_name(ty: Seq<char>) -> bool {
    ||| ty == "u8"@
    ||| ty == "u16"@
    ||| ty == "u32"@
    ||| ty == "u64"@
    ||| ty == "u128"@
    ||| ty == "usize"@
    ||| ty == "i8"@
    ||| ty == "i16"@
    ||| ty == "i32"@
    ||| ty == "i64"@
    ||| ty == "i128"@
    ||| ty == "isize"@
    ||| ty == "f32"@
    ||| ty == "f64"@
}

/// `ty` names a primitive number type, converted to and from Slint by a cast.
pub fn is_trivial_numeric(ty: &str) -> (r: bool)
    ensures
        r == is_numeric_type_name(ty@),
{
    str_eq(ty, "u8") || str_eq(ty, "u16") || str_eq(ty, "u32") || str_eq(ty, "u64")
        || str_eq(ty, "u128") || str_eq(ty, "usize") || str_eq(ty, "i8") || str_eq(ty, "i16")
        || str_eq(ty, "i32") || str_eq(ty, "i64") || str_eq(ty, "i128") || str_eq(ty, "isize")
        || str_eq(ty, "f32") || str_eq(ty, "f64")
}

/// How a value crosses between Rust and Slint.
pub enum SlintConversion {
    /// A numeric cast (`value as _`).
    Cast,
    /// The value as it is (`bool`).
    Pass,
    /// A conversion through `Into`.
    Into,
}

/// How a value of the type named `ty` crosses between Rust and Slint, in
/// either direction.
pub fn slint_conversion(ty: &str) -> (r: SlintConversion)
    ensures
        is_numeric_type_name(ty@) ==> r is Cast,
        !is_numeric_type_name(ty@) && ty@ == "bool"@ ==> r is Pass,
        !is_numeric_type_name(ty@) && ty@ != "bool"@ ==> r is Into,
{
    if is_trivial_numeric(ty) {
        SlintConversion::Cast
    } else if str_eq(ty, "bool") {
        SlintConversion::Pass
    } else {
        SlintConversion::Into
    }
}

/// The base name of the binders generated for a bindings trait: the trait's
/// name with every `Ui`, then every `Bindings`, taken out.
pub open spec fn binder_base_of(trait_ident: Seq<char>) -> Seq<char> {
    replace_all(replace_all(trait_ident, "Ui"@, ""@), "Bindings"@, ""@)
}

/// Names of the complete and the partial binder generated for a bindings trait.
pub fn binder_names(trait_ident: &str) -> (r: (String, String))
    ensures
        r.0@ == binder_base_of(trait_ident@) + "Binder"@,
        r.1@ == binder_base_of(trait_ident@) + "PartialBinder"@,
{
    proof {
        reveal_strlit("Ui");
        reveal_strlit("Bindings");
    }
    let step = replace(trait_ident, "Ui", "");
    let base = replace(step.as_str(), "Bindings", "");
    (concat2(base.as_str(), "Binder"), concat2(base.as_str(), "PartialBinder"))
}

/// The bindings trait a binder refers to, as looked up in the contract
/// schema: `Ui<Base>Bindings`, where `<Base>` is the binder's name without a
/// trailing `Binder`.
pub open spec fn schema_trait_name_of(binder: Seq<char>) -> Seq<char> {
    "Ui"@ + strip_suffix_or_keep(binder, "Binder"@) + "Bindings"@
}

/// Name under which the bindings trait of `binder` is looked up in the schema.
pub fn schema_trait_name(binder: &str) -> (r: String)
    ensures
        r@ == schema_trait_name_of(binder@),
{
    let base = strip_suffix_or_copy(binder, "Binder");
    let mut r = String::from_str("Ui");
    r.append(base.as_str());
    r.append("Bindings");
    r
}

/// The bindings trait that ports wired by `binder` must implement:
/// `Ui<Base>Bindings` when the binder's name ends in `Binder`, else the
/// binder's own name.
pub open spec fn port_trait_name_of(binder: Seq<char>) -> Seq<char> {
    if is_suffix_of("Binder"@, binder) {
        schema_trait_name_of(binder)
    } else {
        binder
    }
}

/// Name of the bindings trait that ports wired by `binder` implement.
pub fn port_trait_name(binder: &str) -> (r: String)
    ensures
        r@ == port_trait_name_of(binder@),
{
    if ends_with(binder, "Binder") {
        schema_trait_name(binder)
    } else {
        String::from_str(binder)
    }
}

/// The partial binder paired with `binder`: every `Binder` in its name
/// becomes `PartialBinder`.
pub fn partial_binder_name(binder: &str) -> (r: String)
    ensures
        r@ == replace_all(binder@, "Binder"@, "PartialBinder"@),
{
    proof {
        reveal_strlit("Binder");
    }
    replace(binder, "Binder", "PartialBinder")
}

/// The base of the marker types generated for an actor type written
/// `self_ty`: spaces dropped, `<`, `>` and `::` turned into `_`.
pub open spec fn marker_base_of(self_ty: Seq<char>) -> Seq<char> {
    replace_all(
        replace_all(replace_all(replace_all(self_ty, " "@, ""@), "<"@, "_"@), ">"@, "_"@),
        "::"@,
        "_"@,
    )
}

/// Base name of the marker types generated for the actor type `self_ty`.
pub fn marker_base_name(self_ty: &str) -> (r: String)
    ensures
        r@ == marker_base_of(self_ty@),
{
    proof {
        reveal_strlit(" ");
        reveal_strlit("<");
        reveal_strlit(">");
        reveal_strlit("::");
    }
    let a = replace(self_ty, " ", "");
    let b = replace(a.as_str(), "<", "_");
    let c = replace(b.as_str(), ">", "_");
    replace(c.as_str(), "::", "_")
}


/// The last piece of `s` split at `sep` (non-empty), as `str::split` cuts
/// it: occurrences are found left to right without overlapping, and the
/// text after the last cut is the last piece. `start` is where the current
/// piece began, `i` where the scan stands.
pub open spec fn last_piece_from(s: Seq<char>, sep: Seq<char>, start: int, i: int) -> Seq<char>
    decreases s.len() - i,
{
    if i < 0 || i >= s.len() || sep.len() == 0 {
        s.subrange(start, s.len() as int)
    } else if occurs_at(s, i, sep) {
        last_piece_from(s, sep, i + sep.len(), i + sep.len())
    } else {
        last_piece_from(s, sep, start, i + 1)
    }
}

/// The last piece of `s` split at `sep`.
pub open spec fn last_piece(s: Seq<char>, sep: Seq<char>) -> Seq<char> {
    last_piece_from(s, sep, 0, 0)
}

/// The first piece of `s` split at the character `c`: all of `s` before its
/// first `c`, or all of `s`.
pub open spec fn first_piece(s: Seq<char>, c: char) -> Seq<char> {
    if exists|i: int| 0 <= i < s.len() && s[i] == c {
        s.take(choose|i: int| 0 <= i < s.len() && s[i] == c && forall|j: int| 0 <= j < i ==> s[j] != c)
    } else {
        s
    }
}

/// The last `::`-separated segment of the path `s`.
pub fn last_path_segment(s: &str) -> (r: String)
    ensures
        r@ == last_piece(s@, "::"@),
{
    proof {
        reveal_strlit("::");
    }
    let cs = chars_of(s);
    let sep = chars_of("::");
    let n = cs.len();
    let mut start: usize = 0;
    let mut i: usize = 0;
    while i < n
        invariant
            cs@ == s@,
            sep@ == "::"@,
            "::"@.len() == 2,
            n == s@.len(),
            start <= i <= n,
            last_piece(s@, "::"@) == last_piece_from(s@, "::"@, start as int, i as int),
        decreases n - i,
    {
        if matches_at(&cs, i, &sep) {
            start = i + 2;
            i = i + 2;
        } else {
            i = i + 1;
        }
    }
    let piece = s.substring_char(start, n);
    String::from_str(piece)
}

/// `s` up to its first `<`: a type's name without its generic arguments.
pub fn before_generics(s: &str) -> (r: String)
    ensures
        r@ == first_piece(s@, '<'),
{
    let cs = chars_of(s);
    let n = cs.len();
    let mut i: usize = 0;
    while i < n && cs[i] != '<'
        invariant
            cs@ == s@,
            n == s@.len(),
            i <= n,
            forall|j: int| 0 <= j < i ==> s@[j] != '<',
        decreases n - i,
    {
        i = i + 1;
    }
    proof {
        if i < n {
            let k = choose|k: int| 0 <= k < s@.len() && s@[k] == '<' && forall|j: int| 0 <= j < k ==> s@[j] != '<';
            if k < i {
            } else if k > i {
                assert(s@[i as int] == '<');
            }
        }
    }
    let piece = s.substring_char(0, i);
    assert(piece@ =~= first_piece(s@, '<'));
    String::from_str(piece)
}

/// Short display name of a type from its full name: the name
/// without generic arguments, without its module path.
pub fn short_type_name(full_name: &str) -> (r: String)
    ensures
        r@ == last_piece(first_piece(full_name@, '<'), "::"@),
{
    let base = before_generics(full_name);
    last_path_segment(base.as_str())
}

/// A `#[window_feature]` trait impl gets a generated `uninstall` unless it
/// writes one itself.
pub fn needs_generated_uninstall(is_trait_impl: bool, method_names: &Vec<String>) -> (r: bool)
    ensures
        r == (is_trait_impl && !crate::text::views(method_names@).contains("uninstall"@)),
{
    if !is_trait_impl {
        return false;
    }
    match crate::text::position_of(method_names, "uninstall") {
        Some(k) => {
            assert(crate::text::views(method_names@)[k as int] == "uninstall"@);
            false
        },
        None => {
            assert forall|j: int| 0 <= j < crate::text::views(method_names@).len() implies crate::text::views(method_names@)[j] != "uninstall"@ by {
                assert(crate::text::views(method_names@)[j] == method_names@[j]@);
            }
            true
        },
    }
}

/// The feature of the bindings trait `Ui<X>Bindings` is `X`: the `Ui`
/// before it and the `Bindings` after it are taken off, and nothing else.
pub proof fn law_feature_name_strips_ui_and_bindings(x: Seq<char>)
    ensures
        feature_name_of("Ui"@ + x + "Bindings"@) == x,
{
    reveal_strlit("Ui");
    reveal_strlit("Bindings");
    let full = "Ui"@ + x + "Bindings"@;
    assert(full.subrange(full.len() - 8, full.len() as int) =~= "Bindings"@);
    let inner = full.take(full.len() - 8);
    assert(inner =~= "Ui"@ + x);
    assert(inner.subrange(0, 2) =~= "Ui"@);
    assert(inner.skip(2) =~= x);
}

} // verus!
