//! Parsing a manifest's token trees into its entries.
//!
//! A manifest is a comma-separated list of entries, a trailing comma
//! allowed. Each entry starts with its outer attributes, then is one of:
//! - `bind { .. }`: a group whose entries are read the same way and are all
//!   bound;
//! - `@Type`: a reference to an existing type;
//! - `struct ..` or `pub struct ..`: a message struct, as written;
//! - an optional visibility, then `Name(..)` or `Name { .. }`: a message
//!   struct with those fields;
//! - an optional visibility, then a type: a unit message named by it when
//!   new messages are asked for and the type is a single identifier, else a
//!   reference to an existing type.
//! Where a type, a struct, its fields or an attribute end, and whether they
//! are well formed, is Rust's own syntax, which `syn` reads; the rest of the
//! grammar is this module's.

use vstd::prelude::*;
use syn::parse::Parser;
use crate::text::str_eq;
use crate::codegen::manifest::{ManifestAttr, ManifestEntry, ManifestItemForm, ManifestItemKind};

verus! {

/// The delimiter of a token group.
#[derive(PartialEq, Eq, Structural)]
pub enum Delim {
    Paren,
    Brace,
    Bracket,
    /// A group without visible delimiters.
    Invisible,
}

/// A token tree of a macro's input.
pub enum MTok {
    /// An identifier (keywords included), as written.
    Ident(String),
    /// A punctuation character; `joint` when it is glued to the next token.
    Punct { text: String, joint: bool },
    /// A literal, as written.
    Literal(String),
    /// A delimited group of token trees.
    Group { delim: Delim, inner: Vec<MTok> },
}

/// The token trees inside `t` when it is a group.
pub open spec fn toks(t: MTok) -> Seq<MTok> {
    match t {
        MTok::Group { inner, .. } => inner@,
        _ => Seq::empty(),
    }
}

/// Number of token trees inside `t`.
pub open spec fn tok_count(t: MTok) -> int {
    toks(t).len() as int
}

pub open spec fn open_text(d: Delim) -> Seq<char> {
    match d {
        Delim::Paren => "("@,
        Delim::Brace => "{"@,
        Delim::Bracket => "["@,
        Delim::Invisible => Seq::empty(),
    }
}

pub open spec fn close_text(d: Delim) -> Seq<char> {
    match d {
        Delim::Paren => ")"@,
        Delim::Brace => "}"@,
        Delim::Bracket => "]"@,
        Delim::Invisible => Seq::empty(),
    }
}

/// Source text of the token trees `a..b` inside `t`: each token followed by
/// a space, but for punctuation glued to the next token.
pub open spec fn seq_text(t: MTok, a: int, b: int) -> Seq<char>
    decreases t, b - a,
{
    if 0 <= a < b && b <= tok_count(t) {
        let x = toks(t)[b - 1];
        let piece = match x {
            MTok::Ident(s) => s@ + " "@,
            MTok::Punct { text, joint } => if joint {
                text@
            } else {
                text@ + " "@
            },
            MTok::Literal(s) => s@ + " "@,
            MTok::Group { delim, .. } => {
                proof {
                    if let MTok::Group { inner, .. } = t {
                        assert(decreases_to!(t => inner));
                        assert(decreases_to!(inner => inner@));
                        assert(decreases_to!(inner@ => inner@[b - 1]));
                    }
                }
                open_text(delim) + seq_text(x, 0, tok_count(x)) + close_text(delim) + " "@
            },
        };
        seq_text(t, a, b - 1) + piece
    } else {
        Seq::empty()
    }
}

/// Source text of the token trees `a..b` inside `t`.
pub fn group_text(t: &MTok, a: usize, b: usize) -> (r: String)
    requires
        a <= b <= tok_count(*t),
    ensures
        r@ == seq_text(*t, a as int, b as int),
    decreases t,
{
    proof {
        reveal_strlit(" ");
        reveal_strlit("(");
        reveal_strlit(")");
        reveal_strlit("{");
        reveal_strlit("}");
        reveal_strlit("[");
        reveal_strlit("]");
    }
    match t {
        MTok::Group { delim: outer_delim, inner } => {
            let mut r = String::new();
            let mut k = a;
            while k < b
                invariant
                    a <= k <= b,
                    b <= inner@.len(),
                    *t == (MTok::Group { delim: *outer_delim, inner: *inner }),
                    r@ == seq_text(*t, a as int, k as int),
                decreases b - k,
            {
                match &inner[k] {
                    MTok::Ident(s) => {
                        r.append(s.as_str());
                        r.append(" ");
                    },
                    MTok::Punct { text, joint } => {
                        r.append(text.as_str());
                        if !*joint {
                            r.append(" ");
                        }
                    },
                    MTok::Literal(s) => {
                        r.append(s.as_str());
                        r.append(" ");
                    },
                    MTok::Group { delim, inner: sub } => {
                        proof {
                            assert(decreases_to!(*t => *inner));
                            assert(decreases_to!(*inner => inner@));
                            assert(decreases_to!(inner@ => inner@[k as int]));
                        }
                        let body = group_text(&inner[k], 0, sub.len());
                        match delim {
                            Delim::Paren => r.append("("),
                            Delim::Brace => r.append("{"),
                            Delim::Bracket => r.append("["),
                            Delim::Invisible => {},
                        }
                        r.append(body.as_str());
                        match delim {
                            Delim::Paren => r.append(")"),
                            Delim::Brace => r.append("}"),
                            Delim::Bracket => r.append("]"),
                            Delim::Invisible => {},
                        }
                        r.append(" ");
                    },
                }
                k = k + 1;
            }
            r
        },
        _ => String::new(),
    }
}

/// How many outer attributes `syn` reads from `text` (`Attribute::parse_outer`
/// through `Parser::parse_str`), or `None` when it refuses the text.
pub uninterp spec fn syn_outer_attr_count(text: Seq<char>) -> Option<usize>;

/// Whether `syn` reads `text` as a type (`syn::parse_str::<syn::Type>`).
pub uninterp spec fn syn_type_parses(text: Seq<char>) -> bool;

/// The name and field count of the struct item `syn` reads from `text`
/// (`syn::parse_str::<syn::ItemStruct>`), or `None` when it refuses it.
pub uninterp spec fn syn_struct_item(text: Seq<char>) -> Option<(Seq<char>, usize)>;

/// The number of fields of the tuple fields `( .. )` `syn` reads from `text`
/// (`syn::parse_str::<syn::FieldsUnnamed>`), or `None` when it refuses them.
pub uninterp spec fn syn_unnamed_fields(text: Seq<char>) -> Option<usize>;

/// The number of fields of the named fields `{ .. }` `syn` reads from `text`
/// (`syn::parse_str::<syn::FieldsNamed>`), or `None` when it refuses them.
pub uninterp spec fn syn_named_fields(text: Seq<char>) -> Option<usize>;

/// Calls `syn::Attribute::parse_outer` through `Parser::parse_str` on
/// `text`. Claimed: the count of attributes read depends on the text alone.
#[verifier::external_body]
fn outer_attr_count(text: &str) -> (r: Option<usize>)
    ensures
        r == syn_outer_attr_count(text@),
{
    match syn::Attribute::parse_outer.parse_str(text) {
        Ok(attrs) => Some(attrs.len()),
        Err(_) => None,
    }
}

/// Calls `syn::parse_str::<syn::Type>`. Claimed: whether the text is a type
/// depends on the text alone.
#[verifier::external_body]
fn type_parses(text: &str) -> (r: bool)
    ensures
        r == syn_type_parses(text@),
{
    syn::parse_str::<syn::Type>(text).is_ok()
}

/// Calls `syn::parse_str::<syn::ItemStruct>`. Claimed: the struct's name and
/// field count depend on the text alone.
#[verifier::external_body]
fn struct_item(text: &str) -> (r: Option<(String, usize)>)
    ensures
        match r {
            Some((name, n)) => syn_struct_item(text@) == Some((name@, n)),
            None => syn_struct_item(text@) is None,
        },
{
    match syn::parse_str::<syn::ItemStruct>(text) {
        Ok(item) => Some((item.ident.to_string(), item.fields.len())),
        Err(_) => None,
    }
}

/// Calls `syn::parse_str::<syn::FieldsUnnamed>`. Claimed: the field count
/// depends on the text alone.
#[verifier::external_body]
fn unnamed_fields(text: &str) -> (r: Option<usize>)
    ensures
        r == syn_unnamed_fields(text@),
{
    match syn::parse_str::<syn::FieldsUnnamed>(text) {
        Ok(fields) => Some(fields.unnamed.len()),
        Err(_) => None,
    }
}

/// Calls `syn::parse_str::<syn::FieldsNamed>`. Claimed: the field count
/// depends on the text alone.
#[verifier::external_body]
fn named_fields(text: &str) -> (r: Option<usize>)
    ensures
        r == syn_named_fields(text@),
{
    match syn::parse_str::<syn::FieldsNamed>(text) {
        Ok(fields) => Some(fields.named.len()),
        Err(_) => None,
    }
}

/// `x` is the punctuation `p`.
pub open spec fn is_punct(x: MTok, p: Seq<char>) -> bool {
    x matches MTok::Punct { text, .. } && text@ == p
}

/// `x` is the identifier `s`.
pub open spec fn is_ident(x: MTok, s: Seq<char>) -> bool {
    x matches MTok::Ident(n) && n@ == s
}

/// `x` is a group delimited by `d`.
pub open spec fn is_group(x: MTok, d: Delim) -> bool {
    x matches MTok::Group { delim, .. } && delim == d
}

fn tok_is_punct(x: &MTok, p: &str) -> (r: bool)
    ensures
        r == is_punct(*x, p@),
{
    match x {
        MTok::Punct { text, .. } => str_eq(text.as_str(), p),
        _ => false,
    }
}

fn tok_is_ident(x: &MTok, s: &str) -> (r: bool)
    ensures
        r == is_ident(*x, s@),
{
    match x {
        MTok::Ident(n) => str_eq(n.as_str(), s),
        _ => false,
    }
}

fn tok_is_group(x: &MTok, d: Delim) -> (r: bool)
    ensures
        r == is_group(*x, d),
{
    match x {
        MTok::Group { delim, .. } => *delim == d,
        _ => false,
    }
}

/// Words that `syn` does not take as an identifier.
pub open spec fn is_keyword(s: Seq<char>) -> bool {
    ||| s == "_"@ ||| s == "abstract"@ ||| s == "as"@ ||| s == "async"@ ||| s == "await"@
    ||| s == "become"@ ||| s == "box"@ ||| s == "break"@ ||| s == "const"@ ||| s == "continue"@
    ||| s == "crate"@ ||| s == "do"@ ||| s == "dyn"@ ||| s == "else"@ ||| s == "enum"@
    ||| s == "extern"@ ||| s == "false"@ ||| s == "final"@ ||| s == "fn"@ ||| s == "for"@
    ||| s == "if"@ ||| s == "impl"@ ||| s == "in"@ ||| s == "let"@ ||| s == "loop"@
    ||| s == "macro"@ ||| s == "match"@ ||| s == "mod"@ ||| s == "move"@ ||| s == "mut"@
    ||| s == "override"@ ||| s == "priv"@ ||| s == "pub"@ ||| s == "ref"@ ||| s == "return"@
    ||| s == "Self"@ ||| s == "self"@ ||| s == "static"@ ||| s == "struct"@ ||| s == "super"@
    ||| s == "trait"@ ||| s == "true"@ ||| s == "try"@ ||| s == "type"@ ||| s == "typeof"@
    ||| s == "unsafe"@ ||| s == "unsized"@ ||| s == "use"@ ||| s == "virtual"@ ||| s == "where"@
    ||| s == "while"@ ||| s == "yield"@
}

fn keyword(s: &str) -> (r: bool)
    ensures
        r == is_keyword(s@),
{
    str_eq(s, "_") || str_eq(s, "abstract") || str_eq(s, "as") || str_eq(s, "async") || str_eq(s, "await")
        || str_eq(s, "become") || str_eq(s, "box") || str_eq(s, "break") || str_eq(s, "const")
        || str_eq(s, "continue") || str_eq(s, "crate") || str_eq(s, "do") || str_eq(s, "dyn")
        || str_eq(s, "else") || str_eq(s, "enum") || str_eq(s, "extern") || str_eq(s, "false")
        || str_eq(s, "final") || str_eq(s, "fn") || str_eq(s, "for") || str_eq(s, "if")
        || str_eq(s, "impl") || str_eq(s, "in") || str_eq(s, "let") || str_eq(s, "loop")
        || str_eq(s, "macro") || str_eq(s, "match") || str_eq(s, "mod") || str_eq(s, "move")
        || str_eq(s, "mut") || str_eq(s, "override") || str_eq(s, "priv") || str_eq(s, "pub")
        || str_eq(s, "ref") || str_eq(s, "return") || str_eq(s, "Self") || str_eq(s, "self")
        || str_eq(s, "static") || str_eq(s, "struct") || str_eq(s, "super") || str_eq(s, "trait")
        || str_eq(s, "true") || str_eq(s, "try") || str_eq(s, "type") || str_eq(s, "typeof")
        || str_eq(s, "unsafe") || str_eq(s, "unsized") || str_eq(s, "use") || str_eq(s, "virtual")
        || str_eq(s, "where") || str_eq(s, "while") || str_eq(s, "yield")
}

/// An attribute as the manifest reads it.
pub enum AttrView {
    Bind { manual: bool },
    Other(Seq<char>),
}

pub open spec fn attr_view(a: ManifestAttr) -> AttrView {
    match a {
        ManifestAttr::Bind { manual } => AttrView::Bind { manual },
        ManifestAttr::Other(s) => AttrView::Other(s@),
    }
}

/// The attribute whose bracket group is `g` and whose text is `text`: its
/// path is exactly `bind` (`#[bind]`, `#[bind(..)]`, `#[bind = ..]`), and it
/// is manual when its list holds exactly the identifier `manual`.
pub open spec fn attr_of(g: MTok, text: Seq<char>) -> AttrView {
    let c = toks(g);
    if c.len() >= 1 && is_ident(c[0], "bind"@) && !(c.len() > 1 && is_punct(c[1], ":"@)) {
        AttrView::Bind {
            manual: c.len() == 2 && c[1] is Group && toks(c[1]).len() == 1 && is_ident(toks(c[1])[0], "manual"@),
        }
    } else {
        AttrView::Other(text)
    }
}

/// The outer attributes from position `i` of `t` on, and where they end;
/// `None` when a `#` does not start an attribute `syn` reads.
pub open spec fn parse_attrs(t: MTok, i: int) -> Option<(Seq<AttrView>, int)>
    decreases tok_count(t) - i,
{
    if 0 <= i < tok_count(t) && is_punct(toks(t)[i], "#"@) {
        if i + 1 < tok_count(t) && is_group(toks(t)[i + 1], Delim::Bracket) && syn_outer_attr_count(
            seq_text(t, i, i + 2),
        ) == Some(1usize) {
            match parse_attrs(t, i + 2) {
                Some((rest, e)) => Some((seq![attr_of(toks(t)[i + 1], seq_text(t, i, i + 2))] + rest, e)),
                None => None,
            }
        } else {
            None
        }
    } else {
        Some((Seq::empty(), i))
    }
}

/// The first position `k`, from `k` on, at which the tokens `a..k` of `t`
/// form a type and are followed by a comma or the end (searched from
/// `a + 1`: a type is at least one token).
pub open spec fn type_end_from(t: MTok, a: int, k: int) -> Option<int>
    decreases tok_count(t) + 1 - k,
{
    if k < a || k > tok_count(t) {
        None
    } else if (k == tok_count(t) || is_punct(toks(t)[k], ","@)) && syn_type_parses(seq_text(t, a, k)) {
        Some(k)
    } else if k == tok_count(t) {
        None
    } else {
        type_end_from(t, a, k + 1)
    }
}

/// The first position `k`, from `k` on, at which the tokens `a..k` of `t`
/// form a struct item and are followed by a comma or the end (searched from
/// `a + 1`).
pub open spec fn struct_end_from(t: MTok, a: int, k: int) -> Option<int>
    decreases tok_count(t) + 1 - k,
{
    if k < a || k > tok_count(t) {
        None
    } else if (k == tok_count(t) || is_punct(toks(t)[k], ","@)) && syn_struct_item(seq_text(t, a, k)) is Some {
        Some(k)
    } else if k == tok_count(t) {
        None
    } else {
        struct_end_from(t, a, k + 1)
    }
}

/// A visibility's restriction group: `(crate)`, `(self)`, `(super)` or
/// `(in ..)`.
pub open spec fn is_restriction(c: Seq<MTok>) -> bool {
    ||| c.len() == 1 && (is_ident(c[0], "crate"@) || is_ident(c[0], "self"@) || is_ident(c[0], "super"@))
    ||| c.len() >= 1 && is_ident(c[0], "in"@)
}

/// Where the visibility starting at position `j` of `t` ends (`j` when
/// there is none).
pub open spec fn vis_end(t: MTok, j: int) -> int {
    if 0 <= j < tok_count(t) && is_ident(toks(t)[j], "pub"@) {
        if j + 1 < tok_count(t) && is_group(toks(t)[j + 1], Delim::Paren) && is_restriction(toks(toks(t)[j + 1])) {
            j + 2
        } else {
            j + 1
        }
    } else {
        j
    }
}

pub proof fn lemma_attrs_end(t: MTok, i: int)
    requires
        0 <= i <= tok_count(t),
    ensures
        parse_attrs(t, i) matches Some((_, e)) ==> i <= e <= tok_count(t),
    decreases tok_count(t) - i,
{
    if 0 <= i < tok_count(t) && is_punct(toks(t)[i], "#"@) && i + 1 < tok_count(t) {
        lemma_attrs_end(t, i + 2);
    }
}

pub proof fn lemma_end_from_bounds(t: MTok, a: int, k: int)
    requires
        0 <= a <= k,
    ensures
        type_end_from(t, a, k) matches Some(e) ==> k <= e <= tok_count(t),
        struct_end_from(t, a, k) matches Some(e) ==> k <= e <= tok_count(t),
    decreases tok_count(t) + 1 - k,
{
    if k < tok_count(t) {
        lemma_end_from_bounds(t, a, k + 1);
    }
}

/// The attribute whose bracket group is `g`, written `text`.
fn read_attr(g: &MTok, text: String) -> (r: ManifestAttr)
    ensures
        attr_view(r) == attr_of(*g, text@),
{
    match g {
        MTok::Group { inner: c, .. } => {
            if c.len() >= 1 && tok_is_ident(&c[0], "bind") && !(c.len() > 1 && tok_is_punct(&c[1], ":")) {
                let manual = if c.len() == 2 {
                    match &c[1] {
                        MTok::Group { inner: list, .. } => list.len() == 1 && tok_is_ident(&list[0], "manual"),
                        _ => false,
                    }
                } else {
                    false
                };
                ManifestAttr::Bind { manual }
            } else {
                ManifestAttr::Other(text)
            }
        },
        _ => ManifestAttr::Other(text),
    }
}

/// The outer attributes from position `i` of `t` on, and where they end.
fn read_attrs(t: &MTok, i: usize) -> (r: Option<(Vec<ManifestAttr>, usize)>)
    requires
        i <= tok_count(*t),
    ensures
        match r {
            Some((v, e)) => parse_attrs(*t, i as int) == Some((v@.map_values(|a: ManifestAttr| attr_view(a)), e as int)),
            None => parse_attrs(*t, i as int) is None,
        },
    decreases tok_count(*t) - i,
{
    proof {
        reveal_strlit("#");
    }
    match t {
        MTok::Group { inner, .. } => {
            if i < inner.len() && tok_is_punct(&inner[i], "#") {
                if i + 1 < inner.len() && tok_is_group(&inner[i + 1], Delim::Bracket) {
                    let text = group_text(t, i, i + 2);
                    let count = outer_attr_count(text.as_str());
                    if count == Some(1usize) {
                        let attr = read_attr(&inner[i + 1], text);
                        match read_attrs(t, i + 2) {
                            Some((rest, e)) => {
                                let mut v: Vec<ManifestAttr> = Vec::new();
                                v.push(attr);
                                let ghost rv = rest@;
                                let mut rest = rest;
                                v.append(&mut rest);
                                assert(v@.map_values(|a: ManifestAttr| attr_view(a)) =~= seq![attr_view(attr)]
                                    + rv.map_values(|a: ManifestAttr| attr_view(a)));
                                Some((v, e))
                            },
                            None => None,
                        }
                    } else {
                        None
                    }
                } else {
                    None
                }
            } else {
                Some((Vec::new(), i))
            }
        },
        _ => Some((Vec::new(), i)),
    }
}

/// Where the type starting at position `a` of `t` ends.
fn type_end(t: &MTok, a: usize) -> (r: Option<usize>)
    requires
        a <= tok_count(*t),
    ensures
        match r {
            Some(e) => type_end_from(*t, a as int, a + 1) == Some(e as int),
            None => type_end_from(*t, a as int, a + 1) is None,
        },
{
    proof {
        reveal_strlit(",");
    }
    let n: usize = match t {
        MTok::Group { inner, .. } => inner.len(),
        _ => 0,
    };
    if a >= n {
        return None;
    }
    let mut k = a + 1;
    while k <= n
        invariant
            a < k,
            n == tok_count(*t),
            type_end_from(*t, a as int, a + 1) == type_end_from(*t, a as int, k as int),
        decreases n + 1 - k,
    {
        let sep = k == n || match t {
            MTok::Group { inner, .. } => tok_is_punct(&inner[k], ","),
            _ => false,
        };
        if sep {
            let text = group_text(t, a, k);
            if type_parses(text.as_str()) {
                return Some(k);
            }
        }
        if k == n {
            return None;
        }
        k = k + 1;
    }
    None
}

/// Where the struct item starting at position `a` of `t` ends, with its
/// name and field count.
fn struct_end(t: &MTok, a: usize) -> (r: Option<(usize, String, usize)>)
    requires
        a <= tok_count(*t),
    ensures
        match r {
            Some((e, name, n)) => struct_end_from(*t, a as int, a + 1) == Some(e as int) && syn_struct_item(
                seq_text(*t, a as int, e as int),
            ) == Some((name@, n)),
            None => struct_end_from(*t, a as int, a + 1) is None,
        },
{
    proof {
        reveal_strlit(",");
    }
    let n: usize = match t {
        MTok::Group { inner, .. } => inner.len(),
        _ => 0,
    };
    if a >= n {
        return None;
    }
    let mut k = a + 1;
    while k <= n
        invariant
            a < k,
            n == tok_count(*t),
            struct_end_from(*t, a as int, a + 1) == struct_end_from(*t, a as int, k as int),
        decreases n + 1 - k,
    {
        let sep = k == n || match t {
            MTok::Group { inner, .. } => tok_is_punct(&inner[k], ","),
            _ => false,
        };
        if sep {
            let text = group_text(t, a, k);
            match struct_item(text.as_str()) {
                Some((name, fields)) => {
                    return Some((k, name, fields));
                },
                None => {},
            }
        }
        if k == n {
            return None;
        }
        k = k + 1;
    }
    None
}

/// Where the visibility starting at position `j` of `t` ends.
fn read_vis(t: &MTok, j: usize) -> (r: usize)
    requires
        j <= tok_count(*t),
    ensures
        r == vis_end(*t, j as int),
{
    match t {
        MTok::Group { inner, .. } => {
            if j < inner.len() && tok_is_ident(&inner[j], "pub") {
                if j + 1 < inner.len() && tok_is_group(&inner[j + 1], Delim::Paren) {
                    let restricted = match &inner[j + 1] {
                        MTok::Group { inner: c, .. } => (c.len() == 1 && (tok_is_ident(&c[0], "crate") || tok_is_ident(
                            &c[0],
                            "self",
                        ) || tok_is_ident(&c[0], "super"))) || (c.len() >= 1 && tok_is_ident(&c[0], "in")),
                        _ => false,
                    };
                    if restricted {
                        j + 2
                    } else {
                        j + 1
                    }
                } else {
                    j + 1
                }
            } else {
                j
            }
        },
        _ => j,
    }
}

/// What an entry is, by value.
pub enum KindView {
    New { name: Seq<char>, arity: usize },
    Existing,
}

/// A parsed manifest entry, by value.
pub struct EntryView {
    pub in_group: bool,
    pub attrs: Seq<AttrView>,
    pub kind: KindView,
    pub form: ManifestItemForm,
    pub text: Seq<char>,
}

/// A manifest entry as parsed: what the plan needs, its form, and its source
/// text: the type for a reference, the struct item for a declared struct,
/// the fields group for a struct declared from a name and fields (to be made
/// public), the name for a unit message.
pub struct ParsedEntry {
    pub entry: ManifestEntry,
    pub form: ManifestItemForm,
    pub text: String,
}

pub open spec fn entry_view(p: ParsedEntry) -> EntryView {
    EntryView {
        in_group: p.entry.in_bind_group,
        attrs: p.entry.attrs@.map_values(|a: ManifestAttr| attr_view(a)),
        kind: match p.entry.kind {
            ManifestItemKind::New { name, arity } => KindView::New { name: name@, arity },
            ManifestItemKind::Existing => KindView::Existing,
        },
        form: p.form,
        text: p.text@,
    }
}

pub open spec fn entries_view(v: Seq<ParsedEntry>) -> Seq<EntryView> {
    v.map_values(|p: ParsedEntry| entry_view(p))
}

/// The entry read from the tokens after its attributes, at position `j` of
/// `t` (not a `bind` group), and where it ends.
pub open spec fn parse_single(t: MTok, j: int, force_new: bool, in_group: bool, attrs: Seq<AttrView>) -> Option<
    (EntryView, int),
> {
    let s = toks(t);
    let n = tok_count(t);
    if j < n && is_punct(s[j], "@"@) {
        match type_end_from(t, j + 1, j + 2) {
            Some(e) => Some(
                (
                    EntryView {
                        in_group,
                        attrs,
                        kind: KindView::Existing,
                        form: ManifestItemForm::Existing,
                        text: seq_text(t, j + 1, e),
                    },
                    e,
                ),
            ),
            None => None,
        }
    } else if j < n && (is_ident(s[j], "struct"@) || (j + 1 < n && is_ident(s[j], "pub"@) && is_ident(
        s[j + 1],
        "struct"@,
    ))) {
        match struct_end_from(t, j, j + 1) {
            Some(e) => {
                let (name, arity) = syn_struct_item(seq_text(t, j, e))->0;
                Some(
                    (
                        EntryView {
                            in_group,
                            attrs,
                            kind: KindView::New { name, arity },
                            form: ManifestItemForm::DeclaredStruct,
                            text: seq_text(t, j, e),
                        },
                        e,
                    ),
                )
            },
            None => None,
        }
    } else {
        let v = vis_end(t, j);
        if v + 1 < n && s[v] is Ident && !is_keyword(s[v]->Ident_0@) && (is_group(s[v + 1], Delim::Paren)
            || is_group(s[v + 1], Delim::Brace)) {
            let fields = seq_text(t, v + 1, v + 2);
            let count = if is_group(s[v + 1], Delim::Paren) {
                syn_unnamed_fields(fields)
            } else {
                syn_named_fields(fields)
            };
            match count {
                Some(c) => Some(
                    (
                        EntryView {
                            in_group,
                            attrs,
                            kind: KindView::New { name: s[v]->Ident_0@, arity: c },
                            form: ManifestItemForm::NewWithFields,
                            text: fields,
                        },
                        v + 2,
                    ),
                ),
                None => None,
            }
        } else {
            match type_end_from(t, v, v + 1) {
                Some(e) => if force_new && e == v + 1 && s[v] is Ident && s[v]->Ident_0@ != "_"@ {
                    Some(
                        (
                            EntryView {
                                in_group,
                                attrs,
                                kind: KindView::New { name: s[v]->Ident_0@, arity: 0 },
                                form: ManifestItemForm::NewUnit,
                                text: s[v]->Ident_0@,
                            },
                            e,
                        ),
                    )
                } else {
                    Some(
                        (
                            EntryView {
                                in_group,
                                attrs,
                                kind: KindView::Existing,
                                form: ManifestItemForm::Existing,
                                text: seq_text(t, v, e),
                            },
                            e,
                        ),
                    )
                },
                None => None,
            }
        }
    }
}

pub proof fn lemma_single_end(t: MTok, j: int, force_new: bool, in_group: bool, attrs: Seq<AttrView>)
    requires
        0 <= j <= tok_count(t),
    ensures
        parse_single(t, j, force_new, in_group, attrs) matches Some((_, e)) ==> j < e <= tok_count(t),
{
    lemma_end_from_bounds(t, j + 1, j + 2);
    lemma_end_from_bounds(t, j, j + 1);
    let v = vis_end(t, j);
    lemma_end_from_bounds(t, v, v + 1);
}

/// Reads the entry after its attributes `attrs`, at position `j` of `t`
/// (not a `bind` group).
fn read_single(t: &MTok, j: usize, force_new: bool, in_group: bool, attrs: Vec<ManifestAttr>) -> (r: Option<
    (ParsedEntry, usize),
>)
    requires
        j <= tok_count(*t),
    ensures
        match r {
            Some((p, e)) => parse_single(
                *t,
                j as int,
                force_new,
                in_group,
                attrs@.map_values(|a: ManifestAttr| attr_view(a)),
            ) == Some((entry_view(p), e as int)),
            None => parse_single(
                *t,
                j as int,
                force_new,
                in_group,
                attrs@.map_values(|a: ManifestAttr| attr_view(a)),
            ) is None,
        },
{
    proof {
        reveal_strlit("@");
        reveal_strlit("_");
    }
    let n: usize = match t {
        MTok::Group { inner, .. } => inner.len(),
        _ => 0,
    };
    let empty: Vec<MTok> = Vec::new();
    let s: &Vec<MTok> = match t {
        MTok::Group { inner, .. } => inner,
        _ => &empty,
    };
    assert(s@ == toks(*t));
    proof {
        lemma_end_from_bounds(*t, j + 1, j + 2);
        lemma_end_from_bounds(*t, j as int, j + 1);
    }
    if j < n && tok_is_punct(&s[j], "@") {
        match type_end(t, j + 1) {
            Some(e) => {
                let text = group_text(t, j + 1, e);
                let entry = ManifestEntry { in_bind_group: in_group, attrs, kind: ManifestItemKind::Existing };
                return Some((ParsedEntry { entry, form: ManifestItemForm::Existing, text }, e));
            },
            None => {
                return None;
            },
        }
    }
    if j < n && (tok_is_ident(&s[j], "struct") || (j + 1 < n && tok_is_ident(&s[j], "pub") && tok_is_ident(
        &s[j + 1],
        "struct",
    ))) {
        match struct_end(t, j) {
            Some((e, name, arity)) => {
                let text = group_text(t, j, e);
                let entry = ManifestEntry {
                    in_bind_group: in_group,
                    attrs,
                    kind: ManifestItemKind::New { name, arity },
                };
                return Some((ParsedEntry { entry, form: ManifestItemForm::DeclaredStruct, text }, e));
            },
            None => {
                return None;
            },
        }
    }
    let v = read_vis(t, j);
    proof {
        lemma_end_from_bounds(*t, v as int, v + 1);
    }
    if v < n && v + 1 < n {
        match &s[v] {
            MTok::Ident(name) => {
                if !keyword(name.as_str()) && (tok_is_group(&s[v + 1], Delim::Paren) || tok_is_group(
                    &s[v + 1],
                    Delim::Brace,
                )) {
                    let fields = group_text(t, v + 1, v + 2);
                    let count = if tok_is_group(&s[v + 1], Delim::Paren) {
                        unnamed_fields(fields.as_str())
                    } else {
                        named_fields(fields.as_str())
                    };
                    match count {
                        Some(c) => {
                            let entry = ManifestEntry {
                                in_bind_group: in_group,
                                attrs,
                                kind: ManifestItemKind::New { name: name.clone(), arity: c },
                            };
                            return Some(
                                (ParsedEntry { entry, form: ManifestItemForm::NewWithFields, text: fields }, v + 2),
                            );
                        },
                        None => {
                            return None;
                        },
                    }
                }
            },
            _ => {},
        }
    }
    match type_end(t, v) {
        Some(e) => {
            if force_new && e == v + 1 {
                match &s[v] {
                    MTok::Ident(name) => {
                        if !str_eq(name.as_str(), "_") {
                            let entry = ManifestEntry {
                                in_bind_group: in_group,
                                attrs,
                                kind: ManifestItemKind::New { name: name.clone(), arity: 0 },
                            };
                            return Some(
                                (ParsedEntry { entry, form: ManifestItemForm::NewUnit, text: name.clone() }, e),
                            );
                        }
                    },
                    _ => {},
                }
            }
            let text = group_text(t, v, e);
            let entry = ManifestEntry { in_bind_group: in_group, attrs, kind: ManifestItemKind::Existing };
            Some((ParsedEntry { entry, form: ManifestItemForm::Existing, text }, e))
        },
        None => None,
    }
}

/// The entries of the manifest tokens inside `t` from position `i` on;
/// `None` when they do not follow the grammar. `in_group` marks entries read
/// inside a `bind` group.
pub open spec fn parse_list(t: MTok, i: int, force_new: bool, in_group: bool) -> Option<Seq<EntryView>>
    decreases t, tok_count(t) - i,
{
    if i < 0 || i >= tok_count(t) {
        Some(Seq::empty())
    } else {
        let s = toks(t);
        let n = tok_count(t);
        match parse_attrs(t, i) {
            None => None,
            Some((attrs, j)) => {
                proof {
                    lemma_attrs_end(t, i);
                    lemma_single_end(t, j, force_new, in_group, attrs);
                }
                let item: Option<(Seq<EntryView>, int)> = if j + 1 < n && is_ident(s[j], "bind"@) && is_group(
                    s[j + 1],
                    Delim::Brace,
                ) {
                    proof {
                        if let MTok::Group { inner, .. } = t {
                            assert(decreases_to!(t => inner));
                            assert(decreases_to!(inner => inner@));
                            assert(decreases_to!(inner@ => inner@[j + 1]));
                        }
                    }
                    match parse_list(s[j + 1], 0, force_new, true) {
                        Some(es) => Some((es, j + 2)),
                        None => None,
                    }
                } else {
                    match parse_single(t, j, force_new, in_group, attrs) {
                        Some((e, k)) => Some((seq![e], k)),
                        None => None,
                    }
                };
                match item {
                    None => None,
                    Some((es, e)) => if e >= n {
                        Some(es)
                    } else if is_punct(s[e], ","@) {
                        match parse_list(t, e + 1, force_new, in_group) {
                            Some(rest) => Some(es + rest),
                            None => None,
                        }
                    } else {
                        None
                    },
                }
            },
        }
    }
}

/// The entries of the manifest whose tokens are inside the group `manifest`
/// (the macro's input); `force_new` for a handlers manifest.
pub open spec fn manifest_grammar(manifest: MTok, force_new: bool) -> Option<Seq<EntryView>> {
    parse_list(manifest, 0, force_new, false)
}

#[verifier::rlimit(50)]
fn read_list(t: &MTok, i: usize, force_new: bool, in_group: bool) -> (r: Option<Vec<ParsedEntry>>)
    requires
        i <= tok_count(*t),
    ensures
        match r {
            Some(v) => parse_list(*t, i as int, force_new, in_group) == Some(entries_view(v@)),
            None => parse_list(*t, i as int, force_new, in_group) is None,
        },
    decreases t, tok_count(*t) - i,
{
    proof {
        reveal_strlit("bind");
        reveal_strlit(",");
    }
    match t {
        MTok::Group { delim: outer_delim, inner } => {
            let n = inner.len();
            if i >= n {
                return Some(Vec::new());
            }
            match read_attrs(t, i) {
                None => None,
                Some((attrs, j)) => {
                    let ghost attrs_view = attrs@.map_values(|a: ManifestAttr| attr_view(a));
                    proof {
                        lemma_attrs_end(*t, i as int);
                        lemma_single_end(*t, j as int, force_new, in_group, attrs_view);
                    }
                    let item: Option<(Vec<ParsedEntry>, usize)> = if j < n && j + 1 < n && tok_is_ident(&inner[j], "bind")
                        && tok_is_group(&inner[j + 1], Delim::Brace) {
                        proof {
                            assert(decreases_to!(*t => *inner));
                            assert(decreases_to!(*inner => inner@));
                            assert(decreases_to!(inner@ => inner@[j + 1]));
                        }
                        match read_list(&inner[j + 1], 0, force_new, true) {
                            Some(es) => Some((es, j + 2)),
                            None => None,
                        }
                    } else {
                        match read_single(t, j, force_new, in_group, attrs) {
                            Some((p, k)) => {
                                let mut es: Vec<ParsedEntry> = Vec::new();
                                es.push(p);
                                assert(entries_view(es@) =~= seq![entry_view(p)]);
                                Some((es, k))
                            },
                            None => None,
                        }
                    };
                    match item {
                        None => None,
                        Some((es, e)) => {
                            if e >= n {
                                Some(es)
                            } else if tok_is_punct(&inner[e], ",") {
                                match read_list(t, e + 1, force_new, in_group) {
                                    Some(rest) => {
                                        let ghost ev = es@;
                                        let ghost rv = rest@;
                                        let mut es = es;
                                        let mut rest = rest;
                                        es.append(&mut rest);
                                        assert(entries_view(es@) =~= entries_view(ev) + entries_view(rv));
                                        Some(es)
                                    },
                                    None => None,
                                }
                            } else {
                                None
                            }
                        },
                    }
                },
            }
        },
        _ => Some(Vec::new()),
    }
}

/// Why a manifest cannot be read.
pub enum ManifestParseError {
    /// The tokens do not follow the manifest grammar, or Rust syntax where
    /// the grammar asks for a type, a struct, fields or an attribute.
    Malformed,
}

/// Reads the entries of the manifest whose tokens are inside the group
/// `manifest` (the macro's input), groups flattened in source order;
/// `force_new` for a handlers manifest, where a bare identifier declares a
/// unit message.
pub fn parse_manifest_items(manifest: &MTok, force_new: bool) -> (r: Result<Vec<ParsedEntry>, ManifestParseError>)
    ensures
        match r {
            Ok(v) => manifest_grammar(*manifest, force_new) == Some(entries_view(v@)),
            Err(_) => manifest_grammar(*manifest, force_new) is None,
        },
{
    match read_list(manifest, 0, force_new, false) {
        Some(v) => Ok(v),
        None => Err(ManifestParseError::Malformed),
    }
}

/// An entry written as a name followed by fields, `Name { a: A, .. }` or
/// `Name(A, ..)`, anywhere in a manifest (after any attributes, the name not
/// a keyword), declares the message `Name` with as many fields as the group
/// holds: named fields for a brace group, tuple fields for a parenthesized
/// one; when those fields are not well formed, the entry is refused.
pub proof fn law_fields_entry_declares_message(
    t: MTok,
    j: int,
    name: String,
    force_new: bool,
    in_group: bool,
    attrs: Seq<AttrView>,
)
    requires
        0 <= j,
        j + 1 < tok_count(t),
        toks(t)[j] == MTok::Ident(name),
        !is_keyword(name@),
        is_group(toks(t)[j + 1], Delim::Brace) || is_group(toks(t)[j + 1], Delim::Paren),
    ensures
        ({
            let fields = seq_text(t, j + 1, j + 2);
            let count = if is_group(toks(t)[j + 1], Delim::Brace) {
                syn_named_fields(fields)
            } else {
                syn_unnamed_fields(fields)
            };
            &&& count matches Some(c) ==> parse_single(t, j, force_new, in_group, attrs) == Some(
                (
                    EntryView {
                        in_group,
                        attrs,
                        kind: KindView::New { name: name@, arity: c },
                        form: ManifestItemForm::NewWithFields,
                        text: fields,
                    },
                    j + 2,
                ),
            )
            &&& count is None ==> parse_single(t, j, force_new, in_group, attrs) is None
        }),
{
    reveal_strlit("@");
    reveal_strlit("struct");
    reveal_strlit("pub");
    assert(!is_punct(toks(t)[j], "@"@));
    assert(name@ != "struct"@);
    assert(name@ != "pub"@);
    assert(vis_end(t, j) == j);
}

/// A manifest made of the single entry `Name { .. }` (or `Name(..)`), the
/// name neither a keyword nor `bind`, reads as one message `Name`, outside
/// any bind group and without attributes, whose arity is the number of
/// named fields of a brace group (tuple fields of a parenthesized group);
/// the manifest is refused when those fields are not well formed.
pub proof fn law_single_fields_manifest(t: MTok, name: String, force_new: bool)
    requires
        tok_count(t) == 2,
        toks(t)[0] == MTok::Ident(name),
        !is_keyword(name@),
        name@ != "bind"@,
        is_group(toks(t)[1], Delim::Brace) || is_group(toks(t)[1], Delim::Paren),
    ensures
        ({
            let fields = seq_text(t, 1, 2);
            let count = if is_group(toks(t)[1], Delim::Brace) {
                syn_named_fields(fields)
            } else {
                syn_unnamed_fields(fields)
            };
            &&& count matches Some(c) ==> manifest_grammar(t, force_new) == Some(
                seq![
                    EntryView {
                        in_group: false,
                        attrs: Seq::empty(),
                        kind: KindView::New { name: name@, arity: c },
                        form: ManifestItemForm::NewWithFields,
                        text: fields,
                    },
                ],
            )
            &&& count is None ==> manifest_grammar(t, force_new) is None
        }),
{
    reveal_strlit("#");
    reveal_strlit("bind");
    assert(!is_punct(toks(t)[0], "#"@));
    assert(parse_attrs(t, 0) == Some((Seq::<AttrView>::empty(), 0int)));
    assert(!is_ident(toks(t)[0], "bind"@));
    law_fields_entry_declares_message(t, 0, name, force_new, false, Seq::empty());
}

/// `#[bind]` (or `#[bind = ..]`) marks a binding, `#[bind(manual)]` a
/// manual one, and an attribute whose path is not `bind` is carried as
/// written.
pub proof fn law_bind_attributes(g: MTok, text: Seq<char>)
    ensures
        toks(g).len() == 1 && is_ident(toks(g)[0], "bind"@) ==> attr_of(g, text) == (AttrView::Bind {
            manual: false,
        }),
        toks(g).len() == 2 && is_ident(toks(g)[0], "bind"@) && toks(g)[1] is Group && toks(toks(g)[1]).len() == 1
            && is_ident(toks(toks(g)[1])[0], "manual"@) ==> attr_of(g, text) == (AttrView::Bind { manual: true }),
        toks(g).len() == 2 && is_ident(toks(g)[0], "bind"@) && toks(g)[1] is Group && !(toks(toks(g)[1]).len() == 1
            && is_ident(toks(toks(g)[1])[0], "manual"@)) ==> attr_of(g, text) == (AttrView::Bind {
            manual: false,
        }),
        toks(g).len() >= 1 && !is_ident(toks(g)[0], "bind"@) ==> attr_of(g, text) == AttrView::Other(text),
{
}

/// A manifest made of `@T` alone reads as one reference to the type `T`
/// when `T` is a type, and is refused otherwise.
pub proof fn law_existing_type_entry(t: MTok, force_new: bool)
    requires
        tok_count(t) == 2,
        is_punct(toks(t)[0], "@"@),
        toks(t)[1] is Ident,
    ensures
        syn_type_parses(seq_text(t, 1, 2)) ==> manifest_grammar(t, force_new) == Some(
            seq![
                EntryView {
                    in_group: false,
                    attrs: Seq::empty(),
                    kind: KindView::Existing,
                    form: ManifestItemForm::Existing,
                    text: seq_text(t, 1, 2),
                },
            ],
        ),
        !syn_type_parses(seq_text(t, 1, 2)) ==> manifest_grammar(t, force_new) is None,
{
    reveal_strlit("#");
    reveal_strlit("@");
    reveal_strlit("bind");
    assert(toks(t)[0] is Punct);
    assert(!is_ident(toks(t)[0], "bind"@));
    assert("@"@[0] != "#"@[0]);
    assert(!is_punct(toks(t)[0], "#"@));
    assert(parse_attrs(t, 0) == Some((Seq::<AttrView>::empty(), 0int)));
    assert(type_end_from(t, 1, 3) is None);
}

/// A manifest made of a single identifier that is a type reads, in a
/// handlers manifest, as a new unit message of that name and, in a bus
/// manifest, as a reference to that type; it is refused when the identifier
/// is not a type.
pub proof fn law_single_identifier_entry(t: MTok, name: String, force_new: bool)
    requires
        tok_count(t) == 1,
        toks(t)[0] == MTok::Ident(name),
        name@ != "_"@,
        name@ != "struct"@,
        name@ != "pub"@,
    ensures
        syn_type_parses(seq_text(t, 0, 1)) && force_new ==> manifest_grammar(t, force_new) == Some(
            seq![
                EntryView {
                    in_group: false,
                    attrs: Seq::empty(),
                    kind: KindView::New { name: name@, arity: 0 },
                    form: ManifestItemForm::NewUnit,
                    text: name@,
                },
            ],
        ),
        syn_type_parses(seq_text(t, 0, 1)) && !force_new ==> manifest_grammar(t, force_new) == Some(
            seq![
                EntryView {
                    in_group: false,
                    attrs: Seq::empty(),
                    kind: KindView::Existing,
                    form: ManifestItemForm::Existing,
                    text: seq_text(t, 0, 1),
                },
            ],
        ),
        !syn_type_parses(seq_text(t, 0, 1)) ==> manifest_grammar(t, force_new) is None,
{
    reveal_strlit("#");
    reveal_strlit("@");
    assert(!is_punct(toks(t)[0], "#"@));
    assert(!is_punct(toks(t)[0], "@"@));
    assert(parse_attrs(t, 0) == Some((Seq::<AttrView>::empty(), 0int)));
    assert(vis_end(t, 0) == 0);
    assert(type_end_from(t, 0, 2) is None);
}

/// A manifest made of a `bind { .. }` group alone holds the entries of the
/// group, read as bound entries.
pub proof fn law_bind_group_entries(t: MTok, force_new: bool)
    requires
        tok_count(t) == 2,
        is_ident(toks(t)[0], "bind"@),
        is_group(toks(t)[1], Delim::Brace),
    ensures
        manifest_grammar(t, force_new) == parse_list(toks(t)[1], 0, force_new, true),
{
    reveal_strlit("#");
    assert(!is_punct(toks(t)[0], "#"@));
    assert(parse_attrs(t, 0) == Some((Seq::<AttrView>::empty(), 0int)));
}

/// Every entry read inside a `bind` group is marked as bound by the group,
/// however deeply the groups nest.
pub proof fn law_group_entries_are_bound(t: MTok, i: int, force_new: bool)
    requires
        0 <= i,
    ensures
        parse_list(t, i, force_new, true) matches Some(es) ==> forall|k: int|
            0 <= k < es.len() ==> (#[trigger] es[k]).in_group,
    decreases t, tok_count(t) - i,
{
    if i < tok_count(t) {
        let s = toks(t);
        let n = tok_count(t);
        if let Some((attrs, j)) = parse_attrs(t, i) {
            lemma_attrs_end(t, i);
            lemma_single_end(t, j, force_new, true, attrs);
            if j + 1 < n && is_ident(s[j], "bind"@) && is_group(s[j + 1], Delim::Brace) {
                if let MTok::Group { inner, .. } = t {
                    assert(decreases_to!(t => inner));
                    assert(decreases_to!(inner => inner@));
                    assert(decreases_to!(inner@ => inner@[j + 1]));
                }
                law_group_entries_are_bound(s[j + 1], 0, force_new);
                if j + 2 < n {
                    law_group_entries_are_bound(t, j + 3, force_new);
                }
                if let Some(es) = parse_list(t, i, force_new, true) {
                    let first = parse_list(s[j + 1], 0, force_new, true)->0;
                    if j + 2 < n {
                        let rest = parse_list(t, j + 3, force_new, true)->0;
                        assert(es == first + rest);
                        assert forall|k: int| 0 <= k < es.len() implies (#[trigger] es[k]).in_group by {
                            if k < first.len() {
                                assert(es[k] == first[k]);
                            } else {
                                assert(es[k] == rest[k - first.len()]);
                            }
                        }
                    }
                }
            } else if let Some((e, k)) = parse_single(t, j, force_new, true, attrs) {
                if k < n {
                    law_group_entries_are_bound(t, k + 1, force_new);
                }
                if let Some(es) = parse_list(t, i, force_new, true) {
                    if k < n {
                        let rest = parse_list(t, k + 1, force_new, true)->0;
                        assert(es == seq![e] + rest);
                        assert forall|m: int| 0 <= m < es.len() implies (#[trigger] es[m]).in_group by {
                            if m > 0 {
                                assert(es[m] == rest[m - 1]);
                            }
                        }
                    }
                }
            }
        }
    }
}

} // verus!
