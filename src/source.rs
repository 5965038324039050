//! Reading declarations out of Rust source text, and the generation entry
//! point that goes from source text to the generated document.
//!
//! Parsing is done by `syn`; the declarations it finds are turned into plain
//! [`EnumDecl`] values, which the verified extraction and rendering work on.
//! Only the file's top-level items are read.

use vstd::prelude::*;

use crate::descriptor::MsgArg;
use crate::extract::{copy_args, decls_view, EnumDecl, EnumView, VariantDecl};
use crate::naming::{interface_name, pascal_of};
use crate::render::{generate_from_declarations, generated_text};

verus! {

#[verifier::external_type_specification]
#[verifier::external_body]
pub struct ExError(syn::Error);

/// Whether `syn::parse_file` accepts a text as a Rust source file.
pub uninterp spec fn parses_as_file(s: Seq<char>) -> bool;

/// What `syn::parse_file` reads from a text: each top-level item in order,
/// as an enum declaration or as `None` for any other item.
pub uninterp spec fn parsed_items(s: Seq<char>) -> Seq<Option<EnumView>>;

/// The values of a sequence of converted items.
pub open spec fn items_view(items: Seq<Option<EnumDecl>>) -> Seq<Option<EnumView>> {
    items.map_values(
        |o: Option<EnumDecl>|
            match o {
                Some(d) => Some(d@),
                None => None,
            },
    )
}

/// The enum declarations among a sequence of items, in order.
pub open spec fn enums_of(items: Seq<Option<EnumView>>) -> Seq<EnumView>
    decreases items.len(),
{
    if items.len() == 0 {
        Seq::empty()
    } else {
        match items.last() {
            Some(d) => enums_of(items.drop_last()).push(d),
            None => enums_of(items.drop_last()),
        }
    }
}

/// Relies on `syn::parse_file`, which succeeds exactly on the texts that parse
/// as a Rust source file, and then holds the file's top-level items in order.
/// Each item is converted one for one: an enum to its name (through `Ident`'s
/// `Display`) and its variants in order, each with its name and fields in
/// order; a field to its name, if any, and its type printed as tokens through
/// `quote::ToTokens`. Any other item becomes `None`.
#[verifier::external_body]
fn parse_items(content: &str) -> (r: Result<Vec<Option<EnumDecl>>, syn::Error>)
    ensures
        r is Ok == parses_as_file(content@),
        r matches Ok(items) ==> items_view(items@) == parsed_items(content@),
{
    syn::parse_file(content).map(|file| file.items.iter().map(|item| match item {
        syn::Item::Enum(e) => Some(EnumDecl {
            name: e.ident.to_string(),
            variants: e.variants.iter().map(|v| VariantDecl {
                name: v.ident.to_string(),
                fields: v.fields.iter().map(|f| MsgArg {
                    ident: f.ident.as_ref().map(|i| i.to_string()),
                    ty: quote::ToTokens::to_token_stream(&f.ty).to_string(),
                }).collect(),
            }).collect(),
        }),
        _ => None,
    }).collect())
}

/// Relies on `syn::Error`'s `Display` for the message of a parse error.
#[verifier::external_body]
fn error_message(e: &syn::Error) -> String {
    e.to_string()
}

fn copy_variant(v: &VariantDecl) -> (r: VariantDecl)
    ensures
        r@ == v@,
{
    VariantDecl { name: v.name.clone(), fields: copy_args(&v.fields) }
}

fn copy_enum(d: &EnumDecl) -> (r: EnumDecl)
    ensures
        r@ == d@,
{
    let mut variants: Vec<VariantDecl> = Vec::new();
    let mut i: usize = 0;
    while i < d.variants.len()
        invariant
            i <= d.variants@.len(),
            variants@.len() == i,
            forall|k: int| 0 <= k < i ==> (#[trigger] variants@[k])@ == d.variants@[k]@,
        decreases d.variants.len() - i,
    {
        let v = copy_variant(&d.variants[i]);
        variants.push(v);
        i += 1;
    }
    let r = EnumDecl { name: d.name.clone(), variants };
    assert(r@.variants =~= d@.variants);
    r
}

/// The enum declarations among a file's top-level items, in order.
fn enum_decls(items: &Vec<Option<EnumDecl>>) -> (r: Vec<EnumDecl>)
    ensures
        decls_view(r@) == enums_of(items_view(items@)),
{
    let mut decls: Vec<EnumDecl> = Vec::new();
    let mut i: usize = 0;
    while i < items.len()
        invariant
            i <= items@.len(),
            decls_view(decls@) == enums_of(items_view(items@.take(i as int))),
        decreases items.len() - i,
    {
        proof {
            assert(items_view(items@.take(i + 1)).drop_last() =~= items_view(items@.take(i as int)));
        }
        if let Some(d) = &items[i] {
            let ghost before = decls@;
            decls.push(copy_enum(d));
            assert(decls_view(decls@) =~= decls_view(before).push(d@));
        }
        i += 1;
    }
    assert(items@.take(i as int) =~= items@);
    decls
}

/// Why no document could be generated.
pub enum GenerateError {
    /// The source text is not a Rust source file; the parser's message.
    Parse(String),
}

/// The base name used for the interface when none is given.
pub open spec fn default_base_name() -> Seq<char> {
    "robot_code_gen"@
}

/// The base name that the interface is named after.
pub open spec fn base_name(crate_name: Option<String>) -> Seq<char> {
    match crate_name {
        Some(n) => n@,
        None => default_base_name(),
    }
}

/// Generates the document for a Rust source file: the interface named after
/// `crate_name` (or the default base name), with a method for each command
/// of its `ExecuteMsg` enum and each query of its `QueryMsg` enum, and the
/// implementation of it for `Robot`. It fails exactly when the text does not
/// parse; otherwise the document is the one generated from the top-level
/// enum declarations that the parser read from the text.
pub fn render_robot_code(content: &str, crate_name: Option<String>) -> (r: Result<
    String,
    GenerateError,
>)
    ensures
        r is Err <==> !parses_as_file(content@),
        r matches Ok(text) ==> text@ == generated_text(
            pascal_of(base_name(crate_name)) + "Robot"@,
            enums_of(parsed_items(content@)),
        ),
{
    let base = match &crate_name {
        Some(n) => n.clone(),
        None => String::from_str("robot_code_gen"),
    };
    let trait_name = interface_name(base.as_str());
    match parse_items(content) {
        Ok(items) => {
            let decls = enum_decls(&items);
            let text = generate_from_declarations(&decls, trait_name.as_str());
            Ok(text)
        },
        Err(e) => Err(GenerateError::Parse(error_message(&e))),
    }
}

} // verus!
