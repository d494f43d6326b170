//! Reading declarations out of source text. The text is parsed by `syn`; what this
//! library reads of the syntax tree is copied into the plain declarations of `decl`.
//!
//! Verus sees nothing inside a node of the syntax tree. What a node holds is therefore
//! given a name, as plain values, and the functions marked `external_body`, which alone
//! touch the tree, say over these names what they hand out. Verus takes that on trust.
//! The copying itself is verified against it.
//!
//! `syn` and `quote` are built without their `proc-macro` feature: tokens are read and
//! printed by `proc-macro2` itself in every process, so that what a text parses to
//! depends on the text alone.

use crate::decl::{
    declaration_views, Annotation, AnnotationView, Carrier, Declaration, DeclarationView,
    EntryView, FieldDecl, FieldView, MetaEntry, StructDecl, StructView, TypeArgument,
    TypeArgumentView, TypeDecl, TypeView,
};
use crate::error::GenerateError;
use vstd::prelude::*;
use vstd::string::*;

verus! {

/// `syn::Error`, carried through as it is: Verus sees nothing inside it.
#[verifier::external_type_specification]
#[verifier::external_body]
pub struct ExError(syn::Error);

/// `syn::Item`, carried through as it is: Verus sees nothing inside it.
#[verifier::external_type_specification]
#[verifier::external_body]
pub struct ExItem(syn::Item);

/// `syn::ItemStruct`, carried through as it is: Verus sees nothing inside it.
#[verifier::external_type_specification]
#[verifier::external_body]
pub struct ExItemStruct(syn::ItemStruct);

/// `syn::ItemMod`, carried through as it is: Verus sees nothing inside it.
#[verifier::external_type_specification]
#[verifier::external_body]
pub struct ExItemMod(syn::ItemMod);

/// `syn::Field`, carried through as it is: Verus sees nothing inside it.
#[verifier::external_type_specification]
#[verifier::external_body]
pub struct ExField(syn::Field);

/// `syn::Type`, carried through as it is: Verus sees nothing inside it.
#[verifier::external_type_specification]
#[verifier::external_body]
pub struct ExType(syn::Type);

/// `syn::PathSegment`, carried through as it is: Verus sees nothing inside it.
#[verifier::external_type_specification]
#[verifier::external_body]
pub struct ExPathSegment(syn::PathSegment);

/// `syn::GenericArgument`, carried through as it is: Verus sees nothing inside it.
#[verifier::external_type_specification]
#[verifier::external_body]
pub struct ExGenericArgument(syn::GenericArgument);

/// `syn::Attribute`, carried through as it is: Verus sees nothing inside it.
#[verifier::external_type_specification]
#[verifier::external_body]
pub struct ExAttribute(syn::Attribute);

/// `syn::NestedMeta`, carried through as it is: Verus sees nothing inside it.
#[verifier::external_type_specification]
#[verifier::external_body]
pub struct ExNestedMeta(syn::NestedMeta);

/// `syn::Ident`, carried through as it is: Verus sees nothing inside it.
#[verifier::external_type_specification]
#[verifier::external_body]
pub struct ExIdent(syn::Ident);

/// `syn::Lit`, carried through as it is: Verus sees nothing inside it.
#[verifier::external_type_specification]
#[verifier::external_body]
pub struct ExLit(syn::Lit);

/// What an attribute holds.
pub struct AttributeContents {
    /// The identifier that the path is, where it is a single identifier without a
    /// leading `::` and without arguments.
    pub path: Option<Seq<char>>,
    /// What follows the path, as the text of its tokens.
    pub tokens: Seq<char>,
    /// The entries of the list that the attribute parses to, where it parses to one.
    pub entries: Option<Seq<EntryView>>,
}

/// What a path segment holds: its name and the arguments between its angle brackets.
pub struct SegmentContents {
    pub name: Seq<char>,
    pub arguments: Seq<TypeArgumentView>,
}

/// What a field holds.
pub struct FieldContents {
    pub name: Option<Seq<char>>,
    pub ty: TypeView,
    pub attrs: Seq<AttributeContents>,
}

/// What a struct holds.
pub struct StructContents {
    pub name: Seq<char>,
    pub attrs: Seq<AttributeContents>,
    pub fields: Seq<FieldContents>,
}

/// What a module holds: its name and, where its body is written in place, its items.
pub struct ModuleContents {
    pub name: Seq<char>,
    pub content: Option<Seq<ItemContents>>,
}

/// What an item holds.
pub enum ItemContents {
    Struct(StructContents),
    Module(Seq<char>, Option<Seq<ItemContents>>),
    Other,
}

/// What the items hold that `syn::parse_file` finds in a text; `None` where it refuses
/// the text.
pub uninterp spec fn parsed_file(input: Seq<char>) -> Option<Seq<ItemContents>>;

/// What a `syn::Item` holds.
pub uninterp spec fn item_contents(item: syn::Item) -> ItemContents;

/// What a `syn::ItemStruct` holds.
pub uninterp spec fn struct_contents(decl: syn::ItemStruct) -> StructContents;

/// What a `syn::ItemMod` holds.
pub uninterp spec fn module_contents(module: syn::ItemMod) -> ModuleContents;

/// What a `syn::Field` holds.
pub uninterp spec fn field_contents(field: syn::Field) -> FieldContents;

/// What a `syn::Attribute` holds.
pub uninterp spec fn attribute_contents(attribute: syn::Attribute) -> AttributeContents;

/// What a `syn::NestedMeta` holds.
pub uninterp spec fn entry_contents(entry: syn::NestedMeta) -> EntryView;

/// What a `syn::Type` holds: its text and, where it is a path, the name and the arguments
/// of its last segment.
pub uninterp spec fn type_contents(ty: syn::Type) -> TypeView;

/// What a `syn::PathSegment` holds.
pub uninterp spec fn segment_contents(segment: syn::PathSegment) -> SegmentContents;

/// What a `syn::GenericArgument` holds: the text of the type that it is, where it is one.
pub uninterp spec fn argument_contents(argument: syn::GenericArgument) -> TypeArgumentView;

/// What `to_string` gives for an identifier.
pub uninterp spec fn ident_contents(ident: syn::Ident) -> Seq<char>;

/// The tokens of a literal as text.
pub uninterp spec fn literal_contents(literal: syn::Lit) -> Seq<char>;

/// What each of the items holds, in their order.
pub open spec fn items_contents(items: Seq<syn::Item>) -> Seq<ItemContents> {
    items.map_values(|item: syn::Item| item_contents(item))
}

/// What each of the fields holds, in their order.
pub open spec fn fields_contents(fields: Seq<&syn::Field>) -> Seq<FieldContents> {
    fields.map_values(|field: &syn::Field| field_contents(*field))
}

/// What each of the attributes holds, in their order.
pub open spec fn attributes_contents(attributes: Seq<syn::Attribute>) -> Seq<AttributeContents> {
    attributes.map_values(|attribute: syn::Attribute| attribute_contents(attribute))
}

/// What each of the entries holds, in their order.
pub open spec fn entries_contents(entries: Seq<syn::NestedMeta>) -> Seq<EntryView> {
    entries.map_values(|entry: syn::NestedMeta| entry_contents(entry))
}

/// What each of the arguments holds, in their order.
pub open spec fn arguments_contents(arguments: Seq<&syn::GenericArgument>) -> Seq<
    TypeArgumentView,
> {
    arguments.map_values(|argument: &syn::GenericArgument| argument_contents(*argument))
}

/// The annotation that an attribute is. `derive` and `prost` are told by the path, and
/// only a wire annotation has entries.
pub open spec fn annotation_view(attribute: AttributeContents) -> AnnotationView {
    if attribute.path == Some("derive"@) {
        AnnotationView {
            carrier: Carrier::Derive,
            tokens: attribute.tokens,
            entries: Seq::empty(),
        }
    } else if attribute.path == Some("prost"@) {
        AnnotationView {
            carrier: Carrier::Wire,
            tokens: attribute.tokens,
            entries: match attribute.entries {
                Some(entries) => entries,
                None => Seq::empty(),
            },
        }
    } else {
        AnnotationView { carrier: Carrier::Other, tokens: attribute.tokens, entries: Seq::empty() }
    }
}

/// The annotations that the attributes are, in their order.
pub open spec fn annotation_views(attributes: Seq<AttributeContents>) -> Seq<AnnotationView> {
    attributes.map_values(|attribute: AttributeContents| annotation_view(attribute))
}

/// The field declaration that a field is.
pub open spec fn field_view(field: FieldContents) -> FieldView {
    FieldView { name: field.name, ty: field.ty, attrs: annotation_views(field.attrs) }
}

/// The struct declaration that a struct is, with its fields in their order.
pub open spec fn struct_view(decl: StructContents) -> StructView {
    StructView {
        name: decl.name,
        attrs: annotation_views(decl.attrs),
        fields: decl.fields.map_values(|field: FieldContents| field_view(field)),
    }
}

/// The declaration that an item is.
pub open spec fn declaration_view(item: ItemContents) -> DeclarationView
    decreases item,
{
    match item {
        ItemContents::Struct(decl) => DeclarationView::Struct(struct_view(decl)),
        ItemContents::Module(name, Some(content)) => DeclarationView::Module(
            name,
            Some(declarations_view(content)),
        ),
        ItemContents::Module(name, None) => DeclarationView::Module(name, None),
        ItemContents::Other => DeclarationView::Other,
    }
}

/// The declarations that the items are, in their order.
pub open spec fn declarations_view(items: Seq<ItemContents>) -> Seq<DeclarationView>
    decreases items,
{
    Seq::new(
        items.len(),
        |i: int|
            if 0 <= i < items.len() {
                declaration_view(items[i])
            } else {
                DeclarationView::Other
            },
    )
}

/// Whether an item nests modules with a body no deeper than `depth` levels, itself
/// counted.
pub open spec fn item_within(item: ItemContents, depth: nat) -> bool
    decreases item,
{
    match item {
        ItemContents::Module(_, Some(content)) => depth > 0 && items_within(
            content,
            (depth - 1) as nat,
        ),
        _ => true,
    }
}

/// Whether each of the items nests modules no deeper than `depth` levels.
pub open spec fn items_within(items: Seq<ItemContents>, depth: nat) -> bool
    decreases items,
{
    if items.len() == 0 {
        true
    } else {
        items_within(items.drop_last(), depth) && item_within(items.last(), depth)
    }
}

/// Items that nest no deeper than `depth` levels have first items that do not either.
pub proof fn lemma_within_prefix(items: Seq<ItemContents>, depth: nat, seen: int)
    requires
        0 <= seen <= items.len(),
        items_within(items, depth),
    ensures
        items_within(items.take(seen), depth),
    decreases items.len(),
{
    if seen == items.len() {
        assert(items.take(seen) =~= items);
    } else {
        assert(items.drop_last().take(seen) =~= items.take(seen));
        lemma_within_prefix(items.drop_last(), depth, seen);
    }
}

/// The view of a vector with one more element is the view of the vector with the view
/// of the element behind it.
proof fn lemma_pushed<T: DeepView>(before: Vec<T>, after: Vec<T>, last: T)
    requires
        after@ == before@.push(last),
    ensures
        after.deep_view() == before.deep_view().push(last.deep_view()),
{
    assert(after.deep_view() =~= before.deep_view().push(last.deep_view()));
}

/// The views of declarations with one more behind them.
proof fn lemma_pushed_declaration(before: Seq<Declaration>, last: Declaration)
    ensures
        declaration_views(before.push(last)) == declaration_views(before).push(last@),
{
    assert(declaration_views(before.push(last)) =~= declaration_views(before).push(last@));
}

/// An item of the syntax tree, told apart by what this library reads of it.
enum ItemShape<'a> {
    Struct(&'a syn::ItemStruct),
    Module(&'a syn::ItemMod),
    Other,
}

/// An entry of an attribute's list, told apart by what this library reads of it.
enum EntryShape<'a> {
    Word(&'a syn::Ident),
    NameValue(&'a syn::Ident, &'a syn::Lit),
    Other,
}

/// `syn::parse_file`, and of the file it returns the items. What they hold depends on
/// the text alone.
#[verifier::external_body]
fn parse_source(input: &str) -> (parsed: Result<Vec<syn::Item>, syn::Error>)
    ensures
        match parsed {
            Ok(items) => parsed_file(input@) == Some(items_contents(items@)),
            Err(_) => parsed_file(input@) is None,
        },
{
    match syn::parse_file(input) {
        Ok(file) => Ok(file.items),
        Err(error) => Err(error),
    }
}

/// Tells the variants of `syn::Item` apart: a struct, a module, or any other item. A
/// struct holds what its `ItemStruct` holds, a module what its `ItemMod` holds.
#[verifier::external_body]
fn item_shape(item: &syn::Item) -> (shape: ItemShape<'_>)
    ensures
        match shape {
            ItemShape::Struct(decl) => item_contents(*item) == ItemContents::Struct(
                struct_contents(*decl),
            ),
            ItemShape::Module(module) => item_contents(*item) == ItemContents::Module(
                module_contents(*module).name,
                module_contents(*module).content,
            ),
            ItemShape::Other => item_contents(*item) == ItemContents::Other,
        },
{
    match item {
        syn::Item::Struct(decl) => ItemShape::Struct(decl),
        syn::Item::Mod(module) => ItemShape::Module(module),
        _ => ItemShape::Other,
    }
}

/// The name, the attributes and, through `syn::Fields::iter`, the fields of a struct, in
/// the order of their declaration: all that a struct holds.
#[verifier::external_body]
fn struct_parts(decl: &syn::ItemStruct) -> (parts: (
    &syn::Ident,
    &Vec<syn::Attribute>,
    Vec<&syn::Field>,
))
    ensures
        struct_contents(*decl) == (StructContents {
            name: ident_contents(*parts.0),
            attrs: attributes_contents(parts.1@),
            fields: fields_contents(parts.2@),
        }),
{
    (&decl.ident, &decl.attrs, decl.fields.iter().collect())
}

/// The name of a module and, where its body is written in place, its items: all that a
/// module holds.
#[verifier::external_body]
fn module_parts(module: &syn::ItemMod) -> (parts: (&syn::Ident, Option<&Vec<syn::Item>>))
    ensures
        module_contents(*module).name == ident_contents(*parts.0),
        match parts.1 {
            Some(items) => module_contents(*module).content == Some(items_contents(items@)),
            None => module_contents(*module).content is None,
        },
{
    match &module.content {
        Some((_, items)) => (&module.ident, Some(items)),
        None => (&module.ident, None),
    }
}

/// The name, if it has one, the type and the attributes of a field: all that a field
/// holds.
#[verifier::external_body]
fn field_parts(field: &syn::Field) -> (parts: (
    Option<&syn::Ident>,
    &syn::Type,
    &Vec<syn::Attribute>,
))
    ensures
        field_contents(*field) == (FieldContents {
            name: match parts.0 {
                Some(name) => Some(ident_contents(*name)),
                None => None,
            },
            ty: type_contents(*parts.1),
            attrs: attributes_contents(parts.2@),
        }),
{
    (field.ident.as_ref(), &field.ty, &field.attrs)
}

/// `to_string` of an identifier: the identifier as written, `r#` included.
#[verifier::external_body]
fn ident_text(ident: &syn::Ident) -> (text: String)
    ensures
        text@ == ident_contents(*ident),
{
    ident.to_string()
}

/// The tokens of a type, through `quote::ToTokens`, as text.
#[verifier::external_body]
fn type_text(ty: &syn::Type) -> (text: String)
    ensures
        text@ == type_contents(*ty).text,
{
    quote::ToTokens::into_token_stream(ty.clone()).to_string()
}

/// The tokens of a literal, through `quote::ToTokens`, as text.
#[verifier::external_body]
fn literal_text(literal: &syn::Lit) -> (text: String)
    ensures
        text@ == literal_contents(*literal),
{
    quote::ToTokens::into_token_stream(literal.clone()).to_string()
}

/// The last segment of the path of a type that is a path. Such a type holds the name
/// and the arguments of that segment; any other type holds neither.
#[verifier::external_body]
fn type_last_segment(ty: &syn::Type) -> (segment: Option<&syn::PathSegment>)
    ensures
        match segment {
            Some(last) => type_contents(*ty).head == Some(segment_contents(*last).name)
                && type_contents(*ty).arguments == segment_contents(*last).arguments,
            None => type_contents(*ty).head is None && type_contents(*ty).arguments.len() == 0,
        },
{
    match ty {
        syn::Type::Path(path) => path.path.segments.iter().last(),
        _ => None,
    }
}

/// The name of a path segment and the arguments that it has between angle brackets, in
/// their order; no arguments where it has no angle brackets.
#[verifier::external_body]
fn segment_parts(segment: &syn::PathSegment) -> (parts: (
    &syn::Ident,
    Vec<&syn::GenericArgument>,
))
    ensures
        segment_contents(*segment) == (SegmentContents {
            name: ident_contents(*parts.0),
            arguments: arguments_contents(parts.1@),
        }),
{
    match &segment.arguments {
        syn::PathArguments::AngleBracketed(list) => (&segment.ident, list.args.iter().collect()),
        _ => (&segment.ident, Vec::new()),
    }
}

/// The type that a generic argument is, where it is one. Such an argument holds the
/// text of that type.
#[verifier::external_body]
fn argument_type(argument: &syn::GenericArgument) -> (ty: Option<&syn::Type>)
    ensures
        match ty {
            Some(inner) => argument_contents(*argument) == TypeArgumentView::Type(
                type_contents(*inner).text,
            ),
            None => argument_contents(*argument) == TypeArgumentView::Other,
        },
{
    match argument {
        syn::GenericArgument::Type(ty) => Some(ty),
        _ => None,
    }
}

/// `syn::Path::is_ident` on the path of an attribute: whether the path is one
/// identifier, without a leading `::` and without arguments, and `to_string` of that
/// identifier is `name`.
#[verifier::external_body]
fn attribute_is(attribute: &syn::Attribute, name: &str) -> (is: bool)
    ensures
        is == (attribute_contents(*attribute).path == Some(name@)),
{
    attribute.path.is_ident(name)
}

/// What follows the path of an attribute, as text: `to_string` of its token stream.
#[verifier::external_body]
fn attribute_tokens(attribute: &syn::Attribute) -> (tokens: String)
    ensures
        tokens@ == attribute_contents(*attribute).tokens,
{
    attribute.tts.to_string()
}

/// `syn::Attribute::parse_meta`, and of a list that it returns the entries, in their
/// order. `parse_meta` panics on a path without segments; a path that is one identifier
/// has one.
#[verifier::external_body]
fn attribute_meta_list(attribute: &syn::Attribute) -> (entries: Option<Vec<syn::NestedMeta>>)
    requires
        attribute_contents(*attribute).path is Some,
    ensures
        match entries {
            Some(list) => attribute_contents(*attribute).entries == Some(
                entries_contents(list@),
            ),
            None => attribute_contents(*attribute).entries is None,
        },
{
    match attribute.parse_meta() {
        Ok(syn::Meta::List(list)) => Some(list.nested.into_iter().collect()),
        _ => None,
    }
}

/// Tells the variants of `syn::NestedMeta` and of the `syn::Meta` in it apart: a word, a
/// name with a literal, or anything else.
#[verifier::external_body]
fn entry_shape(entry: &syn::NestedMeta) -> (shape: EntryShape<'_>)
    ensures
        match shape {
            EntryShape::Word(word) => entry_contents(*entry) == EntryView::Word(
                ident_contents(*word),
            ),
            EntryShape::NameValue(name, literal) => entry_contents(*entry) == EntryView::NameValue(
                ident_contents(*name),
                literal_contents(*literal),
            ),
            EntryShape::Other => entry_contents(*entry) == EntryView::Other,
        },
{
    match entry {
        syn::NestedMeta::Meta(syn::Meta::Word(word)) => EntryShape::Word(word),
        syn::NestedMeta::Meta(syn::Meta::NameValue(pair)) => EntryShape::NameValue(
            &pair.ident,
            &pair.lit,
        ),
        _ => EntryShape::Other,
    }
}

/// The entries as plain values, in their order.
fn lower_entries(entries: &Vec<syn::NestedMeta>) -> (lowered: Vec<MetaEntry>)
    ensures
        lowered.deep_view() == entries_contents(entries@),
{
    let mut lowered: Vec<MetaEntry> = Vec::new();
    let mut i: usize = 0;
    while i < entries.len()
        invariant
            i <= entries.len(),
            lowered.deep_view() == entries_contents(entries@).take(i as int),
        decreases entries.len() - i,
    {
        let entry = match entry_shape(&entries[i]) {
            EntryShape::Word(word) => MetaEntry::Word(ident_text(word)),
            EntryShape::NameValue(name, literal) => MetaEntry::NameValue(
                ident_text(name),
                literal_text(literal),
            ),
            EntryShape::Other => MetaEntry::Other,
        };
        let ghost before = lowered;
        let ghost all = entries_contents(entries@);
        assert(entry@ == all[i as int]);
        lowered.push(entry);
        proof {
            lemma_pushed(before, lowered, entry);
            assert(all.take(i + 1) =~= all.take(i as int).push(all[i as int]));
        }
        i += 1;
    }
    assert(entries_contents(entries@).take(i as int) =~= entries_contents(entries@));
    lowered
}

/// The annotation that an attribute is: `derive` and `prost` are told by the path, and
/// only a wire annotation has its entries read.
fn lower_attribute(attribute: &syn::Attribute) -> (annotation: Annotation)
    ensures
        annotation@ == annotation_view(attribute_contents(*attribute)),
{
    let tokens = attribute_tokens(attribute);
    if attribute_is(attribute, "derive") {
        let annotation = Annotation { carrier: Carrier::Derive, tokens, entries: Vec::new() };
        assert(annotation.entries.deep_view() =~= Seq::<EntryView>::empty());
        annotation
    } else if attribute_is(attribute, "prost") {
        let entries = match attribute_meta_list(attribute) {
            Some(entries) => lower_entries(&entries),
            None => {
                let none: Vec<MetaEntry> = Vec::new();
                assert(none.deep_view() =~= Seq::<EntryView>::empty());
                none
            },
        };
        Annotation { carrier: Carrier::Wire, tokens, entries }
    } else {
        let annotation = Annotation { carrier: Carrier::Other, tokens, entries: Vec::new() };
        assert(annotation.entries.deep_view() =~= Seq::<EntryView>::empty());
        annotation
    }
}

/// The annotations that the attributes are, in their order.
fn lower_attributes(attributes: &Vec<syn::Attribute>) -> (lowered: Vec<Annotation>)
    ensures
        lowered.deep_view() == annotation_views(attributes_contents(attributes@)),
{
    let ghost all = annotation_views(attributes_contents(attributes@));
    let mut lowered: Vec<Annotation> = Vec::new();
    let mut i: usize = 0;
    while i < attributes.len()
        invariant
            i <= attributes.len(),
            all == annotation_views(attributes_contents(attributes@)),
            lowered.deep_view() == all.take(i as int),
        decreases attributes.len() - i,
    {
        let annotation = lower_attribute(&attributes[i]);
        let ghost before = lowered;
        assert(annotation@ == all[i as int]);
        lowered.push(annotation);
        proof {
            lemma_pushed(before, lowered, annotation);
            assert(all.take(i + 1) =~= all.take(i as int).push(all[i as int]));
        }
        i += 1;
    }
    assert(all.take(i as int) =~= all);
    lowered
}

/// The declared type as text, with the name and the arguments of its last segment where
/// it is a path.
fn lower_type(ty: &syn::Type) -> (lowered: TypeDecl)
    ensures
        lowered@ == type_contents(*ty),
{
    let text = type_text(ty);
    match type_last_segment(ty) {
        None => {
            let lowered = TypeDecl { text, head: None, arguments: Vec::new() };
            assert(lowered.arguments.deep_view() =~= type_contents(*ty).arguments);
            lowered
        },
        Some(segment) => {
            let (name, arguments) = segment_parts(segment);
            let ghost all = arguments_contents(arguments@);
            let mut lowered: Vec<TypeArgument> = Vec::new();
            let mut i: usize = 0;
            while i < arguments.len()
                invariant
                    i <= arguments.len(),
                    all == arguments_contents(arguments@),
                    lowered.deep_view() == all.take(i as int),
                decreases arguments.len() - i,
            {
                let argument = match argument_type(arguments[i]) {
                    Some(inner) => TypeArgument::Type(type_text(inner)),
                    None => TypeArgument::Other,
                };
                let ghost before = lowered;
                assert(argument@ == all[i as int]);
                lowered.push(argument);
                proof {
                    lemma_pushed(before, lowered, argument);
                    assert(all.take(i + 1) =~= all.take(i as int).push(all[i as int]));
                }
                i += 1;
            }
            assert(all.take(i as int) =~= all);
            TypeDecl { text, head: Some(ident_text(name)), arguments: lowered }
        },
    }
}

/// The field declaration that a field is.
fn lower_field(field: &syn::Field) -> (lowered: FieldDecl)
    ensures
        lowered@ == field_view(field_contents(*field)),
{
    let (name, ty, attributes) = field_parts(field);
    let name = match name {
        Some(name) => Some(ident_text(name)),
        None => None,
    };
    FieldDecl { name, ty: lower_type(ty), attrs: lower_attributes(attributes) }
}

/// The struct declaration that a struct is, with its fields in their order.
fn lower_struct(decl: &syn::ItemStruct) -> (lowered: StructDecl)
    ensures
        lowered@ == struct_view(struct_contents(*decl)),
{
    let (name, attributes, fields) = struct_parts(decl);
    let ghost all = struct_view(struct_contents(*decl)).fields;
    let mut lowered: Vec<FieldDecl> = Vec::new();
    let mut i: usize = 0;
    while i < fields.len()
        invariant
            i <= fields.len(),
            all == fields_contents(fields@).map_values(|field: FieldContents| field_view(field)),
            lowered.deep_view() == all.take(i as int),
        decreases fields.len() - i,
    {
        let field = lower_field(fields[i]);
        let ghost before = lowered;
        assert(field@ == all[i as int]);
        lowered.push(field);
        proof {
            lemma_pushed(before, lowered, field);
            assert(all.take(i + 1) =~= all.take(i as int).push(all[i as int]));
        }
        i += 1;
    }
    assert(all.take(i as int) =~= all);
    StructDecl { name: ident_text(name), attrs: lower_attributes(attributes), fields: lowered }
}

/// The declarations that the items are, in their order, where they nest modules no
/// deeper than `depth` levels; `None` where they nest deeper.
fn lower_items(items: &Vec<syn::Item>, depth: usize) -> (lowered: Option<Vec<Declaration>>)
    ensures
        match lowered {
            Some(list) => items_within(items_contents(items@), depth as nat)
                && declaration_views(list@) == declarations_view(items_contents(items@)),
            None => !items_within(items_contents(items@), depth as nat),
        },
    decreases depth,
{
    let ghost all = items_contents(items@);
    let mut lowered: Vec<Declaration> = Vec::new();
    let mut i: usize = 0;
    assert(declaration_views(lowered@) =~= declarations_view(all.take(0)));
    while i < items.len()
        invariant
            i <= items.len(),
            all == items_contents(items@),
            items_within(all.take(i as int), depth as nat),
            declaration_views(lowered@) == declarations_view(all.take(i as int)),
        decreases items.len() - i,
    {
        proof {
            let seen = all.take(i + 1);
            assert(seen.drop_last() =~= all.take(i as int));
            assert(seen.last() == item_contents(items[i as int]));
        }
        let lowered_item = match item_shape(&items[i]) {
            ItemShape::Struct(decl) => Some(Declaration::Struct(lower_struct(decl))),
            ItemShape::Module(module) => {
                let (name, content) = module_parts(module);
                match content {
                    None => Some(Declaration::Module(ident_text(name), None)),
                    Some(content) => {
                        if depth == 0 {
                            None
                        } else {
                            match lower_items(content, depth - 1) {
                                Some(inner) => Some(
                                    Declaration::Module(ident_text(name), Some(inner)),
                                ),
                                None => None,
                            }
                        }
                    },
                }
            },
            ItemShape::Other => Some(Declaration::Other),
        };
        let item = match lowered_item {
            Some(item) => item,
            None => {
                proof {
                    assert(!item_within(all[i as int], depth as nat));
                    if items_within(all, depth as nat) {
                        lemma_within_prefix(all, depth as nat, i + 1);
                    }
                }
                return None;
            },
        };
        assert(item_within(all[i as int], depth as nat));
        assert(item@ == declaration_view(all[i as int]));
        let ghost before = lowered@;
        lowered.push(item);
        proof {
            lemma_pushed_declaration(before, item);
            assert(all.take(i + 1) =~= all.take(i as int).push(all[i as int]));
            assert(declarations_view(all.take(i + 1)) =~= declarations_view(
                all.take(i as int),
            ).push(declaration_view(all[i as int])));
        }
        i += 1;
    }
    assert(all.take(i as int) =~= all);
    Some(lowered)
}

/// The declarations of a source file, in the order in which it holds them.
///
/// The text is parsed by `syn::parse_file`; a text that it refuses gives `Syntax`. A
/// module's text lies within its parent's, so no file nests modules deeper than it has
/// characters: the walk goes that deep, and `NestingTooDeep` stands for what lies beyond.
pub fn parse_declarations(input: &str) -> (outcome: Result<Vec<Declaration>, GenerateError>)
    ensures
        match parsed_file(input@) {
            None => outcome matches Err(error) && error is Syntax,
            Some(items) => if items_within(items, input@.len()) {
                outcome matches Ok(list) && declaration_views(list@) == declarations_view(items)
            } else {
                outcome matches Err(error) && error is NestingTooDeep
            },
        },
{
    match parse_source(input) {
        Err(_) => Err(GenerateError::Syntax),
        Ok(items) => match lower_items(&items, input.unicode_len()) {
            Some(lowered) => Ok(lowered),
            None => Err(GenerateError::NestingTooDeep),
        },
    }
}

} // verus!
