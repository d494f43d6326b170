//! From declarations to the text of their accessors: one `impl` block for each message.

use crate::decl::{
    declaration_views, Annotation, AnnotationView, Carrier, FieldDecl, FieldView, Declaration, DeclarationView,
    StructDecl, StructView,
};
use crate::error::GenerateError;
use crate::kind::{field_kind, FieldKind};
use crate::methods::{methods_text, synthesis};
use crate::text::{contains, occurs};
use vstd::prelude::*;
use vstd::string::*;

verus! {

/// The derived trait that marks a struct as a message, as it stands among the tokens of a
/// `derive` annotation.
pub open spec fn message_marker() -> Seq<char> {
    ":: prost_derive :: Message"@
}

/// Whether a declaration with these annotations is a message: one of them is a `derive`
/// whose tokens hold the marker.
pub open spec fn is_message_declaration(attrs: Seq<AnnotationView>) -> bool {
    exists|i: int|
        0 <= i < attrs.len() && (#[trigger] attrs[i]).carrier == Carrier::Derive && occurs(
            attrs[i].tokens,
            message_marker(),
        )
}

/// The two constructors that every message gets, whatever its fields.
pub open spec fn constructors_text(name: Seq<char>, prefix: Seq<char>) -> Seq<char> {
    "pub fn new_() -> "@ + prefix + name + " { ::std::default::Default::default() }\n"@
        + "pub fn default_instance() -> &'static "@ + prefix + name + " { unimplemented!(); }\n"@
}

/// The accessors of one field as text. A field without a name has none, and neither has
/// one whose kind is `OneOf`; a named field without a kind is an error.
pub open spec fn field_text(field: FieldView) -> Result<Seq<char>, GenerateError> {
    match field.name {
        None => Ok(Seq::empty()),
        Some(name) => match field_kind(field.attrs) {
            None => Err(GenerateError::UnknownFieldKind),
            Some(kind) => match synthesis(kind, field.ty, name) {
                Err(error) => Err(error),
                Ok(None) => Ok(Seq::empty()),
                Ok(Some(methods)) => Ok(methods_text(methods)),
            },
        },
    }
}

/// The accessors of the fields, in the order of the fields; the error of the first field
/// that has one.
pub open spec fn fields_text(fields: Seq<FieldView>) -> Result<Seq<char>, GenerateError>
    decreases fields.len(),
{
    if fields.len() == 0 {
        Ok(Seq::empty())
    } else {
        match fields_text(fields.drop_last()) {
            Err(error) => Err(error),
            Ok(head) => match field_text(fields.last()) {
                Err(error) => Err(error),
                Ok(last) => Ok(head + last),
            },
        }
    }
}

/// The `impl` block of one message: the constructors, then the accessors of its fields.
pub open spec fn struct_text(decl: StructView, prefix: Seq<char>) -> Result<
    Seq<char>,
    GenerateError,
> {
    match fields_text(decl.fields) {
        Err(error) => Err(error),
        Ok(body) => Ok(
            "impl "@ + prefix + decl.name + " {"@ + constructors_text(decl.name, prefix) + body
                + "}\n"@,
        ),
    }
}

/// What one item contributes: a message its block, a module what its items contribute
/// under the module's path, anything else nothing.
pub open spec fn item_text(item: DeclarationView, prefix: Seq<char>) -> Result<Seq<char>, GenerateError>
    decreases item,
{
    match item {
        DeclarationView::Struct(decl) => if is_message_declaration(decl.attrs) {
            struct_text(decl, prefix)
        } else {
            Ok(Seq::empty())
        },
        DeclarationView::Module(name, Some(content)) => items_text(content, prefix + name + "::"@),
        DeclarationView::Module(_, None) => Ok(Seq::empty()),
        DeclarationView::Other => Ok(Seq::empty()),
    }
}

/// What the items contribute, in their order; the error of the first item that has one.
pub open spec fn items_text(items: Seq<DeclarationView>, prefix: Seq<char>) -> Result<
    Seq<char>,
    GenerateError,
>
    decreases items,
{
    if items.len() == 0 {
        Ok(Seq::empty())
    } else {
        match items_text(items.drop_last(), prefix) {
            Err(error) => Err(error),
            Ok(head) => match item_text(items.last(), prefix) {
                Err(error) => Err(error),
                Ok(last) => Ok(head + last),
            },
        }
    }
}

/// The view of a text or an error.
pub open spec fn text_view(outcome: Result<String, GenerateError>) -> Result<
    Seq<char>,
    GenerateError,
> {
    match outcome {
        Ok(text) => Ok(text@),
        Err(error) => Err(error),
    }
}

/// Whether a declaration with these annotations is a message.
pub fn is_message(attrs: &Vec<Annotation>) -> (found: bool)
    ensures
        found == is_message_declaration(attrs.deep_view()),
{
    let ghost all = attrs.deep_view();
    let mut i: usize = 0;
    while i < attrs.len()
        invariant
            i <= attrs.len(),
            all == attrs.deep_view(),
            forall|k: int|
                0 <= k < i ==> !((#[trigger] all[k]).carrier == Carrier::Derive && occurs(
                    all[k].tokens,
                    message_marker(),
                )),
        decreases attrs.len() - i,
    {
        if let Carrier::Derive = attrs[i].carrier {
            if contains(attrs[i].tokens.as_str(), ":: prost_derive :: Message") {
                assert(all[i as int] == attrs[i as int]@);
                return true;
            }
        }
        assert(all[i as int] == attrs[i as int]@);
        i += 1;
    }
    false
}

/// Writes the two constructors of the message `name`, declared under the path `prefix`,
/// behind what `buf` holds.
pub fn generate_new(name: &str, prefix: &str, buf: &mut String)
    ensures
        final(buf)@ == old(buf)@ + constructors_text(name@, prefix@),
{
    let ghost before = buf@;
    buf.append("pub fn new_() -> ");
    buf.append(prefix);
    buf.append(name);
    buf.append(" { ::std::default::Default::default() }\n");
    buf.append("pub fn default_instance() -> &'static ");
    buf.append(prefix);
    buf.append(name);
    buf.append(" { unimplemented!(); }\n");
    assert(buf@ =~= before + constructors_text(name@, prefix@));
}

/// Writes the accessors of one field behind what `buf` holds. On an error `buf` is as it
/// was.
pub fn generate_field(field: &FieldDecl, buf: &mut String) -> (outcome: Result<(), GenerateError>)
    ensures
        match outcome {
            Ok(()) => field_text(field@) is Ok && final(buf)@ == old(buf)@ + field_text(
                field@,
            ).unwrap(),
            Err(error) => field_text(field@) == Err::<Seq<char>, _>(error) && final(buf)@ == old(
                buf,
            )@,
        },
{
    let name = match &field.name {
        Some(name) => name,
        None => {
            assert(buf@ =~= buf@ + Seq::<char>::empty());
            return Ok(());
        },
    };
    let kind = match FieldKind::try_from_attrs(&field.attrs) {
        Some(kind) => kind,
        None => {
            return Err(GenerateError::UnknownFieldKind);
        },
    };
    if !kind.accepts(&field.ty) {
        return Err(GenerateError::MalformedOptional);
    }
    match kind.methods(&field.ty, name.as_str()) {
        None => {
            assert(buf@ =~= buf@ + Seq::<char>::empty());
            Ok(())
        },
        Some(methods) => {
            methods.write_methods(buf);
            Ok(())
        },
    }
}

/// The `impl` block of the message `item`, declared under the path `prefix`: its
/// constructors and the accessors of its fields in their order.
///
/// Each named field of a message has a kind, and each optional one is an `Option` of one
/// type. Where that is not known, `try_generate_one` tells.
pub fn generate_one(item: &StructDecl, prefix: &str) -> (text: String)
    requires
        fields_text(item@.fields) is Ok,
    ensures
        Ok::<Seq<char>, GenerateError>(text@) == struct_text(item@, prefix@),
{
    try_generate_one(item, prefix).unwrap()
}

/// The `impl` block of the message `item`, declared under the path `prefix`, or the
/// error of the first field that has one: `UnknownFieldKind` for a named field whose
/// annotations name no kind, `MalformedOptional` for an optional field whose type is not
/// `Option` of one type.
pub fn try_generate_one(item: &StructDecl, prefix: &str) -> (outcome: Result<
    String,
    GenerateError,
>)
    ensures
        text_view(outcome) == struct_text(item@, prefix@),
{
    let mut buf = String::from_str("impl ");
    buf.append(prefix);
    buf.append(item.name.as_str());
    buf.append(" {");
    generate_new(item.name.as_str(), prefix, &mut buf);
    let ghost opening = buf@;
    let ghost fields = item.fields.deep_view();
    let mut i: usize = 0;
    while i < item.fields.len()
        invariant
            i <= item.fields.len(),
            fields == item.fields.deep_view(),
            fields_text(fields.take(i as int)) is Ok,
            buf@ == opening + fields_text(fields.take(i as int)).unwrap(),
        decreases item.fields.len() - i,
    {
        proof {
            let seen = fields.take(i + 1);
            assert(seen.drop_last() =~= fields.take(i as int));
            assert(seen.last() == item.fields[i as int]@);
        }
        match generate_field(&item.fields[i], &mut buf) {
            Ok(()) => {},
            Err(error) => {
                proof {
                    lemma_fields_error(fields, i + 1);
                }
                return Err(error);
            },
        }
        proof {
            let head = fields_text(fields.take(i as int)).unwrap();
            let last = field_text(item.fields[i as int]@).unwrap();
            assert(opening + head + last =~= opening + (head + last));
        }
        i += 1;
    }
    buf.append("}\n");
    proof {
        assert(fields.take(i as int) =~= fields);
        let body = fields_text(fields).unwrap();
        assert(buf@ =~= "impl "@ + prefix@ + item.name@ + " {"@ + constructors_text(
            item.name@,
            prefix@,
        ) + body + "}\n"@);
    }
    Ok(buf)
}

/// A field whose annotations make it a `OneOf` adds nothing to the text of its struct.
pub proof fn lemma_oneof_field_writes_nothing(field: FieldView)
    requires
        field_kind(field.attrs) matches Some(kind) && kind is OneOf,
    ensures
        field_text(field) == Ok::<Seq<char>, GenerateError>(Seq::empty()),
{
}

/// The text depends on the declarations and the path alone: two runs of
/// `generate_from_items` on declarations with the same view, under the same path, return
/// the same text or the same error.
pub proof fn lemma_same_declarations_same_text(
    items: Seq<Declaration>,
    again: Seq<Declaration>,
    prefix: Seq<char>,
    first: Result<String, GenerateError>,
    second: Result<String, GenerateError>,
)
    requires
        declaration_views(items) == declaration_views(again),
        text_view(first) == items_text(declaration_views(items), prefix),
        text_view(second) == items_text(declaration_views(again), prefix),
    ensures
        text_view(first) == text_view(second),
{
}

/// An error among the first fields is the error of all of them.
pub proof fn lemma_fields_error(fields: Seq<FieldView>, seen: int)
    requires
        0 <= seen <= fields.len(),
        fields_text(fields.take(seen)) is Err,
    ensures
        fields_text(fields) == fields_text(fields.take(seen)),
    decreases fields.len() - seen,
{
    if seen < fields.len() {
        let next = fields.take(seen + 1);
        assert(next.drop_last() =~= fields.take(seen));
        lemma_fields_error(fields, seen + 1);
    } else {
        assert(fields.take(seen) =~= fields);
    }
}

/// An error among the first items is the error of all of them.
pub proof fn lemma_items_error(items: Seq<DeclarationView>, prefix: Seq<char>, seen: int)
    requires
        0 <= seen <= items.len(),
        items_text(items.take(seen), prefix) is Err,
    ensures
        items_text(items, prefix) == items_text(items.take(seen), prefix),
    decreases items.len() - seen,
{
    if seen < items.len() {
        let next = items.take(seen + 1);
        assert(next.drop_last() =~= items.take(seen));
        lemma_items_error(items, prefix, seen + 1);
    } else {
        assert(items.take(seen) =~= items);
    }
}

/// The blocks of all messages among the items and, under `prefix` extended by each
/// module's name, among the items of their modules, in the order of the items. The error
/// is that of the first message that has one.
pub fn generate_from_items(items: &Vec<Declaration>, prefix: &str) -> (outcome: Result<
    String,
    GenerateError,
>)
    ensures
        text_view(outcome) == items_text(declaration_views(items@), prefix@),
    decreases items,
{
    let ghost all = declaration_views(items@);
    let mut buf = String::new();
    let mut i: usize = 0;
    while i < items.len()
        invariant
            i <= items.len(),
            all == declaration_views(items@),
            items_text(all.take(i as int), prefix@) is Ok,
            buf@ == items_text(all.take(i as int), prefix@).unwrap(),
        decreases items.len() - i,
    {
        proof {
            let seen = all.take(i + 1);
            assert(seen.drop_last() =~= all.take(i as int));
            assert(seen.last() == items[i as int]@);
        }
        let part = match &items[i] {
            Declaration::Struct(decl) => {
                if is_message(&decl.attrs) {
                    try_generate_one(decl, prefix)
                } else {
                    Ok(String::new())
                }
            },
            Declaration::Module(name, Some(content)) => {
                let mut inner = String::from_str(prefix);
                inner.append(name.as_str());
                inner.append("::");
                generate_from_items(content, inner.as_str())
            },
            Declaration::Module(_, None) => Ok(String::new()),
            Declaration::Other => Ok(String::new()),
        };
        assert(text_view(part) == item_text(items[i as int]@, prefix@));
        match part {
            Ok(text) => {
                buf.append(text.as_str());
            },
            Err(error) => {
                proof {
                    lemma_items_error(all, prefix@, i + 1);
                }
                return Err(error);
            },
        }
        i += 1;
    }
    assert(all.take(i as int) =~= all);
    Ok(buf)
}

} // verus!
