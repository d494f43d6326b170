//! Declarations as this library reads them: structs, their fields and the annotations on
//! both, held as plain text and lists.

use vstd::prelude::*;

verus! {

/// One entry of the parenthesised list of an annotation.
#[derive(Clone, Debug, PartialEq, Eq)]
pub enum MetaEntry {
    /// A bare keyword, as `optional` in `#[prost(optional)]`.
    Word(String),
    /// A `name = literal` pair. The literal is kept as it was written, quotes included.
    NameValue(String, String),
    /// Anything else: a nested list, a literal on its own.
    Other,
}

/// What a `MetaEntry` is to a contract: its texts as sequences of characters.
pub enum EntryView {
    Word(Seq<char>),
    NameValue(Seq<char>, Seq<char>),
    Other,
}

impl View for MetaEntry {
    type V = EntryView;

    open spec fn view(&self) -> EntryView {
        match *self {
            MetaEntry::Word(word) => EntryView::Word(word@),
            MetaEntry::NameValue(name, literal) => EntryView::NameValue(name@, literal@),
            MetaEntry::Other => EntryView::Other,
        }
    }
}

impl DeepView for MetaEntry {
    type V = EntryView;

    open spec fn deep_view(&self) -> EntryView {
        self@
    }
}

/// What an annotation is there for, told by its path.
#[derive(Clone, Copy, Debug, PartialEq, Eq, Structural)]
pub enum Carrier {
    /// `#[derive(..)]`: the traits derived for a declaration.
    Derive,
    /// `#[prost(..)]`: the wire metadata of a field.
    Wire,
    /// Any other annotation.
    Other,
}

/// An annotation on a declaration or on a field.
#[derive(Clone, Debug, PartialEq, Eq)]
pub struct Annotation {
    pub carrier: Carrier,
    /// What follows the path, as the text of its tokens: `( Clone , Debug )` for
    /// `#[derive(Clone, Debug)]`.
    pub tokens: String,
    /// The entries of a wire annotation's list, in their order; empty for any other
    /// annotation, and where there is no list.
    pub entries: Vec<MetaEntry>,
}

/// What a `Annotation` is to a contract: its texts as sequences of characters.
pub struct AnnotationView {
    pub carrier: Carrier,
    pub tokens: Seq<char>,
    pub entries: Seq<EntryView>,
}

impl View for Annotation {
    type V = AnnotationView;

    open spec fn view(&self) -> AnnotationView {
        AnnotationView {
            carrier: self.carrier,
            tokens: self.tokens@,
            entries: self.entries.deep_view(),
        }
    }
}

impl DeepView for Annotation {
    type V = AnnotationView;

    open spec fn deep_view(&self) -> AnnotationView {
        self@
    }
}

/// One generic argument of a type.
#[derive(Clone, Debug, PartialEq, Eq)]
pub enum TypeArgument {
    /// A type, as text.
    Type(String),
    /// A lifetime, a constant, a binding.
    Other,
}

/// What a `TypeArgument` is to a contract: its texts as sequences of characters.
pub enum TypeArgumentView {
    Type(Seq<char>),
    Other,
}

impl View for TypeArgument {
    type V = TypeArgumentView;

    open spec fn view(&self) -> TypeArgumentView {
        match *self {
            TypeArgument::Type(text) => TypeArgumentView::Type(text@),
            TypeArgument::Other => TypeArgumentView::Other,
        }
    }
}

impl DeepView for TypeArgument {
    type V = TypeArgumentView;

    open spec fn deep_view(&self) -> TypeArgumentView {
        self@
    }
}

/// The declared type of a field.
#[derive(Clone, Debug, PartialEq, Eq)]
pub struct TypeDecl {
    /// The whole type, as text.
    pub text: String,
    /// The last segment's name where the type is a path, as `Option` in
    /// `::std::option::Option<Inner>`.
    pub head: Option<String>,
    /// The arguments that the last segment has between angle brackets.
    pub arguments: Vec<TypeArgument>,
}

/// What a `TypeDecl` is to a contract: its texts as sequences of characters.
pub struct TypeView {
    pub text: Seq<char>,
    pub head: Option<Seq<char>>,
    pub arguments: Seq<TypeArgumentView>,
}

impl View for TypeDecl {
    type V = TypeView;

    open spec fn view(&self) -> TypeView {
        TypeView {
            text: self.text@,
            head: self.head.deep_view(),
            arguments: self.arguments.deep_view(),
        }
    }
}

impl DeepView for TypeDecl {
    type V = TypeView;

    open spec fn deep_view(&self) -> TypeView {
        self@
    }
}

/// A field of a struct.
#[derive(Clone, Debug, PartialEq, Eq)]
pub struct FieldDecl {
    /// The field's name as written, `r#` included; `None` in a tuple struct.
    pub name: Option<String>,
    pub ty: TypeDecl,
    pub attrs: Vec<Annotation>,
}

/// What a `FieldDecl` is to a contract: its texts as sequences of characters.
pub struct FieldView {
    pub name: Option<Seq<char>>,
    pub ty: TypeView,
    pub attrs: Seq<AnnotationView>,
}

impl View for FieldDecl {
    type V = FieldView;

    open spec fn view(&self) -> FieldView {
        FieldView { name: self.name.deep_view(), ty: self.ty@, attrs: self.attrs.deep_view() }
    }
}

impl DeepView for FieldDecl {
    type V = FieldView;

    open spec fn deep_view(&self) -> FieldView {
        self@
    }
}

/// A struct declaration.
#[derive(Clone, Debug, PartialEq, Eq)]
pub struct StructDecl {
    /// The struct's name as written.
    pub name: String,
    pub attrs: Vec<Annotation>,
    /// The fields in the order of their declaration.
    pub fields: Vec<FieldDecl>,
}

/// What a `StructDecl` is to a contract: its texts as sequences of characters.
pub struct StructView {
    pub name: Seq<char>,
    pub attrs: Seq<AnnotationView>,
    pub fields: Seq<FieldView>,
}

impl View for StructDecl {
    type V = StructView;

    open spec fn view(&self) -> StructView {
        StructView {
            name: self.name@,
            attrs: self.attrs.deep_view(),
            fields: self.fields.deep_view(),
        }
    }
}

impl DeepView for StructDecl {
    type V = StructView;

    open spec fn deep_view(&self) -> StructView {
        self@
    }
}

/// An item of a file or of a module.
#[derive(Debug, PartialEq, Eq)]
pub enum Declaration {
    Struct(StructDecl),
    /// A module with its name and, where its body is written in place, its items.
    Module(String, Option<Vec<Declaration>>),
    /// Any other item.
    Other,
}

/// What a `Declaration` is to a contract: its texts as sequences of characters.
pub enum DeclarationView {
    Struct(StructView),
    Module(Seq<char>, Option<Seq<DeclarationView>>),
    Other,
}

/// The views of a list of items, in order.
pub open spec fn declaration_views(items: Seq<Declaration>) -> Seq<DeclarationView>
    decreases items,
{
    Seq::new(
        items.len(),
        |i: int|
            if 0 <= i < items.len() {
                items[i]@
            } else {
                DeclarationView::Other
            },
    )
}

impl View for Declaration {
    type V = DeclarationView;

    open spec fn view(&self) -> DeclarationView
        decreases *self,
    {
        match *self {
            Declaration::Struct(decl) => DeclarationView::Struct(decl@),
            Declaration::Module(name, Some(content)) => DeclarationView::Module(
                name@,
                Some(declaration_views(content@)),
            ),
            Declaration::Module(name, None) => DeclarationView::Module(name@, None),
            Declaration::Other => DeclarationView::Other,
        }
    }
}

} // verus!
