//! The accessors of one field: which of them there are, what they take and return, and
//! the text of each.

use crate::decl::{TypeArgument, TypeArgumentView, TypeDecl, TypeView};
use crate::error::GenerateError;
use crate::kind::{FieldKind, KindView};
use crate::text::{same_text, unescape, unescaped};
use vstd::prelude::*;
use vstd::string::*;

verus! {

/// How the getter hands the field out.
#[derive(Clone, Debug, PartialEq, Eq)]
pub enum RefType {
    /// By value.
    Copy,
    /// By reference.
    Ref,
    /// By reference to what the field dereferences to, such as `str` for a `String`.
    Deref(String),
}

/// What a `RefType` is to a contract: its texts as sequences of characters.
pub enum RefView {
    Copy,
    Ref,
    Deref(Seq<char>),
}

impl View for RefType {
    type V = RefView;

    open spec fn view(&self) -> RefView {
        match *self {
            RefType::Copy => RefView::Copy,
            RefType::Ref => RefView::Ref,
            RefType::Deref(target) => RefView::Deref(target@),
        }
    }
}

/// Whether a field has a `mut_` accessor, and with which body.
#[derive(Clone, Debug, PartialEq, Eq)]
pub enum MethodKind {
    /// There is none.
    Absent,
    /// It returns a mutable reference to the field.
    Standard,
    /// It has this body.
    Custom(String),
}

/// What a `MethodKind` is to a contract: its texts as sequences of characters.
pub enum MutatorView {
    Absent,
    Standard,
    Custom(Seq<char>),
}

impl View for MethodKind {
    type V = MutatorView;

    open spec fn view(&self) -> MutatorView {
        match *self {
            MethodKind::Absent => MutatorView::Absent,
            MethodKind::Standard => MutatorView::Standard,
            MethodKind::Custom(body) => MutatorView::Custom(body@),
        }
    }
}

/// The accessors of one field.
#[derive(Clone, Debug, PartialEq, Eq)]
pub struct FieldMethods {
    /// The field's declared type.
    pub ty: String,
    pub ref_ty: RefType,
    /// The type that the accessors take and return, where it is not the declared type.
    pub override_ty: Option<String>,
    /// The field's name as declared.
    pub name: String,
    /// The field's name without `r#`, as it stands in the accessors' names.
    pub unesc_name: String,
    /// Whether there is a `has_` accessor.
    pub has: bool,
    /// The value that `clear_` assigns; `None` where it calls the field's own `clear`.
    pub clear: Option<String>,
    /// The expression that `set_` assigns; `None` where it assigns its argument.
    pub set: Option<String>,
    /// The body of `get_`; `None` where it hands out the field itself.
    pub get: Option<String>,
    pub mt: MethodKind,
    /// The body of `take_`; `None` where there is no such accessor.
    pub take: Option<String>,
}

/// What a `FieldMethods` is to a contract: its texts as sequences of characters.
pub struct MethodsView {
    pub ty: Seq<char>,
    pub ref_ty: RefView,
    pub override_ty: Option<Seq<char>>,
    pub name: Seq<char>,
    pub unesc_name: Seq<char>,
    pub has: bool,
    pub clear: Option<Seq<char>>,
    pub set: Option<Seq<char>>,
    pub get: Option<Seq<char>>,
    pub mt: MutatorView,
    pub take: Option<Seq<char>>,
}

impl View for FieldMethods {
    type V = MethodsView;

    open spec fn view(&self) -> MethodsView {
        MethodsView {
            ty: self.ty@,
            ref_ty: self.ref_ty@,
            override_ty: self.override_ty.deep_view(),
            name: self.name@,
            unesc_name: self.unesc_name@,
            has: self.has,
            clear: self.clear.deep_view(),
            set: self.set.deep_view(),
            get: self.get.deep_view(),
            mt: self.mt@,
            take: self.take.deep_view(),
        }
    }
}

/// The accessors that every field starts from: a getter by reference, a setter that
/// assigns, and `clear_` through the field's own `clear`.
pub open spec fn plain_methods(ty: Seq<char>, name: Seq<char>) -> MethodsView {
    MethodsView {
        ty,
        ref_ty: RefView::Ref,
        override_ty: None,
        name,
        unesc_name: unescaped(name),
        has: false,
        clear: None,
        set: None,
        get: None,
        mt: MutatorView::Absent,
        take: None,
    }
}

/// The type inside `Option<..>`: there where the type's last segment is `Option` with
/// exactly one argument, which is a type.
pub open spec fn optional_payload(ty: TypeView) -> Option<Seq<char>> {
    if ty.head == Some("Option"@) && ty.arguments.len() == 1 {
        match ty.arguments[0] {
            TypeArgumentView::Type(inner) => Some(inner),
            TypeArgumentView::Other => None,
        }
    } else {
        None
    }
}

/// The getter of an optional field: the value, or the type's default instance.
pub open spec fn optional_get(name: Seq<char>, inner: Seq<char>) -> Seq<char> {
    "self."@ + name + ".as_ref().unwrap_or_else(|| "@ + inner + "::default_instance())"@
}

/// The mutator of an optional field: it fills an empty field with a default value first.
pub open spec fn optional_mut(name: Seq<char>, inner: Seq<char>) -> Seq<char> {
    "if self."@ + name + ".is_none() {\n                        self."@ + name
        + " = ::std::option::Option::Some("@ + inner
        + "::default());\n                    }\n                    self."@ + name
        + ".as_mut().unwrap()"@
}

/// `take_` of an optional field: the value, or a default one; the field is left empty.
pub open spec fn optional_take(name: Seq<char>, inner: Seq<char>) -> Seq<char> {
    "self."@ + name + ".take().unwrap_or_else(|| "@ + inner + "::default())"@
}

/// `take_` of a field that holds a `Vec`: the field's value, with an empty one left behind.
pub open spec fn vec_take(name: Seq<char>) -> Seq<char> {
    "::std::mem::replace(&mut self."@ + name + ", ::std::vec::Vec::new())"@
}

/// `take_` of a field that holds a `String`.
pub open spec fn string_take(name: Seq<char>) -> Seq<char> {
    "::std::mem::replace(&mut self."@ + name + ", ::std::string::String::new())"@
}

/// What `set_` of an enumeration field stores: the value's integer.
pub open spec fn enumeration_set(enumeration: Seq<char>) -> Seq<char> {
    "unsafe { ::std::mem::transmute::<"@ + enumeration + ", i32>(v) }"@
}

/// What `get_` of an enumeration field returns: the stored integer as the enumeration.
pub open spec fn enumeration_get(name: Seq<char>, enumeration: Seq<char>) -> Seq<char> {
    "unsafe { ::std::mem::transmute::<i32, "@ + enumeration + ">(self."@ + name + ") }"@
}

/// The accessors of a field of the given kind, type and name. It is read only for a kind
/// other than `OneOf` and, for `Optional`, a type with a payload.
pub open spec fn descriptor(kind: KindView, ty: TypeView, name: Seq<char>) -> MethodsView {
    let plain = plain_methods(ty.text, name);
    match kind {
        KindView::Optional => {
            let inner = optional_payload(ty).unwrap();
            MethodsView {
                override_ty: Some(inner),
                has: true,
                clear: Some("::std::option::Option::None"@),
                set: Some("::std::option::Option::Some(v);"@),
                get: Some(optional_get(name, inner)),
                mt: MutatorView::Custom(optional_mut(name, inner)),
                take: Some(optional_take(name, inner)),
                ..plain
            }
        },
        KindView::Int => MethodsView { ref_ty: RefView::Copy, clear: Some("0"@), ..plain },
        KindView::Bool => MethodsView { ref_ty: RefView::Copy, clear: Some("false"@), ..plain },
        KindView::Repeated => MethodsView {
            mt: MutatorView::Standard,
            take: Some(vec_take(name)),
            ..plain
        },
        KindView::Bytes => MethodsView {
            ref_ty: RefView::Deref("[u8]"@),
            mt: MutatorView::Standard,
            take: Some(vec_take(name)),
            ..plain
        },
        KindView::String => MethodsView {
            ref_ty: RefView::Deref("str"@),
            mt: MutatorView::Standard,
            take: Some(string_take(name)),
            ..plain
        },
        KindView::Enumeration(enumeration) => MethodsView {
            override_ty: Some(enumeration),
            ref_ty: RefView::Copy,
            clear: Some("0"@),
            set: Some(enumeration_set(enumeration)),
            get: Some(enumeration_get(name, enumeration)),
            ..plain
        },
        KindView::OneOf(_) => plain,
    }
}

/// What a field of the given kind, type and name gets: no accessors for `OneOf`, and else
/// its accessors. An optional field whose type has no payload cannot be written: that is
/// the error.
pub open spec fn synthesis(kind: KindView, ty: TypeView, name: Seq<char>) -> Result<
    Option<MethodsView>,
    GenerateError,
> {
    if kind is OneOf {
        Ok(None)
    } else if kind is Optional && optional_payload(ty) is None {
        Err(GenerateError::MalformedOptional)
    } else {
        Ok(Some(descriptor(kind, ty, name)))
    }
}

/// Which accessors a kind brings: `has_` comes with `Optional` alone, `take_` and `mut_`
/// with `Optional` and the three containers, and only that of `Optional` has a body of
/// its own. The accessors carry the field's name and declared type as they were given.
pub proof fn lemma_accessors_of_kind(kind: KindView, ty: TypeView, name: Seq<char>)
    requires
        !(kind is OneOf),
    ensures
        ({
            let m = descriptor(kind, ty, name);
            let container = kind is Repeated || kind is Bytes || kind is String;
            &&& m.has <==> kind is Optional
            &&& m.take is Some <==> kind is Optional || container
            &&& m.mt is Custom <==> kind is Optional
            &&& m.mt is Standard <==> container
            &&& m.override_ty is Some <==> kind is Optional || kind is Enumeration
            &&& m.ref_ty is Copy <==> kind is Int || kind is Bool || kind is Enumeration
            &&& m.name == name
            &&& m.unesc_name == unescaped(name)
            &&& m.ty == ty.text
        }),
{
}

/// A field of kind `OneOf` gets no accessors, whatever its group, its type and its name.
pub proof fn lemma_oneof_has_no_accessors(group: Seq<char>, ty: TypeView, name: Seq<char>)
    ensures
        synthesis(KindView::OneOf(group), ty, name) == Ok::<Option<MethodsView>, GenerateError>(
            None,
        ),
{
}

/// The view of accessors, of none, or of an error.
pub open spec fn outcome_view(outcome: Result<Option<FieldMethods>, GenerateError>) -> Result<
    Option<MethodsView>,
    GenerateError,
> {
    match outcome {
        Ok(Some(methods)) => Ok(Some(methods@)),
        Ok(None) => Ok(None),
        Err(error) => Err(error),
    }
}

/// The type that the accessors take and return.
pub open spec fn exposed_type(m: MethodsView) -> Seq<char> {
    match m.override_ty {
        Some(ty) => ty,
        None => m.ty,
    }
}

/// The type that the getter returns.
pub open spec fn returned_type(m: MethodsView) -> Seq<char> {
    match m.ref_ty {
        RefView::Copy => exposed_type(m),
        RefView::Ref => "&"@ + exposed_type(m),
        RefView::Deref(target) => "&"@ + target,
    }
}

pub open spec fn has_text(m: MethodsView) -> Seq<char> {
    if m.has {
        "pub fn has_"@ + m.unesc_name + "(&self) -> bool { self."@ + m.name + ".is_some() }\n"@
    } else {
        Seq::empty()
    }
}

pub open spec fn clear_text(m: MethodsView) -> Seq<char> {
    match m.clear {
        Some(value) => "pub fn clear_"@ + m.unesc_name + "(&mut self) { self."@ + m.name + " = "@
            + value + " }\n"@,
        None => "pub fn clear_"@ + m.unesc_name + "(&mut self) { self."@ + m.name
            + ".clear(); }\n"@,
    }
}

pub open spec fn set_text(m: MethodsView) -> Seq<char> {
    match m.set {
        Some(value) => "pub fn set_"@ + m.unesc_name + "(&mut self, v: "@ + exposed_type(m)
            + ") { self."@ + m.name + " = "@ + value + "; }\n"@,
        None => "pub fn set_"@ + m.unesc_name + "(&mut self, v: "@ + exposed_type(m)
            + ") { self."@ + m.name + " = v; }\n"@,
    }
}

pub open spec fn get_text(m: MethodsView) -> Seq<char> {
    match m.get {
        Some(body) => "pub fn get_"@ + m.unesc_name + "(&self) -> "@ + returned_type(m) + " { "@
            + body + " }\n"@,
        None => "pub fn get_"@ + m.unesc_name + "(&self) -> "@ + returned_type(m) + " { "@ + (
        if m.ref_ty is Copy {
            ""@
        } else {
            "&"@
        }) + "self."@ + m.name + " }\n"@,
    }
}

pub open spec fn mut_text(m: MethodsView) -> Seq<char> {
    match m.mt {
        MutatorView::Standard => "pub fn mut_"@ + m.unesc_name + "(&mut self) -> &mut "@
            + exposed_type(m) + " { &mut self."@ + m.name + " }\n"@,
        MutatorView::Custom(body) => "pub fn mut_"@ + m.unesc_name + "(&mut self) -> &mut "@
            + exposed_type(m) + " { "@ + body + " } \n"@,
        MutatorView::Absent => Seq::empty(),
    }
}

pub open spec fn take_text(m: MethodsView) -> Seq<char> {
    match m.take {
        Some(body) => "pub fn take_"@ + m.unesc_name + "(&mut self) -> "@ + exposed_type(m)
            + " { "@ + body + " }\n"@,
        None => Seq::empty(),
    }
}

/// The accessors of one field as text, in their fixed order: `has_`, `clear_`, `set_`,
/// `get_`, `mut_`, `take_`, each on a line of its own and only where the field has it.
pub open spec fn methods_text(m: MethodsView) -> Seq<char> {
    has_text(m) + clear_text(m) + set_text(m) + get_text(m) + mut_text(m) + take_text(m)
}

/// The payload of an optional field's type, where it has one.
pub fn optional_inner(ty: &TypeDecl) -> (inner: Option<String>)
    ensures
        inner.deep_view() == optional_payload(ty@),
{
    match &ty.head {
        Some(head) => {
            if same_text(head.as_str(), "Option") && ty.arguments.len() == 1 {
                match &ty.arguments[0] {
                    TypeArgument::Type(inner) => Some(inner.clone()),
                    TypeArgument::Other => None,
                }
            } else {
                None
            }
        },
        None => None,
    }
}

fn joined3(a: &str, b: &str, c: &str) -> (text: String)
    ensures
        text@ == a@ + b@ + c@,
{
    let mut text = String::from_str(a);
    text.append(b);
    text.append(c);
    text
}

fn joined5(a: &str, b: &str, c: &str, d: &str, e: &str) -> (text: String)
    ensures
        text@ == a@ + b@ + c@ + d@ + e@,
{
    let mut text = joined3(a, b, c);
    text.append(d);
    text.append(e);
    text
}

fn joined7(a: &str, b: &str, c: &str, d: &str, e: &str, f: &str, g: &str) -> (text: String)
    ensures
        text@ == a@ + b@ + c@ + d@ + e@ + f@ + g@,
{
    let mut text = joined5(a, b, c, d, e);
    text.append(f);
    text.append(g);
    text
}

fn joined9(
    a: &str,
    b: &str,
    c: &str,
    d: &str,
    e: &str,
    f: &str,
    g: &str,
    h: &str,
    i: &str,
) -> (text: String)
    ensures
        text@ == a@ + b@ + c@ + d@ + e@ + f@ + g@ + h@ + i@,
{
    let mut text = joined7(a, b, c, d, e, f, g);
    text.append(h);
    text.append(i);
    text
}

impl FieldKind {
    /// Whether a field of this kind can have the type `ty`: an optional field needs
    /// `Option` of exactly one type, any other field takes any type.
    pub fn accepts(&self, ty: &TypeDecl) -> (fits: bool)
        ensures
            fits == (self@ is Optional ==> optional_payload(ty@) is Some),
    {
        match self {
            FieldKind::Optional => optional_inner(ty).is_some(),
            _ => true,
        }
    }

    /// The accessors of a field of this kind: none for `OneOf`, and else what the kind
    /// prescribes.
    ///
    /// The type of an optional field is `Option` of exactly one type. Where that is not
    /// known, `accepts` tells.
    pub fn methods(&self, ty: &TypeDecl, name: &str) -> (outcome: Option<FieldMethods>)
        requires
            self@ is Optional ==> optional_payload(ty@) is Some,
        ensures
            outcome_view(Ok(outcome)) == synthesis(self@, ty@, name@),
    {
        let mut result = FieldMethods::new(ty.text.as_str(), name);
        match self {
            FieldKind::Optional => {
                let inner = optional_inner(ty).unwrap();
                let inner = inner.as_str();
                result.has = true;
                result.clear = Some(String::from_str("::std::option::Option::None"));
                result.set = Some(String::from_str("::std::option::Option::Some(v);"));
                result.get = Some(
                    joined5(
                        "self.",
                        name,
                        ".as_ref().unwrap_or_else(|| ",
                        inner,
                        "::default_instance())",
                    ),
                );
                result.mt = MethodKind::Custom(
                    joined9(
                        "if self.",
                        name,
                        ".is_none() {\n                        self.",
                        name,
                        " = ::std::option::Option::Some(",
                        inner,
                        "::default());\n                    }\n                    self.",
                        name,
                        ".as_mut().unwrap()",
                    ),
                );
                result.take = Some(
                    joined5("self.", name, ".take().unwrap_or_else(|| ", inner, "::default())"),
                );
                result.override_ty = Some(String::from_str(inner));
            },
            FieldKind::Int => {
                result.ref_ty = RefType::Copy;
                result.clear = Some(String::from_str("0"));
            },
            FieldKind::Bool => {
                result.ref_ty = RefType::Copy;
                result.clear = Some(String::from_str("false"));
            },
            FieldKind::Repeated => {
                result.mt = MethodKind::Standard;
                result.take = Some(
                    joined3("::std::mem::replace(&mut self.", name, ", ::std::vec::Vec::new())"),
                );
            },
            FieldKind::Bytes => {
                result.ref_ty = RefType::Deref(String::from_str("[u8]"));
                result.mt = MethodKind::Standard;
                result.take = Some(
                    joined3("::std::mem::replace(&mut self.", name, ", ::std::vec::Vec::new())"),
                );
            },
            FieldKind::String => {
                result.ref_ty = RefType::Deref(String::from_str("str"));
                result.mt = MethodKind::Standard;
                result.take = Some(
                    joined3(
                        "::std::mem::replace(&mut self.",
                        name,
                        ", ::std::string::String::new())",
                    ),
                );
            },
            FieldKind::Enumeration(enumeration) => {
                let enumeration = enumeration.as_str();
                result.override_ty = Some(String::from_str(enumeration));
                result.ref_ty = RefType::Copy;
                result.clear = Some(String::from_str("0"));
                result.set = Some(
                    joined3("unsafe { ::std::mem::transmute::<", enumeration, ", i32>(v) }"),
                );
                result.get = Some(
                    joined5(
                        "unsafe { ::std::mem::transmute::<i32, ",
                        enumeration,
                        ">(self.",
                        name,
                        ") }",
                    ),
                );
            },
            FieldKind::OneOf(_) => {
                return None;
            },
        }
        Some(result)
    }
}

impl FieldMethods {
    /// The accessors that every field starts from.
    pub fn new(ty: &str, name: &str) -> (methods: FieldMethods)
        ensures
            methods@ == plain_methods(ty@, name@),
    {
        FieldMethods {
            ty: String::from_str(ty),
            ref_ty: RefType::Ref,
            override_ty: None,
            name: String::from_str(name),
            unesc_name: unescape(name),
            has: false,
            clear: None,
            set: None,
            get: None,
            mt: MethodKind::Absent,
            take: None,
        }
    }

    /// The type that the accessors take and return.
    pub fn exposed_type(&self) -> (ty: &str)
        ensures
            ty@ == exposed_type(self@),
    {
        match &self.override_ty {
            Some(ty) => ty.as_str(),
            None => self.ty.as_str(),
        }
    }

    /// The type that the getter returns.
    pub fn returned_type(&self) -> (ty: String)
        ensures
            ty@ == returned_type(self@),
    {
        match &self.ref_ty {
            RefType::Copy => String::from_str(self.exposed_type()),
            RefType::Ref => {
                let mut ty = String::from_str("&");
                ty.append(self.exposed_type());
                ty
            },
            RefType::Deref(target) => {
                let mut ty = String::from_str("&");
                ty.append(target.as_str());
                ty
            },
        }
    }

    fn has_method(&self) -> (text: String)
        ensures
            text@ == has_text(self@),
    {
        if self.has {
            joined5(
                "pub fn has_",
                self.unesc_name.as_str(),
                "(&self) -> bool { self.",
                self.name.as_str(),
                ".is_some() }\n",
            )
        } else {
            String::new()
        }
    }

    fn clear_method(&self) -> (text: String)
        ensures
            text@ == clear_text(self@),
    {
        let (unesc_name, name) = (self.unesc_name.as_str(), self.name.as_str());
        match &self.clear {
            Some(value) => joined7(
                "pub fn clear_",
                unesc_name,
                "(&mut self) { self.",
                name,
                " = ",
                value.as_str(),
                " }\n",
            ),
            None => joined5("pub fn clear_", unesc_name, "(&mut self) { self.", name, ".clear(); }\n"),
        }
    }

    fn set_method(&self) -> (text: String)
        ensures
            text@ == set_text(self@),
    {
        let (unesc_name, name) = (self.unesc_name.as_str(), self.name.as_str());
        let ty = self.exposed_type();
        match &self.set {
            Some(value) => joined9(
                "pub fn set_",
                unesc_name,
                "(&mut self, v: ",
                ty,
                ") { self.",
                name,
                " = ",
                value.as_str(),
                "; }\n",
            ),
            None => joined7(
                "pub fn set_",
                unesc_name,
                "(&mut self, v: ",
                ty,
                ") { self.",
                name,
                " = v; }\n",
            ),
        }
    }

    fn get_method(&self) -> (text: String)
        ensures
            text@ == get_text(self@),
    {
        let (unesc_name, name) = (self.unesc_name.as_str(), self.name.as_str());
        let returned = self.returned_type();
        match &self.get {
            Some(body) => joined7(
                "pub fn get_",
                unesc_name,
                "(&self) -> ",
                returned.as_str(),
                " { ",
                body.as_str(),
                " }\n",
            ),
            None => {
                let borrow = match &self.ref_ty {
                    RefType::Copy => "",
                    _ => "&",
                };
                joined9(
                    "pub fn get_",
                    unesc_name,
                    "(&self) -> ",
                    returned.as_str(),
                    " { ",
                    borrow,
                    "self.",
                    name,
                    " }\n",
                )
            },
        }
    }

    fn mut_method(&self) -> (text: String)
        ensures
            text@ == mut_text(self@),
    {
        let (unesc_name, name) = (self.unesc_name.as_str(), self.name.as_str());
        let ty = self.exposed_type();
        match &self.mt {
            MethodKind::Standard => joined7(
                "pub fn mut_",
                unesc_name,
                "(&mut self) -> &mut ",
                ty,
                " { &mut self.",
                name,
                " }\n",
            ),
            MethodKind::Custom(body) => joined7(
                "pub fn mut_",
                unesc_name,
                "(&mut self) -> &mut ",
                ty,
                " { ",
                body.as_str(),
                " } \n",
            ),
            MethodKind::Absent => String::new(),
        }
    }

    fn take_method(&self) -> (text: String)
        ensures
            text@ == take_text(self@),
    {
        match &self.take {
            Some(body) => joined7(
                "pub fn take_",
                self.unesc_name.as_str(),
                "(&mut self) -> ",
                self.exposed_type(),
                " { ",
                body.as_str(),
                " }\n",
            ),
            None => String::new(),
        }
    }

    /// Writes the accessors behind what `buf` holds: `has_`, `clear_`, `set_`, `get_`,
    /// `mut_` and `take_` in this order, each only where the field has it.
    pub fn write_methods(&self, buf: &mut String)
        ensures
            final(buf)@ == old(buf)@ + methods_text(self@),
    {
        let ghost before = buf@;
        buf.append(self.has_method().as_str());
        buf.append(self.clear_method().as_str());
        buf.append(self.set_method().as_str());
        buf.append(self.get_method().as_str());
        buf.append(self.mut_method().as_str());
        buf.append(self.take_method().as_str());
        assert(buf@ =~= before + methods_text(self@));
    }
}

} // verus!
