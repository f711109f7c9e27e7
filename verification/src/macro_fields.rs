//! What the payload derives read from the struct they are applied to.
//!
//! Each field of a payload struct carries one attribute `rename(expr = "...")`
//! whose string holds a Rust expression; the derived code stores and looks up
//! the field under that expression's value instead of the field's name.

use vstd::prelude::*;
use crate::payload::{FieldModel, FieldSet};

verus! {

/// The outcome of reading one attribute of a field as `rename(expr = "...")`.
#[derive(Debug)]
pub enum AttrParse {
    /// The attribute renames the field; `expr` is the string's content.
    Rename { expr: String },
    /// The attribute is not of that form; the message says why.
    Invalid { message: String },
}

/// A field as written in the struct: its name, its type as source text, and
/// each of its attributes as read.
#[derive(Debug)]
pub struct FieldDecl {
    pub name: String,
    pub ty: String,
    pub attrs: Vec<AttrParse>,
}

/// The fields of a struct.
#[derive(Debug)]
pub enum FieldsShape {
    Unit,
    Named(Vec<FieldDecl>),
    Unnamed,
}

/// The item a derive is applied to.
#[derive(Debug)]
pub enum DataShape {
    Struct(FieldsShape),
    Enum,
    Union,
}

/// A derive's input: the item's name and its shape.
#[derive(Debug)]
pub struct DeriveInput {
    pub name: String,
    pub data: DataShape,
}

/// Which of the two derives is expanded.
#[derive(Clone, Copy, PartialEq, Eq, Structural, Debug)]
pub enum Do {
    Serialize,
    Deserialize,
}

/// A field as the derives use it: its name, its type, and the source text of
/// the expression whose value it is stored under, which parses as one expression.
#[derive(Debug)]
pub struct MyField {
    pub written_name: String,
    pub ty: String,
    pub renamed_link: String,
}

/// Why a derive refused its input.
#[derive(Debug)]
pub struct MacroError {
    pub message: String,
}

/// What `syn::parse_str::<syn::Expr>` makes of a text: nothing when the
/// whole text is one Rust expression, else the message of syn's error.
pub uninterp spec fn syn_expr_error(text: Seq<char>) -> Option<Seq<char>>;

/// Parses `text` as one Rust expression with `syn::parse_str::<syn::Expr>`,
/// which fails unless the whole text is a single expression. Whether it
/// succeeds, and the message of its error, depend on the text alone; the
/// parsed expression itself is not kept.
#[verifier::external_body]
fn parse_expr(text: &str) -> (r: Result<(), String>)
    ensures
        match r {
            Ok(()) => syn_expr_error(text@) is None,
            Err(m) => syn_expr_error(text@) == Some(m@),
        },
{
    match syn::parse_str::<syn::Expr>(text) {
        Ok(_) => Ok(()),
        Err(e) => Err(e.to_string()),
    }
}

pub open spec fn not_struct_msg() -> Seq<char> {
    "Can only be used on structs"@
}

pub open spec fn named_only_msg() -> Seq<char> {
    "Only works on named fields"@
}

pub open spec fn rename_twice_msg() -> Seq<char> {
    "Cannot rename twice"@
}

pub open spec fn missing_rename_msg() -> Seq<char> {
    "Must provide a rename(fn) attr"@
}

/// Reading a field's attributes in order: the first attribute that is not a
/// rename is the error; a second rename is an error; else the rename's
/// expression, if there was one.
pub open spec fn attrs_rename(attrs: Seq<AttrParse>) -> Result<Option<Seq<char>>, Seq<char>>
    decreases attrs.len(),
{
    if attrs.len() == 0 {
        Ok(None)
    } else {
        match attrs_rename(attrs.drop_last()) {
            Err(m) => Err(m),
            Ok(prev) => match attrs.last() {
                AttrParse::Invalid { message } => Err(message@),
                AttrParse::Rename { expr } => if prev is Some {
                    Err(rename_twice_msg())
                } else {
                    Ok(Some(expr@))
                },
            },
        }
    }
}

/// A field read as (name, type, expression text), or the error that stops it.
pub open spec fn field_info(f: FieldDecl) -> Result<(Seq<char>, Seq<char>, Seq<char>), Seq<char>> {
    match attrs_rename(f.attrs@) {
        Err(m) => Err(m),
        Ok(None) => Err(missing_rename_msg()),
        Ok(Some(e)) => match syn_expr_error(e) {
            None => Ok((f.name@, f.ty@, e)),
            Some(m) => Err(m),
        },
    }
}

/// The fields read in order, or the first field's error.
pub open spec fn fields_info(fs: Seq<FieldDecl>) -> Result<Seq<(Seq<char>, Seq<char>, Seq<char>)>, Seq<char>>
    decreases fs.len(),
{
    if fs.len() == 0 {
        Ok(Seq::empty())
    } else {
        match fields_info(fs.drop_last()) {
            Err(m) => Err(m),
            Ok(prev) => match field_info(fs.last()) {
                Err(m) => Err(m),
                Ok(t) => Ok(prev.push(t)),
            },
        }
    }
}

/// What reading a struct's fields gives: named fields are read one by one;
/// a unit struct or a tuple struct is refused.
pub open spec fn spec_extract(fields: FieldsShape) -> Result<Seq<(Seq<char>, Seq<char>, Seq<char>)>, Seq<char>> {
    match fields {
        FieldsShape::Named(fs) => fields_info(fs@),
        _ => Err(named_only_msg()),
    }
}

pub open spec fn field_view(f: MyField) -> (Seq<char>, Seq<char>, Seq<char>) {
    (f.written_name@, f.ty@, f.renamed_link@)
}

pub open spec fn fields_view(v: Seq<MyField>) -> Seq<(Seq<char>, Seq<char>, Seq<char>)> {
    v.map_values(|f: MyField| field_view(f))
}

pub open spec fn extract_view(r: Result<Vec<MyField>, MacroError>) -> Result<Seq<(Seq<char>, Seq<char>, Seq<char>)>, Seq<char>> {
    match r {
        Ok(v) => Ok(fields_view(v@)),
        Err(e) => Err(e.message@),
    }
}

/// Once a prefix of the attributes fails, so do all longer prefixes, with the same error.
proof fn lemma_attrs_err_prefix(attrs: Seq<AttrParse>, k: int)
    requires
        0 <= k <= attrs.len(),
        attrs_rename(attrs.take(k)) is Err,
    ensures
        attrs_rename(attrs) == attrs_rename(attrs.take(k)),
    decreases attrs.len() - k,
{
    if k < attrs.len() {
        assert(attrs.take(k + 1).drop_last() =~= attrs.take(k));
        lemma_attrs_err_prefix(attrs, k + 1);
    } else {
        assert(attrs.take(k) =~= attrs);
    }
}

/// Once a prefix of the fields fails, so do all longer prefixes, with the same error.
proof fn lemma_fields_err_prefix(fs: Seq<FieldDecl>, k: int)
    requires
        0 <= k <= fs.len(),
        fields_info(fs.take(k)) is Err,
    ensures
        fields_info(fs) == fields_info(fs.take(k)),
    decreases fs.len() - k,
{
    if k < fs.len() {
        assert(fs.take(k + 1).drop_last() =~= fs.take(k));
        lemma_fields_err_prefix(fs, k + 1);
    } else {
        assert(fs.take(k) =~= fs);
    }
}

pub open spec fn opt_text(o: Option<String>) -> Option<Seq<char>> {
    match o {
        Some(s) => Some(s@),
        None => None,
    }
}

/// Reads a field's attributes: the expression of its one rename, if any.
fn attr_rename(attrs: &Vec<AttrParse>) -> (r: Result<Option<String>, MacroError>)
    ensures
        match r {
            Ok(o) => attrs_rename(attrs@) == Ok::<Option<Seq<char>>, Seq<char>>(opt_text(o)),
            Err(e) => attrs_rename(attrs@) == Err::<Option<Seq<char>>, Seq<char>>(e.message@),
        },
{
    let n = attrs.len();
    let mut valid: Option<String> = None;
    let mut i: usize = 0;
    assert(attrs@.take(0) =~= Seq::<AttrParse>::empty());
    while i < n
        invariant
            n == attrs.len(),
            i <= n,
            attrs_rename(attrs@.take(i as int)) == Ok::<Option<Seq<char>>, Seq<char>>(opt_text(valid)),
        decreases n - i,
    {
        assert(attrs@.take(i + 1).drop_last() =~= attrs@.take(i as int));
        assert(attrs@.take(i + 1).last() == attrs@[i as int]);
        match &attrs[i] {
            AttrParse::Invalid { message } => {
                let e = MacroError { message: message.clone() };
                proof {
                    lemma_attrs_err_prefix(attrs@, i + 1);
                }
                return Err(e);
            },
            AttrParse::Rename { expr } => {
                if valid.is_some() {
                    let e = MacroError { message: "Cannot rename twice".to_owned() };
                    proof {
                        lemma_attrs_err_prefix(attrs@, i + 1);
                    }
                    return Err(e);
                }
                valid = Some(expr.clone());
            },
        }
        i = i + 1;
    }
    assert(attrs@.take(n as int) =~= attrs@);
    Ok(valid)
}

/// Reads the fields of a struct for the payload derives: each named field
/// needs exactly one `rename(expr = "...")` attribute, and no other attribute,
/// whose string parses as an expression.
pub fn extract_field_info(fields: FieldsShape) -> (r: Result<Vec<MyField>, MacroError>)
    ensures
        extract_view(r) == spec_extract(fields),
{
    match fields {
        FieldsShape::Unit => Err(MacroError { message: "Only works on named fields".to_owned() }),
        FieldsShape::Unnamed => Err(MacroError { message: "Only works on named fields".to_owned() }),
        FieldsShape::Named(fs) => {
            let n = fs.len();
            let mut ret: Vec<MyField> = Vec::new();
            let mut i: usize = 0;
            assert(fs@.take(0) =~= Seq::<FieldDecl>::empty());
            assert(fields_view(ret@) =~= Seq::empty());
            while i < n
                invariant
                    n == fs.len(),
                    i <= n,
                    spec_extract(fields) == fields_info(fs@),
                    fields_info(fs@.take(i as int)) == Ok::<
                        Seq<(Seq<char>, Seq<char>, Seq<char>)>,
                        Seq<char>,
                    >(fields_view(ret@)),
                decreases n - i,
            {
                assert(fs@.take(i + 1).drop_last() =~= fs@.take(i as int));
                assert(fs@.take(i + 1).last() == fs@[i as int]);
                let field = &fs[i];
                let attrs = attr_rename(&field.attrs);
                match attrs {
                    Err(e) => {
                        proof {
                            assert(fields_info(fs@.take(i + 1)) == Err::<
                                Seq<(Seq<char>, Seq<char>, Seq<char>)>,
                                Seq<char>,
                            >(e.message@));
                            lemma_fields_err_prefix(fs@, i + 1);
                        }
                        return Err(e);
                    },
                    Ok(None) => {
                        let e = MacroError { message: "Must provide a rename(fn) attr".to_owned() };
                        proof {
                            assert(fields_info(fs@.take(i + 1)) == Err::<
                                Seq<(Seq<char>, Seq<char>, Seq<char>)>,
                                Seq<char>,
                            >(e.message@));
                            lemma_fields_err_prefix(fs@, i + 1);
                        }
                        return Err(e);
                    },
                    Ok(Some(expr)) => {
                        match parse_expr(expr.as_str()) {
                            Err(m) => {
                                proof {
                                    lemma_fields_err_prefix(fs@, i + 1);
                                }
                                return Err(MacroError { message: m });
                            },
                            Ok(()) => {
                                let f = MyField {
                                    written_name: field.name.clone(),
                                    ty: field.ty.clone(),
                                    renamed_link: expr,
                                };
                                let ghost before = ret@;
                                ret.push(f);
                                assert(fields_view(ret@) =~= fields_view(before).push(field_view(f)));
                            },
                        }
                    },
                }
                i = i + 1;
            }
            assert(fs@.take(n as int) =~= fs@);
            Ok(ret)
        },
    }
}

/// What a payload derive expands: the struct's name, which of the two traits,
/// and its fields in declaration order.
#[derive(Debug)]
pub struct PayloadDerive {
    pub name: String,
    pub emit: Do,
    pub fields: Vec<MyField>,
}

/// Reads the input of a payload derive. Only structs with named fields are
/// accepted; see [`extract_field_info`] for what each field must carry.
pub fn payload_impl(input: DeriveInput, emit: Do) -> (r: Result<PayloadDerive, MacroError>)
    ensures
        match input.data {
            DataShape::Struct(fields) => match spec_extract(fields) {
                Ok(v) => r matches Ok(d) && d.name@ == input.name@ && d.emit == emit && fields_view(
                    d.fields@,
                ) == v,
                Err(m) => r matches Err(e) && e.message@ == m,
            },
            _ => r matches Err(e) && e.message@ == not_struct_msg(),
        },
{
    match input.data {
        DataShape::Struct(fields) => {
            let fields = extract_field_info(fields);
            match fields {
                Ok(fields) => Ok(PayloadDerive { name: input.name, emit, fields }),
                Err(e) => Err(e),
            }
        },
        DataShape::Enum => Err(MacroError { message: "Can only be used on structs".to_owned() }),
        DataShape::Union => Err(MacroError { message: "Can only be used on structs".to_owned() }),
    }
}

/// The model of the field set a derived deserializer uses: each field is
/// found by its key, which is also the label in its errors, unknown keys are
/// skipped and fields are numbered from 0.
pub open spec fn derived_model(keys: Seq<Seq<char>>) -> FieldModel {
    FieldModel { keys, labels: keys, strict: false }
}

impl PayloadDerive {
    /// The number of fields.
    pub fn num_fields(&self) -> (r: usize)
        ensures
            r == self.fields@.len(),
    {
        self.fields.len()
    }

    /// The fields' names as written, in declaration order.
    pub fn field_names(&self) -> (r: Vec<String>)
        ensures
            r@.len() == self.fields@.len(),
            forall|i: int| 0 <= i < r@.len() ==> #[trigger] r@[i]@ == self.fields@[i].written_name@,
    {
        let n = self.fields.len();
        let mut r: Vec<String> = Vec::new();
        let mut i: usize = 0;
        while i < n
            invariant
                n == self.fields.len(),
                i <= n,
                r@.len() == i,
                forall|t: int| 0 <= t < i ==> #[trigger] r@[t]@ == self.fields@[t].written_name@,
            decreases n - i,
        {
            r.push(self.fields[i].written_name.clone());
            i = i + 1;
        }
        r
    }

    /// What the derived deserializer expects, for its error messages.
    pub fn expecting(&self) -> (r: String)
        ensures
            r@ == "struct "@ + self.name@,
    {
        let mut r = "struct ".to_owned();
        r.append(self.name.as_str());
        r
    }

    /// The field set of the derived deserializer, given the values that the
    /// fields' expressions take, one per field in declaration order.
    pub fn field_set(&self, keys: Vec<String>) -> (r: FieldSet)
        requires
            keys.len() == self.fields.len(),
        ensures
            r.wf(),
            r.model() == derived_model(keys.deep_view()),
    {
        let r = FieldSet::lenient(keys);
        assert(r.model() =~= derived_model(r.keys.deep_view()));
        r
    }
}

} // verus!
