//! Field schemas: the declarative description of a wrapped command, and
//! the parser that turns one field's attribute block into a resolved
//! [`FieldSpec`], deferring and accumulating every per-field error.

use vstd::prelude::*;

use crate::text::{lower, lower_spec, str_eq};

verus! {

/// One item of a field's attribute block: a bare key (`no_val`, `no_opt`)
/// or a key with a string value (`name = "C"`, `prefix = "-"`).
pub struct AttrItem {
    pub key: String,
    pub value: Option<String>,
}

/// Mathematical image of an [`AttrItem`].
pub struct AttrItemView {
    pub key: Seq<char>,
    pub value: Option<Seq<char>>,
}

impl View for AttrItem {
    type V = AttrItemView;

    open spec fn view(&self) -> AttrItemView {
        AttrItemView {
            key: self.key@,
            value: match self.value {
                Some(v) => Some(v@),
                None => None,
            },
        }
    }
}

/// One field of a command schema, as declared: its name and, if present,
/// its attribute block.
pub struct FieldDecl {
    pub field_name: String,
    pub attrs: Option<Vec<AttrItem>>,
}

/// Mathematical image of a [`FieldDecl`].
pub struct FieldDeclView {
    pub field_name: Seq<char>,
    pub attrs: Option<Seq<AttrItemView>>,
}

impl View for FieldDecl {
    type V = FieldDeclView;

    open spec fn view(&self) -> FieldDeclView {
        FieldDeclView {
            field_name: self.field_name@,
            attrs: match self.attrs {
                Some(items) => Some(items@.map_values(|it: AttrItem| it@)),
                None => None,
            },
        }
    }
}

/// A whole command declaration: the kind name, an optional program-name
/// override, and the ordered field declarations.
pub struct SchemaDecl {
    pub kind_name: String,
    pub name: Option<String>,
    pub fields: Vec<FieldDecl>,
}

/// Mathematical image of a [`SchemaDecl`].
pub struct SchemaDeclView {
    pub kind_name: Seq<char>,
    pub name: Option<Seq<char>>,
    pub fields: Seq<FieldDeclView>,
}

impl View for SchemaDecl {
    type V = SchemaDeclView;

    open spec fn view(&self) -> SchemaDeclView {
        SchemaDeclView {
            kind_name: self.kind_name@,
            name: match self.name {
                Some(n) => Some(n@),
                None => None,
            },
            fields: self.fields@.map_values(|d: FieldDecl| d@),
        }
    }
}

/// What a field's setter emits: only the option marker, the marker
/// followed by a value, or a bare value.
#[derive(Clone, Copy, Debug, PartialEq, Eq, Structural)]
pub enum FieldKind {
    Flag,
    Valued,
    Positional,
}

/// One resolved argument declaration: every default filled in.
#[derive(Debug, PartialEq)]
pub struct FieldSpec {
    pub field_name: String,
    pub kind: FieldKind,
    pub option_name: String,
    pub prefix: String,
}

/// Mathematical image of a [`FieldSpec`].
pub struct FieldSpecView {
    pub field_name: Seq<char>,
    pub kind: FieldKind,
    pub option_name: Seq<char>,
    pub prefix: Seq<char>,
}

impl View for FieldSpec {
    type V = FieldSpecView;

    open spec fn view(&self) -> FieldSpecView {
        FieldSpecView {
            field_name: self.field_name@,
            kind: self.kind,
            option_name: self.option_name@,
            prefix: self.prefix@,
        }
    }
}

/// A per-field schema diagnostic, tagged with the field it belongs to.
#[derive(Debug)]
pub enum SchemaError {
    /// The field declared no attribute block at all.
    MissingAttribute { field: String },
    /// The attribute block held an item that is not one of the
    /// recognized keys in its recognized shape.
    UnknownAttributeKey { field: String, key: String },
    /// `no_val` and `no_opt` were both set: a field cannot be a flag
    /// and positional at once.
    AmbiguousFieldKind { field: String },
}

/// Mathematical image of a [`SchemaError`].
pub enum SchemaErrorView {
    MissingAttribute { field: Seq<char> },
    UnknownAttributeKey { field: Seq<char>, key: Seq<char> },
    AmbiguousFieldKind { field: Seq<char> },
}

impl View for SchemaError {
    type V = SchemaErrorView;

    open spec fn view(&self) -> SchemaErrorView {
        match self {
            SchemaError::MissingAttribute { field } => SchemaErrorView::MissingAttribute {
                field: field@,
            },
            SchemaError::UnknownAttributeKey { field, key } => SchemaErrorView::UnknownAttributeKey {
                field: field@,
                key: key@,
            },
            SchemaError::AmbiguousFieldKind { field } => SchemaErrorView::AmbiguousFieldKind {
                field: field@,
            },
        }
    }
}

/// The display text of a schema diagnostic, naming its field.
pub open spec fn message_spec(e: SchemaErrorView) -> Seq<char> {
    match e {
        SchemaErrorView::MissingAttribute { field } => "missing argument attribute on field "@
            + field,
        SchemaErrorView::UnknownAttributeKey { field, key } => "unknown argument attribute key "@
            + key + " on field "@ + field,
        SchemaErrorView::AmbiguousFieldKind { field } => "no_val and no_opt both set on field "@
            + field,
    }
}

impl SchemaError {
    /// The diagnostic as display text.
    pub fn message(&self) -> (r: String)
        ensures
            r@ == message_spec(self@),
    {
        match self {
            SchemaError::MissingAttribute { field } => {
                let mut s = String::from_str("missing argument attribute on field ");
                s.append(field.as_str());
                s
            },
            SchemaError::UnknownAttributeKey { field, key } => {
                let mut s = String::from_str("unknown argument attribute key ");
                s.append(key.as_str());
                s.append(" on field ");
                s.append(field.as_str());
                s
            },
            SchemaError::AmbiguousFieldKind { field } => {
                let mut s = String::from_str("no_val and no_opt both set on field ");
                s.append(field.as_str());
                s
            },
        }
    }
}

/// A parsed schema: the resolved program name and the resolved field
/// specifications, in declaration order.
#[derive(Debug)]
pub struct CommandSchema {
    pub program_name: String,
    pub fields: Vec<FieldSpec>,
}

/// Mathematical image of a [`CommandSchema`].
pub struct CommandSchemaView {
    pub program_name: Seq<char>,
    pub fields: Seq<FieldSpecView>,
}

impl View for CommandSchema {
    type V = CommandSchemaView;

    open spec fn view(&self) -> CommandSchemaView {
        CommandSchemaView {
            program_name: self.program_name@,
            fields: self.fields@.map_values(|f: FieldSpec| f@),
        }
    }
}

/// The prefix an option marker carries when the declaration names none.
///
/// i.e. the `--` in `ls --version`
pub open spec fn default_prefix_spec() -> Seq<char> {
    "--"@
}

/// The default prefix of a command argument.
///
/// i.e. the "--" in `ls --version`
pub fn default_prefix() -> (r: String)
    ensures
        r@ == default_prefix_spec(),
{
    String::from_str("--")
}

/// The attribute keys resolved so far while reading one block.
pub struct AttrResolution {
    pub no_val: bool,
    pub no_opt: bool,
    pub name: Option<Seq<char>>,
    pub prefix: Option<Seq<char>>,
}

/// The state before any attribute item is read.
pub open spec fn empty_resolution() -> AttrResolution {
    AttrResolution { no_val: false, no_opt: false, name: None, prefix: None }
}

/// Whether an attribute item is one of the recognized keys in its
/// recognized shape: `no_val` and `no_opt` bare, `name` and `prefix`
/// with a value.
pub open spec fn known_item(it: AttrItemView) -> bool {
    ||| (it.key == "no_val"@ && it.value is None)
    ||| (it.key == "no_opt"@ && it.value is None)
    ||| (it.key == "name"@ && it.value is Some)
    ||| (it.key == "prefix"@ && it.value is Some)
}

/// Fold one known attribute item into the resolution state; a repeated
/// `name` or `prefix` keeps the later value.
pub open spec fn apply_item(st: AttrResolution, it: AttrItemView) -> AttrResolution {
    if it.key == "no_val"@ {
        AttrResolution { no_val: true, no_opt: st.no_opt, name: st.name, prefix: st.prefix }
    } else if it.key == "no_opt"@ {
        AttrResolution { no_val: st.no_val, no_opt: true, name: st.name, prefix: st.prefix }
    } else if it.key == "name"@ {
        AttrResolution { no_val: st.no_val, no_opt: st.no_opt, name: Some(it.value->0), prefix: st.prefix }
    } else {
        AttrResolution { no_val: st.no_val, no_opt: st.no_opt, name: st.name, prefix: Some(it.value->0) }
    }
}

/// Resolve an attribute block left to right; the first unrecognized
/// item stops the block, and its key is reported.
pub open spec fn resolve_items(items: Seq<AttrItemView>) -> Result<AttrResolution, Seq<char>>
    decreases items.len(),
{
    if items.len() == 0 {
        Ok(empty_resolution())
    } else {
        match resolve_items(items.drop_last()) {
            Err(k) => Err(k),
            Ok(st) => {
                let it = items.last();
                if known_item(it) {
                    Ok(apply_item(st, it))
                } else {
                    Err(it.key)
                }
            },
        }
    }
}

/// What parsing one field declaration yields: the resolved spec, or the
/// field's own diagnostic.  An absent block is missing; an unrecognized
/// item names its key; `no_val` together with `no_opt` is ambiguous;
/// otherwise the option name defaults to the lowercased field name and
/// the prefix to `--`.
pub open spec fn parse_field_view(d: FieldDeclView) -> Result<FieldSpecView, SchemaErrorView> {
    match d.attrs {
        None => Err(SchemaErrorView::MissingAttribute { field: d.field_name }),
        Some(items) => match resolve_items(items) {
            Err(key) => Err(SchemaErrorView::UnknownAttributeKey { field: d.field_name, key }),
            Ok(st) => {
                if st.no_val && st.no_opt {
                    Err(SchemaErrorView::AmbiguousFieldKind { field: d.field_name })
                } else {
                    Ok(
                        FieldSpecView {
                            field_name: d.field_name,
                            kind: if st.no_val {
                                FieldKind::Flag
                            } else if st.no_opt {
                                FieldKind::Positional
                            } else {
                                FieldKind::Valued
                            },
                            option_name: match st.name {
                                Some(n) => n,
                                None => lower_spec(d.field_name),
                            },
                            prefix: match st.prefix {
                                Some(p) => p,
                                None => default_prefix_spec(),
                            },
                        },
                    )
                }
            },
        },
    }
}

/// The view of an optional string.
pub open spec fn opt_view(o: Option<String>) -> Option<Seq<char>> {
    match o {
        Some(s) => Some(s@),
        None => None,
    }
}

proof fn lemma_attr_keys_distinct()
    ensures
        "no_val"@ != "no_opt"@,
        "no_val"@ != "name"@,
        "no_val"@ != "prefix"@,
        "no_opt"@ != "name"@,
        "no_opt"@ != "prefix"@,
        "name"@ != "prefix"@,
{
    reveal_strlit("no_val");
    reveal_strlit("no_opt");
    reveal_strlit("name");
    reveal_strlit("prefix");
    assert("no_val"@.len() == 6);
    assert("no_opt"@.len() == 6);
    assert("name"@.len() == 4);
    assert("prefix"@.len() == 6);
    assert("no_val"@[3] == 'v');
    assert("no_opt"@[3] == 'o');
    assert("prefix"@[3] == 'f');
}

proof fn lemma_resolve_err_extends(items: Seq<AttrItemView>, k: int, m: int)
    requires
        0 <= k <= m <= items.len(),
        resolve_items(items.take(k)) is Err,
    ensures
        resolve_items(items.take(m)) == resolve_items(items.take(k)),
    decreases m - k,
{
    if m > k {
        lemma_resolve_err_extends(items, k, m - 1);
        assert(items.take(m).drop_last() =~= items.take(m - 1));
    }
}

/// Parse one field declaration, resolving defaults or reporting the
/// field's diagnostic.
pub fn parse_field(d: &FieldDecl) -> (r: Result<FieldSpec, SchemaError>)
    ensures
        ({
            let m = parse_field_view(d@);
            match r {
                Ok(s) => m == Ok::<FieldSpecView, SchemaErrorView>(s@),
                Err(e) => m == Err::<FieldSpecView, SchemaErrorView>(e@),
            }
        }),
{
    match &d.attrs {
        None => Err(SchemaError::MissingAttribute { field: d.field_name.clone() }),
        Some(items) => {
            let ghost iv: Seq<AttrItemView> = d@.attrs->0;
            let mut no_val = false;
            let mut no_opt = false;
            let mut name_o: Option<String> = None;
            let mut prefix_o: Option<String> = None;
            let mut i: usize = 0;
            while i < items.len()
                invariant
                    i <= items.len(),
                    d@.attrs == Some(iv),
                    iv.len() == items@.len(),
                    forall|j: int| 0 <= j < iv.len() ==> iv[j] == #[trigger] items@[j]@,
                    resolve_items(iv.take(i as int)) == Ok::<AttrResolution, Seq<char>>(
                        AttrResolution {
                            no_val: no_val,
                            no_opt: no_opt,
                            name: opt_view(name_o),
                            prefix: opt_view(prefix_o),
                        },
                    ),
                decreases items.len() - i,
            {
                let it = &items[i];
                proof {
                    lemma_attr_keys_distinct();
                    assert(iv.take(i + 1).drop_last() =~= iv.take(i as int));
                    assert(iv.take(i + 1).last() == iv[i as int]);
                    assert(iv[i as int] == it@);
                }
                let mut unknown = false;
                if str_eq(it.key.as_str(), "no_val") {
                    if it.value.is_none() {
                        no_val = true;
                    } else {
                        unknown = true;
                    }
                } else if str_eq(it.key.as_str(), "no_opt") {
                    if it.value.is_none() {
                        no_opt = true;
                    } else {
                        unknown = true;
                    }
                } else if str_eq(it.key.as_str(), "name") {
                    match &it.value {
                        Some(v) => {
                            name_o = Some(v.clone());
                        },
                        None => {
                            unknown = true;
                        },
                    }
                } else if str_eq(it.key.as_str(), "prefix") {
                    match &it.value {
                        Some(v) => {
                            prefix_o = Some(v.clone());
                        },
                        None => {
                            unknown = true;
                        },
                    }
                } else {
                    unknown = true;
                }
                if unknown {
                    proof {
                        assert(!known_item(iv[i as int]));
                        assert(resolve_items(iv.take(i + 1)) == Err::<AttrResolution, Seq<char>>(
                            iv[i as int].key,
                        ));
                        lemma_resolve_err_extends(iv, i + 1, iv.len() as int);
                        assert(iv.take(iv.len() as int) =~= iv);
                    }
                    return Err(
                        SchemaError::UnknownAttributeKey {
                            field: d.field_name.clone(),
                            key: it.key.clone(),
                        },
                    );
                }
                i += 1;
            }
            proof {
                assert(iv.take(items@.len() as int) =~= iv);
            }
            if no_val && no_opt {
                Err(SchemaError::AmbiguousFieldKind { field: d.field_name.clone() })
            } else {
                let kind = if no_val {
                    FieldKind::Flag
                } else if no_opt {
                    FieldKind::Positional
                } else {
                    FieldKind::Valued
                };
                let option_name = match name_o {
                    Some(n) => n,
                    None => lower(d.field_name.as_str()),
                };
                let prefix = match prefix_o {
                    Some(p) => p,
                    None => default_prefix(),
                };
                Ok(
                    FieldSpec {
                        field_name: d.field_name.clone(),
                        kind: kind,
                        option_name: option_name,
                        prefix: prefix,
                    },
                )
            }
        },
    }
}

/// The resolved specs of the fields that parse, in declaration order.
pub open spec fn field_specs(fields: Seq<FieldDeclView>) -> Seq<FieldSpecView>
    decreases fields.len(),
{
    if fields.len() == 0 {
        Seq::empty()
    } else {
        field_specs(fields.drop_last()) + (match parse_field_view(fields.last()) {
            Ok(s) => seq![s],
            Err(_) => Seq::<FieldSpecView>::empty(),
        })
    }
}

/// The diagnostics of the fields that do not parse, in declaration
/// order; one field's failure never hides another's.
pub open spec fn field_errors(fields: Seq<FieldDeclView>) -> Seq<SchemaErrorView>
    decreases fields.len(),
{
    if fields.len() == 0 {
        Seq::empty()
    } else {
        field_errors(fields.drop_last()) + (match parse_field_view(fields.last()) {
            Ok(_) => Seq::<SchemaErrorView>::empty(),
            Err(e) => seq![e],
        })
    }
}

/// The program name a schema resolves to: the override if one was
/// declared, the lowercased kind name otherwise.
pub open spec fn program_name_view(d: SchemaDeclView) -> Seq<char> {
    match d.name {
        Some(n) => n,
        None => lower_spec(d.kind_name),
    }
}

/// The views of a vector of resolved field specs.
pub open spec fn specs_view(s: Seq<FieldSpec>) -> Seq<FieldSpecView> {
    s.map_values(|f: FieldSpec| f@)
}

/// The views of a vector of schema diagnostics.
pub open spec fn errors_view(s: Seq<SchemaError>) -> Seq<SchemaErrorView> {
    s.map_values(|e: SchemaError| e@)
}

/// Parse a whole schema declaration.  Every field is parsed
/// unconditionally; only once all fields are processed does the result
/// become the parsed schema, or the accumulated diagnostics of every
/// field that failed.
pub fn parse_schema(d: &SchemaDecl) -> (r: Result<CommandSchema, Vec<SchemaError>>)
    ensures
        ({
            let dv = d@;
            match r {
                Ok(schema) => {
                    &&& field_errors(dv.fields).len() == 0
                    &&& schema@.program_name == program_name_view(dv)
                    &&& schema@.fields == field_specs(dv.fields)
                },
                Err(errs) => {
                    &&& errs@.len() > 0
                    &&& errors_view(errs@) == field_errors(dv.fields)
                },
            }
        }),
{
    let ghost fv: Seq<FieldDeclView> = d@.fields;
    let mut specs: Vec<FieldSpec> = Vec::new();
    let mut errors: Vec<SchemaError> = Vec::new();
    let mut i: usize = 0;
    while i < d.fields.len()
        invariant
            i <= d.fields.len(),
            fv == d@.fields,
            fv.len() == d.fields@.len(),
            forall|j: int| 0 <= j < fv.len() ==> fv[j] == #[trigger] d.fields@[j]@,
            specs_view(specs@) == field_specs(fv.take(i as int)),
            errors_view(errors@) == field_errors(fv.take(i as int)),
        decreases d.fields.len() - i,
    {
        proof {
            assert(fv.take(i + 1).drop_last() =~= fv.take(i as int));
            assert(fv.take(i + 1).last() == fv[i as int]);
        }
        match parse_field(&d.fields[i]) {
            Ok(s) => {
                specs.push(s);
                proof {
                    assert(specs_view(specs@) =~= field_specs(fv.take(i + 1)));
                    assert(errors_view(errors@) =~= field_errors(fv.take(i + 1)));
                }
            },
            Err(e) => {
                errors.push(e);
                proof {
                    assert(specs_view(specs@) =~= field_specs(fv.take(i + 1)));
                    assert(errors_view(errors@) =~= field_errors(fv.take(i + 1)));
                }
            },
        }
        i += 1;
    }
    proof {
        assert(fv.take(d.fields@.len() as int) =~= fv);
    }
    if errors.len() == 0 {
        let program_name = match &d.name {
            Some(n) => n.clone(),
            None => lower(d.kind_name.as_str()),
        };
        let schema = CommandSchema { program_name: program_name, fields: specs };
        proof {
            assert(schema@.fields == specs_view(specs@));
        }
        Ok(schema)
    } else {
        Err(errors)
    }
}

/// A schema whose fields all lack an attribute block yields one
/// missing-attribute diagnostic per field, in declaration order: no
/// field's failure suppresses another's.
pub proof fn lemma_missing_attributes_all_reported(fields: Seq<FieldDeclView>)
    requires
        forall|i: int| 0 <= i < fields.len() ==> (#[trigger] fields[i]).attrs is None,
    ensures
        field_errors(fields).len() == fields.len(),
        forall|i: int|
            0 <= i < fields.len() ==> field_errors(fields)[i]
                == (SchemaErrorView::MissingAttribute { field: (#[trigger] fields[i]).field_name }),
    decreases fields.len(),
{
    if fields.len() > 0 {
        lemma_missing_attributes_all_reported(fields.drop_last());
        assert(fields.last().attrs is None);
        assert forall|i: int| 0 <= i < fields.len() implies field_errors(fields)[i]
            == (SchemaErrorView::MissingAttribute { field: fields[i].field_name }) by {
            if i < fields.len() - 1 {
                assert(fields.drop_last()[i] == fields[i]);
                assert(field_errors(fields)[i] == field_errors(fields.drop_last())[i]);
            } else {
                assert(field_errors(fields)[i] == (SchemaErrorView::MissingAttribute {
                    field: fields.last().field_name,
                }));
            }
        }
    }
}

} // verus!
