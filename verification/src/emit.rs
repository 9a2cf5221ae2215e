//! The declaration emitter: schema declarations, their annotations,
//! case-converted names and mapped types combine into emitted type
//! declarations; user-supplied patches then replace members by name, and
//! the result renders to source text.

use vstd::prelude::*;
use crate::annotation::{ann_or_default, doc_seq, AnnotationKind, Visibility};
use crate::code::{doc_lines_of, member_of_enum_value, member_of_field, resolved_derive};
use crate::dmmf::{Datamodel, DatamodelEnum, EnumValue, Field, Model};
use crate::text::eq_str;
use crate::transform::pascal_of;

verus! {

// ---------------------------------------------------------------------------
// Output types
// ---------------------------------------------------------------------------

/// The mathematical model of one emitted member.
#[verifier::ext_equal]
pub struct EmittedMemberModel {
    pub name: Seq<char>,
    pub docs: Seq<Seq<char>>,
    pub storage_rename: Option<Seq<char>>,
    pub visibility: Visibility,
    pub type_expr: Option<Seq<char>>,
}

/// One member of an emitted declaration: a struct field (with a type
/// expression) or an enum variant (without one). `storage_rename` carries
/// the name under which the member is stored, where that differs from the
/// emitted name.
#[derive(Debug, Clone, PartialEq, Eq)]
pub struct EmittedMember {
    pub name: String,
    pub docs: Vec<String>,
    pub storage_rename: Option<String>,
    pub visibility: Visibility,
    pub type_expr: Option<String>,
}

impl View for EmittedMember {
    type V = EmittedMemberModel;

    open spec fn view(&self) -> EmittedMemberModel {
        EmittedMemberModel {
            name: self.name@,
            docs: self.docs.deep_view(),
            storage_rename: self.storage_rename.deep_view(),
            visibility: self.visibility,
            type_expr: self.type_expr.deep_view(),
        }
    }
}

impl DeepView for EmittedMember {
    type V = EmittedMemberModel;

    open spec fn deep_view(&self) -> EmittedMemberModel {
        self.view()
    }
}

/// Whether an emitted declaration is a struct or an enum.
#[derive(Debug, Clone, Copy, PartialEq, Eq, Structural)]
pub enum EmittedKind {
    Struct,
    Enum,
}

/// The mathematical model of one emitted declaration.
#[verifier::ext_equal]
pub struct EmittedDeclarationModel {
    pub name: Seq<char>,
    pub docs: Seq<Seq<char>>,
    pub derive: Option<Seq<Seq<char>>>,
    pub visibility: Visibility,
    pub kind: EmittedKind,
    pub members: Seq<EmittedMemberModel>,
}

/// One emitted type declaration: a named struct or enum with its
/// documentation, derive list, visibility and members.
#[derive(Debug, Clone, PartialEq, Eq)]
pub struct EmittedDeclaration {
    pub name: String,
    pub docs: Vec<String>,
    pub derive: Option<Vec<String>>,
    pub visibility: Visibility,
    pub kind: EmittedKind,
    pub members: Vec<EmittedMember>,
}

impl View for EmittedDeclaration {
    type V = EmittedDeclarationModel;

    open spec fn view(&self) -> EmittedDeclarationModel {
        EmittedDeclarationModel {
            name: self.name@,
            docs: self.docs.deep_view(),
            derive: self.derive.deep_view(),
            visibility: self.visibility,
            kind: self.kind,
            members: self.members.deep_view(),
        }
    }
}

impl DeepView for EmittedDeclaration {
    type V = EmittedDeclarationModel;

    open spec fn deep_view(&self) -> EmittedDeclarationModel {
        self.view()
    }
}

/// The mathematical model of a patch.
#[verifier::ext_equal]
pub struct PatchModel {
    pub name: Seq<char>,
    pub members: Seq<EmittedMemberModel>,
}

/// A user-declared partial type with the same name as an emitted
/// declaration; its members replace generated members of the same name.
#[derive(Debug, Clone, PartialEq, Eq)]
pub struct Patch {
    pub name: String,
    pub members: Vec<EmittedMember>,
}

impl View for Patch {
    type V = PatchModel;

    open spec fn view(&self) -> PatchModel {
        PatchModel { name: self.name@, members: self.members.deep_view() }
    }
}

impl DeepView for Patch {
    type V = PatchModel;

    open spec fn deep_view(&self) -> PatchModel {
        self.view()
    }
}

// ---------------------------------------------------------------------------
// Options, declarations, errors
// ---------------------------------------------------------------------------

/// The options a generation run is configured with.
#[derive(Debug, Clone)]
pub struct EmitOptions {
    /// The derive list attached to declarations without their own.
    pub derive: Option<Vec<String>>,
    /// An allow-list of schema names; declarations outside it are omitted.
    pub only: Option<Vec<String>>,
    /// A string prepended to every emitted type name.
    pub prefix: Option<String>,
    /// Partial declarations that replace generated members by name.
    pub patch: Option<Vec<Patch>>,
}

impl Default for EmitOptions {
    /// The default options: no derive, no filter, no prefix, no patches.
    fn default() -> (r: Self)
        ensures
            r.derive is None,
            r.only is None,
            r.prefix is None,
            r.patch is None,
    {
        EmitOptions { derive: None, only: None, prefix: None, patch: None }
    }
}

/// A top-level schema declaration, as the emitter consumes it.
pub enum Declaration {
    Model(crate::dmmf::Model),
    Enum(crate::dmmf::DatamodelEnum),
    CompositeType(crate::dmmf::Model),
}

/// The mathematical model of an emission error.
pub enum EmitErrorModel {
    /// A native-type override whose marker the type mapper does not know.
    UnsupportedNativeType(Seq<char>),
}

/// An emission error.
#[derive(Debug, Clone, PartialEq, Eq)]
pub enum EmitError {
    /// A native-type override whose marker the type mapper does not know;
    /// carries the marker.
    UnsupportedNativeType(String),
}

impl View for EmitError {
    type V = EmitErrorModel;

    open spec fn view(&self) -> EmitErrorModel {
        match self {
            EmitError::UnsupportedNativeType(n) => EmitErrorModel::UnsupportedNativeType(n@),
        }
    }
}

/// The message of an emission error.
pub open spec fn emit_error_message_of(e: EmitErrorModel) -> Seq<char> {
    match e {
        EmitErrorModel::UnsupportedNativeType(n) => "unsupported native type: "@ + n,
    }
}

impl EmitError {
    /// The error rendered as text.
    pub fn message(&self) -> (r: String)
        ensures
            r@ == emit_error_message_of(self@),
    {
        match self {
            EmitError::UnsupportedNativeType(n) => {
                let mut s = String::new();
                s.append("unsupported native type: ");
                s.append(n.as_str());
                assert(s@ =~= emit_error_message_of(self@));
                s
            },
        }
    }
}

// ---------------------------------------------------------------------------
// Declaration-level emission
// ---------------------------------------------------------------------------

/// Whether a schema name passes the allow-list, if one is configured.
pub open spec fn selected(opts: EmitOptions, name: Seq<char>) -> bool {
    match opts.only {
        Some(l) => l.deep_view().contains(name),
        None => true,
    }
}

/// The emitted name of a declaration: an explicit rename wins over the
/// Pascal-cased schema name; the configured prefix is prepended to
/// whichever was chosen.
pub open spec fn emitted_name_of(
    rename: Option<Seq<char>>,
    schema_name: Seq<char>,
    prefix: Option<String>,
) -> Seq<char> {
    let base = match rename {
        Some(n) => n,
        None => pascal_of(schema_name),
    };
    match prefix {
        Some(p) => p@ + base,
        None => base,
    }
}

/// The emitted members of a field list, in schema order; the first mapping
/// error aborts.
pub open spec fn members_of_fields(
    model_names: Seq<Seq<char>>,
    opts: EmitOptions,
    fs: Seq<Field>,
) -> Result<Seq<EmittedMemberModel>, EmitErrorModel>
    decreases fs.len(),
{
    if fs.len() == 0 {
        Ok(Seq::empty())
    } else {
        match member_of_field(model_names, opts, fs[0]) {
            Err(e) => Err(e),
            Ok(None) => members_of_fields(model_names, opts, fs.drop_first()),
            Ok(Some(m)) => match members_of_fields(model_names, opts, fs.drop_first()) {
                Err(e) => Err(e),
                Ok(rest) => Ok(seq![m] + rest),
            },
        }
    }
}

/// The emitted members of an enum's value list, in schema order.
pub open spec fn enum_members_of(vs: Seq<EnumValue>) -> Seq<EmittedMemberModel>
    decreases vs.len(),
{
    if vs.len() == 0 {
        Seq::empty()
    } else {
        match member_of_enum_value(vs[0]) {
            Some(m) => seq![m] + enum_members_of(vs.drop_first()),
            None => enum_members_of(vs.drop_first()),
        }
    }
}

/// The emitted declaration of a model or composite type, before patching:
/// nothing if it is outside the allow-list, skipped, or a composite type
/// with a declaration-level type override.
pub open spec fn decl_of_model(
    model_names: Seq<Seq<char>>,
    opts: EmitOptions,
    m: Model,
    kind: AnnotationKind,
) -> Result<Option<EmittedDeclarationModel>, EmitErrorModel> {
    if !selected(opts, m.name@) {
        Ok(None)
    } else {
        let rec = ann_or_default(doc_seq(m.documentation), kind);
        if rec.skip {
            Ok(None)
        } else if kind is CompositeType && rec.type_ is Some {
            Ok(None)
        } else {
            match members_of_fields(model_names, opts, m.fields@) {
                Err(e) => Err(e),
                Ok(ms) => Ok(
                    Some(
                        EmittedDeclarationModel {
                            name: emitted_name_of(rec.rename, m.name@, opts.prefix),
                            docs: doc_lines_of(doc_seq(m.documentation)),
                            derive: resolved_derive(rec.derive, opts),
                            visibility: rec.visibility,
                            kind: EmittedKind::Struct,
                            members: ms,
                        },
                    ),
                ),
            }
        }
    }
}

/// The emitted declaration of an enum: nothing if it is outside the
/// allow-list or skipped.
pub open spec fn decl_of_enum(opts: EmitOptions, e: DatamodelEnum) -> Option<
    EmittedDeclarationModel,
> {
    if !selected(opts, e.name@) {
        None
    } else {
        let rec = ann_or_default(doc_seq(e.documentation), AnnotationKind::Enum);
        if rec.skip {
            None
        } else {
            Some(
                EmittedDeclarationModel {
                    name: emitted_name_of(rec.rename, e.name@, opts.prefix),
                    docs: doc_lines_of(doc_seq(e.documentation)),
                    derive: resolved_derive(rec.derive, opts),
                    visibility: rec.visibility,
                    kind: EmittedKind::Enum,
                    members: enum_members_of(e.values@),
                },
            )
        }
    }
}

// ---------------------------------------------------------------------------
// The patch merger
// ---------------------------------------------------------------------------

/// The first patch with the given emitted name, if any.
pub open spec fn find_patch(ps: Seq<PatchModel>, name: Seq<char>) -> Option<PatchModel>
    decreases ps.len(),
{
    if ps.len() == 0 {
        None
    } else if ps[0].name == name {
        Some(ps[0])
    } else {
        find_patch(ps.drop_first(), name)
    }
}

/// The first member with the given name, if any.
pub open spec fn find_member(ms: Seq<EmittedMemberModel>, name: Seq<char>) -> Option<
    EmittedMemberModel,
>
    decreases ms.len(),
{
    if ms.len() == 0 {
        None
    } else if ms[0].name == name {
        Some(ms[0])
    } else {
        find_member(ms.drop_first(), name)
    }
}

/// Replace-or-keep: each original member is substituted by the patch member
/// of the same name where one exists, and kept verbatim otherwise; patch
/// members without a matching original are not appended.
pub open spec fn patched_members(
    orig: Seq<EmittedMemberModel>,
    pms: Seq<EmittedMemberModel>,
) -> Seq<EmittedMemberModel> {
    Seq::new(
        orig.len(),
        |i: int|
            match find_member(pms, orig[i].name) {
                Some(p) => p,
                None => orig[i],
            },
    )
}

/// A declaration with a patch merged into its members.
pub open spec fn patched_declaration(
    d: EmittedDeclarationModel,
    p: PatchModel,
) -> EmittedDeclarationModel {
    EmittedDeclarationModel { members: patched_members(d.members, p.members), ..d }
}

/// A struct declaration with the first matching configured patch applied;
/// enums and unmatched declarations pass through unchanged.
pub open spec fn with_patch(opts: EmitOptions, d: EmittedDeclarationModel) -> EmittedDeclarationModel {
    if d.kind is Struct {
        match opts.patch.deep_view() {
            Some(ps) => match find_patch(ps, d.name) {
                Some(p) => patched_declaration(d, p),
                None => d,
            },
            None => d,
        }
    } else {
        d
    }
}

proof fn lemma_find_member(ms: Seq<EmittedMemberModel>, name: Seq<char>, k: int)
    requires
        0 <= k <= ms.len(),
        forall|j: int| 0 <= j < k ==> ms[j].name != name,
        k < ms.len() ==> ms[k].name == name,
    ensures
        k < ms.len() ==> find_member(ms, name) == Some(ms[k]),
        k == ms.len() ==> find_member(ms, name) is None,
    decreases ms.len(),
{
    if ms.len() == 0 {
    } else if k == 0 {
    } else {
        let t = ms.drop_first();
        assert(forall|j: int| 0 <= j < t.len() ==> t[j] == ms[j + 1]);
        lemma_find_member(t, name, k - 1);
    }
}

proof fn lemma_find_patch(ps: Seq<PatchModel>, name: Seq<char>, k: int)
    requires
        0 <= k <= ps.len(),
        forall|j: int| 0 <= j < k ==> ps[j].name != name,
        k < ps.len() ==> ps[k].name == name,
    ensures
        k < ps.len() ==> find_patch(ps, name) == Some(ps[k]),
        k == ps.len() ==> find_patch(ps, name) is None,
    decreases ps.len(),
{
    if ps.len() == 0 {
    } else if k == 0 {
    } else {
        let t = ps.drop_first();
        assert(forall|j: int| 0 <= j < t.len() ==> t[j] == ps[j + 1]);
        lemma_find_patch(t, name, k - 1);
    }
}

fn clone_string_opt(o: &Option<String>) -> (r: Option<String>)
    ensures
        r.deep_view() == o.deep_view(),
{
    match o {
        Some(s) => Some(s.clone()),
        None => None,
    }
}

fn clone_strings_v(v: &Vec<String>) -> (r: Vec<String>)
    ensures
        r@ == v@,
{
    let mut out: Vec<String> = Vec::new();
    let mut i: usize = 0;
    while i < v.len()
        invariant
            i <= v.len(),
            out@ == v@.take(i as int),
        decreases v.len() - i,
    {
        out.push(v[i].clone());
        i = i + 1;
        assert(out@ =~= v@.take(i as int));
    }
    assert(out@ =~= v@);
    out
}

fn clone_member(m: &EmittedMember) -> (r: EmittedMember)
    ensures
        r@ == m@,
{
    let r = EmittedMember {
        name: m.name.clone(),
        docs: clone_strings_v(&m.docs),
        storage_rename: clone_string_opt(&m.storage_rename),
        visibility: m.visibility,
        type_expr: clone_string_opt(&m.type_expr),
    };
    assert(r@ =~= m@);
    r
}

/// The patch merged into a declaration: members named in the patch are
/// substituted, all others kept, nothing appended.
pub fn apply_patch(declaration: EmittedDeclaration, patch: &Patch) -> (r: EmittedDeclaration)
    ensures
        r@ == patched_declaration(declaration@, patch@),
{
    let ghost d0 = declaration@;
    let mut members: Vec<EmittedMember> = Vec::new();
    let orig = declaration.members;
    let ghost origs = orig.deep_view();
    let ghost pms = patch.members.deep_view();
    let mut i: usize = 0;
    while i < orig.len()
        invariant
            origs == orig.deep_view(),
            pms == patch.members.deep_view(),
            i <= orig.len(),
            members.deep_view().len() == i,
            forall|k: int| 0 <= k < i ==> members.deep_view()[k] == patched_members(origs, pms)[k],
        decreases orig.len() - i,
    {
        let mut j: usize = 0;
        let mut found: bool = false;
        while j < patch.members.len() && !found
            invariant
                pms == patch.members.deep_view(),
                origs == orig.deep_view(),
                i < orig.len(),
                j <= patch.members.len(),
                forall|k: int| 0 <= k < j ==> pms[k].name != origs[i as int].name,
                found ==> j < patch.members.len() && pms[j as int].name == origs[i as int].name,
            decreases patch.members.len() + 1 - j - (if found {
                1int
            } else {
                0int
            }),
        {
            if eq_str(patch.members[j].name.as_str(), orig[i].name.as_str()) {
                found = true;
            } else {
                j = j + 1;
            }
        }
        let picked: EmittedMember = if found {
            proof {
                lemma_find_member(pms, origs[i as int].name, j as int);
            }
            clone_member(&patch.members[j])
        } else {
            proof {
                lemma_find_member(pms, origs[i as int].name, j as int);
            }
            clone_member(&orig[i])
        };
        assert(picked@ == patched_members(origs, pms)[i as int]);
        let ghost prev = members.deep_view();
        members.push(picked);
        proof {
            assert(members.deep_view() =~= prev.push(picked@));
        }
        i = i + 1;
    }
    proof {
        assert(members.deep_view() =~= patched_members(origs, pms));
    }
    let r = EmittedDeclaration {
        name: declaration.name,
        docs: declaration.docs,
        derive: declaration.derive,
        visibility: declaration.visibility,
        kind: declaration.kind,
        members: members,
    };
    assert(r@ =~= patched_declaration(d0, patch@));
    r
}

// ---------------------------------------------------------------------------
// The pipeline over a declaration list
// ---------------------------------------------------------------------------

/// One declaration's emission, patch included: what the output holds for it.
pub open spec fn emit_one(
    model_names: Seq<Seq<char>>,
    opts: EmitOptions,
    d: Declaration,
) -> Result<Option<EmittedDeclarationModel>, EmitErrorModel> {
    match d {
        Declaration::Model(m) => match decl_of_model(model_names, opts, m, AnnotationKind::Model) {
            Ok(Some(x)) => Ok(Some(with_patch(opts, x))),
            Ok(None) => Ok(None),
            Err(e) => Err(e),
        },
        Declaration::CompositeType(m) => match decl_of_model(
            model_names,
            opts,
            m,
            AnnotationKind::CompositeType,
        ) {
            Ok(Some(x)) => Ok(Some(with_patch(opts, x))),
            Ok(None) => Ok(None),
            Err(e) => Err(e),
        },
        Declaration::Enum(e) => Ok(decl_of_enum(opts, e)),
    }
}

/// The warning for a composite type with a declaration-level type override.
pub open spec fn warning_text(name: Seq<char>) -> Seq<char> {
    "`@prs.type` annotation is not supported for type name declarations.\nPlease use `@prs.rename` instead.\nSkipping type name declaration for `"@
        + name + "`"@
}

/// The warning one declaration raises, if any: only a composite type inside
/// the allow-list, not skipped, with a declaration-level type override.
pub open spec fn warning_of(opts: EmitOptions, d: Declaration) -> Option<Seq<char>> {
    match d {
        Declaration::CompositeType(m) => {
            if selected(opts, m.name@) {
                let rec = ann_or_default(doc_seq(m.documentation), AnnotationKind::CompositeType);
                if !rec.skip && rec.type_ is Some {
                    Some(warning_text(m.name@))
                } else {
                    None
                }
            } else {
                None
            }
        },
        _ => None,
    }
}

/// A member list prefix joined onto the rest of a fold.
pub open spec fn combine_members(
    pre: Seq<EmittedMemberModel>,
    r: Result<Seq<EmittedMemberModel>, EmitErrorModel>,
) -> Result<Seq<EmittedMemberModel>, EmitErrorModel> {
    match r {
        Ok(rest) => Ok(pre + rest),
        Err(e) => Err(e),
    }
}

/// A declaration list prefix joined onto the rest of a fold.
pub open spec fn combine_decls(
    pre: Seq<EmittedDeclarationModel>,
    r: Result<Seq<EmittedDeclarationModel>, EmitErrorModel>,
) -> Result<Seq<EmittedDeclarationModel>, EmitErrorModel> {
    match r {
        Ok(rest) => Ok(pre + rest),
        Err(e) => Err(e),
    }
}

/// The emitted declarations of a declaration list, in order; the first
/// error aborts.
pub open spec fn emit_decls(
    model_names: Seq<Seq<char>>,
    opts: EmitOptions,
    ds: Seq<Declaration>,
) -> Result<Seq<EmittedDeclarationModel>, EmitErrorModel>
    decreases ds.len(),
{
    if ds.len() == 0 {
        Ok(Seq::empty())
    } else {
        match emit_one(model_names, opts, ds[0]) {
            Err(e) => Err(e),
            Ok(None) => emit_decls(model_names, opts, ds.drop_first()),
            Ok(Some(x)) => match emit_decls(model_names, opts, ds.drop_first()) {
                Err(e) => Err(e),
                Ok(rest) => Ok(seq![x] + rest),
            },
        }
    }
}

/// The warnings of a declaration list, in order.
pub open spec fn warnings_of(opts: EmitOptions, ds: Seq<Declaration>) -> Seq<Seq<char>>
    decreases ds.len(),
{
    if ds.len() == 0 {
        Seq::empty()
    } else {
        match warning_of(opts, ds[0]) {
            Some(w) => seq![w] + warnings_of(opts, ds.drop_first()),
            None => warnings_of(opts, ds.drop_first()),
        }
    }
}

/// The names of the model declarations, in order: the names relation
/// detection resolves field types against.
pub open spec fn model_names_of(ds: Seq<Declaration>) -> Seq<Seq<char>>
    decreases ds.len(),
{
    if ds.len() == 0 {
        Seq::empty()
    } else {
        (match ds[0] {
            Declaration::Model(m) => seq![m.name@],
            _ => Seq::<Seq<char>>::empty(),
        }) + model_names_of(ds.drop_first())
    }
}

/// The names of the model declarations, in order.
pub fn model_names(decls: &Vec<Declaration>) -> (r: Vec<String>)
    ensures
        r.deep_view() == model_names_of(decls@),
{
    let mut out: Vec<String> = Vec::new();
    let mut i: usize = 0;
    proof {
        assert(decls@.skip(0) =~= decls@);
        assert(Seq::<Seq<char>>::empty() + model_names_of(decls@) =~= model_names_of(decls@));
    }
    while i < decls.len()
        invariant
            i <= decls.len(),
            model_names_of(decls@) == out.deep_view() + model_names_of(decls@.skip(i as int)),
        decreases decls.len() - i,
    {
        let ghost rest = decls@.skip(i as int);
        proof {
            assert(rest[0] == decls@[i as int]);
            assert(rest.drop_first() =~= decls@.skip(i as int + 1));
        }
        match &decls[i] {
            Declaration::Model(m) => {
                let ghost prev = out.deep_view();
                out.push(m.name.clone());
                proof {
                    assert(out.deep_view() =~= prev.push(m.name@));
                    assert(prev.push(m.name@) =~= prev + seq![m.name@]);
                }
            },
            _ => {},
        }
        i = i + 1;
    }
    proof {
        assert(model_names_of(decls@.skip(decls.len() as int)).len() == 0);
        assert(out.deep_view() =~= model_names_of(decls@));
    }
    out
}

#[verifier::loop_isolation(false)]
fn name_selected(options: &EmitOptions, name: &String) -> (r: bool)
    ensures
        r == selected(*options, name@),
{
    match &options.only {
        Some(l) => {
            let mut i: usize = 0;
            while i < l.len()
                invariant
                    i <= l.len(),
                    forall|j: int| 0 <= j < i ==> l.deep_view()[j] != name@,
                decreases l.len() - i,
            {
                if eq_str(l[i].as_str(), name.as_str()) {
                    assert(l.deep_view()[i as int] == name@);
                    assert(l.deep_view().contains(name@));
                    return true;
                }
                i = i + 1;
            }
            assert(!l.deep_view().contains(name@));
            false
        },
        None => true,
    }
}

/// The emitted declaration of one model or composite type, before patching.
#[verifier::loop_isolation(false)]
fn emit_model_decl(
    names: &Vec<String>,
    options: &EmitOptions,
    m: &Model,
    composite: bool,
) -> (r: Result<Option<EmittedDeclaration>, EmitError>)
    ensures
        ({
            let kind = if composite {
                AnnotationKind::CompositeType
            } else {
                AnnotationKind::Model
            };
            match decl_of_model(names.deep_view(), *options, *m, kind) {
                Ok(Some(dm)) => r matches Ok(Some(d)) && d@ == dm,
                Ok(None) => r matches Ok(None),
                Err(e) => r matches Err(x) && x@ == e,
            }
        }),
{
    let kind = if composite {
        AnnotationKind::CompositeType
    } else {
        AnnotationKind::Model
    };
    if !name_selected(options, &m.name) {
        return Ok(None);
    }
    let ann = crate::annotation::annotation_of(&m.documentation, kind);
    if ann.skip {
        return Ok(None);
    }
    if composite && ann.type_.is_some() {
        return Ok(None);
    }
    let base: String = match ann.rename {
        Some(n) => n,
        None => crate::transform::to_pascal_case(m.name.as_str()),
    };
    let name: String = match &options.prefix {
        Some(p) => {
            let mut s = p.clone();
            s.append(base.as_str());
            s
        },
        None => base,
    };
    let ghost nv = names.deep_view();
    let mut members: Vec<EmittedMember> = Vec::new();
    let mut i: usize = 0;
    proof {
        assert(m.fields@.skip(0) =~= m.fields@);
        assert(combine_members(
            Seq::empty(),
            members_of_fields(nv, *options, m.fields@),
        ) == members_of_fields(nv, *options, m.fields@)) by {
            match members_of_fields(nv, *options, m.fields@) {
                Ok(rest) => {
                    assert(Seq::<EmittedMemberModel>::empty() + rest =~= rest);
                },
                Err(_) => {},
            }
        }
    }
    while i < m.fields.len()
        invariant
            nv == names.deep_view(),
            i <= m.fields.len(),
            members_of_fields(nv, *options, m.fields@) == combine_members(
                members.deep_view(),
                members_of_fields(nv, *options, m.fields@.skip(i as int)),
            ),
        decreases m.fields.len() - i,
    {
        let ghost rest = m.fields@.skip(i as int);
        proof {
            assert(rest[0] == m.fields@[i as int]);
            assert(rest.drop_first() =~= m.fields@.skip(i as int + 1));
        }
        match crate::code::handle_fields(names, options, &m.fields[i]) {
            Ok(Some(em)) => {
                let ghost prev = members.deep_view();
                let ghost emv = em@;
                members.push(em);
                proof {
                    assert(members.deep_view() =~= prev.push(emv));
                    let tail = members_of_fields(nv, *options, m.fields@.skip(i as int + 1));
                    match tail {
                        Ok(trest) => {
                            assert(prev.push(emv) + trest =~= prev + (seq![emv] + trest));
                        },
                        Err(_) => {},
                    }
                }
            },
            Ok(None) => {},
            Err(x) => {
                return Err(x);
            },
        }
        i = i + 1;
    }
    proof {
        assert(m.fields@.skip(m.fields.len() as int).len() == 0);
        match members_of_fields(nv, *options, m.fields@) {
            Ok(ms) => {
                assert(members.deep_view() + Seq::<EmittedMemberModel>::empty() =~= members.deep_view());
                assert(members.deep_view() =~= ms);
            },
            Err(_) => {},
        }
    }
    let docs = crate::code::extract_docs(&m.documentation);
    let derive = crate::code::handle_derive(ann.derive, options);
    let d = EmittedDeclaration {
        name: name,
        docs: docs,
        derive: derive,
        visibility: ann.visibility,
        kind: EmittedKind::Struct,
        members: members,
    };
    proof {
        let kindg = if composite {
            AnnotationKind::CompositeType
        } else {
            AnnotationKind::Model
        };
        let rec = ann_or_default(doc_seq(m.documentation), kindg);
        match decl_of_model(names.deep_view(), *options, *m, kindg) {
            Ok(Some(dm)) => {
                assert(d@ =~= dm);
            },
            Ok(None) => {},
            Err(_) => {},
        }
    }
    Ok(Some(d))
}

/// The emitted declaration of one enum.
fn emit_enum_decl(options: &EmitOptions, e: &DatamodelEnum) -> (r: Option<EmittedDeclaration>)
    ensures
        match decl_of_enum(*options, *e) {
            Some(dm) => r matches Some(d) && d@ == dm,
            None => r is None,
        },
{
    if !name_selected(options, &e.name) {
        return None;
    }
    let ann = crate::annotation::annotation_of(&e.documentation, AnnotationKind::Enum);
    if ann.skip {
        return None;
    }
    let base: String = match ann.rename {
        Some(n) => n,
        None => crate::transform::to_pascal_case(e.name.as_str()),
    };
    let name: String = match &options.prefix {
        Some(p) => {
            let mut s = p.clone();
            s.append(base.as_str());
            s
        },
        None => base,
    };
    let mut members: Vec<EmittedMember> = Vec::new();
    let mut i: usize = 0;
    proof {
        assert(e.values@.skip(0) =~= e.values@);
        assert(Seq::<EmittedMemberModel>::empty() + enum_members_of(e.values@) =~= enum_members_of(
            e.values@,
        ));
    }
    while i < e.values.len()
        invariant
            i <= e.values.len(),
            enum_members_of(e.values@) == members.deep_view() + enum_members_of(
                e.values@.skip(i as int),
            ),
        decreases e.values.len() - i,
    {
        let ghost rest = e.values@.skip(i as int);
        proof {
            assert(rest[0] == e.values@[i as int]);
            assert(rest.drop_first() =~= e.values@.skip(i as int + 1));
        }
        match crate::code::handle_enum_value(&e.values[i]) {
            Some(em) => {
                let ghost prev = members.deep_view();
                let ghost emv = em@;
                members.push(em);
                proof {
                    assert(members.deep_view() =~= prev.push(emv));
                    assert(prev.push(emv) + enum_members_of(e.values@.skip(i as int + 1)) =~= prev
                        + (seq![emv] + enum_members_of(e.values@.skip(i as int + 1))));
                }
            },
            None => {},
        }
        i = i + 1;
    }
    proof {
        assert(enum_members_of(e.values@.skip(e.values.len() as int)).len() == 0);
        assert(members.deep_view() + enum_members_of(e.values@.skip(e.values.len() as int))
            =~= members.deep_view());
    }
    let docs = crate::code::extract_docs(&e.documentation);
    let derive = crate::code::handle_derive(ann.derive, options);
    let d = EmittedDeclaration {
        name: name,
        docs: docs,
        derive: derive,
        visibility: ann.visibility,
        kind: EmittedKind::Enum,
        members: members,
    };
    proof {
        match decl_of_enum(*options, *e) {
            Some(dm) => {
                assert(d@ =~= dm);
            },
            None => {},
        }
    }
    Some(d)
}

/// The warning one composite type raises, if any.
fn composite_warning(options: &EmitOptions, m: &Model) -> (r: Option<String>)
    ensures
        match warning_of(*options, Declaration::CompositeType(*m)) {
            Some(w) => r matches Some(s) && s@ == w,
            None => r is None,
        },
{
    if !name_selected(options, &m.name) {
        return None;
    }
    let ann = crate::annotation::annotation_of(&m.documentation, AnnotationKind::CompositeType);
    if !ann.skip && ann.type_.is_some() {
        let mut s = String::from_str(
            "`@prs.type` annotation is not supported for type name declarations.\nPlease use `@prs.rename` instead.\nSkipping type name declaration for `",
        );
        s.append(m.name.as_str());
        s.append("`");
        assert(s@ =~= warning_text(m.name@));
        Some(s)
    } else {
        None
    }
}

/// The first matching configured patch applied to a struct declaration.
#[verifier::loop_isolation(false)]
fn apply_patches(options: &EmitOptions, d: EmittedDeclaration) -> (r: EmittedDeclaration)
    ensures
        r@ == with_patch(*options, d@),
{
    let ghost d0 = d@;
    match d.kind {
        EmittedKind::Enum => {
            return d;
        },
        EmittedKind::Struct => {},
    }
    match &options.patch {
        None => d,
        Some(ps) => {
            let ghost psv = ps.deep_view();
            let mut j: usize = 0;
            while j < ps.len()
                invariant
                    psv == ps.deep_view(),
                    j <= ps.len(),
                    forall|k: int| 0 <= k < j ==> psv[k].name != d@.name,
                decreases ps.len() - j,
            {
                if eq_str(ps[j].name.as_str(), d.name.as_str()) {
                    proof {
                        lemma_find_patch(psv, d0.name, j as int);
                    }
                    let res = apply_patch(d, &ps[j]);
                    proof {
                        assert(psv[j as int] =~= ps@[j as int]@);
                        assert(res@ =~= with_patch(*options, d0));
                    }
                    return res;
                }
                j = j + 1;
            }
            proof {
                lemma_find_patch(psv, d@.name, ps.len() as int);
            }
            d
        },
    }
}

/// What one generation run emits: the declarations in schema order and the
/// warnings raised along the way.
#[derive(Debug)]
pub struct EmitOutput {
    pub declarations: Vec<EmittedDeclaration>,
    pub warnings: Vec<String>,
}

/// The emitted declarations of a declaration list, with patches applied and
/// warnings collected; the first emission error aborts.
pub fn emit_declarations(decls: &Vec<Declaration>, options: &EmitOptions) -> (r: Result<
    EmitOutput,
    EmitError,
>)
    ensures
        ({
            let names = model_names_of(decls@);
            match emit_decls(names, *options, decls@) {
                Ok(list) => r matches Ok(out) && out.declarations.deep_view() == list
                    && out.warnings.deep_view() == warnings_of(*options, decls@),
                Err(e) => r matches Err(x) && x@ == e,
            }
        }),
{
    let names = model_names(decls);
    let ghost nv = model_names_of(decls@);
    let mut out: Vec<EmittedDeclaration> = Vec::new();
    let mut warns: Vec<String> = Vec::new();
    let mut i: usize = 0;
    proof {
        assert(decls@.skip(0) =~= decls@);
        assert(combine_decls(Seq::empty(), emit_decls(nv, *options, decls@)) == emit_decls(
            nv,
            *options,
            decls@,
        )) by {
            match emit_decls(nv, *options, decls@) {
                Ok(rest) => {
                    assert(Seq::<EmittedDeclarationModel>::empty() + rest =~= rest);
                },
                Err(_) => {},
            }
        }
        assert(Seq::<Seq<char>>::empty() + warnings_of(*options, decls@) =~= warnings_of(
            *options,
            decls@,
        ));
    }
    while i < decls.len()
        invariant
            nv == model_names_of(decls@),
            names.deep_view() == nv,
            i <= decls.len(),
            emit_decls(nv, *options, decls@) == combine_decls(
                out.deep_view(),
                emit_decls(nv, *options, decls@.skip(i as int)),
            ),
            warnings_of(*options, decls@) == warns.deep_view() + warnings_of(
                *options,
                decls@.skip(i as int),
            ),
        decreases decls.len() - i,
    {
        let ghost rest = decls@.skip(i as int);
        proof {
            assert(rest[0] == decls@[i as int]);
            assert(rest.drop_first() =~= decls@.skip(i as int + 1));
        }
        let emitted: Result<Option<EmittedDeclaration>, EmitError> = match &decls[i] {
            Declaration::Model(m) => emit_model_decl(&names, options, m, false),
            Declaration::CompositeType(m) => {
                match composite_warning(options, m) {
                    Some(w) => {
                        let ghost prevw = warns.deep_view();
                        let ghost wv = w@;
                        warns.push(w);
                        proof {
                            assert(warns.deep_view() =~= prevw.push(wv));
                            assert(prevw.push(wv) =~= prevw + seq![wv]);
                        }
                    },
                    None => {},
                }
                emit_model_decl(&names, options, m, true)
            },
            Declaration::Enum(e) => Ok(emit_enum_decl(options, e)),
        };
        match emitted {
            Ok(Some(d)) => {
                let d2 = apply_patches(options, d);
                let ghost prev = out.deep_view();
                let ghost dv = d2@;
                out.push(d2);
                proof {
                    assert(out.deep_view() =~= prev.push(dv));
                    let tail = emit_decls(nv, *options, decls@.skip(i as int + 1));
                    match tail {
                        Ok(trest) => {
                            assert(prev.push(dv) + trest =~= prev + (seq![dv] + trest));
                        },
                        Err(_) => {},
                    }
                }
            },
            Ok(None) => {},
            Err(x) => {
                return Err(x);
            },
        }
        i = i + 1;
    }
    proof {
        assert(decls@.skip(decls.len() as int).len() == 0);
        match emit_decls(nv, *options, decls@) {
            Ok(list) => {
                assert(out.deep_view() + Seq::<EmittedDeclarationModel>::empty()
                    =~= out.deep_view());
                assert(out.deep_view() =~= list);
            },
            Err(_) => {},
        }
        assert(warns.deep_view() + warnings_of(*options, decls@.skip(decls.len() as int))
            =~= warns.deep_view());
    }
    Ok(EmitOutput { declarations: out, warnings: warns })
}

/// The declaration list of a document model: models, then composite types,
/// then enums, each in schema order.
pub open spec fn decls_of_datamodel(dm: Datamodel) -> Seq<Declaration> {
    dm.models@.map_values(|m: Model| Declaration::Model(m)) + dm.type_models@.map_values(
        |m: Model| Declaration::CompositeType(m),
    ) + dm.enums@.map_values(|e: DatamodelEnum| Declaration::Enum(e))
}

/// The declaration list of a document model.
pub fn datamodel_declarations(datamodel: Datamodel) -> (r: Vec<Declaration>)
    ensures
        r@ == decls_of_datamodel(datamodel),
{
    let ghost dm0 = datamodel;
    let Datamodel { models, enums, type_models, indexes: _ } = datamodel;
    let mut out: Vec<Declaration> = Vec::new();
    let mut ms = models;
    proof {
        assert(out@ + ms@.map_values(|m: Model| Declaration::Model(m)) =~= dm0.models@.map_values(
            |m: Model| Declaration::Model(m),
        ));
    }
    while ms.len() > 0
        invariant
            dm0.models@.map_values(|m: Model| Declaration::Model(m)) == out@ + ms@.map_values(
                |m: Model| Declaration::Model(m),
            ),
        decreases ms.len(),
    {
        let ghost msv = ms@;
        let ghost prev = out@;
        let x = ms.remove(0);
        out.push(Declaration::Model(x));
        proof {
            assert(ms@ =~= msv.drop_first());
            assert(out@ =~= prev.push(Declaration::Model(x)));
            assert(prev.push(Declaration::Model(x)) + msv.drop_first().map_values(
                |m: Model| Declaration::Model(m),
            ) =~= prev + msv.map_values(|m: Model| Declaration::Model(m)));
        }
    }
    let ghost phase1 = out@;
    proof {
        assert(ms@.map_values(|m: Model| Declaration::Model(m)).len() == 0);
        assert(phase1 =~= dm0.models@.map_values(|m: Model| Declaration::Model(m)));
    }
    let mut ts = type_models;
    proof {
        assert(out@ + ts@.map_values(|m: Model| Declaration::CompositeType(m)) =~= phase1
            + dm0.type_models@.map_values(|m: Model| Declaration::CompositeType(m)));
    }
    while ts.len() > 0
        invariant
            phase1 + dm0.type_models@.map_values(|m: Model| Declaration::CompositeType(m)) == out@
                + ts@.map_values(|m: Model| Declaration::CompositeType(m)),
        decreases ts.len(),
    {
        let ghost tsv = ts@;
        let ghost prev = out@;
        let x = ts.remove(0);
        out.push(Declaration::CompositeType(x));
        proof {
            assert(ts@ =~= tsv.drop_first());
            assert(out@ =~= prev.push(Declaration::CompositeType(x)));
            assert(prev.push(Declaration::CompositeType(x)) + tsv.drop_first().map_values(
                |m: Model| Declaration::CompositeType(m),
            ) =~= prev + tsv.map_values(|m: Model| Declaration::CompositeType(m)));
        }
    }
    let ghost phase2 = out@;
    proof {
        assert(ts@.map_values(|m: Model| Declaration::CompositeType(m)).len() == 0);
        assert(phase2 =~= phase1 + dm0.type_models@.map_values(
            |m: Model| Declaration::CompositeType(m),
        ));
    }
    let mut es = enums;
    proof {
        assert(out@ + es@.map_values(|e: DatamodelEnum| Declaration::Enum(e)) =~= phase2
            + dm0.enums@.map_values(|e: DatamodelEnum| Declaration::Enum(e)));
    }
    while es.len() > 0
        invariant
            phase2 + dm0.enums@.map_values(|e: DatamodelEnum| Declaration::Enum(e)) == out@
                + es@.map_values(|e: DatamodelEnum| Declaration::Enum(e)),
        decreases es.len(),
    {
        let ghost esv = es@;
        let ghost prev = out@;
        let x = es.remove(0);
        out.push(Declaration::Enum(x));
        proof {
            assert(es@ =~= esv.drop_first());
            assert(out@ =~= prev.push(Declaration::Enum(x)));
            assert(prev.push(Declaration::Enum(x)) + esv.drop_first().map_values(
                |e: DatamodelEnum| Declaration::Enum(e),
            ) =~= prev + esv.map_values(|e: DatamodelEnum| Declaration::Enum(e)));
        }
    }
    proof {
        assert(es@.map_values(|e: DatamodelEnum| Declaration::Enum(e)).len() == 0);
        assert(out@ =~= decls_of_datamodel(dm0));
    }
    out
}

// ---------------------------------------------------------------------------
// Rendering to source text
// ---------------------------------------------------------------------------

/// The visibility qualifier as source text.
pub open spec fn vis_text(v: Visibility) -> Seq<char> {
    match v {
        Visibility::Public => "pub "@,
        Visibility::Private => Seq::empty(),
        Visibility::Protected => "pub(crate) "@,
    }
}

/// Doc-comment lines as source text, one `///` line each, indented.
pub open spec fn render_docs(ds: Seq<Seq<char>>, indent: Seq<char>) -> Seq<char>
    decreases ds.len(),
{
    if ds.len() == 0 {
        Seq::empty()
    } else {
        indent + "/// "@ + ds[0] + "\n"@ + render_docs(ds.drop_first(), indent)
    }
}

/// A member's storage-rename attribute as source text, if it has one.
pub open spec fn render_rename(o: Option<Seq<char>>) -> Seq<char> {
    match o {
        Some(n) => "    #[serde(rename = \""@ + n + "\")]\n"@,
        None => Seq::empty(),
    }
}

/// One member as source text: a struct field with its type, or a bare enum
/// variant.
pub open spec fn render_member(m: EmittedMemberModel) -> Seq<char> {
    match m.type_expr {
        Some(t) => render_docs(m.docs, "    "@) + render_rename(m.storage_rename) + "    "@
            + vis_text(m.visibility) + m.name + ": "@ + t + ",\n"@,
        None => render_docs(m.docs, "    "@) + render_rename(m.storage_rename) + "    "@ + m.name
            + ",\n"@,
    }
}

/// A member list as source text, in order.
pub open spec fn render_members(ms: Seq<EmittedMemberModel>) -> Seq<char>
    decreases ms.len(),
{
    if ms.len() == 0 {
        Seq::empty()
    } else {
        render_member(ms[0]) + render_members(ms.drop_first())
    }
}

/// The tail of a comma-separated list.
pub open spec fn join_rest(ds: Seq<Seq<char>>) -> Seq<char>
    decreases ds.len(),
{
    if ds.len() == 0 {
        Seq::empty()
    } else {
        ", "@ + ds[0] + join_rest(ds.drop_first())
    }
}

/// A comma-separated list.
pub open spec fn join_comma(ds: Seq<Seq<char>>) -> Seq<char> {
    if ds.len() == 0 {
        Seq::empty()
    } else {
        ds[0] + join_rest(ds.drop_first())
    }
}

/// A derive list as a derive attribute, or nothing.
pub open spec fn render_derive(d: Option<Seq<Seq<char>>>) -> Seq<char> {
    match d {
        Some(l) => "#[derive("@ + join_comma(l) + ")]\n"@,
        None => Seq::empty(),
    }
}

/// One declaration as source text.
pub open spec fn render_declaration(d: EmittedDeclarationModel) -> Seq<char> {
    render_docs(d.docs, Seq::empty()) + render_derive(d.derive) + vis_text(d.visibility) + (
    match d.kind {
        EmittedKind::Struct => "struct "@,
        EmittedKind::Enum => "enum "@,
    }) + d.name + " {\n"@ + render_members(d.members) + "}\n\n"@
}

/// A declaration list as source text, concatenated in order.
pub open spec fn render_all(ds: Seq<EmittedDeclarationModel>) -> Seq<char>
    decreases ds.len(),
{
    if ds.len() == 0 {
        Seq::empty()
    } else {
        render_declaration(ds[0]) + render_all(ds.drop_first())
    }
}

#[verifier::loop_isolation(false)]
fn render_docs_into(out: &mut String, docs: &Vec<String>, indent: &str)
    ensures
        final(out)@ == old(out)@ + render_docs(docs.deep_view(), indent@),
{
    let ghost base = out@;
    let ghost dv = docs.deep_view();
    let mut i: usize = 0;
    proof {
        assert(dv.skip(0) =~= dv);
    }
    while i < docs.len()
        invariant
            i <= docs.len(),
            base + render_docs(dv, indent@) == out@ + render_docs(dv.skip(i as int), indent@),
        decreases docs.len() - i,
    {
        let ghost rest = dv.skip(i as int);
        proof {
            assert(rest[0] == dv[i as int]);
            assert(rest.drop_first() =~= dv.skip(i as int + 1));
            assert(docs[i as int]@ == dv[i as int]);
        }
        let ghost before = out@;
        out.append(indent);
        out.append("/// ");
        out.append(docs[i].as_str());
        out.append("\n");
        proof {
            assert(out@ + render_docs(dv.skip(i as int + 1), indent@) =~= before + render_docs(
                rest,
                indent@,
            ));
        }
        i = i + 1;
    }
    proof {
        assert(render_docs(dv.skip(docs.len() as int), indent@).len() == 0);
        assert(out@ =~= base + render_docs(dv, indent@));
    }
}

#[verifier::loop_isolation(false)]
fn render_member_into(out: &mut String, m: &EmittedMember)
    ensures
        final(out)@ == old(out)@ + render_member(m@),
{
    let ghost base = out@;
    render_docs_into(out, &m.docs, "    ");
    match &m.storage_rename {
        Some(n) => {
            out.append("    #[serde(rename = \"");
            out.append(n.as_str());
            out.append("\")]\n");
        },
        None => {},
    }
    out.append("    ");
    match &m.type_expr {
        Some(t) => {
            match m.visibility {
                Visibility::Public => out.append("pub "),
                Visibility::Private => {},
                Visibility::Protected => out.append("pub(crate) "),
            }
            out.append(m.name.as_str());
            out.append(": ");
            out.append(t.as_str());
            out.append(",\n");
        },
        None => {
            out.append(m.name.as_str());
            out.append(",\n");
        },
    }
    proof {
        assert(out@ =~= base + render_member(m@));
    }
}

#[verifier::loop_isolation(false)]
fn render_derive_into(out: &mut String, d: &Option<Vec<String>>)
    ensures
        final(out)@ == old(out)@ + render_derive(d.deep_view()),
{
    let ghost base = out@;
    let l = match d {
        None => {
            proof {
                assert(out@ =~= base + render_derive(d.deep_view()));
            }
            return ;
        },
        Some(l) => l,
    };
    let ghost lv = l.deep_view();
    out.append("#[derive(");
    if l.len() > 0 {
        out.append(l[0].as_str());
        let ghost mid = out@;
        let mut i: usize = 1;
        proof {
            assert(lv.skip(1) =~= lv.drop_first());
        }
        while i < l.len()
            invariant
                1 <= i <= l.len(),
                mid + join_rest(lv.drop_first()) == out@ + join_rest(lv.skip(i as int)),
            decreases l.len() - i,
        {
            let ghost rest = lv.skip(i as int);
            proof {
                assert(rest[0] == lv[i as int]);
                assert(rest.drop_first() =~= lv.skip(i as int + 1));
                assert(l[i as int]@ == lv[i as int]);
            }
            let ghost before = out@;
            out.append(", ");
            out.append(l[i].as_str());
            proof {
                assert(out@ + join_rest(lv.skip(i as int + 1)) =~= before + join_rest(rest));
            }
            i = i + 1;
        }
        proof {
            assert(join_rest(lv.skip(l.len() as int)).len() == 0);
            assert(out@ =~= mid + join_rest(lv.drop_first()));
        }
    }
    out.append(")]\n");
    proof {
        assert(out@ =~= base + render_derive(d.deep_view()));
    }
}

#[verifier::loop_isolation(false)]
#[verifier::rlimit(60)]
fn render_declaration_into(out: &mut String, d: &EmittedDeclaration)
    ensures
        final(out)@ == old(out)@ + render_declaration(d@),
{
    let ghost base = out@;
    proof {
        reveal_strlit("");
        assert(""@ =~= Seq::<char>::empty());
    }
    render_docs_into(out, &d.docs, "");
    render_derive_into(out, &d.derive);
    match d.visibility {
        Visibility::Public => out.append("pub "),
        Visibility::Private => {},
        Visibility::Protected => out.append("pub(crate) "),
    }
    match d.kind {
        EmittedKind::Struct => out.append("struct "),
        EmittedKind::Enum => out.append("enum "),
    }
    out.append(d.name.as_str());
    out.append(" {\n");
    let ghost mid = out@;
    let ghost mv = d.members.deep_view();
    let mut i: usize = 0;
    proof {
        assert(mv.skip(0) =~= mv);
    }
    while i < d.members.len()
        invariant
            i <= d.members.len(),
            mid + render_members(mv) == out@ + render_members(mv.skip(i as int)),
        decreases d.members.len() - i,
    {
        let ghost rest = mv.skip(i as int);
        proof {
            assert(rest[0] == mv[i as int]);
            assert(rest.drop_first() =~= mv.skip(i as int + 1));
            assert(d.members[i as int]@ == mv[i as int]);
        }
        let ghost before = out@;
        render_member_into(out, &d.members[i]);
        proof {
            assert(out@ + render_members(mv.skip(i as int + 1)) =~= before + render_members(rest));
        }
        i = i + 1;
    }
    proof {
        assert(render_members(mv.skip(d.members.len() as int)).len() == 0);
        assert(out@ =~= mid + render_members(mv));
    }
    out.append("}\n\n");
    proof {
        assert(out@ =~= base + render_declaration(d@));
    }
}

/// Emitted declarations rendered as one source-text artifact, concatenated
/// in order.
#[verifier::loop_isolation(false)]
pub fn render_declarations(decls: &Vec<EmittedDeclaration>) -> (r: String)
    ensures
        r@ == render_all(decls.deep_view()),
{
    let mut out = String::new();
    let ghost dv = decls.deep_view();
    let mut i: usize = 0;
    proof {
        assert(dv.skip(0) =~= dv);
    }
    while i < decls.len()
        invariant
            i <= decls.len(),
            render_all(dv) == out@ + render_all(dv.skip(i as int)),
        decreases decls.len() - i,
    {
        let ghost rest = dv.skip(i as int);
        proof {
            assert(rest[0] == dv[i as int]);
            assert(rest.drop_first() =~= dv.skip(i as int + 1));
            assert(decls[i as int]@ == dv[i as int]);
        }
        let ghost before = out@;
        render_declaration_into(&mut out, &decls[i]);
        proof {
            assert(out@ + render_all(dv.skip(i as int + 1)) =~= before + render_all(rest));
        }
        i = i + 1;
    }
    proof {
        assert(render_all(dv.skip(decls.len() as int)).len() == 0);
        assert(out@ =~= render_all(dv));
    }
    out
}

/// One generation run's artifact: the rendered source text and the warnings
/// raised while emitting.
#[derive(Debug)]
pub struct GeneratedOutput {
    pub code: String,
    pub warnings: Vec<String>,
}

/// The whole translation of a document model under the given options: the
/// declarations emitted in schema order, patched, and rendered as one text
/// artifact; the first emission error aborts.
pub fn generate_rust_types(datamodel: Datamodel, options: &EmitOptions) -> (r: Result<
    GeneratedOutput,
    EmitError,
>)
    ensures
        ({
            let ds = decls_of_datamodel(datamodel);
            match emit_decls(model_names_of(ds), *options, ds) {
                Ok(list) => r matches Ok(g) && g.code@ == render_all(list)
                    && g.warnings.deep_view() == warnings_of(*options, ds),
                Err(e) => r matches Err(x) && x@ == e,
            }
        }),
{
    let decls = datamodel_declarations(datamodel);
    match emit_declarations(&decls, options) {
        Ok(out) => {
            let code = render_declarations(&out.declarations);
            Ok(GeneratedOutput { code: code, warnings: out.warnings })
        },
        Err(e) => Err(e),
    }
}

// ---------------------------------------------------------------------------
// Laws of emission and patching
// ---------------------------------------------------------------------------

/// The annotation record a declaration's own documentation folds to.
pub open spec fn decl_record(d: Declaration) -> crate::annotation::AnnRecord {
    match d {
        Declaration::Model(m) => ann_or_default(doc_seq(m.documentation), AnnotationKind::Model),
        Declaration::CompositeType(m) => ann_or_default(
            doc_seq(m.documentation),
            AnnotationKind::CompositeType,
        ),
        Declaration::Enum(e) => ann_or_default(doc_seq(e.documentation), AnnotationKind::Enum),
    }
}

/// A declaration whose annotation says skip contributes nothing to the
/// output: no emitted declaration and no warning, whatever the options.
pub proof fn lemma_skip_omits_declaration(
    model_names: Seq<Seq<char>>,
    opts: EmitOptions,
    d: Declaration,
)
    requires
        decl_record(d).skip,
    ensures
        emit_one(model_names, opts, d) == Ok::<Option<EmittedDeclarationModel>, EmitErrorModel>(
            None,
        ),
        warning_of(opts, d) is None,
{
}

/// A declaration whose annotation says skip is entirely absent from the
/// emitted output: the list emitted with it equals the list emitted
/// without it.
pub proof fn lemma_skip_absent(
    model_names: Seq<Seq<char>>,
    opts: EmitOptions,
    ds: Seq<Declaration>,
    i: int,
)
    requires
        0 <= i < ds.len(),
        decl_record(ds[i]).skip,
    ensures
        emit_decls(model_names, opts, ds) == emit_decls(model_names, opts, ds.remove(i)),
    decreases ds.len(),
{
    if i == 0 {
        lemma_skip_omits_declaration(model_names, opts, ds[0]);
        assert(ds.remove(0) =~= ds.drop_first());
    } else {
        let t = ds.drop_first();
        assert(forall|j: int| 0 <= j < t.len() ==> t[j] == ds[j + 1]);
        lemma_skip_absent(model_names, opts, t, i - 1);
        assert(ds.remove(i).drop_first() =~= t.remove(i - 1));
        assert(ds.remove(i)[0] == ds[0]);
    }
}

/// A patch replaces exactly the members it names and keeps every other
/// member verbatim; nothing else about the declaration changes, and no
/// member is added: a patch member without a matching original name does
/// not appear.
pub proof fn lemma_patch_replace_or_keep(d: EmittedDeclarationModel, p: PatchModel)
    ensures
        patched_declaration(d, p).name == d.name,
        patched_declaration(d, p).docs == d.docs,
        patched_declaration(d, p).derive == d.derive,
        patched_declaration(d, p).visibility == d.visibility,
        patched_declaration(d, p).kind == d.kind,
        patched_declaration(d, p).members.len() == d.members.len(),
        forall|i: int|
            0 <= i < d.members.len() ==> patched_declaration(d, p).members[i] == (
            match find_member(p.members, d.members[i].name) {
                Some(pm) => pm,
                None => d.members[i],
            }),
{
}

/// A relation field is entirely absent from a declaration's emitted
/// members: the member list emitted with it equals the list emitted
/// without it.
pub proof fn lemma_relation_absent(
    model_names: Seq<Seq<char>>,
    opts: EmitOptions,
    fs: Seq<Field>,
    i: int,
)
    requires
        0 <= i < fs.len(),
        crate::code::is_relation_spec(model_names, fs[i]),
    ensures
        members_of_fields(model_names, opts, fs) == members_of_fields(
            model_names,
            opts,
            fs.remove(i),
        ),
    decreases fs.len(),
{
    if i == 0 {
        crate::code::lemma_relation_field_absent(model_names, opts, fs[0]);
        assert(fs.remove(0) =~= fs.drop_first());
    } else {
        let t = fs.drop_first();
        assert(forall|j: int| 0 <= j < t.len() ==> t[j] == fs[j + 1]);
        lemma_relation_absent(model_names, opts, t, i - 1);
        assert(fs.remove(i).drop_first() =~= t.remove(i - 1));
        assert(fs.remove(i)[0] == fs[0]);
    }
}

} // verus!