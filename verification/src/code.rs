//! Member-level emission: relation detection, documentation extraction,
//! derive resolution, and the translation of one schema field or enum value
//! into an emitted member.

use vstd::prelude::*;
use crate::annotation::{
    ann_or_default, directive_prefix, doc_seq, field_record, enum_value_record, rec_default,
    AnnRecord, AnnotationKind, FieldAnnotation, EnumValueAnnotation,
    lemma_empty_documentation_defaults, Visibility,
};
use crate::dmmf::{EnumValue, Field};
use crate::emit::{EmitError, EmitErrorModel, EmitOptions, EmittedMember, EmittedMemberModel};
use crate::text::{eq_str, lines_of, split_lines, starts_with, trim_of, trim_str};
use crate::transform::{convert_field_to_type, field_type_of, snake_of, to_snake_case};

verus! {

// ---------------------------------------------------------------------------
// Documentation extraction
// ---------------------------------------------------------------------------

/// The non-directive lines among `ls`, each trimmed, in order.
pub open spec fn doc_lines_from(ls: Seq<Seq<char>>) -> Seq<Seq<char>>
    decreases ls.len(),
{
    if ls.len() == 0 {
        Seq::empty()
    } else {
        let t = trim_of(ls[0]);
        let rest = doc_lines_from(ls.drop_first());
        if starts_with(t, directive_prefix()) {
            rest
        } else {
            seq![t] + rest
        }
    }
}

/// The doc-comment lines of a documentation string: every line that is not
/// a directive line, trimmed, in original order.
pub open spec fn doc_lines_of(s: Seq<char>) -> Seq<Seq<char>> {
    doc_lines_from(lines_of(s))
}

/// The doc-comment lines of an optional documentation string, directives
/// stripped.
pub fn extract_docs(documentation: &Option<String>) -> (r: Vec<String>)
    ensures
        r.deep_view() == doc_lines_of(doc_seq(*documentation)),
{
    proof {
        reveal_strlit("@prs.");
    }
    let mut out: Vec<String> = Vec::new();
    let d = match documentation {
        Some(d) => d,
        None => {
            assert(lines_of(Seq::empty()).len() == 0);
            assert(out.deep_view() =~= doc_lines_of(doc_seq(*documentation)));
            return out;
        },
    };
    let lines = split_lines(d.as_str());
    let mut i: usize = 0;
    proof {
        assert(lines.deep_view().skip(0) =~= lines.deep_view());
        assert(Seq::<Seq<char>>::empty() + doc_lines_from(lines.deep_view()) =~= doc_lines_from(
            lines.deep_view(),
        ));
    }
    while i < lines.len()
        invariant
            lines.deep_view() == lines_of(d@),
            i <= lines.len(),
            doc_lines_from(lines.deep_view()) == out.deep_view() + doc_lines_from(
                lines.deep_view().skip(i as int),
            ),
        decreases lines.len() - i,
    {
        let ghost ls = lines.deep_view().skip(i as int);
        proof {
            reveal_strlit("@prs.");
            assert(ls[0] == lines.deep_view()[i as int]);
            assert(ls.drop_first() =~= lines.deep_view().skip(i as int + 1));
            assert(lines[i as int]@ == lines.deep_view()[i as int]);
        }
        let t = trim_str(lines[i].as_str());
        let n = t.as_str().unicode_len();
        let directive: bool = if n >= 5 {
            eq_str(t.as_str().substring_char(0, 5), "@prs.")
        } else {
            false
        };
        assert(directive == starts_with(trim_of(ls[0]), directive_prefix()));
        if !directive {
            let ghost prev = out.deep_view();
            let ghost tv = t@;
            out.push(t);
            proof {
                assert(out.deep_view() =~= prev.push(tv));
                assert(prev.push(tv) =~= prev + seq![tv]);
            }
        }
        i = i + 1;
    }
    proof {
        assert(doc_lines_from(lines.deep_view().skip(lines.len() as int)).len() == 0);
        assert(out.deep_view() =~= doc_lines_from(lines.deep_view()));
    }
    out
}

// ---------------------------------------------------------------------------
// Derive resolution
// ---------------------------------------------------------------------------

/// The derive list attached to a declaration: its own, or the configured
/// default.
pub open spec fn resolved_derive(d: Option<Seq<Seq<char>>>, opts: EmitOptions) -> Option<
    Seq<Seq<char>>,
> {
    match d {
        Some(x) => Some(x),
        None => opts.derive.deep_view(),
    }
}

fn clone_strings(v: &Vec<String>) -> (r: Vec<String>)
    ensures
        r@ == v@,
{
    let mut out: Vec<String> = Vec::new();
    let mut i: usize = 0;
    while i < v.len()
        invariant
            i <= v.len(),
            out@ == v@.take(i as int),
        decreases v.len() - i,
    {
        out.push(v[i].clone());
        i = i + 1;
        assert(out@ =~= v@.take(i as int));
    }
    assert(out@ =~= v@);
    out
}

/// The derive list for a declaration whose own annotation gave `derive`,
/// falling back to the options' default list.
pub fn handle_derive(derive: Option<Vec<String>>, options: &EmitOptions) -> (r: Option<
    Vec<String>,
>)
    ensures
        r.deep_view() == resolved_derive(derive.deep_view(), *options),
{
    match derive {
        Some(d) => Some(d),
        None => match &options.derive {
            Some(d) => {
                let c = clone_strings(d);
                assert(c.deep_view() =~= d.deep_view());
                Some(c)
            },
            None => None,
        },
    }
}

// ---------------------------------------------------------------------------
// Relation detection
// ---------------------------------------------------------------------------

/// Whether a field carries an explicit relation marker: a relation name, or
/// a non-empty relation-source list.
pub open spec fn relation_marked(f: Field) -> bool {
    f.relation_name is Some || (match f.relation_from_fields {
        Some(v) => v@.len() > 0,
        None => false,
    })
}

/// A field denotes a relation if it carries a relation marker or its type
/// names another model.
pub open spec fn is_relation_spec(model_names: Seq<Seq<char>>, f: Field) -> bool {
    relation_marked(f) || model_names.contains(f.field_type@)
}

/// Whether the field denotes a relation to another model.
pub fn is_relation(model_names: &Vec<String>, field: &Field) -> (r: bool)
    ensures
        r == is_relation_spec(model_names.deep_view(), *field),
{
    let marked: bool = match &field.relation_name {
        Some(_) => true,
        None => match &field.relation_from_fields {
            Some(v) => v.len() > 0,
            None => false,
        },
    };
    if marked {
        return true;
    }
    let mut i: usize = 0;
    while i < model_names.len()
        invariant
            i <= model_names.len(),
            forall|j: int| 0 <= j < i ==> model_names.deep_view()[j] != field.field_type@,
        decreases model_names.len() - i,
    {
        if eq_str(model_names[i].as_str(), field.field_type.as_str()) {
            assert(model_names.deep_view()[i as int] == field.field_type@);
            return true;
        }
        i = i + 1;
    }
    assert(!model_names.deep_view().contains(field.field_type@));
    false
}

// ---------------------------------------------------------------------------
// Member emission
// ---------------------------------------------------------------------------

/// The emitted member a field gives rise to: nothing for a relation or a
/// skipped field; otherwise the renamed-or-snake-cased name, the storage
/// rename where the stored name differs, the mapped or overridden type, and
/// the extracted documentation.
pub open spec fn member_of_field(model_names: Seq<Seq<char>>, opts: EmitOptions, f: Field) -> Result<
    Option<EmittedMemberModel>,
    EmitErrorModel,
> {
    if is_relation_spec(model_names, f) {
        Ok(None)
    } else {
        let rec = field_record(ann_or_default(doc_seq(f.documentation), AnnotationKind::Field));
        if rec.skip {
            Ok(None)
        } else {
            let name = match rec.rename {
                Some(n) => n,
                None => snake_of(f.name@),
            };
            let storage = if f.db_name is Some {
                f.db_name.deep_view()
            } else if rec.rename is Some {
                Some(f.name@)
            } else if name != f.name@ {
                Some(f.name@)
            } else {
                None
            };
            let ty = match rec.type_ {
                Some(t) => Ok(t),
                None => field_type_of(f, opts.prefix),
            };
            match ty {
                Ok(t) => Ok(
                    Some(
                        EmittedMemberModel {
                            name: name,
                            docs: doc_lines_of(doc_seq(f.documentation)),
                            storage_rename: storage,
                            visibility: rec.visibility,
                            type_expr: Some(t),
                        },
                    ),
                ),
                Err(e) => Err(e),
            }
        }
    }
}

/// The emitted member of one field, if it yields one.
pub fn handle_fields(model_names: &Vec<String>, options: &EmitOptions, field: &Field) -> (r: Result<
    Option<EmittedMember>,
    EmitError,
>)
    ensures
        match member_of_field(model_names.deep_view(), *options, *field) {
            Ok(Some(m)) => r matches Ok(Some(em)) && em@ == m,
            Ok(None) => r matches Ok(None),
            Err(e) => r matches Err(x) && x@ == e,
        },
{
    if is_relation(model_names, field) {
        return Ok(None);
    }
    let ann = match &field.documentation {
        Some(d) => FieldAnnotation::from(d.as_str()),
        None => {
            proof {
                lemma_empty_documentation_defaults(AnnotationKind::Field);
            }
            FieldAnnotation::default()
        },
    };
    if ann.skip {
        return Ok(None);
    }
    let renamed = ann.rename.is_some();
    let name: String = match ann.rename {
        Some(n) => n,
        None => to_snake_case(field.name.as_str()),
    };
    let storage: Option<String> = match &field.db_name {
        Some(d) => Some(d.clone()),
        None => {
            if renamed {
                Some(field.name.clone())
            } else if !eq_str(name.as_str(), field.name.as_str()) {
                Some(field.name.clone())
            } else {
                None
            }
        },
    };
    let ty: String = match ann.type_ {
        Some(t) => t,
        None => match convert_field_to_type(field, options) {
            Ok(t) => t,
            Err(e) => {
                return Err(e);
            },
        },
    };
    let docs = extract_docs(&field.documentation);
    Ok(
        Some(
            EmittedMember {
                name: name,
                docs: docs,
                storage_rename: storage,
                visibility: ann.visibility,
                type_expr: Some(ty),
            },
        ),
    )
}

/// The emitted member an enum value gives rise to: nothing when skipped;
/// otherwise the renamed-or-verbatim name (enum values are not
/// case-converted) and the storage rename where a stored name is declared
/// or the value was renamed.
pub open spec fn member_of_enum_value(v: EnumValue) -> Option<EmittedMemberModel> {
    let rec = enum_value_record(
        ann_or_default(doc_seq(v.documentation), AnnotationKind::EnumValue),
    );
    if rec.skip {
        None
    } else {
        let name = match rec.rename {
            Some(n) => n,
            None => v.name@,
        };
        let storage = if v.db_name is Some {
            v.db_name.deep_view()
        } else if rec.rename is Some {
            Some(v.name@)
        } else {
            None
        };
        Some(
            EmittedMemberModel {
                name: name,
                docs: doc_lines_of(doc_seq(v.documentation)),
                storage_rename: storage,
                visibility: Visibility::Public,
                type_expr: None,
            },
        )
    }
}

/// The emitted member of one enum value, if it yields one.
pub fn handle_enum_value(value: &EnumValue) -> (r: Option<EmittedMember>)
    ensures
        match member_of_enum_value(*value) {
            Some(m) => r matches Some(em) && em@ == m,
            None => r is None,
        },
{
    let ann = match &value.documentation {
        Some(d) => EnumValueAnnotation::from(d.as_str()),
        None => {
            proof {
                lemma_empty_documentation_defaults(AnnotationKind::EnumValue);
            }
            EnumValueAnnotation::default()
        },
    };
    if ann.skip {
        return None;
    }
    let renamed = ann.rename.is_some();
    let name: String = match ann.rename {
        Some(n) => n,
        None => value.name.clone(),
    };
    let storage: Option<String> = match &value.db_name {
        Some(d) => Some(d.clone()),
        None => {
            if renamed {
                Some(value.name.clone())
            } else {
                None
            }
        },
    };
    let docs = extract_docs(&value.documentation);
    Some(
        EmittedMember {
            name: name,
            docs: docs,
            storage_rename: storage,
            visibility: Visibility::Public,
            type_expr: None,
        },
    )
}

// ---------------------------------------------------------------------------
// Laws of member emission
// ---------------------------------------------------------------------------

/// A relation field never yields an emitted member, whatever its skip or
/// rename directives say.
pub proof fn lemma_relation_field_absent(model_names: Seq<Seq<char>>, opts: EmitOptions, f: Field)
    requires
        is_relation_spec(model_names, f),
    ensures
        member_of_field(model_names, opts, f) == Ok::<Option<EmittedMemberModel>, EmitErrorModel>(
            None,
        ),
{
}

} // verus!