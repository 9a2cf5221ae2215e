//! The directive parser: documentation strings carry `@prs.key=value`
//! directives, one per line, which fold into a structured annotation per
//! declaration kind. Unknown keys, malformed visibility values and empty
//! derive lists are hard parse errors; the infallible conversion path
//! degrades any error to the all-defaults annotation.

use vstd::prelude::*;
use crate::text::{trim_of, trim_str, lines_of, split_lines, starts_with, eq_str, string_from_chars};

verus! {

// ---------------------------------------------------------------------------
// Kinds, visibility, records
// ---------------------------------------------------------------------------

/// The visibility of an emitted declaration or member.
#[derive(Debug, Clone, Copy, PartialEq, Eq, Structural)]
pub enum Visibility {
    /// Visible to all, i.e. `pub`.
    Public,
    /// Not visible.
    Private,
    /// Visible to the current crate, i.e. `pub(crate)`.
    Protected,
}

impl Default for Visibility {
    /// The default visibility is public.
    fn default() -> (r: Self)
        ensures
            r == Visibility::Public,
    {
        Visibility::Public
    }
}

/// The declaration kind an annotation is parsed for; it decides which
/// directive keys are recognized.
#[derive(Debug, Clone, Copy, PartialEq, Eq, Structural)]
pub enum AnnotationKind {
    Field,
    Model,
    Enum,
    EnumValue,
    CompositeType,
}

/// Whether the kind recognizes the `visibility` directive.
pub open spec fn allows_visibility(k: AnnotationKind) -> bool {
    !(k is EnumValue)
}

/// Whether the kind recognizes the `type` directive.
pub open spec fn allows_type(k: AnnotationKind) -> bool {
    k is Field || k is CompositeType
}

/// Whether the kind recognizes the `derive` directive.
pub open spec fn allows_derive(k: AnnotationKind) -> bool {
    k is Model || k is Enum || k is CompositeType
}

/// The mathematical model of a parsed annotation: every directive any kind
/// recognizes, with the fields a kind does not know left at their defaults.
#[verifier::ext_equal]
pub struct AnnRecord {
    pub skip: bool,
    pub rename: Option<Seq<char>>,
    pub visibility: Visibility,
    pub type_: Option<Seq<char>>,
    pub derive: Option<Seq<Seq<char>>>,
}

/// The all-defaults annotation record.
pub open spec fn rec_default() -> AnnRecord {
    AnnRecord { skip: false, rename: None, visibility: Visibility::Public, type_: None, derive: None }
}

/// The mathematical model of a directive parse error.
pub enum AnnError {
    /// A `visibility` value that is none of the three recognized words;
    /// carries the raw value.
    UnknownVisibility(Seq<char>),
    /// A directive key the kind does not recognize; carries the directive
    /// body after the prefix.
    UnknownDirective(Seq<char>),
    /// A `derive` directive with an empty value.
    EmptyDerive,
}

// ---------------------------------------------------------------------------
// The directive grammar
// ---------------------------------------------------------------------------

/// The fixed marker that opens a directive line.
pub open spec fn directive_prefix() -> Seq<char> {
    "@prs."@
}

/// The split of a directive body at its first `=`: the raw key read so far
/// is `pre`; a body without `=` has the implicit value `true`.
pub open spec fn split_directive_from(s: Seq<char>, pre: Seq<char>) -> (Seq<char>, Seq<char>)
    decreases s.len(),
{
    if s.len() == 0 {
        (pre, "true"@)
    } else if s[0] == '=' {
        (pre, s.drop_first())
    } else {
        split_directive_from(s.drop_first(), pre.push(s[0]))
    }
}

/// A comma-separated list, each segment trimmed; `cur` is the segment read
/// so far.
pub open spec fn split_commas_from(s: Seq<char>, cur: Seq<char>) -> Seq<Seq<char>>
    decreases s.len(),
{
    if s.len() == 0 {
        seq![trim_of(cur)]
    } else if s[0] == ',' {
        seq![trim_of(cur)] + split_commas_from(s.drop_first(), Seq::empty())
    } else {
        split_commas_from(s.drop_first(), cur.push(s[0]))
    }
}

/// The effect of one documentation line on an annotation record: a line
/// whose trimmed form does not start with the directive marker changes
/// nothing; a directive line updates one field or fails.
pub open spec fn ann_line(line: Seq<char>, kind: AnnotationKind, acc: AnnRecord) -> Result<
    AnnRecord,
    AnnError,
> {
    let t = trim_of(line);
    if !starts_with(t, directive_prefix()) {
        Ok(acc)
    } else {
        let rest = t.skip(directive_prefix().len() as int);
        let kv = split_directive_from(rest, Seq::empty());
        let key = trim_of(kv.0);
        let rawval = kv.1;
        let v = trim_of(rawval);
        if key == "skip"@ {
            Ok(AnnRecord { skip: v != "false"@, ..acc })
        } else if key == "rename"@ {
            Ok(AnnRecord { rename: Some(v), ..acc })
        } else if key == "type"@ && allows_type(kind) {
            Ok(AnnRecord { type_: Some(v), ..acc })
        } else if key == "visibility"@ && allows_visibility(kind) {
            if v == "private"@ {
                Ok(AnnRecord { visibility: Visibility::Private, ..acc })
            } else if v == "protected"@ {
                Ok(AnnRecord { visibility: Visibility::Protected, ..acc })
            } else if v == "public"@ {
                Ok(AnnRecord { visibility: Visibility::Public, ..acc })
            } else {
                Err(AnnError::UnknownVisibility(rawval))
            }
        } else if key == "derive"@ && allows_derive(kind) {
            if v.len() == 0 {
                Err(AnnError::EmptyDerive)
            } else {
                Ok(AnnRecord { derive: Some(split_commas_from(v, Seq::empty())), ..acc })
            }
        } else {
            Err(AnnError::UnknownDirective(rest))
        }
    }
}

/// The fold of a documentation string's lines into an annotation record,
/// stopping at the first erroneous directive.
pub open spec fn ann_fold(ls: Seq<Seq<char>>, kind: AnnotationKind, acc: AnnRecord) -> Result<
    AnnRecord,
    AnnError,
>
    decreases ls.len(),
{
    if ls.len() == 0 {
        Ok(acc)
    } else {
        match ann_line(ls[0], kind, acc) {
            Ok(a) => ann_fold(ls.drop_first(), kind, a),
            Err(e) => Err(e),
        }
    }
}

/// The annotation record of a whole documentation string.
pub open spec fn ann_of(s: Seq<char>, kind: AnnotationKind) -> Result<AnnRecord, AnnError> {
    ann_fold(lines_of(s), kind, rec_default())
}

/// The record of the infallible path: a parse error degrades to the
/// all-defaults record.
pub open spec fn ann_or_default(s: Seq<char>, kind: AnnotationKind) -> AnnRecord {
    match ann_of(s, kind) {
        Ok(rec) => rec,
        Err(_) => rec_default(),
    }
}

// ---------------------------------------------------------------------------
// The strict parser
// ---------------------------------------------------------------------------

/// A directive parse error, carrying the offending text.
#[derive(Debug, Clone, PartialEq, Eq)]
pub enum AnnotationError {
    /// A `visibility` value that is none of the recognized words.
    UnknownVisibility(String),
    /// A directive key the declaration kind does not recognize.
    UnknownDirective(String),
    /// A `derive` directive with an empty value.
    EmptyDerive,
}

impl View for AnnotationError {
    type V = AnnError;

    open spec fn view(&self) -> AnnError {
        match self {
            AnnotationError::UnknownVisibility(v) => AnnError::UnknownVisibility(v@),
            AnnotationError::UnknownDirective(d) => AnnError::UnknownDirective(d@),
            AnnotationError::EmptyDerive => AnnError::EmptyDerive,
        }
    }
}

/// The message of a parse error.
pub open spec fn error_message_of(e: AnnError) -> Seq<char> {
    match e {
        AnnError::UnknownVisibility(v) => "Unknown visibility: "@ + v
            + "\nAvailable options: private, protected (pub(crate)), public (pub)"@,
        AnnError::UnknownDirective(d) => "Unknown field annotation: "@ + d,
        AnnError::EmptyDerive => "Derive cannot be empty"@,
    }
}

impl AnnotationError {
    /// The error rendered as text, naming the offending value and, for a bad
    /// visibility, the valid options.
    pub fn message(&self) -> (r: String)
        ensures
            r@ == error_message_of(self@),
    {
        match self {
            AnnotationError::UnknownVisibility(v) => {
                let mut s = String::new();
                s.append("Unknown visibility: ");
                s.append(v.as_str());
                s.append("\nAvailable options: private, protected (pub(crate)), public (pub)");
                assert(s@ =~= error_message_of(self@));
                s
            },
            AnnotationError::UnknownDirective(d) => {
                let mut s = String::new();
                s.append("Unknown field annotation: ");
                s.append(d.as_str());
                assert(s@ =~= error_message_of(self@));
                s
            },
            AnnotationError::EmptyDerive => {
                let mut s = String::new();
                s.append("Derive cannot be empty");
                assert(s@ =~= error_message_of(self@));
                s
            },
        }
    }
}

/// A parsed annotation before it is narrowed to a declaration kind's own
/// record type.
#[derive(Debug, Clone)]
pub struct ParsedAnnotation {
    pub skip: bool,
    pub rename: Option<String>,
    pub visibility: Visibility,
    pub type_: Option<String>,
    pub derive: Option<Vec<String>>,
}

impl View for ParsedAnnotation {
    type V = AnnRecord;

    open spec fn view(&self) -> AnnRecord {
        AnnRecord {
            skip: self.skip,
            rename: self.rename.deep_view(),
            visibility: self.visibility,
            type_: self.type_.deep_view(),
            derive: self.derive.deep_view(),
        }
    }
}

fn allows_visibility_x(k: AnnotationKind) -> (r: bool)
    ensures
        r == allows_visibility(k),
{
    match k {
        AnnotationKind::EnumValue => false,
        _ => true,
    }
}

fn allows_type_x(k: AnnotationKind) -> (r: bool)
    ensures
        r == allows_type(k),
{
    match k {
        AnnotationKind::Field => true,
        AnnotationKind::CompositeType => true,
        _ => false,
    }
}

fn allows_derive_x(k: AnnotationKind) -> (r: bool)
    ensures
        r == allows_derive(k),
{
    match k {
        AnnotationKind::Model => true,
        AnnotationKind::Enum => true,
        AnnotationKind::CompositeType => true,
        _ => false,
    }
}

proof fn lemma_split_directive(s: Seq<char>, pre: Seq<char>, e: int)
    requires
        0 <= e <= s.len(),
        forall|j: int| 0 <= j < e ==> s[j] != '=',
        e < s.len() ==> s[e] == '=',
    ensures
        e < s.len() ==> split_directive_from(s, pre).0 == pre + s.take(e)
            && split_directive_from(s, pre).1 == s.skip(e + 1),
        e == s.len() ==> split_directive_from(s, pre).0 == pre + s && split_directive_from(
            s,
            pre,
        ).1 == "true"@,
    decreases s.len(),
{
    if s.len() == 0 {
        assert(pre + s =~= pre);
    } else if e == 0 {
        assert(s[0] == '=');
        assert(pre + s.take(0) =~= pre);
        assert(s.drop_first() =~= s.skip(1));
    } else {
        let t = s.drop_first();
        assert(forall|j: int| 0 <= j < t.len() ==> t[j] == s[j + 1]);
        lemma_split_directive(t, pre.push(s[0]), e - 1);
        if e < s.len() {
            assert(pre.push(s[0]) + t.take(e - 1) =~= pre + s.take(e));
            assert(t.skip(e) =~= s.skip(e + 1));
        } else {
            assert(pre.push(s[0]) + t =~= pre + s);
        }
    }
}

/// The segments of a comma-separated list, each trimmed.
fn split_commas(s: &str) -> (r: Vec<String>)
    ensures
        r.deep_view() == split_commas_from(s@, Seq::empty()),
{
    let n = s.unicode_len();
    let mut out: Vec<String> = Vec::new();
    let mut cur: Vec<char> = Vec::new();
    let mut i: usize = 0;
    proof {
        assert(s@.skip(0) =~= s@);
        assert(Seq::<Seq<char>>::empty() + split_commas_from(s@, Seq::<char>::empty())
            =~= split_commas_from(s@, Seq::<char>::empty()));
    }
    while i < n
        invariant
            n == s@.len(),
            i <= n,
            split_commas_from(s@, Seq::empty()) == out.deep_view() + split_commas_from(
                s@.skip(i as int),
                cur@,
            ),
        decreases n - i,
    {
        let c = s.get_char(i);
        proof {
            assert(s@.skip(i as int)[0] == s@[i as int]);
            assert(s@.skip(i as int).drop_first() =~= s@.skip(i as int + 1));
        }
        if c == ',' {
            let piece = string_from_chars(&cur);
            let seg = trim_str(piece.as_str());
            cur = Vec::new();
            let ghost prev = out.deep_view();
            out.push(seg);
            proof {
                assert(out.deep_view() =~= prev.push(trim_of(piece@)));
                assert(prev.push(trim_of(piece@)) =~= prev + seq![trim_of(piece@)]);
            }
        } else {
            cur.push(c);
        }
        i = i + 1;
    }
    let piece = string_from_chars(&cur);
    let seg = trim_str(piece.as_str());
    let ghost prev = out.deep_view();
    out.push(seg);
    proof {
        assert(out.deep_view() =~= prev.push(trim_of(piece@)));
        assert(prev.push(trim_of(piece@)) =~= prev + seq![trim_of(piece@)]);
        assert(out.deep_view() =~= split_commas_from(s@, Seq::empty()));
    }
    out
}

/// The effect of one documentation line on a parsed annotation.
fn apply_line(line: &str, kind: AnnotationKind, acc: ParsedAnnotation) -> (r: Result<
    ParsedAnnotation,
    AnnotationError,
>)
    ensures
        match ann_line(line@, kind, acc@) {
            Ok(rec) => r matches Ok(p) && p@ == rec,
            Err(e) => r matches Err(x) && x@ == e,
        },
{
    proof {
        reveal_strlit("@prs.");
    }
    let mut a = acc;
    let t = trim_str(line);
    let n = t.as_str().unicode_len();
    if n < 5 {
        assert(!starts_with(trim_of(line@), directive_prefix()));
        return Ok(a);
    }
    let head = t.as_str().substring_char(0, 5);
    if !eq_str(head, "@prs.") {
        assert(!starts_with(trim_of(line@), directive_prefix()));
        return Ok(a);
    }
    assert(starts_with(trim_of(line@), directive_prefix()));
    let rest = t.as_str().substring_char(5, n);
    proof {
        assert(rest@ =~= trim_of(line@).skip(5));
    }
    let rn = rest.unicode_len();
    let mut e: usize = 0;
    while e < rn && rest.get_char(e) != '='
        invariant
            rn == rest@.len(),
            e <= rn,
            forall|j: int| 0 <= j < e ==> rest@[j] != '=',
        decreases rn - e,
    {
        e = e + 1;
    }
    proof {
        lemma_split_directive(rest@, Seq::empty(), e as int);
        if e < rn {
            assert(Seq::<char>::empty() + rest@.take(e as int) =~= rest@.take(e as int));
        } else {
            assert(Seq::<char>::empty() + rest@ =~= rest@);
            assert(rest@.take(e as int) =~= rest@);
        }
    }
    let key_raw = rest.substring_char(0, e);
    let key = trim_str(key_raw);
    let rawval: String = if e < rn {
        rest.substring_char(e + 1, rn).to_owned()
    } else {
        String::from_str("true")
    };
    let v = trim_str(rawval.as_str());
    if eq_str(key.as_str(), "skip") {
        a.skip = !eq_str(v.as_str(), "false");
        Ok(a)
    } else if eq_str(key.as_str(), "rename") {
        a.rename = Some(v);
        Ok(a)
    } else if eq_str(key.as_str(), "type") && allows_type_x(kind) {
        a.type_ = Some(v);
        Ok(a)
    } else if eq_str(key.as_str(), "visibility") && allows_visibility_x(kind) {
        if eq_str(v.as_str(), "private") {
            a.visibility = Visibility::Private;
            Ok(a)
        } else if eq_str(v.as_str(), "protected") {
            a.visibility = Visibility::Protected;
            Ok(a)
        } else if eq_str(v.as_str(), "public") {
            a.visibility = Visibility::Public;
            Ok(a)
        } else {
            Err(AnnotationError::UnknownVisibility(rawval))
        }
    } else if eq_str(key.as_str(), "derive") && allows_derive_x(kind) {
        if v.as_str().unicode_len() == 0 {
            Err(AnnotationError::EmptyDerive)
        } else {
            a.derive = Some(split_commas(v.as_str()));
            Ok(a)
        }
    } else {
        Err(AnnotationError::UnknownDirective(rest.to_owned()))
    }
}

/// The strict parse of a documentation string for a declaration kind:
/// directives fold in order into one record; the first bad directive is the
/// error.
pub fn parse_annotation(s: &str, kind: AnnotationKind) -> (r: Result<
    ParsedAnnotation,
    AnnotationError,
>)
    ensures
        match ann_of(s@, kind) {
            Ok(rec) => r matches Ok(p) && p@ == rec,
            Err(e) => r matches Err(x) && x@ == e,
        },
{
    let lines = split_lines(s);
    let mut acc = ParsedAnnotation {
        skip: false,
        rename: None,
        visibility: Visibility::Public,
        type_: None,
        derive: None,
    };
    let mut i: usize = 0;
    proof {
        assert(lines.deep_view().skip(0) =~= lines.deep_view());
    }
    while i < lines.len()
        invariant
            lines.deep_view() == lines_of(s@),
            i <= lines.len(),
            ann_of(s@, kind) == ann_fold(lines.deep_view().skip(i as int), kind, acc@),
        decreases lines.len() - i,
    {
        let ghost ls = lines.deep_view().skip(i as int);
        proof {
            assert(ls[0] == lines.deep_view()[i as int]);
            assert(ls.drop_first() =~= lines.deep_view().skip(i as int + 1));
            assert(lines[i as int]@ == lines.deep_view()[i as int]);
        }
        match apply_line(lines[i].as_str(), kind, acc) {
            Ok(a) => {
                acc = a;
            },
            Err(x) => {
                return Err(x);
            },
        }
        i = i + 1;
    }
    proof {
        assert(lines.deep_view().skip(lines.len() as int).len() == 0);
    }
    Ok(acc)
}

// ---------------------------------------------------------------------------
// The annotation types, one per declaration kind
// ---------------------------------------------------------------------------

/// The part of a record a field annotation keeps.
pub open spec fn field_record(rec: AnnRecord) -> AnnRecord {
    AnnRecord { derive: None, ..rec }
}

/// The part of a record a model or enum annotation keeps.
pub open spec fn model_record(rec: AnnRecord) -> AnnRecord {
    AnnRecord { type_: None, ..rec }
}

/// The part of a record an enum-value annotation keeps.
pub open spec fn enum_value_record(rec: AnnRecord) -> AnnRecord {
    AnnRecord {
        visibility: Visibility::Public,
        type_: None,
        derive: None,
        ..rec
    }
}

/// The annotation of a field.
#[derive(Debug, Clone, PartialEq, Eq)]
pub struct FieldAnnotation {
    /// What to rename the field to.
    pub rename: Option<String>,
    /// Whether to skip this field.
    pub skip: bool,
    /// The emitted type of the field, overriding the mapped one.
    pub type_: Option<String>,
    /// The visibility of the field.
    pub visibility: Visibility,
}

impl View for FieldAnnotation {
    type V = AnnRecord;

    open spec fn view(&self) -> AnnRecord {
        AnnRecord {
            skip: self.skip,
            rename: self.rename.deep_view(),
            visibility: self.visibility,
            type_: self.type_.deep_view(),
            derive: None,
        }
    }
}

impl Default for FieldAnnotation {
    /// The all-defaults field annotation.
    fn default() -> (r: Self)
        ensures
            r@ == rec_default(),
    {
        FieldAnnotation { rename: None, skip: false, type_: None, visibility: Visibility::Public }
    }
}

impl FieldAnnotation {
    /// The strict parse of a field documentation string.
    pub fn from_str(s: &str) -> (r: Result<Self, AnnotationError>)
        ensures
            match ann_of(s@, AnnotationKind::Field) {
                Ok(rec) => r matches Ok(a) && a@ == field_record(rec),
                Err(e) => r matches Err(x) && x@ == e,
            },
    {
        match parse_annotation(s, AnnotationKind::Field) {
            Ok(p) => Ok(
                FieldAnnotation {
                    rename: p.rename,
                    skip: p.skip,
                    type_: p.type_,
                    visibility: p.visibility,
                },
            ),
            Err(e) => Err(e),
        }
    }

    /// The infallible parse: a parse error degrades to the defaults.
    pub fn from(s: &str) -> (r: Self)
        ensures
            r@ == field_record(ann_or_default(s@, AnnotationKind::Field)),
    {
        match Self::from_str(s) {
            Ok(a) => a,
            Err(_) => Self::default(),
        }
    }
}

/// The annotation of a model.
#[derive(Debug, Clone, PartialEq, Eq)]
pub struct ModelAnnotation {
    pub derive: Option<Vec<String>>,
    pub rename: Option<String>,
    pub skip: bool,
    pub visibility: Visibility,
}

impl View for ModelAnnotation {
    type V = AnnRecord;

    open spec fn view(&self) -> AnnRecord {
        AnnRecord {
            skip: self.skip,
            rename: self.rename.deep_view(),
            visibility: self.visibility,
            type_: None,
            derive: self.derive.deep_view(),
        }
    }
}

impl Default for ModelAnnotation {
    /// The all-defaults model annotation.
    fn default() -> (r: Self)
        ensures
            r@ == rec_default(),
    {
        ModelAnnotation { derive: None, rename: None, skip: false, visibility: Visibility::Public }
    }
}

impl ModelAnnotation {
    /// The strict parse of a model documentation string.
    pub fn from_str(s: &str) -> (r: Result<Self, AnnotationError>)
        ensures
            match ann_of(s@, AnnotationKind::Model) {
                Ok(rec) => r matches Ok(a) && a@ == model_record(rec),
                Err(e) => r matches Err(x) && x@ == e,
            },
    {
        match parse_annotation(s, AnnotationKind::Model) {
            Ok(p) => Ok(
                ModelAnnotation {
                    derive: p.derive,
                    rename: p.rename,
                    skip: p.skip,
                    visibility: p.visibility,
                },
            ),
            Err(e) => Err(e),
        }
    }

    /// The infallible parse: a parse error degrades to the defaults.
    pub fn from(s: &str) -> (r: Self)
        ensures
            r@ == model_record(ann_or_default(s@, AnnotationKind::Model)),
    {
        match Self::from_str(s) {
            Ok(a) => a,
            Err(_) => Self::default(),
        }
    }
}

/// The annotation of an enum.
#[derive(Debug, Clone, PartialEq, Eq)]
pub struct EnumAnnotation {
    pub derive: Option<Vec<String>>,
    pub rename: Option<String>,
    pub skip: bool,
    pub visibility: Visibility,
}

impl View for EnumAnnotation {
    type V = AnnRecord;

    open spec fn view(&self) -> AnnRecord {
        AnnRecord {
            skip: self.skip,
            rename: self.rename.deep_view(),
            visibility: self.visibility,
            type_: None,
            derive: self.derive.deep_view(),
        }
    }
}

impl Default for EnumAnnotation {
    /// The all-defaults enum annotation.
    fn default() -> (r: Self)
        ensures
            r@ == rec_default(),
    {
        EnumAnnotation { derive: None, rename: None, skip: false, visibility: Visibility::Public }
    }
}

impl EnumAnnotation {
    /// The strict parse of an enum documentation string.
    pub fn from_str(s: &str) -> (r: Result<Self, AnnotationError>)
        ensures
            match ann_of(s@, AnnotationKind::Enum) {
                Ok(rec) => r matches Ok(a) && a@ == model_record(rec),
                Err(e) => r matches Err(x) && x@ == e,
            },
    {
        match parse_annotation(s, AnnotationKind::Enum) {
            Ok(p) => Ok(
                EnumAnnotation {
                    derive: p.derive,
                    rename: p.rename,
                    skip: p.skip,
                    visibility: p.visibility,
                },
            ),
            Err(e) => Err(e),
        }
    }

    /// The infallible parse: a parse error degrades to the defaults.
    pub fn from(s: &str) -> (r: Self)
        ensures
            r@ == model_record(ann_or_default(s@, AnnotationKind::Enum)),
    {
        match Self::from_str(s) {
            Ok(a) => a,
            Err(_) => Self::default(),
        }
    }
}

/// The annotation of one enum value.
#[derive(Debug, Clone, PartialEq, Eq)]
pub struct EnumValueAnnotation {
    pub rename: Option<String>,
    pub skip: bool,
}

impl View for EnumValueAnnotation {
    type V = AnnRecord;

    open spec fn view(&self) -> AnnRecord {
        AnnRecord {
            skip: self.skip,
            rename: self.rename.deep_view(),
            visibility: Visibility::Public,
            type_: None,
            derive: None,
        }
    }
}

impl Default for EnumValueAnnotation {
    /// The all-defaults enum-value annotation.
    fn default() -> (r: Self)
        ensures
            r@ == rec_default(),
    {
        EnumValueAnnotation { rename: None, skip: false }
    }
}

impl EnumValueAnnotation {
    /// The strict parse of an enum-value documentation string.
    pub fn from_str(s: &str) -> (r: Result<Self, AnnotationError>)
        ensures
            match ann_of(s@, AnnotationKind::EnumValue) {
                Ok(rec) => r matches Ok(a) && a@ == enum_value_record(rec),
                Err(e) => r matches Err(x) && x@ == e,
            },
    {
        match parse_annotation(s, AnnotationKind::EnumValue) {
            Ok(p) => Ok(EnumValueAnnotation { rename: p.rename, skip: p.skip }),
            Err(e) => Err(e),
        }
    }

    /// The infallible parse: a parse error degrades to the defaults.
    pub fn from(s: &str) -> (r: Self)
        ensures
            r@ == enum_value_record(ann_or_default(s@, AnnotationKind::EnumValue)),
    {
        match Self::from_str(s) {
            Ok(a) => a,
            Err(_) => Self::default(),
        }
    }
}

/// The annotation of a composite type.
#[derive(Debug, Clone, PartialEq, Eq)]
pub struct TypeAnnotation {
    pub derive: Option<Vec<String>>,
    pub rename: Option<String>,
    pub skip: bool,
    /// The emitted type override; invalid at the declaration level and
    /// reported by the emitter as a warning-and-skip.
    pub type_: Option<String>,
    pub visibility: Visibility,
}

impl View for TypeAnnotation {
    type V = AnnRecord;

    open spec fn view(&self) -> AnnRecord {
        AnnRecord {
            skip: self.skip,
            rename: self.rename.deep_view(),
            visibility: self.visibility,
            type_: self.type_.deep_view(),
            derive: self.derive.deep_view(),
        }
    }
}

impl Default for TypeAnnotation {
    /// The all-defaults composite-type annotation.
    fn default() -> (r: Self)
        ensures
            r@ == rec_default(),
    {
        TypeAnnotation {
            derive: None,
            rename: None,
            skip: false,
            type_: None,
            visibility: Visibility::Public,
        }
    }
}

impl TypeAnnotation {
    /// The strict parse of a composite-type documentation string.
    pub fn from_str(s: &str) -> (r: Result<Self, AnnotationError>)
        ensures
            match ann_of(s@, AnnotationKind::CompositeType) {
                Ok(rec) => r matches Ok(a) && a@ == rec,
                Err(e) => r matches Err(x) && x@ == e,
            },
    {
        match parse_annotation(s, AnnotationKind::CompositeType) {
            Ok(p) => Ok(
                TypeAnnotation {
                    derive: p.derive,
                    rename: p.rename,
                    skip: p.skip,
                    type_: p.type_,
                    visibility: p.visibility,
                },
            ),
            Err(e) => Err(e),
        }
    }

    /// The infallible parse: a parse error degrades to the defaults.
    pub fn from(s: &str) -> (r: Self)
        ensures
            r@ == ann_or_default(s@, AnnotationKind::CompositeType),
    {
        match Self::from_str(s) {
            Ok(a) => a,
            Err(_) => Self::default(),
        }
    }
}

/// The annotation record of an optional documentation string on the
/// infallible path: absent documentation and failed parses both give the
/// defaults.
pub fn annotation_of(doc: &Option<String>, kind: AnnotationKind) -> (r: ParsedAnnotation)
    ensures
        r@ == ann_or_default(doc_seq(*doc), kind),
{
    match doc {
        Some(d) => match parse_annotation(d.as_str(), kind) {
            Ok(p) => p,
            Err(_) => default_parsed(),
        },
        None => {
            proof {
                lemma_empty_documentation_defaults(kind);
            }
            default_parsed()
        },
    }
}

/// The characters of an optional documentation string; absent reads as
/// empty.
pub open spec fn doc_seq(d: Option<String>) -> Seq<char> {
    match d {
        Some(s) => s@,
        None => Seq::empty(),
    }
}

fn default_parsed() -> (r: ParsedAnnotation)
    ensures
        r@ == rec_default(),
{
    ParsedAnnotation {
        skip: false,
        rename: None,
        visibility: Visibility::Public,
        type_: None,
        derive: None,
    }
}

/// Parsing an empty documentation string yields the all-defaults annotation
/// with no error, whatever the declaration kind.
pub proof fn lemma_empty_documentation_defaults(kind: AnnotationKind)
    ensures
        ann_of(Seq::empty(), kind) == Ok::<AnnRecord, AnnError>(rec_default()),
{
    assert(lines_of(Seq::empty()).len() == 0);
}

} // verus!
