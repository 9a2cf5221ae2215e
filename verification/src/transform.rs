//! Identifier case classification and conversion between casing conventions.

use vstd::prelude::*;
use crate::text::{
    is_upper, is_lower, is_digit, lower_char, upper_char, upper_p, lower_p, digit_p, lower_c,
    upper_c, string_from_chars, eq_str,
};
use crate::dmmf::Field;
use crate::emit::{EmitOptions, EmitError, EmitErrorModel};

verus! {

/// The casing convention of an identifier.
#[derive(Debug, Clone, PartialEq, Eq, Structural)]
pub enum Case {
    Snake,
    Camel,
    Pascal,
    Kebab,
    ScreamingSnake,
    Unknown,
}

/// Every character is an uppercase letter or a digit.
pub open spec fn all_upper_digit(s: Seq<char>) -> bool {
    forall|i: int| 0 <= i < s.len() ==> is_upper(s[i]) || is_digit(s[i])
}

/// Every character is a lowercase letter, a digit or an underscore.
pub open spec fn all_lower_digit_underscore(s: Seq<char>) -> bool {
    forall|i: int| 0 <= i < s.len() ==> is_lower(s[i]) || is_digit(s[i]) || s[i] == '_'
}

/// Every character is an uppercase letter, a digit or an underscore.
pub open spec fn all_upper_digit_underscore(s: Seq<char>) -> bool {
    forall|i: int| 0 <= i < s.len() ==> is_upper(s[i]) || is_digit(s[i]) || s[i] == '_'
}

/// Every character is a lowercase letter, a digit or a hyphen.
pub open spec fn all_lower_digit_hyphen(s: Seq<char>) -> bool {
    forall|i: int| 0 <= i < s.len() ==> is_lower(s[i]) || is_digit(s[i]) || s[i] == '-'
}

/// Every character is a lowercase letter or a digit.
pub open spec fn all_lower_digit(s: Seq<char>) -> bool {
    forall|i: int| 0 <= i < s.len() ==> is_lower(s[i]) || is_digit(s[i])
}

/// Some character is an uppercase letter.
pub open spec fn has_upper(s: Seq<char>) -> bool {
    exists|i: int| 0 <= i < s.len() && is_upper(s[i])
}

/// The casing convention of an identifier, decided in strict priority order:
/// empty, all-caps, underscore forms, hyphen forms, mixed-case forms, plain
/// lowercase, and otherwise unknown.
pub open spec fn classify(s: Seq<char>) -> Case {
    if s.len() == 0 {
        Case::Snake
    } else if all_upper_digit(s) {
        Case::ScreamingSnake
    } else if s.contains('_') {
        if all_lower_digit_underscore(s) {
            Case::Snake
        } else if all_upper_digit_underscore(s) {
            Case::ScreamingSnake
        } else {
            Case::Unknown
        }
    } else if s.contains('-') {
        if all_lower_digit_hyphen(s) {
            Case::Kebab
        } else {
            Case::Unknown
        }
    } else if has_upper(s) {
        if is_upper(s[0]) {
            Case::Pascal
        } else {
            Case::Camel
        }
    } else if all_lower_digit(s) {
        Case::Snake
    } else {
        Case::Unknown
    }
}

/// The casing convention of `input`.
pub fn identify_case(input: &str) -> (r: Case)
    ensures
        r == classify(input@),
{
    let n = input.unicode_len();
    if n == 0 {
        return Case::Snake;
    }
    let mut au: bool = true;  // all upper-or-digit
    let mut us: bool = false;  // contains '_'
    let mut al_us: bool = true;  // all lower/digit/'_'
    let mut au_us: bool = true;  // all upper/digit/'_'
    let mut hy: bool = false;  // contains '-'
    let mut al_hy: bool = true;  // all lower/digit/'-'
    let mut up: bool = false;  // has an uppercase letter
    let mut al: bool = true;  // all lower/digit
    let mut i: usize = 0;
    while i < n
        invariant
            n == input@.len(),
            i <= n,
            au == all_upper_digit(input@.take(i as int)),
            us == input@.take(i as int).contains('_'),
            al_us == all_lower_digit_underscore(input@.take(i as int)),
            au_us == all_upper_digit_underscore(input@.take(i as int)),
            hy == input@.take(i as int).contains('-'),
            al_hy == all_lower_digit_hyphen(input@.take(i as int)),
            up == has_upper(input@.take(i as int)),
            al == all_lower_digit(input@.take(i as int)),
        decreases n - i,
    {
        let c = input.get_char(i);
        let cu = upper_p(c);
        let cl = lower_p(c);
        let cd = digit_p(c);
        au = au && (cu || cd);
        us = us || c == '_';
        al_us = al_us && (cl || cd || c == '_');
        au_us = au_us && (cu || cd || c == '_');
        hy = hy || c == '-';
        al_hy = al_hy && (cl || cd || c == '-');
        up = up || cu;
        al = al && (cl || cd);
        i = i + 1;
        proof {
            let t = input@.take(i as int);
            assert(t.drop_last() =~= input@.take(i as int - 1));
            assert(t.last() == c);
            assert(forall|j: int| 0 <= j < t.len() - 1 ==> t[j] == t.drop_last()[j]);
            if t.drop_last().contains('_') || c == '_' {
                assert(t.contains('_')) by {
                    if c == '_' {
                        assert(t[t.len() - 1] == '_');
                    } else {
                        let k = choose|k: int|
                            0 <= k < t.drop_last().len() && t.drop_last()[k] == '_';
                        assert(t[k] == '_');
                    }
                }
            }
            if t.drop_last().contains('-') || c == '-' {
                assert(t.contains('-')) by {
                    if c == '-' {
                        assert(t[t.len() - 1] == '-');
                    } else {
                        let k = choose|k: int|
                            0 <= k < t.drop_last().len() && t.drop_last()[k] == '-';
                        assert(t[k] == '-');
                    }
                }
            }
            if t.contains('_') && !(t.drop_last().contains('_') || c == '_') {
                let k = choose|k: int| 0 <= k < t.len() && t[k] == '_';
                assert(t.drop_last()[k] == '_');
            }
            if t.contains('-') && !(t.drop_last().contains('-') || c == '-') {
                let k = choose|k: int| 0 <= k < t.len() && t[k] == '-';
                assert(t.drop_last()[k] == '-');
            }
            if has_upper(t.drop_last()) || is_upper(c) {
                assert(has_upper(t)) by {
                    if is_upper(c) {
                        assert(is_upper(t[t.len() - 1]));
                    } else {
                        let k = choose|k: int|
                            0 <= k < t.drop_last().len() && is_upper(t.drop_last()[k]);
                        assert(is_upper(t[k]));
                    }
                }
            }
            if has_upper(t) && !(has_upper(t.drop_last()) || is_upper(c)) {
                let k = choose|k: int| 0 <= k < t.len() && is_upper(t[k]);
                assert(is_upper(t.drop_last()[k]));
            }
        }
    }
    proof {
        assert(input@.take(n as int) =~= input@);
    }
    if au {
        Case::ScreamingSnake
    } else if us {
        if al_us {
            Case::Snake
        } else if au_us {
            Case::ScreamingSnake
        } else {
            Case::Unknown
        }
    } else if hy {
        if al_hy {
            Case::Kebab
        } else {
            Case::Unknown
        }
    } else if up {
        if upper_p(input.get_char(0)) {
            Case::Pascal
        } else {
            Case::Camel
        }
    } else if al {
        Case::Snake
    } else {
        Case::Unknown
    }
}

// ---------------------------------------------------------------------------
// Conversion to snake_case
// ---------------------------------------------------------------------------

/// One boundary-insertion walk over `s`: an uppercase character is lowered
/// and, unless the output so far (`ne` says it is non-empty) ends a run that
/// began with an exempt boundary (`exempt`), preceded by an underscore; any
/// other character passes through.
pub open spec fn snake_walk(s: Seq<char>, ne: bool, exempt: bool) -> Seq<char>
    decreases s.len(),
{
    if s.len() == 0 {
        Seq::empty()
    } else if is_upper(s[0]) {
        (if ne && !exempt {
            seq!['_']
        } else {
            Seq::empty()
        }) + seq![lower_char(s[0])] + snake_walk(s.drop_first(), true, false)
    } else {
        seq![s[0]] + snake_walk(s.drop_first(), true, exempt)
    }
}

/// Every character lowered.
pub open spec fn lower_all(s: Seq<char>) -> Seq<char> {
    Seq::new(s.len(), |i: int| lower_char(s[i]))
}

/// Hyphens replaced by underscores, everything else lowered.
pub open spec fn kebab_to_snake(s: Seq<char>) -> Seq<char> {
    Seq::new(
        s.len(),
        |i: int|
            if s[i] == '-' {
                '_'
            } else {
                lower_char(s[i])
            },
    )
}

/// The snake_case form of an identifier, by its classified convention.
pub open spec fn snake_of(s: Seq<char>) -> Seq<char> {
    match classify(s) {
        Case::Snake => s,
        Case::Camel => snake_walk(s, false, false),
        Case::Pascal => snake_walk(s, false, true),
        Case::Kebab => kebab_to_snake(s),
        Case::ScreamingSnake => lower_all(s),
        Case::Unknown => snake_walk(s, false, false),
    }
}

fn snake_boundary(s: &str, init: bool) -> (r: String)
    ensures
        r@ == snake_walk(s@, false, init),
{
    let n = s.unicode_len();
    let mut out: Vec<char> = Vec::new();
    let mut exempt: bool = init;
    let mut i: usize = 0;
    proof {
        assert(s@.skip(0) =~= s@);
        assert(Seq::<char>::empty() + snake_walk(s@, false, init) =~= snake_walk(s@, false, init));
    }
    while i < n
        invariant
            n == s@.len(),
            i <= n,
            (out@.len() > 0) == (i > 0),
            snake_walk(s@, false, init) == out@ + snake_walk(s@.skip(i as int), i > 0, exempt),
        decreases n - i,
    {
        let ghost out0 = out@;
        let ghost rest = s@.skip(i as int);
        proof {
            assert(rest[0] == s@[i as int]);
            assert(rest.drop_first() =~= s@.skip(i as int + 1));
        }
        let c = s.get_char(i);
        if upper_p(c) {
            if out.len() > 0 && !exempt {
                out.push('_');
            }
            out.push(lower_c(c));
            proof {
                if i > 0 && !exempt {
                    assert(out@ =~= out0 + seq!['_'] + seq![lower_char(c)]);
                } else {
                    assert(out@ =~= out0 + seq![lower_char(c)]);
                }
                assert(out@ + snake_walk(s@.skip(i as int + 1), true, false) =~= out0
                    + snake_walk(rest, i > 0, exempt));
            }
            exempt = false;
        } else {
            out.push(c);
            proof {
                assert(out@ =~= out0 + seq![c]);
                assert(out@ + snake_walk(s@.skip(i as int + 1), true, exempt) =~= out0
                    + snake_walk(rest, i > 0, exempt));
            }
        }
        i = i + 1;
    }
    proof {
        assert(s@.skip(n as int).len() == 0);
        assert(out@ + snake_walk(s@.skip(n as int), n > 0, exempt) =~= out@);
    }
    string_from_chars(&out)
}

/// The snake_case form of `input`.
pub fn to_snake_case(input: &str) -> (r: String)
    ensures
        r@ == snake_of(input@),
{
    let case = identify_case(input);
    match case {
        Case::Snake => input.to_owned(),
        Case::Camel => snake_boundary(input, false),
        Case::Pascal => snake_boundary(input, true),
        Case::Unknown => snake_boundary(input, false),
        Case::Kebab => {
            let n = input.unicode_len();
            let mut out: Vec<char> = Vec::new();
            let mut i: usize = 0;
            while i < n
                invariant
                    n == input@.len(),
                    i <= n,
                    out@ == kebab_to_snake(input@).take(i as int),
                decreases n - i,
            {
                let c = input.get_char(i);
                if c == '-' {
                    out.push('_');
                } else {
                    out.push(lower_c(c));
                }
                i = i + 1;
                assert(out@ =~= kebab_to_snake(input@).take(i as int));
            }
            assert(out@ =~= kebab_to_snake(input@));
            string_from_chars(&out)
        },
        Case::ScreamingSnake => {
            let n = input.unicode_len();
            let mut out: Vec<char> = Vec::new();
            let mut i: usize = 0;
            while i < n
                invariant
                    n == input@.len(),
                    i <= n,
                    out@ == lower_all(input@).take(i as int),
                decreases n - i,
            {
                out.push(lower_c(input.get_char(i)));
                i = i + 1;
                assert(out@ =~= lower_all(input@).take(i as int));
            }
            assert(out@ =~= lower_all(input@));
            string_from_chars(&out)
        },
    }
}

// ---------------------------------------------------------------------------
// Conversion to PascalCase
// ---------------------------------------------------------------------------

/// Delimiter-driven capitalization: a delimiter character is dropped and the
/// next character capitalized; other characters pass through.
pub open spec fn pascal_delim(s: Seq<char>, d: char, cap: bool) -> Seq<char>
    decreases s.len(),
{
    if s.len() == 0 {
        Seq::empty()
    } else if s[0] == d {
        pascal_delim(s.drop_first(), d, true)
    } else if cap {
        seq![upper_char(s[0])] + pascal_delim(s.drop_first(), d, false)
    } else {
        seq![s[0]] + pascal_delim(s.drop_first(), d, false)
    }
}

/// Underscore-driven capitalization that also lowers the characters inside a
/// segment, for all-caps input.
pub open spec fn screaming_pascal(s: Seq<char>, cap: bool) -> Seq<char>
    decreases s.len(),
{
    if s.len() == 0 {
        Seq::empty()
    } else if s[0] == '_' {
        screaming_pascal(s.drop_first(), true)
    } else if cap {
        seq![upper_char(s[0])] + screaming_pascal(s.drop_first(), false)
    } else {
        seq![lower_char(s[0])] + screaming_pascal(s.drop_first(), false)
    }
}

/// The walk over a camelCase tail: an uppercase character is kept uppercase
/// and, once the first such boundary has passed, preceded by an underscore.
pub open spec fn camel_walk(s: Seq<char>, cap: bool) -> Seq<char>
    decreases s.len(),
{
    if s.len() == 0 {
        Seq::empty()
    } else if is_upper(s[0]) {
        (if !cap {
            seq!['_']
        } else {
            Seq::empty()
        }) + seq![upper_char(s[0])] + camel_walk(s.drop_first(), false)
    } else {
        seq![s[0]] + camel_walk(s.drop_first(), cap)
    }
}

/// The PascalCase form of a camelCase identifier: first character
/// capitalized, then the boundary walk over the rest.
pub open spec fn camel_pascal(s: Seq<char>) -> Seq<char> {
    if s.len() == 0 {
        Seq::empty()
    } else {
        seq![upper_char(s[0])] + camel_walk(s.drop_first(), true)
    }
}

/// The PascalCase form of an identifier, by its classified convention.
pub open spec fn pascal_of(s: Seq<char>) -> Seq<char> {
    match classify(s) {
        Case::Snake => pascal_delim(s, '_', true),
        Case::Camel => camel_pascal(s),
        Case::Pascal => s,
        Case::Kebab => pascal_delim(s, '-', true),
        Case::ScreamingSnake => screaming_pascal(s, true),
        Case::Unknown => s,
    }
}

fn pascal_by_delim(s: &str, d: char) -> (r: String)
    ensures
        r@ == pascal_delim(s@, d, true),
{
    let n = s.unicode_len();
    let mut out: Vec<char> = Vec::new();
    let mut cap: bool = true;
    let mut i: usize = 0;
    proof {
        assert(s@.skip(0) =~= s@);
        assert(Seq::<char>::empty() + pascal_delim(s@, d, true) =~= pascal_delim(s@, d, true));
    }
    while i < n
        invariant
            n == s@.len(),
            i <= n,
            pascal_delim(s@, d, true) == out@ + pascal_delim(s@.skip(i as int), d, cap),
        decreases n - i,
    {
        let ghost out0 = out@;
        let ghost rest = s@.skip(i as int);
        proof {
            assert(rest[0] == s@[i as int]);
            assert(rest.drop_first() =~= s@.skip(i as int + 1));
        }
        let c = s.get_char(i);
        if c == d {
            cap = true;
        } else if cap {
            out.push(upper_c(c));
            proof {
                assert(out@ =~= out0 + seq![upper_char(c)]);
                assert(out@ + pascal_delim(s@.skip(i as int + 1), d, false) =~= out0
                    + pascal_delim(rest, d, true));
            }
            cap = false;
        } else {
            out.push(c);
            proof {
                assert(out@ =~= out0 + seq![c]);
                assert(out@ + pascal_delim(s@.skip(i as int + 1), d, false) =~= out0
                    + pascal_delim(rest, d, false));
            }
        }
        i = i + 1;
    }
    proof {
        assert(s@.skip(n as int).len() == 0);
        assert(out@ + pascal_delim(s@.skip(n as int), d, cap) =~= out@);
    }
    string_from_chars(&out)
}

fn pascal_screaming(s: &str) -> (r: String)
    ensures
        r@ == screaming_pascal(s@, true),
{
    let n = s.unicode_len();
    let mut out: Vec<char> = Vec::new();
    let mut cap: bool = true;
    let mut i: usize = 0;
    proof {
        assert(s@.skip(0) =~= s@);
        assert(Seq::<char>::empty() + screaming_pascal(s@, true) =~= screaming_pascal(s@, true));
    }
    while i < n
        invariant
            n == s@.len(),
            i <= n,
            screaming_pascal(s@, true) == out@ + screaming_pascal(s@.skip(i as int), cap),
        decreases n - i,
    {
        let ghost out0 = out@;
        let ghost rest = s@.skip(i as int);
        proof {
            assert(rest[0] == s@[i as int]);
            assert(rest.drop_first() =~= s@.skip(i as int + 1));
        }
        let c = s.get_char(i);
        if c == '_' {
            cap = true;
        } else if cap {
            out.push(upper_c(c));
            proof {
                assert(out@ =~= out0 + seq![upper_char(c)]);
                assert(out@ + screaming_pascal(s@.skip(i as int + 1), false) =~= out0
                    + screaming_pascal(rest, true));
            }
            cap = false;
        } else {
            out.push(lower_c(c));
            proof {
                assert(out@ =~= out0 + seq![lower_char(c)]);
                assert(out@ + screaming_pascal(s@.skip(i as int + 1), false) =~= out0
                    + screaming_pascal(rest, false));
            }
        }
        i = i + 1;
    }
    proof {
        assert(s@.skip(n as int).len() == 0);
        assert(out@ + screaming_pascal(s@.skip(n as int), cap) =~= out@);
    }
    string_from_chars(&out)
}

fn pascal_camel(s: &str) -> (r: String)
    requires
        s@.len() > 0,
    ensures
        r@ == camel_pascal(s@),
{
    let n = s.unicode_len();
    let mut out: Vec<char> = Vec::new();
    out.push(upper_c(s.get_char(0)));
    let mut cap: bool = true;
    let mut i: usize = 1;
    proof {
        assert(out@ =~= seq![upper_char(s@[0])]);
        assert(s@.skip(1) =~= s@.drop_first());
        assert(camel_pascal(s@) == out@ + camel_walk(s@.skip(1), true));
    }
    while i < n
        invariant
            n == s@.len(),
            1 <= i <= n,
            camel_pascal(s@) == out@ + camel_walk(s@.skip(i as int), cap),
        decreases n - i,
    {
        let ghost out0 = out@;
        let ghost rest = s@.skip(i as int);
        proof {
            assert(rest[0] == s@[i as int]);
            assert(rest.drop_first() =~= s@.skip(i as int + 1));
        }
        let c = s.get_char(i);
        if upper_p(c) {
            if !cap {
                out.push('_');
            }
            out.push(upper_c(c));
            proof {
                if !cap {
                    assert(out@ =~= out0 + seq!['_'] + seq![upper_char(c)]);
                } else {
                    assert(out@ =~= out0 + seq![upper_char(c)]);
                }
                assert(out@ + camel_walk(s@.skip(i as int + 1), false) =~= out0 + camel_walk(
                    rest,
                    cap,
                ));
            }
            cap = false;
        } else {
            out.push(c);
            proof {
                assert(out@ =~= out0 + seq![c]);
                assert(out@ + camel_walk(s@.skip(i as int + 1), cap) =~= out0 + camel_walk(
                    rest,
                    cap,
                ));
            }
        }
        i = i + 1;
    }
    proof {
        assert(s@.skip(n as int).len() == 0);
        assert(out@ + camel_walk(s@.skip(n as int), cap) =~= out@);
    }
    string_from_chars(&out)
}

/// The PascalCase form of `input`.
pub fn to_pascal_case(input: &str) -> (r: String)
    ensures
        r@ == pascal_of(input@),
{
    let case = identify_case(input);
    match case {
        Case::Snake => pascal_by_delim(input, '_'),
        Case::Kebab => pascal_by_delim(input, '-'),
        Case::ScreamingSnake => pascal_screaming(input),
        Case::Camel => {
            assert(input@.len() > 0);
            pascal_camel(input)
        },
        Case::Pascal => input.to_owned(),
        Case::Unknown => input.to_owned(),
    }
}

// ---------------------------------------------------------------------------
// The type mapper
// ---------------------------------------------------------------------------

/// A reference type name with the configured namespace prefix, if any,
/// prepended.
pub open spec fn type_prefixed(name: Seq<char>, prefix: Option<String>) -> Seq<char> {
    match prefix {
        Some(p) => p@ + name,
        None => name,
    }
}

/// The target-language type of a declared field type: the fixed primitive
/// table, or a reference to another declaration resolved by Pascal
/// conversion with the prefix applied before it. The numeric widths are a
/// fixed external contract.
pub open spec fn plain_type_of(name: Seq<char>, prefix: Option<String>) -> Seq<char> {
    if name == "Boolean"@ {
        "bool"@
    } else if name == "Int"@ {
        "i64"@
    } else if name == "Float"@ {
        "f64"@
    } else if name == "String"@ {
        "String"@
    } else if name == "Json"@ {
        "serde_json::Value"@
    } else if name == "DateTime"@ {
        "chrono::DateTime<chrono::Utc>"@
    } else {
        pascal_of(type_prefixed(name, prefix))
    }
}

/// The unwrapped type of a field: a recognized native-type override wins
/// over the declared type; an unrecognized one is an error.
pub open spec fn base_type_of(field: Field, prefix: Option<String>) -> Result<
    Seq<char>,
    EmitErrorModel,
> {
    match field.native_type {
        Some(nt) => {
            if nt.name@ == "ObjectId"@ {
                Ok("bson::oid::ObjectId"@)
            } else {
                Err(EmitErrorModel::UnsupportedNativeType(nt.name@))
            }
        },
        None => Ok(plain_type_of(field.field_type@, prefix)),
    }
}

/// Collection and optionality wrapping: a list is wrapped in `Vec`, and a
/// not-required field in `Option`, outside the list.
pub open spec fn wrap_type(base: Seq<char>, is_list: bool, is_required: bool) -> Seq<char> {
    let listed = if is_list {
        "Vec<"@ + base + ">"@
    } else {
        base
    };
    if !is_required {
        "Option<"@ + listed + ">"@
    } else {
        listed
    }
}

/// The full mapped type expression of a field.
pub open spec fn field_type_of(field: Field, prefix: Option<String>) -> Result<
    Seq<char>,
    EmitErrorModel,
> {
    match base_type_of(field, prefix) {
        Ok(b) => Ok(wrap_type(b, field.is_list, field.is_required)),
        Err(e) => Err(e),
    }
}

/// The concrete target-language type expression of a field, or the error
/// for a native-type override the mapper does not know.
pub fn convert_field_to_type(field: &Field, options: &EmitOptions) -> (r: Result<
    String,
    EmitError,
>)
    ensures
        match field_type_of(*field, options.prefix) {
            Ok(t) => r matches Ok(s) && s@ == t,
            Err(e) => r matches Err(x) && x@ == e,
        },
{
    let base: String = match &field.native_type {
        Some(nt) => {
            if eq_str(nt.name.as_str(), "ObjectId") {
                String::from_str("bson::oid::ObjectId")
            } else {
                return Err(EmitError::UnsupportedNativeType(nt.name.clone()));
            }
        },
        None => {
            let name = field.field_type.as_str();
            if eq_str(name, "Boolean") {
                String::from_str("bool")
            } else if eq_str(name, "Int") {
                String::from_str("i64")
            } else if eq_str(name, "Float") {
                String::from_str("f64")
            } else if eq_str(name, "String") {
                String::from_str("String")
            } else if eq_str(name, "Json") {
                String::from_str("serde_json::Value")
            } else if eq_str(name, "DateTime") {
                String::from_str("chrono::DateTime<chrono::Utc>")
            } else {
                let pre: String = match &options.prefix {
                    Some(p) => {
                        let mut s = p.clone();
                        s.append(name);
                        s
                    },
                    None => name.to_owned(),
                };
                to_pascal_case(pre.as_str())
            }
        },
    };
    let listed: String = if field.is_list {
        let mut s = String::from_str("Vec<");
        s.append(base.as_str());
        s.append(">");
        assert(s@ =~= "Vec<"@ + base@ + ">"@);
        s
    } else {
        base
    };
    let wrapped: String = if !field.is_required {
        let mut s = String::from_str("Option<");
        s.append(listed.as_str());
        s.append(">");
        assert(s@ =~= "Option<"@ + listed@ + ">"@);
        s
    } else {
        listed
    };
    Ok(wrapped)
}

// ---------------------------------------------------------------------------
// Laws of classification and conversion
// ---------------------------------------------------------------------------

/// Every character is an ASCII letter or digit.
pub open spec fn ascii_alnum(s: Seq<char>) -> bool {
    forall|i: int| 0 <= i < s.len() ==> is_upper(s[i]) || is_lower(s[i]) || is_digit(s[i])
}

/// Converting an identifier that is already snake_case leaves it unchanged.
pub proof fn lemma_snake_idempotent(s: Seq<char>)
    requires
        classify(s) == Case::Snake,
    ensures
        snake_of(s) == s,
{
}

proof fn lemma_snake_walk_chars(s: Seq<char>, ne: bool, exempt: bool)
    requires
        ascii_alnum(s),
    ensures
        all_lower_digit_underscore(snake_walk(s, ne, exempt)),
    decreases s.len(),
{
    if s.len() == 0 {
    } else {
        assert(ascii_alnum(s.drop_first())) by {
            assert(forall|j: int|
                0 <= j < s.drop_first().len() ==> s.drop_first()[j] == s[j + 1]);
        }
        if is_upper(s[0]) {
            lemma_snake_walk_chars(s.drop_first(), true, false);
            assert(is_lower(lower_char(s[0])));
        } else {
            lemma_snake_walk_chars(s.drop_first(), true, exempt);
            assert(is_lower(s[0]) || is_digit(s[0]));
        }
    }
}

proof fn lemma_snake_walk_has_lower(s: Seq<char>, ne: bool, exempt: bool)
    requires
        ascii_alnum(s),
        has_upper(s),
    ensures
        exists|k: int|
            0 <= k < snake_walk(s, ne, exempt).len() && is_lower(snake_walk(s, ne, exempt)[k]),
    decreases s.len(),
{
    let w = snake_walk(s, ne, exempt);
    if is_upper(s[0]) {
        let sep: int = if ne && !exempt {
            1
        } else {
            0
        };
        assert(w[sep] == lower_char(s[0]));
        assert(is_lower(w[sep]));
    } else {
        assert(has_upper(s.drop_first())) by {
            let k = choose|k: int| 0 <= k < s.len() && is_upper(s[k]);
            assert(s.drop_first()[k - 1] == s[k]);
        }
        assert(ascii_alnum(s.drop_first())) by {
            assert(forall|j: int|
                0 <= j < s.drop_first().len() ==> s.drop_first()[j] == s[j + 1]);
        }
        lemma_snake_walk_has_lower(s.drop_first(), true, exempt);
        let t = snake_walk(s.drop_first(), true, exempt);
        let k = choose|k: int| 0 <= k < t.len() && is_lower(t[k]);
        assert(w[k + 1] == t[k]);
        assert(is_lower(w[k + 1]));
    }
}

proof fn lemma_snake_walk_classify(s: Seq<char>, ne: bool, exempt: bool)
    requires
        ascii_alnum(s),
        has_upper(s),
        s.len() > 0,
    ensures
        classify(snake_walk(s, ne, exempt)) == Case::Snake,
{
    let w = snake_walk(s, ne, exempt);
    lemma_snake_walk_chars(s, ne, exempt);
    lemma_snake_walk_has_lower(s, ne, exempt);
    let k = choose|k: int| 0 <= k < w.len() && is_lower(w[k]);
    assert(!(is_upper(w[k]) || is_digit(w[k])));
    assert(!all_upper_digit(w));
    assert(w.len() > 0);
    if w.contains('_') {
        assert(classify(w) == Case::Snake);
    } else {
        assert(!w.contains('-')) by {
            if w.contains('-') {
                let j = choose|j: int| 0 <= j < w.len() && w[j] == '-';
                assert(is_lower(w[j]) || is_digit(w[j]) || w[j] == '_');
            }
        }
        assert(!has_upper(w)) by {
            if has_upper(w) {
                let j = choose|j: int| 0 <= j < w.len() && is_upper(w[j]);
                assert(is_lower(w[j]) || is_digit(w[j]) || w[j] == '_');
            }
        }
        assert(all_lower_digit(w)) by {
            assert(forall|j: int| 0 <= j < w.len() ==> !(w[j] == '_'));
        }
        assert(classify(w) == Case::Snake);
    }
}

proof fn lemma_case_flip(c: char)
    ensures
        is_upper(c) ==> is_lower(lower_char(c)) && upper_char(lower_char(c)) == c,
        is_lower(c) ==> is_upper(upper_char(c)) && lower_char(upper_char(c)) == c,
{
}

proof fn lemma_pascal_reconstruct(s: Seq<char>)
    requires
        ascii_alnum(s),
    ensures
        pascal_delim(snake_walk(s, true, false), '_', false) == s,
    decreases s.len(),
{
    if s.len() == 0 {
        assert(pascal_delim(snake_walk(s, true, false), '_', false) =~= s);
    } else {
        let rest = s.drop_first();
        assert(ascii_alnum(rest)) by {
            assert(forall|j: int| 0 <= j < rest.len() ==> rest[j] == s[j + 1]);
        }
        lemma_pascal_reconstruct(rest);
        let t = snake_walk(rest, true, false);
        if is_upper(s[0]) {
            let l = lower_char(s[0]);
            lemma_case_flip(s[0]);
            let w = snake_walk(s, true, false);
            assert(w =~= seq!['_'] + (seq![l] + t));
            assert(w[0] == '_');
            assert(w.drop_first() =~= seq![l] + t);
            assert(pascal_delim(w, '_', false) == pascal_delim(seq![l] + t, '_', true));
            assert((seq![l] + t)[0] == l);
            assert(l != '_');
            assert((seq![l] + t).drop_first() =~= t);
            assert(pascal_delim(seq![l] + t, '_', true) == seq![upper_char(l)] + pascal_delim(
                t,
                '_',
                false,
            ));
            assert(seq![upper_char(l)] + rest =~= s);
        } else {
            let w = snake_walk(s, true, false);
            assert(w =~= seq![s[0]] + t);
            assert(w[0] == s[0]);
            assert(s[0] != '_');
            assert(w.drop_first() =~= t);
            assert(pascal_delim(w, '_', false) == seq![s[0]] + pascal_delim(t, '_', false));
            assert(seq![s[0]] + rest =~= s);
        }
    }
}

/// Round trip for PascalCase input of ASCII letters and digits: converting
/// to snake_case and back to PascalCase reconstructs the identifier exactly.
pub proof fn lemma_pascal_snake_round_trip(s: Seq<char>)
    requires
        ascii_alnum(s),
        classify(s) == Case::Pascal,
    ensures
        pascal_of(snake_of(s)) == s,
{
    assert(s.len() > 0 && has_upper(s) && is_upper(s[0]));
    let rest = s.drop_first();
    assert(ascii_alnum(rest)) by {
        assert(forall|j: int| 0 <= j < rest.len() ==> rest[j] == s[j + 1]);
    }
    let w = snake_of(s);
    let t = snake_walk(rest, true, false);
    let l = lower_char(s[0]);
    lemma_case_flip(s[0]);
    assert(w == snake_walk(s, false, true));
    assert(w =~= seq![l] + t);
    lemma_snake_walk_classify(s, false, true);
    assert(pascal_of(w) == pascal_delim(w, '_', true));
    assert(w[0] == l);
    assert(l != '_');
    assert(w.drop_first() =~= t);
    assert(pascal_delim(w, '_', true) == seq![upper_char(l)] + pascal_delim(t, '_', false));
    lemma_pascal_reconstruct(rest);
    assert(seq![upper_char(l)] + rest =~= s);
}

/// Round trip for camelCase input of ASCII letters and digits: converting to
/// snake_case and back to PascalCase capitalizes the first character and
/// keeps every boundary.
pub proof fn lemma_camel_snake_round_trip(s: Seq<char>)
    requires
        ascii_alnum(s),
        classify(s) == Case::Camel,
    ensures
        pascal_of(snake_of(s)) == seq![upper_char(s[0])] + s.drop_first(),
{
    assert(s.len() > 0 && has_upper(s) && !is_upper(s[0]));
    let rest = s.drop_first();
    assert(ascii_alnum(rest)) by {
        assert(forall|j: int| 0 <= j < rest.len() ==> rest[j] == s[j + 1]);
    }
    let w = snake_of(s);
    let t = snake_walk(rest, true, false);
    assert(w == snake_walk(s, false, false));
    assert(w =~= seq![s[0]] + t);
    lemma_snake_walk_classify(s, false, false);
    assert(pascal_of(w) == pascal_delim(w, '_', true));
    assert(w[0] == s[0]);
    assert(s[0] != '_');
    assert(w.drop_first() =~= t);
    assert(pascal_delim(w, '_', true) == seq![upper_char(s[0])] + pascal_delim(t, '_', false));
    lemma_pascal_reconstruct(rest);
}

} // verus!
