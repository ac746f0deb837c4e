//! Casing rules for `rename_all`: uniform renaming of the fields or
//! variants of a container. Field names are written in snake case and
//! variant names in pascal case, and each rule says how such a name is
//! respelled. The rules respell ASCII names; a name holding any other
//! character is kept as it is.

use vstd::prelude::*;

use vstd::utf8::is_ascii_chars;

verus! {

broadcast use vstd::seq::group_seq_axioms, vstd::std_specs::vec::group_vec_axioms;

/// A casing rule a container can apply to all its fields or variants.
#[derive(Debug, Clone, Copy, PartialEq, Eq, Structural)]
pub enum RenameRule {
    LowerCase,
    UpperCase,
    PascalCase,
    CamelCase,
    SnakeCase,
    ScreamingSnakeCase,
    KebabCase,
    ScreamingKebabCase,
}

/// Whether two strings read the same.
pub fn name_eq(a: &String, b: &str) -> (r: bool)
    ensures
        r == (a@ == b@),
{
    let bs = b.to_owned();
    a.eq(&bs)
}

/// The rule a `rename_all` value names, if any.
pub open spec fn spec_parse_rename_rule(s: Seq<char>) -> Option<RenameRule> {
    if s == "lowercase"@ {
        Option::Some(RenameRule::LowerCase)
    } else if s == "UPPERCASE"@ {
        Option::Some(RenameRule::UpperCase)
    } else if s == "PascalCase"@ {
        Option::Some(RenameRule::PascalCase)
    } else if s == "camelCase"@ {
        Option::Some(RenameRule::CamelCase)
    } else if s == "snake_case"@ {
        Option::Some(RenameRule::SnakeCase)
    } else if s == "SCREAMING_SNAKE_CASE"@ {
        Option::Some(RenameRule::ScreamingSnakeCase)
    } else if s == "kebab-case"@ {
        Option::Some(RenameRule::KebabCase)
    } else if s == "SCREAMING-KEBAB-CASE"@ {
        Option::Some(RenameRule::ScreamingKebabCase)
    } else {
        Option::None
    }
}

/// Reads a `rename_all` value: the eight documented spellings name their
/// rule, every other value names none.
pub fn parse_rename_rule(s: &String) -> (r: Option<RenameRule>)
    ensures
        r == spec_parse_rename_rule(s@),
{
    if name_eq(s, "lowercase") {
        Option::Some(RenameRule::LowerCase)
    } else if name_eq(s, "UPPERCASE") {
        Option::Some(RenameRule::UpperCase)
    } else if name_eq(s, "PascalCase") {
        Option::Some(RenameRule::PascalCase)
    } else if name_eq(s, "camelCase") {
        Option::Some(RenameRule::CamelCase)
    } else if name_eq(s, "snake_case") {
        Option::Some(RenameRule::SnakeCase)
    } else if name_eq(s, "SCREAMING_SNAKE_CASE") {
        Option::Some(RenameRule::ScreamingSnakeCase)
    } else if name_eq(s, "kebab-case") {
        Option::Some(RenameRule::KebabCase)
    } else if name_eq(s, "SCREAMING-KEBAB-CASE") {
        Option::Some(RenameRule::ScreamingKebabCase)
    } else {
        Option::None
    }
}

pub open spec fn is_lower_char(c: char) -> bool {
    'a' <= c && c <= 'z'
}

pub open spec fn is_upper_char(c: char) -> bool {
    'A' <= c && c <= 'Z'
}

/// The upper-case form of an ASCII letter; any other character unchanged.
pub open spec fn spec_upper_char(c: char) -> char {
    if is_lower_char(c) {
        ((c as int) - 32) as char
    } else {
        c
    }
}

/// The lower-case form of an ASCII letter; any other character unchanged.
pub open spec fn spec_lower_char(c: char) -> char {
    if is_upper_char(c) {
        ((c as int) + 32) as char
    } else {
        c
    }
}

/// An underscore becomes a dash; any other character unchanged.
pub open spec fn spec_dash_char(c: char) -> char {
    if c == '_' {
        '-'
    } else {
        c
    }
}

pub fn upper_char(c: char) -> (r: char)
    ensures
        r == spec_upper_char(c),
{
    let u = c as u32;
    if 97 <= u && u <= 122 {
        ((u - 32) as u8) as char
    } else {
        c
    }
}

pub fn lower_char(c: char) -> (r: char)
    ensures
        r == spec_lower_char(c),
{
    let u = c as u32;
    if 65 <= u && u <= 90 {
        ((u + 32) as u8) as char
    } else {
        c
    }
}

pub fn dash_char(c: char) -> (r: char)
    ensures
        r == spec_dash_char(c),
{
    if c == '_' {
        '-'
    } else {
        c
    }
}

/// The characters the given ASCII bytes spell.
pub open spec fn chars_of_bytes(bs: Seq<u8>) -> Seq<char> {
    Seq::new(bs.len(), |i: int| bs[i] as char)
}

/// Relies on String::from_utf8: a sequence of bytes below 128 decodes to
/// one character per byte, each the character of its byte.
#[verifier::external_body]
fn ascii_string(bytes: Vec<u8>) -> (r: String)
    requires
        forall|i: int| 0 <= i < bytes@.len() ==> bytes@[i] < 128,
    ensures
        r@ == chars_of_bytes(bytes@),
{
    match String::from_utf8(bytes) {
        Ok(s) => s,
        Err(_) => String::new(),
    }
}

/// Every character respelled upper case.
pub open spec fn upper_chars(s: Seq<char>) -> Seq<char> {
    Seq::new(s.len(), |i: int| spec_upper_char(s[i]))
}

/// Every character respelled lower case.
pub open spec fn lower_chars(s: Seq<char>) -> Seq<char> {
    Seq::new(s.len(), |i: int| spec_lower_char(s[i]))
}

/// Every underscore respelled as a dash.
pub open spec fn dash_chars(s: Seq<char>) -> Seq<char> {
    Seq::new(s.len(), |i: int| spec_dash_char(s[i]))
}

/// A snake-case name respelled in pascal case: underscores are dropped and
/// the letter after each dropped underscore, as well as the first letter, is
/// capitalized.
pub open spec fn pascal_chars(s: Seq<char>, cap: bool) -> Seq<char>
    decreases s.len(),
{
    if s.len() == 0 {
        Seq::empty()
    } else if s[0] == '_' {
        pascal_chars(s.drop_first(), true)
    } else {
        seq![if cap {
            spec_upper_char(s[0])
        } else {
            s[0]
        }] + pascal_chars(s.drop_first(), false)
    }
}

/// A pascal-case name respelled in snake case: each capital is lowered, and
/// every capital after the first character gets an underscore before it.
pub open spec fn snake_chars(s: Seq<char>, first: bool) -> Seq<char>
    decreases s.len(),
{
    if s.len() == 0 {
        Seq::empty()
    } else if is_upper_char(s[0]) {
        (if first {
            seq![spec_lower_char(s[0])]
        } else {
            seq!['_', spec_lower_char(s[0])]
        }) + snake_chars(s.drop_first(), false)
    } else {
        seq![s[0]] + snake_chars(s.drop_first(), false)
    }
}

/// The first character respelled lower case.
pub open spec fn uncap_chars(s: Seq<char>) -> Seq<char> {
    if s.len() == 0 {
        s
    } else {
        seq![spec_lower_char(s[0])] + s.drop_first()
    }
}

pub proof fn lemma_upper_chars_ascii(s: Seq<char>)
    requires
        is_ascii_chars(s),
    ensures
        is_ascii_chars(upper_chars(s)),
{
    assert forall|i: int| 0 <= i < upper_chars(s).len() implies '\0' <= #[trigger] upper_chars(
        s,
    )[i] <= '\u{7f}' by {
        assert('\0' <= s[i] <= '\u{7f}');
    }
}

pub proof fn lemma_snake_chars_ascii(s: Seq<char>, first: bool)
    requires
        is_ascii_chars(s),
    ensures
        is_ascii_chars(snake_chars(s, first)),
    decreases s.len(),
{
    if s.len() > 0 {
        assert('\0' <= s[0] <= '\u{7f}');
        assert(is_ascii_chars(s.drop_first()));
        lemma_snake_chars_ascii(s.drop_first(), false);
        let rest = snake_chars(s.drop_first(), false);
        assert forall|i: int| 0 <= i < snake_chars(s, first).len() implies '\0'
            <= #[trigger] snake_chars(s, first)[i] <= '\u{7f}' by {
            let pre = if is_upper_char(s[0]) {
                if first {
                    seq![spec_lower_char(s[0])]
                } else {
                    seq!['_', spec_lower_char(s[0])]
                }
            } else {
                seq![s[0]]
            };
            assert(snake_chars(s, first) == pre + rest);
            if i >= pre.len() {
                assert(snake_chars(s, first)[i] == rest[i - pre.len()]);
            }
        }
    }
}

pub proof fn lemma_pascal_chars_ascii(s: Seq<char>, cap: bool)
    requires
        is_ascii_chars(s),
    ensures
        is_ascii_chars(pascal_chars(s, cap)),
    decreases s.len(),
{
    if s.len() > 0 {
        assert('\0' <= s[0] <= '\u{7f}');
        assert(is_ascii_chars(s.drop_first()));
        if s[0] == '_' {
            lemma_pascal_chars_ascii(s.drop_first(), true);
        } else {
            lemma_pascal_chars_ascii(s.drop_first(), false);
            let rest = pascal_chars(s.drop_first(), false);
            let pre = seq![
                if cap {
                    spec_upper_char(s[0])
                } else {
                    s[0]
                },
            ];
            assert(pascal_chars(s, cap) == pre + rest);
            assert forall|i: int| 0 <= i < pascal_chars(s, cap).len() implies '\0'
                <= #[trigger] pascal_chars(s, cap)[i] <= '\u{7f}' by {
                if i >= 1 {
                    assert(pascal_chars(s, cap)[i] == rest[i - 1]);
                }
            }
        }
    }
}

fn upper_string(s: &String) -> (r: String)
    requires
        is_ascii_chars(s@),
    ensures
        r@ == upper_chars(s@),
{
    let n = s.as_str().unicode_len();
    let mut bs: Vec<u8> = Vec::new();
    let mut i: usize = 0;
    while i < n
        invariant
            is_ascii_chars(s@),
            n == s@.len(),
            i <= n,
            bs@.len() == i as nat,
            forall|j: int| 0 <= j < i as int ==> bs@[j] < 128,
            forall|j: int|
                0 <= j < i as int ==> (#[trigger] bs@[j]) as char == spec_upper_char(s@[j]),
        decreases n - i,
    {
        let c = s.as_str().get_char(i);
        proof {
            assert('\0' <= s@[i as int] <= '\u{7f}');
        }
        let u = upper_char(c);
        bs.push(u as u8);
        i = i + 1;
    }
    let r = ascii_string(bs);
    proof {
        assert(r@ =~= upper_chars(s@));
    }
    r
}

fn lower_string(s: &String) -> (r: String)
    requires
        is_ascii_chars(s@),
    ensures
        r@ == lower_chars(s@),
{
    let n = s.as_str().unicode_len();
    let mut bs: Vec<u8> = Vec::new();
    let mut i: usize = 0;
    while i < n
        invariant
            is_ascii_chars(s@),
            n == s@.len(),
            i <= n,
            bs@.len() == i as nat,
            forall|j: int| 0 <= j < i as int ==> bs@[j] < 128,
            forall|j: int|
                0 <= j < i as int ==> (#[trigger] bs@[j]) as char == spec_lower_char(s@[j]),
        decreases n - i,
    {
        let c = s.as_str().get_char(i);
        proof {
            assert('\0' <= s@[i as int] <= '\u{7f}');
        }
        let u = lower_char(c);
        bs.push(u as u8);
        i = i + 1;
    }
    let r = ascii_string(bs);
    proof {
        assert(r@ =~= lower_chars(s@));
    }
    r
}

fn dash_string(s: &String) -> (r: String)
    requires
        is_ascii_chars(s@),
    ensures
        r@ == dash_chars(s@),
{
    let n = s.as_str().unicode_len();
    let mut bs: Vec<u8> = Vec::new();
    let mut i: usize = 0;
    while i < n
        invariant
            is_ascii_chars(s@),
            n == s@.len(),
            i <= n,
            bs@.len() == i as nat,
            forall|j: int| 0 <= j < i as int ==> bs@[j] < 128,
            forall|j: int|
                0 <= j < i as int ==> (#[trigger] bs@[j]) as char == spec_dash_char(s@[j]),
        decreases n - i,
    {
        let c = s.as_str().get_char(i);
        proof {
            assert('\0' <= s@[i as int] <= '\u{7f}');
        }
        let u = dash_char(c);
        bs.push(u as u8);
        i = i + 1;
    }
    let r = ascii_string(bs);
    proof {
        assert(r@ =~= dash_chars(s@));
    }
    r
}

fn uncap_string(s: &String) -> (r: String)
    requires
        is_ascii_chars(s@),
    ensures
        r@ == uncap_chars(s@),
{
    let n = s.as_str().unicode_len();
    let mut bs: Vec<u8> = Vec::new();
    let mut i: usize = 0;
    while i < n
        invariant
            is_ascii_chars(s@),
            n == s@.len(),
            i <= n,
            bs@.len() == i as nat,
            forall|j: int| 0 <= j < i as int ==> bs@[j] < 128,
            forall|j: int|
                0 <= j < i as int ==> (#[trigger] bs@[j]) as char == uncap_chars(s@)[j],
        decreases n - i,
    {
        let c = s.as_str().get_char(i);
        proof {
            assert('\0' <= s@[i as int] <= '\u{7f}');
        }
        let u = if i == 0 {
            lower_char(c)
        } else {
            c
        };
        proof {
            if i > 0 {
                assert(uncap_chars(s@)[i as int] == s@.drop_first()[i as int - 1]);
            }
        }
        bs.push(u as u8);
        i = i + 1;
    }
    let r = ascii_string(bs);
    proof {
        assert(r@ =~= uncap_chars(s@));
    }
    r
}

fn pascal_string(s: &String) -> (r: String)
    requires
        is_ascii_chars(s@),
    ensures
        r@ == pascal_chars(s@, true),
{
    let n = s.as_str().unicode_len();
    let mut bs: Vec<u8> = Vec::new();
    let mut cap = true;
    let mut i: usize = 0;
    proof {
        assert(s@.subrange(0, n as int) =~= s@);
    }
    while i < n
        invariant
            is_ascii_chars(s@),
            n == s@.len(),
            i <= n,
            forall|j: int| 0 <= j < bs@.len() ==> bs@[j] < 128,
            pascal_chars(s@, true) == chars_of_bytes(bs@) + pascal_chars(
                s@.subrange(i as int, n as int),
                cap,
            ),
        decreases n - i,
    {
        let ghost pre = s@.subrange(i as int, n as int);
        let c = s.as_str().get_char(i);
        proof {
            assert('\0' <= s@[i as int] <= '\u{7f}');
            assert(pre[0] == s@[i as int]);
            assert(pre.drop_first() =~= s@.subrange(i as int + 1, n as int));
        }
        if c == '_' {
            cap = true;
        } else {
            let u = if cap {
                upper_char(c)
            } else {
                c
            };
            let ghost old_bs = bs@;
            bs.push(u as u8);
            cap = false;
            proof {
                assert(chars_of_bytes(bs@) =~= chars_of_bytes(old_bs) + seq![u]);
                assert((chars_of_bytes(old_bs) + seq![u]) + pascal_chars(
                    s@.subrange(i as int + 1, n as int),
                    false,
                ) =~= chars_of_bytes(old_bs) + (seq![u] + pascal_chars(
                    s@.subrange(i as int + 1, n as int),
                    false,
                )));
            }
        }
        i = i + 1;
    }
    proof {
        assert(s@.subrange(n as int, n as int) =~= Seq::<char>::empty());
        assert(pascal_chars(s@.subrange(n as int, n as int), cap) =~= Seq::<char>::empty());
        assert(pascal_chars(s@, true) =~= chars_of_bytes(bs@));
    }
    let r = ascii_string(bs);
    proof {
        assert(r@ =~= pascal_chars(s@, true));
    }
    r
}

fn snake_string(s: &String) -> (r: String)
    requires
        is_ascii_chars(s@),
    ensures
        r@ == snake_chars(s@, true),
{
    let n = s.as_str().unicode_len();
    let mut bs: Vec<u8> = Vec::new();
    let mut first = true;
    let mut i: usize = 0;
    proof {
        assert(s@.subrange(0, n as int) =~= s@);
    }
    while i < n
        invariant
            is_ascii_chars(s@),
            n == s@.len(),
            i <= n,
            forall|j: int| 0 <= j < bs@.len() ==> bs@[j] < 128,
            snake_chars(s@, true) == chars_of_bytes(bs@) + snake_chars(
                s@.subrange(i as int, n as int),
                first,
            ),
        decreases n - i,
    {
        let ghost pre = s@.subrange(i as int, n as int);
        let c = s.as_str().get_char(i);
        proof {
            assert('\0' <= s@[i as int] <= '\u{7f}');
            assert(pre[0] == s@[i as int]);
            assert(pre.drop_first() =~= s@.subrange(i as int + 1, n as int));
        }
        let u = c as u32;
        let ghost old_bs = bs@;
        if 65 <= u && u <= 90 {
            if !first {
                bs.push(95);
            }
            let l = lower_char(c);
            bs.push(l as u8);
            proof {
                if !first {
                    assert(chars_of_bytes(bs@) =~= chars_of_bytes(old_bs) + seq!['_', l]);
                    assert((chars_of_bytes(old_bs) + seq!['_', l]) + snake_chars(
                        s@.subrange(i as int + 1, n as int),
                        false,
                    ) =~= chars_of_bytes(old_bs) + (seq!['_', l] + snake_chars(
                        s@.subrange(i as int + 1, n as int),
                        false,
                    )));
                } else {
                    assert(chars_of_bytes(bs@) =~= chars_of_bytes(old_bs) + seq![l]);
                    assert((chars_of_bytes(old_bs) + seq![l]) + snake_chars(
                        s@.subrange(i as int + 1, n as int),
                        false,
                    ) =~= chars_of_bytes(old_bs) + (seq![l] + snake_chars(
                        s@.subrange(i as int + 1, n as int),
                        false,
                    )));
                }
            }
        } else {
            bs.push(c as u8);
            proof {
                assert((c as u8) as char == c);
                assert(chars_of_bytes(bs@) =~= chars_of_bytes(old_bs) + seq![c]);
                assert((chars_of_bytes(old_bs) + seq![c]) + snake_chars(
                    s@.subrange(i as int + 1, n as int),
                    false,
                ) =~= chars_of_bytes(old_bs) + (seq![c] + snake_chars(
                    s@.subrange(i as int + 1, n as int),
                    false,
                )));
            }
        }
        first = false;
        i = i + 1;
    }
    proof {
        assert(s@.subrange(n as int, n as int) =~= Seq::<char>::empty());
        assert(snake_chars(s@.subrange(n as int, n as int), first) =~= Seq::<char>::empty());
        assert(snake_chars(s@, true) =~= chars_of_bytes(bs@));
    }
    let r = ascii_string(bs);
    proof {
        assert(r@ =~= snake_chars(s@, true));
    }
    r
}

/// What a rule makes of a field name (declared in snake case). A name with
/// a character outside ASCII is kept as it is.
pub open spec fn spec_field_rename(rule: RenameRule, s: Seq<char>) -> Seq<char> {
    if !is_ascii_chars(s) {
        s
    } else {
        match rule {
            RenameRule::LowerCase => s,
            RenameRule::UpperCase => upper_chars(s),
            RenameRule::PascalCase => pascal_chars(s, true),
            RenameRule::CamelCase => uncap_chars(pascal_chars(s, true)),
            RenameRule::SnakeCase => s,
            RenameRule::ScreamingSnakeCase => upper_chars(s),
            RenameRule::KebabCase => dash_chars(s),
            RenameRule::ScreamingKebabCase => dash_chars(upper_chars(s)),
        }
    }
}

/// What a rule makes of a variant name (declared in pascal case). A name
/// with a character outside ASCII is kept as it is.
pub open spec fn spec_variant_rename(rule: RenameRule, s: Seq<char>) -> Seq<char> {
    if !is_ascii_chars(s) {
        s
    } else {
        match rule {
            RenameRule::LowerCase => lower_chars(s),
            RenameRule::UpperCase => upper_chars(s),
            RenameRule::PascalCase => s,
            RenameRule::CamelCase => uncap_chars(s),
            RenameRule::SnakeCase => snake_chars(s, true),
            RenameRule::ScreamingSnakeCase => upper_chars(snake_chars(s, true)),
            RenameRule::KebabCase => dash_chars(snake_chars(s, true)),
            RenameRule::ScreamingKebabCase => dash_chars(upper_chars(snake_chars(s, true))),
        }
    }
}

/// Respells a field name by the rule.
pub fn field_rename(rule: RenameRule, s: &String) -> (r: String)
    ensures
        r@ == spec_field_rename(rule, s@),
{
    if !s.as_str().is_ascii() {
        return s.clone();
    }
    match rule {
        RenameRule::LowerCase => s.clone(),
        RenameRule::UpperCase => upper_string(s),
        RenameRule::PascalCase => pascal_string(s),
        RenameRule::CamelCase => {
            let p = pascal_string(s);
            proof {
                lemma_pascal_chars_ascii(s@, true);
            }
            uncap_string(&p)
        }
        RenameRule::SnakeCase => s.clone(),
        RenameRule::ScreamingSnakeCase => upper_string(s),
        RenameRule::KebabCase => dash_string(s),
        RenameRule::ScreamingKebabCase => {
            let u = upper_string(s);
            proof {
                lemma_upper_chars_ascii(s@);
            }
            dash_string(&u)
        }
    }
}

/// Respells a variant name by the rule.
pub fn variant_rename(rule: RenameRule, s: &String) -> (r: String)
    ensures
        r@ == spec_variant_rename(rule, s@),
{
    if !s.as_str().is_ascii() {
        return s.clone();
    }
    match rule {
        RenameRule::LowerCase => lower_string(s),
        RenameRule::UpperCase => upper_string(s),
        RenameRule::PascalCase => s.clone(),
        RenameRule::CamelCase => uncap_string(s),
        RenameRule::SnakeCase => snake_string(s),
        RenameRule::ScreamingSnakeCase => {
            let t = snake_string(s);
            proof {
                lemma_snake_chars_ascii(s@, true);
            }
            upper_string(&t)
        }
        RenameRule::KebabCase => {
            let t = snake_string(s);
            proof {
                lemma_snake_chars_ascii(s@, true);
            }
            dash_string(&t)
        }
        RenameRule::ScreamingKebabCase => {
            let t = snake_string(s);
            proof {
                lemma_snake_chars_ascii(s@, true);
            }
            let u = upper_string(&t);
            proof {
                lemma_upper_chars_ascii(snake_chars(s@, true));
            }
            dash_string(&u)
        }
    }
}

} // verus!
