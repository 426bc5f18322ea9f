//! A verified reader for the token endpoint's JSON body.
//!
//! The endpoint answers a successful request with a flat JSON object such as
//! `{"access_token":"abc123","expires_in":3600}`. The grammar accepted here
//! is exactly that shape: one object of `"key": value` members, where a value
//! is either a string without escape sequences or an integer of at most 18
//! digits, with arbitrary whitespace between tokens and the members in any
//! order. The object must carry a string `access_token` and an integer
//! `expires_in`, each exactly once; unknown members are allowed. Anything
//! else is rejected, and the caller reports the raw body instead.

use vstd::prelude::*;
use vstd::string::*;

verus! {

/// JSON insignificant whitespace.
pub open spec fn is_ws(c: char) -> bool {
    c == ' ' || c == '\t' || c == '\n' || c == '\r'
}

/// An ASCII decimal digit.
pub open spec fn is_digit(c: char) -> bool {
    48 <= c as u32 && c as u32 <= 57
}

/// The numeric value of a decimal digit.
pub open spec fn digit_val(c: char) -> int {
    c as u32 - 48
}

/// A character allowed inside a string literal: anything but the closing
/// quote, a backslash (escape sequences are not accepted) or a control
/// character.
pub open spec fn string_char_ok(c: char) -> bool {
    c != '"' && c != '\\' && c as u32 >= 32
}

/// The first position at or after `i` that does not hold whitespace.
pub open spec fn spec_skip_ws(s: Seq<char>, i: int) -> int
    decreases s.len() - i,
{
    if i < 0 || i >= s.len() {
        i
    } else if is_ws(s[i]) {
        spec_skip_ws(s, i + 1)
    } else {
        i
    }
}

/// The position of the quote that closes a string whose content starts at
/// `i`, provided every character before it is allowed in a string literal.
pub open spec fn spec_string_end(s: Seq<char>, i: int) -> Option<int>
    decreases s.len() - i,
{
    if i < 0 || i >= s.len() {
        None
    } else if s[i] == '"' {
        Some(i)
    } else if string_char_ok(s[i]) {
        spec_string_end(s, i + 1)
    } else {
        None
    }
}

/// A string literal at `i`: an opening quote, content without escapes, a
/// closing quote. Yields the content and the position after the closing
/// quote.
pub open spec fn spec_parse_string(s: Seq<char>, i: int) -> Option<(Seq<char>, int)> {
    if 0 <= i < s.len() && s[i] == '"' {
        match spec_string_end(s, i + 1) {
            Some(q) => Some((s.subrange(i + 1, q), q + 1)),
            None => None,
        }
    } else {
        None
    }
}

/// How an executable scan result must relate to `spec_parse_string`.
pub open spec fn string_result_matches(r: Option<(String, usize)>, sp: Option<(Seq<char>, int)>) -> bool {
    match r {
        Some(p) => sp is Some && p.0@ == sp->Some_0.0 && p.1 as int == sp->Some_0.1,
        None => sp is None,
    }
}

fn is_ws_char(c: char) -> (b: bool)
    ensures
        b == is_ws(c),
{
    c == ' ' || c == '\t' || c == '\n' || c == '\r'
}

fn skip_ws(s: &str, i: usize) -> (r: usize)
    requires
        i <= s@.len(),
    ensures
        r as int == spec_skip_ws(s@, i as int),
        i <= r <= s@.len(),
{
    let n = s.unicode_len();
    let mut j = i;
    while j < n && is_ws_char(s.get_char(j))
        invariant
            n == s@.len(),
            i <= j <= n,
            spec_skip_ws(s@, i as int) == spec_skip_ws(s@, j as int),
        decreases n - j,
    {
        j = j + 1;
    }
    j
}

fn parse_string(s: &str, i: usize) -> (r: Option<(String, usize)>)
    requires
        i <= s@.len(),
    ensures
        string_result_matches(r, spec_parse_string(s@, i as int)),
        r matches Some(p) ==> i < p.1 <= s@.len(),
{
    let n = s.unicode_len();
    if i >= n || s.get_char(i) != '"' {
        return None;
    }
    let mut j = i + 1;
    while j < n && s.get_char(j) != '"' && s.get_char(j) != '\\' && s.get_char(j) as u32 >= 32
        invariant
            n == s@.len(),
            i + 1 <= j <= n,
            spec_string_end(s@, i as int + 1) == spec_string_end(s@, j as int),
        decreases n - j,
    {
        j = j + 1;
    }
    if j < n && s.get_char(j) == '"' {
        let content = s.substring_char(i + 1, j).to_owned();
        Some((content, j + 1))
    } else {
        None
    }
}

/// The first position at or after `i` that does not hold a digit.
pub open spec fn spec_digits_end(s: Seq<char>, i: int) -> int
    decreases s.len() - i,
{
    if i < 0 || i >= s.len() {
        i
    } else if is_digit(s[i]) {
        spec_digits_end(s, i + 1)
    } else {
        i
    }
}

/// The value of the digit run `s[i..j]`, read most significant first.
pub open spec fn spec_digits_val(s: Seq<char>, i: int, j: int) -> int
    decreases j - i,
{
    if j <= i {
        0
    } else {
        spec_digits_val(s, i, j - 1) * 10 + digit_val(s[j - 1])
    }
}

/// Ten to the `n`.
pub open spec fn pow10(n: nat) -> int
    decreases n,
{
    if n == 0 {
        1
    } else {
        10 * pow10((n - 1) as nat)
    }
}

/// A run of `j - i` digits is worth less than `pow10(j - i)`.
pub proof fn lemma_digits_val_bound(s: Seq<char>, i: int, j: int)
    requires
        i <= j,
        forall|k: int| i <= k < j ==> is_digit(s[k]),
    ensures
        0 <= spec_digits_val(s, i, j) < pow10((j - i) as nat),
    decreases j - i,
{
    if j > i {
        lemma_digits_val_bound(s, i, j - 1);
    }
}

/// An unsigned integer literal at `i`: one to eighteen digits, without a
/// leading zero. Yields the value and the position after the last digit.
/// Eighteen digits keep every accepted value well inside the signed 64-bit
/// range; a longer run is rejected as out of range.
pub open spec fn spec_parse_uint(s: Seq<char>, i: int) -> Option<(int, int)> {
    let e = spec_digits_end(s, i);
    if !(0 <= i < s.len() && is_digit(s[i])) {
        None
    } else if s[i] == '0' && e > i + 1 {
        None
    } else if e - i > 18 {
        None
    } else {
        Some((spec_digits_val(s, i, e), e))
    }
}

/// An integer literal at `i`: an optional minus sign, then digits.
pub open spec fn spec_parse_int(s: Seq<char>, i: int) -> Option<(int, int)> {
    if 0 <= i < s.len() && s[i] == '-' {
        match spec_parse_uint(s, i + 1) {
            Some(p) => Some((-p.0, p.1)),
            None => None,
        }
    } else {
        spec_parse_uint(s, i)
    }
}

/// How an executable integer scan must relate to `spec_parse_int`.
pub open spec fn int_result_matches(r: Option<(i64, usize)>, sp: Option<(int, int)>) -> bool {
    match r {
        Some(p) => sp is Some && p.0 as int == sp->Some_0.0 && p.1 as int == sp->Some_0.1,
        None => sp is None,
    }
}

/// The end of a digit run never lies before its start.
pub proof fn lemma_digits_end_ge(s: Seq<char>, i: int)
    requires
        0 <= i,
    ensures
        spec_digits_end(s, i) >= i,
    decreases s.len() - i,
{
    if i < s.len() && is_digit(s[i]) {
        lemma_digits_end_ge(s, i + 1);
    }
}

/// Scan the digit run that starts at `i`.
fn digits_end(s: &str, i: usize) -> (e: usize)
    requires
        i <= s@.len(),
    ensures
        e as int == spec_digits_end(s@, i as int),
        i <= e <= s@.len(),
        forall|k: int| i <= k < e ==> is_digit(s@[k]),
{
    let n = s.unicode_len();
    let mut j = i;
    while j < n && s.get_char(j) as u32 >= 48 && s.get_char(j) as u32 <= 57
        invariant
            n == s@.len(),
            i <= j <= n,
            spec_digits_end(s@, i as int) == spec_digits_end(s@, j as int),
            forall|k: int| i <= k < j ==> is_digit(s@[k]),
        decreases n - j,
    {
        j = j + 1;
    }
    j
}

fn parse_uint(s: &str, i: usize) -> (r: Option<(i64, usize)>)
    requires
        i <= s@.len(),
    ensures
        int_result_matches(r, spec_parse_uint(s@, i as int)),
        r matches Some(p) ==> i < p.1 <= s@.len() && p.0 >= 0,
{
    let n = s.unicode_len();
    if i >= n {
        return None;
    }
    let c0 = s.get_char(i);
    if !(c0 as u32 >= 48 && c0 as u32 <= 57) {
        return None;
    }
    let e = digits_end(s, i);
    proof {
        lemma_digits_end_ge(s@, i as int + 1);
    }
    if c0 == '0' && e > i + 1 {
        return None;
    }
    if e - i > 18 {
        return None;
    }
    let mut acc: i64 = 0;
    let mut k = i;
    while k < e
        invariant
            i <= k <= e <= s@.len(),
            e - i <= 18,
            forall|j: int| i <= j < e ==> is_digit(s@[j]),
            acc as int == spec_digits_val(s@, i as int, k as int),
            0 <= acc as int,
            (acc as int) < pow10((k - i) as nat),
        decreases e - k,
    {
        let c = s.get_char(k);
        let d: i64 = (c as u32 - 48) as i64;
        proof {
            lemma_digits_val_bound(s@, i as int, k as int + 1);
            assert(pow10((k + 1 - i) as nat) <= pow10(18)) by {
                lemma_pow10_le((k + 1 - i) as nat, 18);
            }
            assert(pow10(18) == 1000000000000000000) by {
                reveal_with_fuel(pow10, 19);
            }
        }
        acc = acc * 10 + d;
        k = k + 1;
    }
    Some((acc, e))
}

/// `pow10` grows with its exponent.
pub proof fn lemma_pow10_le(a: nat, b: nat)
    requires
        a <= b,
    ensures
        pow10(a) <= pow10(b),
    decreases b,
{
    if a < b {
        lemma_pow10_le(a, (b - 1) as nat);
        lemma_pow10_pos((b - 1) as nat);
    }
}

/// `pow10` is positive.
pub proof fn lemma_pow10_pos(n: nat)
    ensures
        pow10(n) >= 1,
    decreases n,
{
    if n > 0 {
        lemma_pow10_pos((n - 1) as nat);
    }
}

fn parse_int(s: &str, i: usize) -> (r: Option<(i64, usize)>)
    requires
        i <= s@.len(),
    ensures
        int_result_matches(r, spec_parse_int(s@, i as int)),
        r matches Some(p) ==> i < p.1 <= s@.len(),
{
    let n = s.unicode_len();
    if i < n && s.get_char(i) == '-' {
        match parse_uint(s, i + 1) {
            Some(p) => Some((-p.0, p.1)),
            None => None,
        }
    } else {
        parse_uint(s, i)
    }
}

/// A member value: a string literal or an integer literal.
pub enum JsonValue {
    Str(String),
    Int(i64),
}

/// The mathematical content of a member value.
pub enum JsonValueV {
    Str(Seq<char>),
    Int(int),
}

/// What a `JsonValue` holds.
pub open spec fn value_view(v: JsonValue) -> JsonValueV {
    match v {
        JsonValue::Str(t) => JsonValueV::Str(t@),
        JsonValue::Int(x) => JsonValueV::Int(x as int),
    }
}

/// A value at `i`: a string literal where a quote stands, else an integer
/// literal.
pub open spec fn spec_parse_value(s: Seq<char>, i: int) -> Option<(JsonValueV, int)> {
    if 0 <= i < s.len() && s[i] == '"' {
        match spec_parse_string(s, i) {
            Some(p) => Some((JsonValueV::Str(p.0), p.1)),
            None => None,
        }
    } else {
        match spec_parse_int(s, i) {
            Some(p) => Some((JsonValueV::Int(p.0), p.1)),
            None => None,
        }
    }
}

/// How an executable value scan must relate to `spec_parse_value`.
pub open spec fn value_result_matches(r: Option<(JsonValue, usize)>, sp: Option<(JsonValueV, int)>) -> bool {
    match r {
        Some(p) => sp is Some && value_view(p.0) == sp->Some_0.0 && p.1 as int == sp->Some_0.1,
        None => sp is None,
    }
}

fn parse_value(s: &str, i: usize) -> (r: Option<(JsonValue, usize)>)
    requires
        i <= s@.len(),
    ensures
        value_result_matches(r, spec_parse_value(s@, i as int)),
        r matches Some(p) ==> i < p.1 <= s@.len(),
{
    let n = s.unicode_len();
    if i < n && s.get_char(i) == '"' {
        match parse_string(s, i) {
            Some(p) => Some((JsonValue::Str(p.0), p.1)),
            None => None,
        }
    } else {
        match parse_int(s, i) {
            Some(p) => Some((JsonValue::Int(p.0), p.1)),
            None => None,
        }
    }
}

/// A member at `i`: a string key, a colon, a value, with whitespace allowed
/// around the colon.
pub open spec fn spec_parse_member(s: Seq<char>, i: int) -> Option<(Seq<char>, JsonValueV, int)> {
    match spec_parse_string(s, i) {
        None => None,
        Some(k) => {
            let c = spec_skip_ws(s, k.1);
            if c < s.len() && s[c] == ':' {
                let v = spec_skip_ws(s, c + 1);
                match spec_parse_value(s, v) {
                    Some(p) => Some((k.0, p.0, p.1)),
                    None => None,
                }
            } else {
                None
            }
        },
    }
}

/// How an executable member scan must relate to `spec_parse_member`.
pub open spec fn member_result_matches(
    r: Option<(String, JsonValue, usize)>,
    sp: Option<(Seq<char>, JsonValueV, int)>,
) -> bool {
    match r {
        Some(p) => sp is Some && p.0@ == sp->Some_0.0 && value_view(p.1) == sp->Some_0.1
            && p.2 as int == sp->Some_0.2,
        None => sp is None,
    }
}

fn parse_member(s: &str, i: usize) -> (r: Option<(String, JsonValue, usize)>)
    requires
        i <= s@.len(),
    ensures
        member_result_matches(r, spec_parse_member(s@, i as int)),
        r matches Some(p) ==> i < p.2 <= s@.len(),
{
    let n = s.unicode_len();
    match parse_string(s, i) {
        None => None,
        Some(k) => {
            let c = skip_ws(s, k.1);
            if c < n && s.get_char(c) == ':' {
                let v = skip_ws(s, c + 1);
                match parse_value(s, v) {
                    Some(p) => Some((k.0, p.0, p.1)),
                    None => None,
                }
            } else {
                None
            }
        },
    }
}

/// The two fields the response object must carry, as far as the members read
/// so far have supplied them.
pub struct Fields {
    pub token: Option<String>,
    pub expires: Option<i64>,
}

/// The mathematical content of `Fields`.
pub struct FieldsV {
    pub token: Option<Seq<char>>,
    pub expires: Option<int>,
}

/// What a `Fields` holds.
pub open spec fn fields_view(f: Fields) -> FieldsV {
    FieldsV {
        token: match f.token {
            Some(t) => Some(t@),
            None => None,
        },
        expires: match f.expires {
            Some(x) => Some(x as int),
            None => None,
        },
    }
}

/// Fold one member into the fields: `access_token` must be a string and
/// `expires_in` an integer, each seen at most once; any other member is
/// accepted and ignored.
pub open spec fn spec_apply_member(f: FieldsV, key: Seq<char>, v: JsonValueV) -> Option<FieldsV> {
    if key == "access_token"@ {
        match v {
            JsonValueV::Str(t) => if f.token is None {
                Some(FieldsV { token: Some(t), expires: f.expires })
            } else {
                None
            },
            _ => None,
        }
    } else if key == "expires_in"@ {
        match v {
            JsonValueV::Int(x) => if f.expires is None {
                Some(FieldsV { token: f.token, expires: Some(x) })
            } else {
                None
            },
            _ => None,
        }
    } else {
        Some(f)
    }
}

/// How an executable fold must relate to `spec_apply_member`.
pub open spec fn fields_opt_matches(r: Option<Fields>, sp: Option<FieldsV>) -> bool {
    match r {
        Some(f) => sp is Some && fields_view(f) == sp->Some_0,
        None => sp is None,
    }
}

fn apply_member(f: Fields, key: String, v: JsonValue) -> (r: Option<Fields>)
    ensures
        fields_opt_matches(r, spec_apply_member(fields_view(f), key@, value_view(v))),
{
    if key == String::from_str("access_token") {
        match v {
            JsonValue::Str(t) => if f.token.is_none() {
                Some(Fields { token: Some(t), expires: f.expires })
            } else {
                None
            },
            _ => None,
        }
    } else if key == String::from_str("expires_in") {
        match v {
            JsonValue::Int(x) => if f.expires.is_none() {
                Some(Fields { token: f.token, expires: Some(x) })
            } else {
                None
            },
            _ => None,
        }
    } else {
        Some(f)
    }
}

/// The members of the object, folded into `f` from `i` on: members separated
/// by commas, with whitespace allowed around the separators. Yields the
/// folded fields and the position after the trailing whitespace of the last
/// member. The progress test on the next position can never fail on a
/// position a member scan produced; it keeps the recursion visibly finite.
pub open spec fn spec_parse_members(s: Seq<char>, i: int, f: FieldsV) -> Option<(FieldsV, int)>
    decreases s.len() - i,
{
    match spec_parse_member(s, i) {
        None => None,
        Some(m) => match spec_apply_member(f, m.0, m.1) {
            None => None,
            Some(f2) => {
                let c = spec_skip_ws(s, m.2);
                if c < s.len() && s[c] == ',' {
                    let nxt = spec_skip_ws(s, c + 1);
                    if i < nxt <= s.len() {
                        spec_parse_members(s, nxt, f2)
                    } else {
                        None
                    }
                } else {
                    Some((f2, c))
                }
            },
        },
    }
}

/// How an executable member loop must relate to `spec_parse_members`.
pub open spec fn members_result_matches(r: Option<(Fields, usize)>, sp: Option<(FieldsV, int)>) -> bool {
    match r {
        Some(p) => sp is Some && fields_view(p.0) == sp->Some_0.0 && p.1 as int == sp->Some_0.1,
        None => sp is None,
    }
}

fn parse_members(s: &str, start: usize, fields: Fields) -> (r: Option<(Fields, usize)>)
    requires
        start <= s@.len(),
    ensures
        members_result_matches(r, spec_parse_members(s@, start as int, fields_view(fields))),
        r matches Some(p) ==> p.1 <= s@.len(),
{
    let n = s.unicode_len();
    let mut i = start;
    let mut f = fields;
    loop
        invariant
            i <= n,
            n == s@.len(),
            spec_parse_members(s@, start as int, fields_view(fields)) == spec_parse_members(
                s@,
                i as int,
                fields_view(f),
            ),
        decreases n - i,
    {
        match parse_member(s, i) {
            None => {
                return None;
            },
            Some(m) => {
                match apply_member(f, m.0, m.1) {
                    None => {
                        return None;
                    },
                    Some(f2) => {
                        let c = skip_ws(s, m.2);
                        if c < n && s.get_char(c) == ',' {
                            let nxt = skip_ws(s, c + 1);
                            f = f2;
                            i = nxt;
                        } else {
                            return Some((f2, c));
                        }
                    },
                }
            },
        }
    }
}

/// The whole body: one object whose members supply a string `access_token`
/// and an integer `expires_in`, each exactly once, with nothing but
/// whitespace before the opening brace or after the closing one. Yields the
/// two fields.
pub open spec fn spec_parse_body(s: Seq<char>) -> Option<(Seq<char>, int)> {
    let i = spec_skip_ws(s, 0);
    if i < s.len() && s[i] == '{' {
        let j = spec_skip_ws(s, i + 1);
        match spec_parse_members(s, j, FieldsV { token: None, expires: None }) {
            None => None,
            Some(p) => {
                let k = p.1;
                if k < s.len() && s[k] == '}' {
                    if spec_skip_ws(s, k + 1) == s.len() {
                        match p.0.token {
                            Some(t) => match p.0.expires {
                                Some(x) => Some((t, x)),
                                None => None,
                            },
                            None => None,
                        }
                    } else {
                        None
                    }
                } else {
                    None
                }
            },
        }
    } else {
        None
    }
}

/// How the executable body reader must relate to `spec_parse_body`.
pub open spec fn body_result_matches(r: Option<(String, i64)>, sp: Option<(Seq<char>, int)>) -> bool {
    match r {
        Some(p) => sp is Some && p.0@ == sp->Some_0.0 && p.1 as int == sp->Some_0.1,
        None => sp is None,
    }
}

/// Read the token endpoint's body: the `access_token` and `expires_in`
/// fields of the object, or `None` where the body does not have the
/// accepted shape.
pub fn parse_token_body(s: &str) -> (r: Option<(String, i64)>)
    ensures
        body_result_matches(r, spec_parse_body(s@)),
{
    let n = s.unicode_len();
    let i = skip_ws(s, 0);
    if !(i < n && s.get_char(i) == '{') {
        return None;
    }
    let j = skip_ws(s, i + 1);
    match parse_members(s, j, Fields { token: None, expires: None }) {
        None => None,
        Some(p) => {
            let k = p.1;
            if k < n && s.get_char(k) == '}' {
                let e = skip_ws(s, k + 1);
                if e == n {
                    match p.0.token {
                        Some(t) => match p.0.expires {
                            Some(x) => Some((t, x)),
                            None => None,
                        },
                        None => None,
                    }
                } else {
                    None
                }
            } else {
                None
            }
        },
    }
}

} // verus!
