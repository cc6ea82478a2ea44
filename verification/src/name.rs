//! Package-name normalization and validation.
//!
//! `normalize` turns an arbitrary string into a candidate package name:
//! it trims whitespace, lowercases ASCII letters, turns spaces into hyphens,
//! strips a leading run of `.` or `_`, and replaces every character outside
//! the permitted set (lowercase ASCII letters, digits, `-`, `~`) with `-`.
//! `validate` checks a name against the package-naming grammar, with an
//! optional `@scope/` prefix.

use vstd::prelude::*;
use crate::is_space;

verus! {

/// ASCII lowercasing of a single character; every other character is kept.
pub open spec fn lower_char(c: char) -> char {
    if 'A' <= c && c <= 'Z' {
        ((c as u32) + 32) as char
    } else {
        c
    }
}

/// A space becomes a hyphen; every other character is kept.
pub open spec fn hyph_char(c: char) -> char {
    if c == ' ' {
        '-'
    } else {
        c
    }
}

/// The characters the normalizer keeps: lowercase ASCII letters, digits,
/// `-` and `~`. This is exactly the set the naming grammar allows a plain
/// name to start with.
pub open spec fn keep_char(c: char) -> bool {
    ('a' <= c && c <= 'z') || ('0' <= c && c <= '9') || c == '-' || c == '~'
}

/// Every character outside the permitted set becomes a hyphen.
pub open spec fn repl_char(c: char) -> char {
    if keep_char(c) {
        c
    } else {
        '-'
    }
}

/// True of the characters a leading run of which the normalizer strips.
pub open spec fn is_mark(c: char) -> bool {
    c == '.' || c == '_'
}

/// The sequence without its longest whitespace prefix.
pub open spec fn drop_leading_spaces(s: Seq<char>) -> Seq<char>
    decreases s.len(),
{
    if s.len() > 0 && is_space(s[0]) {
        drop_leading_spaces(s.drop_first())
    } else {
        s
    }
}

/// The sequence without its longest whitespace suffix.
pub open spec fn drop_trailing_spaces(s: Seq<char>) -> Seq<char>
    decreases s.len(),
{
    if s.len() > 0 && is_space(s.last()) {
        drop_trailing_spaces(s.drop_last())
    } else {
        s
    }
}

/// The sequence without its longest prefix of `.` and `_` characters.
pub open spec fn drop_leading_marks(s: Seq<char>) -> Seq<char>
    decreases s.len(),
{
    if s.len() > 0 && is_mark(s[0]) {
        drop_leading_marks(s.drop_first())
    } else {
        s
    }
}

/// The string with leading and trailing whitespace removed.
pub open spec fn trim_spec(s: Seq<char>) -> Seq<char> {
    drop_trailing_spaces(drop_leading_spaces(s))
}

/// The trimmed string, lowercased, with spaces turned into hyphens.
pub open spec fn pre_norm(s: Seq<char>) -> Seq<char> {
    trim_spec(s).map_values(|c: char| hyph_char(lower_char(c)))
}

/// What `normalize` returns, as a function of the input's characters.
pub open spec fn norm_spec(s: Seq<char>) -> Seq<char> {
    drop_leading_marks(pre_norm(s)).map_values(|c: char| repl_char(c))
}

/// `drop_leading_spaces` removes exactly the maximal whitespace prefix.
proof fn lemma_drop_leading_spaces_at(s: Seq<char>, k: int)
    requires
        0 <= k <= s.len(),
        forall|i: int| 0 <= i < k ==> is_space(#[trigger] s[i]),
        k < s.len() ==> !is_space(s[k]),
    ensures
        drop_leading_spaces(s) == s.subrange(k, s.len() as int),
    decreases k,
{
    if k == 0 {
        assert(s.subrange(0, s.len() as int) =~= s);
    } else {
        assert(is_space(s[0]));
        lemma_drop_leading_spaces_at(s.drop_first(), k - 1);
        assert(s.drop_first().subrange(k - 1, s.drop_first().len() as int) =~= s.subrange(
            k,
            s.len() as int,
        ));
    }
}

/// `drop_trailing_spaces` removes exactly the maximal whitespace suffix.
proof fn lemma_drop_trailing_spaces_at(s: Seq<char>, k: int)
    requires
        0 <= k <= s.len(),
        forall|i: int| k <= i < s.len() ==> is_space(#[trigger] s[i]),
        k > 0 ==> !is_space(s[k - 1]),
    ensures
        drop_trailing_spaces(s) == s.subrange(0, k),
    decreases s.len(),
{
    if k == s.len() {
        if s.len() > 0 && is_space(s.last()) {
            assert(!is_space(s[k - 1]));
            assert(false);
        }
        assert(s.subrange(0, s.len() as int) =~= s);
    } else {
        assert(is_space(s.last()));
        lemma_drop_trailing_spaces_at(s.drop_last(), k);
        assert(s.drop_last().subrange(0, k) =~= s.subrange(0, k));
    }
}

/// `drop_leading_marks` removes exactly the maximal prefix of `.` and `_`.
proof fn lemma_drop_leading_marks_at(s: Seq<char>, k: int)
    requires
        0 <= k <= s.len(),
        forall|i: int| 0 <= i < k ==> is_mark(#[trigger] s[i]),
        k < s.len() ==> !is_mark(s[k]),
    ensures
        drop_leading_marks(s) == s.subrange(k, s.len() as int),
    decreases k,
{
    if k == 0 {
        assert(s.subrange(0, s.len() as int) =~= s);
    } else {
        assert(is_mark(s[0]));
        lemma_drop_leading_marks_at(s.drop_first(), k - 1);
        assert(s.drop_first().subrange(k - 1, s.drop_first().len() as int) =~= s.subrange(
            k,
            s.len() as int,
        ));
    }
}

/// Exec counterpart of [`lower_char`].
pub fn to_lower(c: char) -> (r: char)
    ensures
        r == lower_char(c),
{
    let u = c as u32;
    if 65 <= u && u <= 90 {
        ((u + 32) as u8) as char
    } else {
        c
    }
}

/// Exec counterpart of [`is_space`].
pub fn is_space_char(c: char) -> (r: bool)
    ensures
        r == is_space(c),
{
    c == ' ' || c == '\t' || c == '\n' || c == '\r' || c == '\u{c}'
}

/// Removes leading and trailing whitespace.
pub fn trim_str(s: &str) -> (r: String)
    ensures
        r@ == trim_spec(s@),
{
    let n = s.unicode_len();
    let mut lo: usize = 0;
    while lo < n && is_space_char(s.get_char(lo))
        invariant
            0 <= lo <= n == s@.len(),
            forall|i: int| 0 <= i < lo ==> is_space(#[trigger] s@[i]),
        decreases n - lo,
    {
        lo = lo + 1;
    }
    let mut hi: usize = n;
    while hi > lo && is_space_char(s.get_char(hi - 1))
        invariant
            lo <= hi <= n == s@.len(),
            forall|i: int| 0 <= i < lo ==> is_space(#[trigger] s@[i]),
            lo < n ==> !is_space(s@[lo as int]),
            forall|i: int| hi <= i < n ==> is_space(#[trigger] s@[i]),
        decreases hi,
    {
        hi = hi - 1;
    }
    let piece = s.substring_char(lo, hi);
    proof {
        lemma_drop_leading_spaces_at(s@, lo as int);
        let t = s@.subrange(lo as int, n as int);
        lemma_drop_trailing_spaces_at(t, hi - lo);
        assert(t.subrange(0, hi - lo) =~= s@.subrange(lo as int, hi as int));
    }
    String::from_str(piece)
}

/// Relies on `String::from_utf8`: bytes below 128 are valid UTF-8 and decode
/// to the characters with the same code points.
#[verifier::external_body]
fn ascii_to_string(v: Vec<u8>) -> (r: String)
    requires
        forall|i: int| 0 <= i < v@.len() ==> v@[i] < 128,
    ensures
        r@ == v@.map_values(|b: u8| b as char),
{
    match String::from_utf8(v) {
        Ok(r) => r,
        Err(_) => String::new(),
    }
}

/// Exec counterpart of [`keep_char`].
pub fn is_keep_char(c: char) -> (r: bool)
    ensures
        r == keep_char(c),
{
    let u = c as u32;
    (97 <= u && u <= 122) || (48 <= u && u <= 57) || c == '-' || c == '~'
}

/// Exec counterpart of [`is_mark`].
pub fn is_mark_char(c: char) -> (r: bool)
    ensures
        r == is_mark(c),
{
    c == '.' || c == '_'
}

/// Normalizes an arbitrary string into a candidate package name: trims
/// whitespace, lowercases ASCII letters, turns spaces into hyphens, strips a
/// leading run of `.` or `_`, and replaces every character outside the
/// permitted set with a hyphen.
pub fn normalize(s: &str) -> (r: String)
    ensures
        r@ == norm_spec(s@),
{
    let trimmed = trim_str(s);
    let t = trimmed.as_str();
    let n = t.unicode_len();
    let mut mid: Vec<char> = Vec::new();
    let mut i: usize = 0;
    while i < n
        invariant
            0 <= i <= n == t@.len(),
            t@ == trim_spec(s@),
            mid@.len() == i,
            forall|j: int| 0 <= j < i ==> mid@[j] == hyph_char(lower_char(#[trigger] t@[j])),
        decreases n - i,
    {
        let c = to_lower(t.get_char(i));
        if c == ' ' {
            mid.push('-');
        } else {
            mid.push(c);
        }
        i = i + 1;
    }
    proof {
        assert(mid@ =~= pre_norm(s@));
    }
    let mut p: usize = 0;
    while p < mid.len() && is_mark_char(mid[p])
        invariant
            0 <= p <= mid@.len(),
            forall|j: int| 0 <= j < p ==> is_mark(#[trigger] mid@[j]),
        decreases mid@.len() - p,
    {
        p = p + 1;
    }
    proof {
        lemma_drop_leading_marks_at(mid@, p as int);
    }
    let mut out: Vec<u8> = Vec::new();
    let mut k: usize = p;
    while k < mid.len()
        invariant
            p <= k <= mid@.len(),
            out@.len() == k - p,
            forall|j: int|
                0 <= j < out@.len() ==> out@[j] == repl_char(#[trigger] mid@[p + j]) as u8,
            forall|j: int| 0 <= j < out@.len() ==> out@[j] < 128,
        decreases mid@.len() - k,
    {
        let c = mid[k];
        if is_keep_char(c) {
            out.push(c as u8);
        } else {
            out.push(45u8);
        }
        k = k + 1;
    }
    let r = ascii_to_string(out);
    proof {
        let dl = drop_leading_marks(pre_norm(s@));
        assert(norm_spec(s@) == dl.map_values(|c: char| repl_char(c)));
        assert forall|j: int| 0 <= j < r@.len() implies r@[j] == norm_spec(s@)[j as int] by {
            let c = repl_char(mid@[p + j]);
            assert(keep_char(c) || c == '-');
            assert(c as u32 <= 126);
            assert(out@[j] == c as u8);
            assert((c as u8) as char == c);
            assert(norm_spec(s@)[j] == repl_char(dl[j]));
            assert(dl[j] == mid@[p + j]);
        }
        assert(r@ =~= norm_spec(s@));
    }
    r
}

/// Characters that may open the name component of a package name.
pub open spec fn is_name_start(c: char) -> bool {
    keep_char(c)
}

/// Characters that may continue the name component.
pub open spec fn is_name_cont(c: char) -> bool {
    is_name_start(c) || c == '.' || c == '_'
}

/// Characters that may open the scope component of a scoped name.
pub open spec fn is_scope_start(c: char) -> bool {
    is_name_start(c) || c == '*'
}

/// Characters that may continue the scope component.
pub open spec fn is_scope_cont(c: char) -> bool {
    is_scope_start(c) || c == '.' || c == '_'
}

/// A well-formed unscoped name: nonempty, opened by a permitted leading
/// character, continued by permitted characters.
pub open spec fn plain_name_ok(s: Seq<char>) -> bool {
    s.len() > 0 && is_name_start(s[0]) && forall|i: int|
        1 <= i < s.len() ==> is_name_cont(#[trigger] s[i])
}

/// A well-formed scope (the part between `@` and `/`).
pub open spec fn scope_ok(s: Seq<char>) -> bool {
    s.len() > 0 && is_scope_start(s[0]) && forall|i: int|
        1 <= i < s.len() ==> is_scope_cont(#[trigger] s[i])
}

/// The package-naming grammar: either a plain name, or `@<scope>/<name>`.
pub open spec fn valid_spec(s: Seq<char>) -> bool {
    if s.len() > 0 && s[0] == '@' {
        exists|k: int|
            1 < k < s.len() && s[k] == '/' && scope_ok(s.subrange(1, k)) && plain_name_ok(
                s.subrange(k + 1, s.len() as int),
            )
    } else {
        plain_name_ok(s)
    }
}

/// Exec counterpart of [`is_name_cont`].
pub fn is_name_cont_char(c: char) -> (r: bool)
    ensures
        r == is_name_cont(c),
{
    is_keep_char(c) || c == '.' || c == '_'
}

/// Exec counterpart of [`is_scope_start`].
pub fn is_scope_start_char(c: char) -> (r: bool)
    ensures
        r == is_scope_start(c),
{
    is_keep_char(c) || c == '*'
}

/// Exec counterpart of [`is_scope_cont`].
pub fn is_scope_cont_char(c: char) -> (r: bool)
    ensures
        r == is_scope_cont(c),
{
    is_scope_start_char(c) || c == '.' || c == '_'
}

/// Checks the part of `s` from `from` on against the unscoped-name grammar.
fn check_plain(s: &str, from: usize) -> (r: bool)
    requires
        from <= s@.len(),
    ensures
        r == plain_name_ok(s@.subrange(from as int, s@.len() as int)),
{
    let n = s.unicode_len();
    let ghost part = s@.subrange(from as int, s@.len() as int);
    if from == n {
        return false;
    }
    if !is_keep_char(s.get_char(from)) {
        assert(!is_name_start(part[0]));
        return false;
    }
    let mut i: usize = from + 1;
    while i < n
        invariant
            from + 1 <= i <= n == s@.len(),
            part == s@.subrange(from as int, s@.len() as int),
            is_name_start(part[0]),
            forall|j: int| from < j < i ==> is_name_cont(#[trigger] s@[j]),
        decreases n - i,
    {
        if !is_name_cont_char(s.get_char(i)) {
            assert(!is_name_cont(part[i - from]));
            return false;
        }
        i = i + 1;
    }
    assert forall|j: int| 1 <= j < part.len() implies is_name_cont(#[trigger] part[j]) by {
        assert(part[j] == s@[from + j]);
    }
    true
}

/// With `k` the first slash of a string opened by `@`, the grammar is met
/// exactly when `k` splits it into a well-formed scope and name: scope
/// characters never include `/`, so no other split can work.
proof fn lemma_valid_scoped(s: Seq<char>, k: int)
    requires
        s.len() > 0,
        s[0] == '@',
        0 < k < s.len(),
        s[k] == '/',
        forall|j: int| 1 <= j < k ==> s[j] != '/',
    ensures
        valid_spec(s) == (1 < k && scope_ok(s.subrange(1, k)) && plain_name_ok(
            s.subrange(k + 1, s.len() as int),
        )),
{
    if 1 < k && scope_ok(s.subrange(1, k)) && plain_name_ok(s.subrange(k + 1, s.len() as int)) {
        assert(1 < k < s.len() && s[k] == '/' && scope_ok(s.subrange(1, k)) && plain_name_ok(
            s.subrange(k + 1, s.len() as int),
        ));
        assert(valid_spec(s));
    } else {
        if valid_spec(s) {
            let kk = choose|kk: int|
                1 < kk < s.len() && s[kk] == '/' && scope_ok(s.subrange(1, kk)) && plain_name_ok(
                    s.subrange(kk + 1, s.len() as int),
                );
            if kk < k {
                assert(s[kk] != '/');
            } else if kk > k {
                let sc = s.subrange(1, kk);
                assert(sc[k - 1] == s[k]);
                if k == 1 {
                    assert(!is_scope_start(sc[0]));
                } else {
                    assert(!is_scope_cont(sc[k - 1]));
                }
            }
            assert(kk == k);
            assert(false);
        }
    }
}

/// Checks a name against the package-naming grammar: lowercase letters,
/// digits, `-`, `~`, with `.` and `_` allowed after the first character, and
/// an optional `@<scope>/` prefix in which `*` is also permitted.
#[verifier::loop_isolation(false)]
pub fn validate(s: &str) -> (r: bool)
    ensures
        r == valid_spec(s@),
{
    let n = s.unicode_len();
    if n == 0 {
        return false;
    }
    if s.get_char(0) != '@' {
        let r = check_plain(s, 0);
        proof {
            assert(s@.subrange(0, s@.len() as int) =~= s@);
        }
        return r;
    }
    // Scoped form: find the separating slash. Scope characters never
    // include `/`, so only the first slash can separate scope and name.
    let mut k: usize = 1;
    while k < n && s.get_char(k) != '/'
        invariant
            1 <= k <= n == s@.len(),
            forall|j: int| 1 <= j < k ==> s@[j] != '/',
        decreases n - k,
    {
        k = k + 1;
    }
    if k == n {
        // No slash at all: no split can satisfy the grammar.
        assert(forall|kk: int| 1 < kk < s@.len() ==> s@[kk] != '/');
        return false;
    }
    let ghost sv = s@;
    proof {
        lemma_valid_scoped(sv, k as int);
    }
    if k == 1 {
        return false;
    }
    // Check the scope part, characters 1 .. k.
    if !is_scope_start_char(s.get_char(1)) {
        assert(!is_scope_start(sv.subrange(1, k as int)[0]));
        return false;
    }
    let mut i: usize = 2;
    while i < k
        invariant
            2 <= i <= k < n == s@.len(),
            sv == s@,
            forall|j: int| 1 < j < i ==> is_scope_cont(#[trigger] s@[j]),
        decreases k - i,
    {
        if !is_scope_cont_char(s.get_char(i)) {
            proof {
                let sc = sv.subrange(1, k as int);
                assert(sc[i - 1] == sv[i as int]);
                assert(!is_scope_cont(sc[i - 1]));
                assert(!scope_ok(sc));
                assert(!valid_spec(sv));
            }
            return false;
        }
        i = i + 1;
    }
    proof {
        let sc = sv.subrange(1, k as int);
        assert forall|j: int| 1 <= j < sc.len() implies is_scope_cont(#[trigger] sc[j]) by {
            assert(sc[j] == sv[1 + j]);
        }
        assert(scope_ok(sc));
    }
    let good = check_plain(s, k + 1);
    proof {
        if good {
            assert(1 < k < sv.len() && sv[k as int] == '/' && scope_ok(sv.subrange(1, k as int))
                && plain_name_ok(sv.subrange(k + 1, sv.len() as int)));
        }
    }
    good
}

/// Every character of a normalized name lies in the permitted set.
pub proof fn lemma_norm_chars(s: Seq<char>)
    ensures
        forall|i: int| 0 <= i < norm_spec(s).len() ==> keep_char(#[trigger] norm_spec(s)[i]),
{
    let dl = drop_leading_marks(pre_norm(s));
    assert forall|i: int| 0 <= i < norm_spec(s).len() implies keep_char(
        #[trigger] norm_spec(s)[i],
    ) by {
        assert(norm_spec(s)[i] == repl_char(dl[i]));
    }
}

/// Normalization is idempotent: normalizing a normalized name changes
/// nothing.
pub proof fn lemma_normalize_idempotent(s: Seq<char>)
    ensures
        norm_spec(norm_spec(s)) == norm_spec(s),
{
    let t = norm_spec(s);
    lemma_norm_chars(s);
    // No character of t is whitespace, so trimming keeps t whole.
    if t.len() > 0 {
        assert(keep_char(t[0]));
        assert(!is_space(t[0]));
        assert(keep_char(t.last()));
        assert(!is_space(t.last()));
    }
    assert(drop_leading_spaces(t) == t);
    assert(drop_trailing_spaces(t) == t);
    assert(trim_spec(t) == t);
    // Lowercasing and hyphenation fix every permitted character.
    assert forall|i: int| 0 <= i < t.len() implies hyph_char(lower_char(#[trigger] t[i]))
        == t[i] by {
        assert(keep_char(t[i]));
    }
    assert(pre_norm(t) =~= t);
    // The permitted set holds neither `.` nor `_`, so nothing is stripped.
    if t.len() > 0 {
        assert(!is_mark(t[0]));
    }
    assert(drop_leading_marks(t) == t);
    // The final replacement fixes every permitted character.
    assert forall|i: int| 0 <= i < t.len() implies repl_char(#[trigger] t[i]) == t[i] by {
        assert(keep_char(t[i]));
    }
    assert(norm_spec(t) =~= t);
}

/// A nonempty normalized name always meets the naming grammar: the
/// normalizer's permitted set is exactly the grammar's leading set, so the
/// only way normalization can fail validation is by producing the empty
/// string.
pub proof fn lemma_normalize_validates(s: Seq<char>)
    ensures
        norm_spec(s).len() > 0 ==> valid_spec(norm_spec(s)),
{
    let t = norm_spec(s);
    lemma_norm_chars(s);
    if t.len() > 0 {
        assert(keep_char(t[0]));
        assert(t[0] != '@');
        assert(is_name_start(t[0]));
        assert forall|i: int| 1 <= i < t.len() implies is_name_cont(#[trigger] t[i]) by {
            assert(keep_char(t[i]));
        }
        assert(plain_name_ok(t));
    }
}

/// True exactly of the current-directory sentinel `.`.
pub fn is_current_dir(s: &str) -> (r: bool)
    ensures
        r == (s@ == "."@),
{
    proof {
        reveal_strlit(".");
    }
    let r = s.unicode_len() == 1 && s.get_char(0) == '.';
    proof {
        if r {
            assert(s@ =~= "."@);
        }
    }
    r
}

/// The project name belonging to a target directory: the working
/// directory's own name when the target is the current-directory sentinel,
/// the target itself otherwise.
pub fn project_name_from_target(target: &str, cwd_name: &str) -> (r: String)
    ensures
        target@ == "."@ ==> r@ == cwd_name@,
        target@ != "."@ ==> r@ == target@,
{
    if is_current_dir(target) {
        String::from_str(cwd_name)
    } else {
        String::from_str(target)
    }
}

} // verus!
