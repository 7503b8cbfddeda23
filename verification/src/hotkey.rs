//! Normalisation of the recording hotkey string kept in the configuration.

use vstd::prelude::*;

verus! {

/// Hotkey used for recording when none is configured.
pub const DEFAULT_RECORDING_HOTKEY: &'static str = "CmdOrCtrl+Shift+X";

/// Characters with the Unicode property `White_Space`.
pub open spec fn is_space(c: char) -> bool {
    let u = c as u32;
    ||| 0x09 <= u <= 0x0d
    ||| u == 0x20
    ||| u == 0x85
    ||| u == 0xa0
    ||| u == 0x1680
    ||| 0x2000 <= u <= 0x200a
    ||| u == 0x2028
    ||| u == 0x2029
    ||| u == 0x202f
    ||| u == 0x205f
    ||| u == 0x3000
}

/// Number of white-space characters at the front of `s`.
pub open spec fn leading_spaces(s: Seq<char>) -> nat
    decreases s.len(),
{
    if s.len() > 0 && is_space(s[0]) {
        1 + leading_spaces(s.drop_first())
    } else {
        0
    }
}

/// Number of white-space characters at the back of `s`.
pub open spec fn trailing_spaces(s: Seq<char>) -> nat
    decreases s.len(),
{
    if s.len() > 0 && is_space(s.last()) {
        1 + trailing_spaces(s.drop_last())
    } else {
        0
    }
}

/// `s` without its leading and trailing white space.
pub open spec fn spec_trim(s: Seq<char>) -> Seq<char> {
    let from = leading_spaces(s) as int;
    let to = s.len() - trailing_spaces(s);
    if from >= to {
        Seq::empty()
    } else {
        s.subrange(from, to)
    }
}

/// Whether `c` is white space.
pub fn is_whitespace(c: char) -> (space: bool)
    ensures
        space == is_space(c),
{
    let u: u32 = c as u32;
    (0x09 <= u && u <= 0x0d) || u == 0x20 || u == 0x85 || u == 0xa0 || u == 0x1680 || (0x2000 <= u
        && u <= 0x200a) || u == 0x2028 || u == 0x2029 || u == 0x202f || u == 0x205f || u == 0x3000
}

/// If the first `i` characters are white space and the next one, if any, is
/// not, then `i` is the count of leading spaces.
pub proof fn lemma_leading_spaces(s: Seq<char>, i: int)
    requires
        0 <= i <= s.len(),
        forall|k: int| 0 <= k < i ==> is_space(#[trigger] s[k]),
        i < s.len() ==> !is_space(s[i]),
    ensures
        leading_spaces(s) == i,
    decreases i,
{
    if i > 0 {
        let rest = s.drop_first();
        assert forall|k: int| 0 <= k < i - 1 implies is_space(#[trigger] rest[k]) by {
            assert(rest[k] == s[k + 1]);
        }
        if i - 1 < rest.len() {
            assert(rest[i - 1] == s[i]);
        }
        lemma_leading_spaces(rest, i - 1);
    }
}

/// If the characters from `j` on are white space and the one before, if
/// any, is not, then there are `s.len() - j` trailing spaces.
pub proof fn lemma_trailing_spaces(s: Seq<char>, j: int)
    requires
        0 <= j <= s.len(),
        forall|k: int| j <= k < s.len() ==> is_space(#[trigger] s[k]),
        j > 0 ==> !is_space(s[j - 1]),
    ensures
        trailing_spaces(s) == s.len() - j,
    decreases s.len() - j,
{
    if j < s.len() {
        let rest = s.drop_last();
        assert forall|k: int| j <= k < rest.len() implies is_space(#[trigger] rest[k]) by {
            assert(rest[k] == s[k]);
        }
        if j > 0 {
            assert(rest[j - 1] == s[j - 1]);
        }
        lemma_trailing_spaces(rest, j);
    }
}

/// Bounds of the trimmed part of the characters of `text` between `from`
/// and `to`: white space is skipped from both ends.
fn trimmed_bounds(text: &str, from: usize, to: usize) -> (bounds: (usize, usize))
    requires
        from <= to <= text@.len(),
    ensures
        from <= bounds.0 <= bounds.1 <= to,
        bounds.0 == from + leading_spaces(text@.subrange(from as int, to as int)),
        bounds.0 < to ==> bounds.1 == to - trailing_spaces(text@.subrange(from as int, to as int)),
        bounds.0 == to ==> bounds.1 == to,
        text@.subrange(bounds.0 as int, bounds.1 as int) == spec_trim(text@.subrange(from as int, to as int)),
        bounds.0 == bounds.1 <==> spec_trim(text@.subrange(from as int, to as int)).len() == 0,
{
    let ghost piece = text@.subrange(from as int, to as int);
    let mut a: usize = from;
    while a < to && is_whitespace(text.get_char(a))
        invariant
            from <= a <= to <= text@.len(),
            forall|k: int| from <= k < a ==> is_space(#[trigger] text@[k]),
        decreases to - a,
    {
        a += 1;
    }
    let mut b: usize = to;
    while b > a && is_whitespace(text.get_char(b - 1))
        invariant
            from <= a <= b <= to <= text@.len(),
            forall|k: int| b <= k < to ==> is_space(#[trigger] text@[k]),
        decreases b - a,
    {
        b -= 1;
    }
    proof {
        assert forall|k: int| 0 <= k < a - from implies is_space(#[trigger] piece[k]) by {
            assert(piece[k] == text@[from + k]);
        }
        lemma_leading_spaces(piece, a - from);
        if a == to {
            assert(spec_trim(piece).len() == 0);
            assert(text@.subrange(a as int, b as int) =~= spec_trim(piece));
        } else {
            assert(!is_space(text@[a as int]));
            assert(b > a);
            assert forall|k: int| b - from <= k < piece.len() implies is_space(
                #[trigger] piece[k],
            ) by {
                assert(piece[k] == text@[from + k]);
            }
            assert(piece[b - from - 1] == text@[b - 1]);
            lemma_trailing_spaces(piece, b - from);
            assert(text@.subrange(a as int, b as int) =~= piece.subrange(a - from, b - from));
        }
    }
    (a, b)
}

/// `text` without its leading and trailing white space.
pub fn trim(text: &str) -> (trimmed: &str)
    ensures
        trimmed@ == spec_trim(text@),
{
    let n: usize = text.unicode_len();
    let bounds = trimmed_bounds(text, 0, n);
    proof {
        assert(text@.subrange(0, n as int) =~= text@);
    }
    text.substring_char(bounds.0, bounds.1)
}

/// Index of the first `+` in `s`, or `s.len()` if there is none.
pub open spec fn first_plus(s: Seq<char>) -> nat
    decreases s.len(),
{
    if s.len() == 0 || s[0] == '+' {
        0
    } else {
        1 + first_plus(s.drop_first())
    }
}

/// The key tokens of a hotkey: the pieces between `+` signs, each trimmed,
/// the empty ones left out, in order.
pub open spec fn tokens(s: Seq<char>) -> Seq<Seq<char>>
    decreases s.len(),
{
    let k = first_plus(s) as int;
    let piece = spec_trim(s.subrange(0, k));
    let here = if piece.len() > 0 {
        seq![piece]
    } else {
        Seq::empty()
    };
    if k >= s.len() {
        here
    } else {
        here + tokens(s.subrange(k + 1, s.len() as int))
    }
}

/// The spelling that the shortcut parser knows for a key token: the names
/// that keyboard events give to punctuation keys become the character on
/// the key; every other token stays as it is.
pub open spec fn spec_map_key_token(token: Seq<char>) -> Seq<char> {
    if token == "Backquote"@ {
        "`"@
    } else if token == "Minus"@ {
        "-"@
    } else if token == "Equal"@ {
        "="@
    } else if token == "BracketLeft"@ {
        "["@
    } else if token == "BracketRight"@ {
        "]"@
    } else if token == "Backslash"@ {
        "\\"@
    } else if token == "IntlBackslash"@ {
        "\\"@
    } else if token == "Semicolon"@ {
        ";"@
    } else if token == "Quote"@ {
        "'"@
    } else if token == "Comma"@ {
        ","@
    } else if token == "Period"@ {
        "."@
    } else if token == "Slash"@ {
        "/"@
    } else {
        token
    }
}

/// The parts written one after another with a `+` between neighbours.
pub open spec fn join_plus(parts: Seq<Seq<char>>) -> Seq<char>
    decreases parts.len(),
{
    if parts.len() == 0 {
        Seq::empty()
    } else if parts.len() == 1 {
        parts[0]
    } else {
        join_plus(parts.drop_last()) + seq!['+'] + parts.last()
    }
}

/// The respelled form of a trimmed hotkey: its tokens, each mapped, joined
/// by `+`. A hotkey without any token has none.
pub open spec fn spec_candidate(trimmed: Seq<char>) -> Option<Seq<char>> {
    let parts = tokens(trimmed);
    if parts.len() == 0 {
        None
    } else {
        Some(join_plus(parts.map_values(|t: Seq<char>| spec_map_key_token(t))))
    }
}

/// If there is no `+` among the first `k` characters and the next one, if
/// any, is a `+`, then `k` is the index of the first `+`.
pub proof fn lemma_first_plus(s: Seq<char>, k: int)
    requires
        0 <= k <= s.len(),
        forall|j: int| 0 <= j < k ==> #[trigger] s[j] != '+',
        k < s.len() ==> s[k] == '+',
    ensures
        first_plus(s) == k,
    decreases k,
{
    if k > 0 {
        let rest = s.drop_first();
        assert forall|j: int| 0 <= j < k - 1 implies #[trigger] rest[j] != '+' by {
            assert(rest[j] == s[j + 1]);
        }
        if k - 1 < rest.len() {
            assert(rest[k - 1] == s[k]);
        }
        lemma_first_plus(rest, k - 1);
    }
}

/// Whether two strings hold the same characters.
fn same_text(a: &str, b: &str) -> (same: bool)
    ensures
        same == (a@ == b@),
{
    let x: String = a.to_owned();
    let y: String = b.to_owned();
    x == y
}

/// Respells one key token for the shortcut parser.
pub fn map_key_token(token: &str) -> (mapped: String)
    ensures
        mapped@ == spec_map_key_token(token@),
{
    if same_text(token, "Backquote") {
        "`".to_owned()
    } else if same_text(token, "Minus") {
        "-".to_owned()
    } else if same_text(token, "Equal") {
        "=".to_owned()
    } else if same_text(token, "BracketLeft") {
        "[".to_owned()
    } else if same_text(token, "BracketRight") {
        "]".to_owned()
    } else if same_text(token, "Backslash") {
        "\\".to_owned()
    } else if same_text(token, "IntlBackslash") {
        "\\".to_owned()
    } else if same_text(token, "Semicolon") {
        ";".to_owned()
    } else if same_text(token, "Quote") {
        "'".to_owned()
    } else if same_text(token, "Comma") {
        ",".to_owned()
    } else if same_text(token, "Period") {
        ".".to_owned()
    } else if same_text(token, "Slash") {
        "/".to_owned()
    } else {
        token.to_owned()
    }
}

/// The characters of an optional string.
pub open spec fn text_of(text: Option<String>) -> Option<Seq<char>> {
    match text {
        Some(t) => Some(t@),
        None => None,
    }
}

/// Joining one more part appends it, after a `+` unless it is the first.
pub proof fn lemma_join_plus_push(parts: Seq<Seq<char>>, last: Seq<char>)
    ensures
        join_plus(parts.push(last)) == if parts.len() == 0 {
            last
        } else {
            join_plus(parts) + seq!['+'] + last
        },
{
    let all = parts.push(last);
    assert(all.drop_last() =~= parts);
    assert(all.last() == last);
}

/// Respells a trimmed hotkey token by token. `None` when it holds no token.
pub fn candidate_hotkey(trimmed: &str) -> (candidate: Option<String>)
    ensures
        text_of(candidate) == spec_candidate(trimmed@),
{
    let n: usize = trimmed.unicode_len();
    let mut out: String = String::new();
    let mut any: bool = false;
    let mut done: bool = false;
    let mut p: usize = 0;
    let ghost mut acc: Seq<Seq<char>> = Seq::empty();
    let ghost respell = |t: Seq<char>| spec_map_key_token(t);
    proof {
        assert(trimmed@.subrange(0, n as int) =~= trimmed@);
        assert(acc + tokens(trimmed@) =~= tokens(trimmed@));
    }
    while !done
        invariant
            n == trimmed@.len(),
            p <= n,
            !done ==> tokens(trimmed@) == acc + tokens(trimmed@.subrange(p as int, n as int)),
            done ==> tokens(trimmed@) == acc,
            out@ == join_plus(acc.map_values(respell)),
            any == (acc.len() > 0),
            respell == |t: Seq<char>| spec_map_key_token(t),
        decreases
                (if done {
                    0
                } else {
                    n - p + 1
                }),
    {
        let mut q: usize = p;
        while q < n && trimmed.get_char(q) != '+'
            invariant
                n == trimmed@.len(),
                p <= q <= n,
                forall|j: int| p <= j < q ==> #[trigger] trimmed@[j] != '+',
            decreases n - q,
        {
            q += 1;
        }
        let bounds = trimmed_bounds(trimmed, p, q);
        let ghost rest = trimmed@.subrange(p as int, n as int);
        let ghost before = acc;
        proof {
            assert forall|j: int| 0 <= j < q - p implies #[trigger] rest[j] != '+' by {
                assert(rest[j] == trimmed@[p + j]);
            }
            if q < n {
                assert(rest[q - p] == trimmed@[q as int]);
            }
            lemma_first_plus(rest, q - p);
            assert(rest.subrange(0, q - p) =~= trimmed@.subrange(p as int, q as int));
            if q < n {
                assert(rest.subrange(q - p + 1, rest.len() as int) =~= trimmed@.subrange(
                    q + 1,
                    n as int,
                ));
            }
        }
        if bounds.0 < bounds.1 {
            let token: &str = trimmed.substring_char(bounds.0, bounds.1);
            let mapped: String = map_key_token(token);
            if any {
                out.append("+");
            }
            out.append(mapped.as_str());
            any = true;
            proof {
                reveal_strlit("+");
                assert("+"@ =~= seq!['+']);
                acc = before.push(token@);
                lemma_join_plus_push(before.map_values(respell), respell(token@));
                assert(acc.map_values(respell) =~= before.map_values(respell).push(
                    respell(token@),
                ));
                assert(before.push(token@) =~= before + seq![token@]);
            }
        }
        proof {
            let here = acc.skip(before.len() as int);
            assert(acc =~= before + here);
            if q < n {
                let after = tokens(trimmed@.subrange(q + 1, n as int));
                assert(tokens(rest) == here + after);
                assert(before + (here + after) =~= (before + here) + after);
            } else {
                assert(tokens(rest) == here);
            }
        }
        if q == n {
            done = true;
        } else {
            p = q + 1;
        }
    }
    if any {
        Some(out)
    } else {
        None
    }
}


/// Whether the shortcut parser accepts `text`: the result of parsing it as a
/// `global_hotkey::hotkey::HotKey`, a function of the characters alone.
pub uninterp spec fn shortcut_parses(text: Seq<char>) -> bool;

/// Trusted: parses `text` with `<global_hotkey::hotkey::HotKey as
/// std::str::FromStr>::from_str` and reports whether that succeeded. The
/// parser reads nothing but its argument and returns an error, never
/// panics, on text it does not accept.
#[verifier::external_body]
fn parses_as_shortcut(text: &str) -> (accepted: bool)
    ensures
        accepted == shortcut_parses(text@),
{
    text.parse::<global_hotkey::hotkey::HotKey>().is_ok()
}

/// The hotkey to keep, given what the parser said: the trimmed text if it
/// parses; else its respelled form if there is one and it parses; else
/// none. An empty text gives none.
pub open spec fn spec_choose_hotkey(
    trimmed: Seq<char>,
    trimmed_parses: bool,
    candidate: Option<Seq<char>>,
    candidate_parses: bool,
) -> Option<Seq<char>> {
    if trimmed.len() == 0 {
        None
    } else if trimmed_parses {
        Some(trimmed)
    } else if candidate is Some && candidate_parses {
        candidate
    } else {
        None
    }
}

/// The normal form of a stored hotkey string, if it has one.
pub open spec fn spec_normalize(raw: Seq<char>) -> Option<Seq<char>> {
    let trimmed = spec_trim(raw);
    let candidate = spec_candidate(trimmed);
    spec_choose_hotkey(
        trimmed,
        shortcut_parses(trimmed),
        candidate,
        candidate matches Some(c) && shortcut_parses(c),
    )
}

/// Picks the hotkey to keep from a trimmed text and its respelled form,
/// given for each whether the shortcut parser accepts it.
pub fn choose_hotkey(
    trimmed: &str,
    trimmed_parses: bool,
    candidate: Option<String>,
    candidate_parses: bool,
) -> (chosen: Option<String>)
    ensures
        text_of(chosen) == spec_choose_hotkey(
            trimmed@,
            trimmed_parses,
            text_of(candidate),
            candidate_parses,
        ),
{
    if trimmed.unicode_len() == 0 {
        None
    } else if trimmed_parses {
        Some(trimmed.to_owned())
    } else if candidate_parses {
        candidate
    } else {
        None
    }
}

/// Brings a stored hotkey string into a form that the shortcut parser
/// accepts. Surrounding white space is dropped. A text that parses is kept
/// as it is; otherwise its tokens are respelled and the result is kept if
/// that parses. `None` when neither does, or when the text is empty.
pub fn normalize_recording_hotkey(raw: &str) -> (normalized: Option<String>)
    ensures
        text_of(normalized) == spec_normalize(raw@),
{
    let trimmed: &str = trim(raw);
    if trimmed.unicode_len() == 0 {
        return None;
    }
    if parses_as_shortcut(trimmed) {
        return choose_hotkey(trimmed, true, None, false);
    }
    let candidate = candidate_hotkey(trimmed);
    let candidate_parses = match &candidate {
        Some(c) => parses_as_shortcut(c.as_str()),
        None => false,
    };
    choose_hotkey(trimmed, false, candidate, candidate_parses)
}


} // verus!
