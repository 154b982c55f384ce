//! The text of a recurrence rule as a list of parts. The rule parts are
//! separated by semicolons and may come in any order; the library writes the
//! repeat frequency first and leaves every other part as it was given. What a
//! part means is not decided here.

use vstd::prelude::*;
use vstd::string::*;

verus! {

/// `c` is the letter `upper`, in upper or in lower case, or it is `upper`
/// itself where that is no letter.
pub open spec fn same_letter(c: char, upper: char) -> bool {
    c == upper || ('A' <= upper && upper <= 'Z' && c as u32 == upper as u32 + 32)
}

/// The text holds `name` at the place `at`, in upper or lower case.
pub open spec fn matches_at(text: Seq<char>, at: int, name: Seq<char>) -> bool {
    &&& 0 <= at
    &&& at + name.len() <= text.len()
    &&& forall|k: int|
        0 <= k < name.len() ==> same_letter(
            text.subrange(at, at + name.len())[k],
            #[trigger] name[k],
        )
}

/// A part begins at `at`: at the start of the text, or behind a separator.
pub open spec fn begins_part(text: Seq<char>, sep: char, at: int) -> bool {
    at == 0 || (0 < at <= text.len() && text[at - 1] == sep)
}

/// The first place at or behind `from` at which a part begins with `name`.
pub open spec fn find_part(text: Seq<char>, sep: char, name: Seq<char>, from: int) -> Option<int>
    decreases text.len() - from,
{
    if from < 0 || from > text.len() {
        None
    } else if begins_part(text, sep, from) && matches_at(text, from, name) {
        Some(from)
    } else if from == text.len() {
        None
    } else {
        find_part(text, sep, name, from + 1)
    }
}

/// The place at or behind `from` at which the part ends: that of the next
/// separator, or the end of the text.
pub open spec fn part_end(text: Seq<char>, sep: char, from: int) -> int
    decreases text.len() - from,
{
    if from < 0 || from >= text.len() {
        text.len() as int
    } else if text[from] == sep {
        from
    } else {
        part_end(text, sep, from + 1)
    }
}

/// The rule of an RRULE property: the text behind `RRULE:`, or the whole text
/// where it does not begin so.
pub open spec fn rule_value(text: Seq<char>) -> Seq<char> {
    if matches_at(text, 0, "RRULE:"@) {
        text.subrange("RRULE:"@.len() as int, text.len() as int)
    } else {
        text
    }
}

/// The text has a part that gives the repeat frequency.
pub open spec fn has_frequency(text: Seq<char>) -> bool {
    find_part(text, ';', "FREQ="@, 0) is Some
}

/// The rule with its frequency part first, written `FREQ=`, and all other
/// parts behind it in the order in which they were given. A text without a
/// frequency part stays as it is.
pub open spec fn canonical_order(text: Seq<char>) -> Seq<char> {
    match find_part(text, ';', "FREQ="@, 0) {
        Some(a) => {
            let b = part_end(text, ';', a + "FREQ="@.len());
            "FREQ="@ + text.subrange(a + "FREQ="@.len(), b) + (if a > 0 {
                ";"@ + text.subrange(0, a - 1)
            } else {
                Seq::empty()
            }) + text.subrange(b, text.len() as int)
        },
        None => text,
    }
}

/// The rule without its first part that begins with `name`.
pub open spec fn without_part(text: Seq<char>, name: Seq<char>) -> Seq<char> {
    match find_part(text, ';', name, 0) {
        Some(a) => {
            let b = part_end(text, ';', a + name.len());
            if a > 0 {
                text.subrange(0, a - 1) + text.subrange(b, text.len() as int)
            } else if b < text.len() {
                text.subrange(b + 1, text.len() as int)
            } else {
                Seq::empty()
            }
        },
        None => text,
    }
}

/// The rule with `until` as its UNTIL bound: the bound it had is taken out,
/// and the new one is put at the end.
pub open spec fn with_until(text: Seq<char>, until: Seq<char>) -> Seq<char> {
    without_part(text, "UNTIL="@) + ";UNTIL="@ + until
}

/// The rule of a stored rule set: what stands behind `RRULE:` on the first
/// line that begins so.
pub open spec fn stored_rule(text: Seq<char>) -> Option<Seq<char>> {
    match find_part(text, '\n', "RRULE:"@, 0) {
        Some(a) => Some(
            text.subrange(a + "RRULE:"@.len(), part_end(text, '\n', a + "RRULE:"@.len())),
        ),
        None => None,
    }
}

/// The text begins with the repeat-frequency part, `FREQ=`.
pub open spec fn frequency_first(text: Seq<char>) -> bool {
    &&& text.len() >= 5
    &&& text[0] == 'F'
    &&& text[1] == 'R'
    &&& text[2] == 'E'
    &&& text[3] == 'Q'
    &&& text[4] == '='
}

/// `c` is a printable character of ASCII: a letter, a digit, a mark or the
/// space. A line break is none.
pub open spec fn plain_char(c: char) -> bool {
    ' ' <= c && c <= '~'
}

/// Every character of the text is a printable character of ASCII.
pub open spec fn plain_text(text: Seq<char>) -> bool {
    forall|i: int| 0 <= i < text.len() ==> plain_char(#[trigger] text[i])
}

/// The start of a stored rule set as it is written: what stands behind
/// `DTSTART:` on the first line that begins so.
pub open spec fn stored_start(text: Seq<char>) -> Option<Seq<char>> {
    match find_part(text, '\n', "DTSTART:"@, 0) {
        Some(a) => Some(
            text.subrange(a + "DTSTART:"@.len(), part_end(text, '\n', a + "DTSTART:"@.len())),
        ),
        None => None,
    }
}

fn letter_matches(c: char, upper: char) -> (r: bool)
    ensures
        r == same_letter(c, upper),
{
    c == upper || ('A' <= upper && upper <= 'Z' && c as u32 == upper as u32 + 32)
}

fn name_at(text: &str, at: usize, name: &str) -> (r: bool)
    ensures
        r == matches_at(text@, at as int, name@),
{
    let len = text.unicode_len();
    let n = name.unicode_len();
    if at > len || n > len - at {
        return false;
    }
    let ghost held = text@.subrange(at as int, at + n);
    let mut k: usize = 0;
    while k < n
        invariant
            k <= n,
            n == name@.len(),
            len == text@.len(),
            at + n <= len,
            held == text@.subrange(at as int, at + n),
            forall|j: int| 0 <= j < k ==> same_letter(held[j], #[trigger] name@[j]),
        decreases n - k,
    {
        assert(held[k as int] == text@[at + k]);
        if !letter_matches(text.get_char(at + k), name.get_char(k)) {
            assert(!same_letter(held[k as int], name@[k as int]));
            return false;
        }
        k += 1;
    }
    true
}

fn part_begins(text: &str, sep: char, at: usize) -> (r: bool)
    requires
        at <= text@.len(),
    ensures
        r == begins_part(text@, sep, at as int),
{
    at == 0 || text.get_char(at - 1) == sep
}

/// The first place at which a part of `text` begins with `name`.
pub fn part_of(text: &str, sep: char, name: &str) -> (r: Option<usize>)
    ensures
        match r {
            Some(a) => find_part(text@, sep, name@, 0) == Some(a as int) && a + name@.len()
                <= text@.len(),
            None => find_part(text@, sep, name@, 0) is None,
        },
{
    let len = text.unicode_len();
    let mut i: usize = 0;
    while i < len
        invariant
            i <= len,
            len == text@.len(),
            find_part(text@, sep, name@, 0) == find_part(text@, sep, name@, i as int),
        decreases len - i,
    {
        if part_begins(text, sep, i) && name_at(text, i, name) {
            return Some(i);
        }
        i += 1;
    }
    if part_begins(text, sep, len) && name_at(text, len, name) {
        Some(len)
    } else {
        None
    }
}

/// The place at or behind `from` at which the part of `text` ends.
pub fn end_of_part(text: &str, sep: char, from: usize) -> (r: usize)
    requires
        from <= text@.len(),
    ensures
        r == part_end(text@, sep, from as int),
        from <= r <= text@.len(),
{
    let len = text.unicode_len();
    let mut i: usize = from;
    while i < len
        invariant
            from <= i <= len,
            len == text@.len(),
            part_end(text@, sep, from as int) == part_end(text@, sep, i as int),
        decreases len - i,
    {
        if text.get_char(i) == sep {
            return i;
        }
        i += 1;
    }
    len
}

/// The rule of an RRULE property: `text` without a leading `RRULE:`.
pub fn value_of(text: &str) -> (r: &str)
    ensures
        r@ == rule_value(text@),
{
    if name_at(text, 0, "RRULE:") {
        let n = "RRULE:".unicode_len();
        text.substring_char(n, text.unicode_len())
    } else {
        text
    }
}

/// Writes the rule with its frequency part first. `None` where the rule has
/// no frequency part.
pub fn in_canonical_order(text: &str) -> (r: Option<String>)
    ensures
        r is Some <==> has_frequency(text@),
        r matches Some(ordered) ==> ordered@ == canonical_order(text@) && frequency_first(ordered@),
{
    let a = match part_of(text, ';', "FREQ=") {
        Some(a) => a,
        None => {
            return None;
        },
    };
    let len = text.unicode_len();
    let n = "FREQ=".unicode_len();
    let b = end_of_part(text, ';', a + n);
    let mut ordered = String::from_str("FREQ=");
    ordered.append(text.substring_char(a + n, b));
    if a > 0 {
        ordered.append(";");
        ordered.append(text.substring_char(0, a - 1));
    }
    ordered.append(text.substring_char(b, len));
    proof {
        reveal_strlit("FREQ=");
        assert(ordered@ =~= canonical_order(text@));
    }
    Some(ordered)
}

/// Writes the rule with `until` as its UNTIL bound.
pub fn set_until(text: &str, until: &str) -> (r: String)
    ensures
        r@ == with_until(text@, until@),
{
    let len = text.unicode_len();
    let mut out = String::new();
    match part_of(text, ';', "UNTIL=") {
        Some(a) => {
            let n = "UNTIL=".unicode_len();
            let b = end_of_part(text, ';', a + n);
            if a > 0 {
                out.append(text.substring_char(0, a - 1));
                out.append(text.substring_char(b, len));
            } else if b < len {
                out.append(text.substring_char(b + 1, len));
            }
            assert(out@ =~= without_part(text@, "UNTIL="@));
        },
        None => {
            out.append(text);
            assert(out@ =~= without_part(text@, "UNTIL="@));
        },
    }
    out.append(";UNTIL=");
    out.append(until);
    out
}

/// The rule of a stored rule set: what stands behind `RRULE:` on the first
/// line that begins so.
pub fn rule_line(text: &str) -> (r: Option<&str>)
    ensures
        match r {
            Some(rule) => stored_rule(text@) == Some(rule@),
            None => stored_rule(text@) is None,
        },
{
    let len = text.unicode_len();
    match part_of(text, '\n', "RRULE:") {
        Some(a) => {
            let n = "RRULE:".unicode_len();
            assert(a + n <= len);
            let b = end_of_part(text, '\n', a + n);
            Some(text.substring_char(a + n, b))
        },
        None => None,
    }
}

/// The start of a stored rule set as it is written: what stands behind
/// `DTSTART:` on the first line that begins so.
pub fn start_line(text: &str) -> (r: Option<&str>)
    ensures
        match r {
            Some(date) => stored_start(text@) == Some(date@),
            None => stored_start(text@) is None,
        },
{
    let len = text.unicode_len();
    match part_of(text, '\n', "DTSTART:") {
        Some(a) => {
            let n = "DTSTART:".unicode_len();
            assert(a + n <= len);
            let b = end_of_part(text, '\n', a + n);
            Some(text.substring_char(a + n, b))
        },
        None => None,
    }
}

/// Whether every character of `text` is a printable character of ASCII.
pub fn is_plain(text: &str) -> (r: bool)
    ensures
        r == plain_text(text@),
{
    let len = text.unicode_len();
    let mut i: usize = 0;
    while i < len
        invariant
            i <= len,
            len == text@.len(),
            forall|j: int| 0 <= j < i ==> plain_char(#[trigger] text@[j]),
        decreases len - i,
    {
        let c = text.get_char(i);
        if !(' ' <= c && c <= '~') {
            return false;
        }
        i += 1;
    }
    true
}

/// Whether `text` begins with `FREQ=`.
pub fn starts_with_frequency(text: &str) -> (r: bool)
    ensures
        r == frequency_first(text@),
{
    if text.unicode_len() < 5 {
        return false;
    }
    text.get_char(0) == 'F' && text.get_char(1) == 'R' && text.get_char(2) == 'E'
        && text.get_char(3) == 'Q' && text.get_char(4) == '='
}

/// A rule that begins with its frequency part is in canonical order already,
/// and it is no RRULE property: writing it again changes nothing.
pub proof fn lemma_canonical_is_stable(text: Seq<char>)
    requires
        frequency_first(text),
    ensures
        rule_value(text) == text,
        has_frequency(text),
        canonical_order(text) == text,
{
    reveal_strlit("FREQ=");
    reveal_strlit("RRULE:");
    reveal_strlit(";");
    let name = "FREQ="@;
    assert(name.len() == 5);
    assert(text.subrange(0, 5) =~= name);
    assert(matches_at(text, 0, name)) by {
        assert forall|k: int| 0 <= k < name.len() implies same_letter(
            text.subrange(0int, 0int + name.len())[k],
            #[trigger] name[k],
        ) by {}
    }
    assert(begins_part(text, ';', 0));
    assert(find_part(text, ';', name, 0) == Some(0int));
    let b = part_end(text, ';', 5);
    lemma_part_end_bounds(text, ';', 5);
    assert(canonical_order(text) =~= text);
    if matches_at(text, 0, "RRULE:"@) {
        let rule = "RRULE:"@;
        assert(rule[0] == 'R');
        assert(same_letter(text.subrange(0int, 0int + rule.len())[0], rule[0]));
        assert(text.subrange(0int, 0int + rule.len())[0] == text[0]);
        assert(false);
    }
}

/// Where no part begins with `name` between `from` and `to`, the search from
/// `from` finds what the search from `to` finds.
pub proof fn lemma_find_skips(text: Seq<char>, sep: char, name: Seq<char>, from: int, to: int)
    requires
        0 <= from <= to <= text.len(),
        forall|p: int| from <= p < to ==> !(begins_part(text, sep, p) && matches_at(text, p, name)),
    ensures
        find_part(text, sep, name, from) == find_part(text, sep, name, to),
    decreases to - from,
{
    if from < to {
        lemma_find_skips(text, sep, name, from + 1, to);
    }
}

/// A part that holds no separator between `from` and `to`, and ends at `to`,
/// has its end there.
pub proof fn lemma_part_ends_at(text: Seq<char>, sep: char, from: int, to: int)
    requires
        0 <= from <= to <= text.len(),
        forall|p: int| from <= p < to ==> text[p] != sep,
        to == text.len() || text[to] == sep,
    ensures
        part_end(text, sep, from) == to,
    decreases to - from,
{
    if from < to {
        lemma_part_ends_at(text, sep, from + 1, to);
    }
}

/// Behind every semicolon of the text stands a character, and it is not the
/// letter U: no part but the first begins with that letter.
pub open spec fn parts_begin_well(text: Seq<char>) -> bool {
    forall|i: int|
        0 <= i < text.len() && #[trigger] text[i] == ';' ==> i + 1 < text.len() && !same_letter(
            text[i + 1],
            'U',
        )
}

/// The text holds no colon: it is a rule by itself, without the name of a
/// property before it.
pub open spec fn colon_free(text: Seq<char>) -> bool {
    forall|i: int| 0 <= i < text.len() ==> #[trigger] text[i] != ':'
}

/// The text has no UNTIL part.
pub open spec fn unbounded(text: Seq<char>) -> bool {
    find_part(text, ';', "UNTIL="@, 0) is None
}

/// Two texts that are plain and without colon, and whose parts begin well,
/// give such a text when the second is written behind the first.
pub proof fn lemma_joined_texts(a: Seq<char>, b: Seq<char>)
    requires
        plain_text(a),
        plain_text(b),
        colon_free(a),
        colon_free(b),
        parts_begin_well(a),
        parts_begin_well(b),
    ensures
        plain_text(a + b),
        colon_free(a + b),
        parts_begin_well(a + b),
{
    let joined = a + b;
    assert forall|i: int| 0 <= i < joined.len() implies #[trigger] joined[i] != ':' by {
        if i < a.len() {
            assert(joined[i] == a[i]);
        } else {
            assert(joined[i] == b[i - a.len()]);
        }
    }
    assert forall|i: int| 0 <= i < joined.len() implies plain_char(#[trigger] joined[i]) by {
        if i < a.len() {
            assert(joined[i] == a[i]);
        } else {
            assert(joined[i] == b[i - a.len()]);
        }
    }
    assert forall|i: int| 0 <= i < joined.len() && #[trigger] joined[i] == ';' implies i + 1
        < joined.len() && !same_letter(joined[i + 1], 'U') by {
        if i < a.len() {
            assert(joined[i] == a[i]);
            assert(joined[i + 1] == a[i + 1]);
        } else {
            assert(joined[i] == b[i - a.len()]);
            assert(joined[i + 1] == b[i + 1 - a.len()]);
        }
    }
}

/// A text whose parts begin well, and which does not itself begin with the
/// letter U, has no UNTIL part.
pub proof fn lemma_no_until_part(text: Seq<char>)
    requires
        parts_begin_well(text),
        text.len() > 0,
        !same_letter(text[0], 'U'),
    ensures
        unbounded(text),
{
    reveal_strlit("UNTIL=");
    let name = "UNTIL="@;
    assert(name[0] == 'U');
    assert forall|p: int| 0 <= p <= text.len() implies !(begins_part(text, ';', p) && matches_at(
        text,
        p,
        name,
    )) by {
        if begins_part(text, ';', p) && matches_at(text, p, name) {
            assert(same_letter(text.subrange(p, p + name.len())[0], name[0]));
            assert(text.subrange(p, p + name.len())[0] == text[p]);
            if p > 0 {
                assert(text[p - 1] == ';');
            }
            assert(false);
        }
    }
    lemma_find_skips(text, ';', name, 0, text.len() as int);
}

/// A stored rule set, written as a start line and a rule line, is taken
/// apart into the start and the rule that it was written from.
pub proof fn lemma_stored_lines(date: Seq<char>, rule: Seq<char>)
    requires
        plain_text(date),
        plain_text(rule),
    ensures
        stored_start("DTSTART:"@ + date + "\nRRULE:"@ + rule) == Some(date),
        stored_rule("DTSTART:"@ + date + "\nRRULE:"@ + rule) == Some(rule),
{
    reveal_strlit("DTSTART:");
    reveal_strlit("RRULE:");
    reveal_strlit("\nRRULE:");
    let head = "DTSTART:"@;
    let mid = "\nRRULE:"@;
    let name = "RRULE:"@;
    let text = head + date + mid + rule;
    let brk = 8 + date.len() as int;
    assert(text.len() == brk + 7 + rule.len());
    assert forall|p: int| 0 <= p < 8 implies text[p] == head[p] by {}
    assert forall|p: int| 8 <= p < brk implies text[p] == date[p - 8] by {}
    assert forall|p: int| brk <= p < brk + 7 implies text[p] == mid[p - brk] by {}
    assert forall|p: int| brk + 7 <= p < text.len() implies text[p] == rule[p - brk - 7] by {}
    assert forall|p: int| 0 <= p < brk implies text[p] != '\n' by {
        if p >= 8 {
            assert(plain_char(date[p - 8]));
        }
    }
    // the start line
    assert(text.subrange(0, 8) =~= head);
    assert(matches_at(text, 0, head));
    assert(find_part(text, '\n', head, 0) == Some(0int));
    assert(text[brk] == '\n');
    lemma_part_ends_at(text, '\n', 8, brk);
    assert(text.subrange(8, brk) =~= date);
    // the rule line
    assert forall|p: int| 0 <= p < brk + 1 implies !(begins_part(text, '\n', p) && matches_at(
        text,
        p,
        name,
    )) by {
        if p == 0 {
            if matches_at(text, 0, name) {
                assert(same_letter(text.subrange(0int, 0int + name.len())[0], name[0]));
                assert(text.subrange(0int, 0int + name.len())[0] == text[0]);
                assert(false);
            }
        } else {
            assert(text[p - 1] != '\n');
        }
    }
    lemma_find_skips(text, '\n', name, 0, brk + 1);
    assert(text.subrange(brk + 1, brk + 1 + name.len()) =~= name);
    assert(matches_at(text, brk + 1, name));
    assert(begins_part(text, '\n', brk + 1));
    assert(find_part(text, '\n', name, brk + 1) == Some(brk + 1));
    assert forall|p: int| brk + 7 <= p < text.len() implies text[p] != '\n' by {
        assert(plain_char(rule[p - brk - 7]));
    }
    lemma_part_ends_at(text, '\n', brk + 7, text.len() as int);
    assert(text.subrange(brk + 7, text.len() as int) =~= rule);
}

proof fn lemma_part_end_bounds(text: Seq<char>, sep: char, from: int)
    requires
        0 <= from <= text.len(),
    ensures
        from <= part_end(text, sep, from) <= text.len(),
    decreases text.len() - from,
{
    if from < text.len() && text[from] != sep {
        lemma_part_end_bounds(text, sep, from + 1);
    }
}

} // verus!
