//! Characters, and the colon-separated fields that keys and values of the
//! store are made of.

use vstd::prelude::*;

verus! {

/// The position of the first `':'` of `s` at or after `from`, or the length
/// of `s` where there is none.
pub open spec fn next_separator(s: Seq<char>, from: int) -> int
    decreases s.len() - from,
{
    if from < 0 || from >= s.len() {
        s.len() as int
    } else if s[from] == ':' {
        from
    } else {
        next_separator(s, from + 1)
    }
}

/// Where field number `k` of `s` begins, counting fields from zero. A
/// position beyond the length of `s` says that `s` has no such field.
pub open spec fn field_start(s: Seq<char>, k: nat) -> int
    decreases k,
{
    if k == 0 {
        0
    } else {
        next_separator(s, field_start(s, (k - 1) as nat)) + 1
    }
}

/// Field number `k` of `s` when `s` is cut at every `':'`. The empty string
/// has one field, which is empty; a trailing `':'` opens one more, empty
/// field.
pub open spec fn field(s: Seq<char>, k: nat) -> Option<Seq<char>> {
    let start = field_start(s, k);
    if start <= s.len() {
        Some(s.subrange(start, next_separator(s, start)))
    } else {
        None
    }
}

/// The characters of `s`, one by one.
pub fn chars_of(s: &str) -> (chars: Vec<char>)
    ensures
        chars@ == s@,
{
    let mut chars: Vec<char> = Vec::new();
    for c in it: s.chars()
        invariant
            it.seq() == s@,
            chars@ == s@.take(it.index()),
    {
        chars.push(c);
        assert(chars@ =~= s@.take(it.index() + 1));
    }
    assert(s@.take(s@.len() as int) =~= s@);
    chars
}

/// `String::push`: the string grows by the one character, at its end.
#[verifier::external_body]
pub(crate) fn push_char(s: &mut String, c: char)
    ensures
        final(s)@ == old(s)@.push(c),
{
    s.push(c);
}

/// The characters of `chars` from `from` up to `to`, as a string.
pub(crate) fn string_of(chars: &Vec<char>, from: usize, to: usize) -> (s: String)
    requires
        from <= to <= chars.len(),
    ensures
        s@ == chars@.subrange(from as int, to as int),
{
    let mut s = String::new();
    let mut i: usize = from;
    while i < to
        invariant
            from <= i <= to <= chars.len(),
            s@ == chars@.subrange(from as int, i as int),
        decreases to - i,
    {
        push_char(&mut s, chars[i]);
        i = i + 1;
        assert(s@ =~= chars@.subrange(from as int, i as int));
    }
    s
}

/// Whether the characters of `chars` from `from` up to `to` spell `word`.
pub(crate) fn range_is(chars: &Vec<char>, from: usize, to: usize, word: &str) -> (same: bool)
    requires
        from <= to <= chars.len(),
    ensures
        same == (chars@.subrange(from as int, to as int) == word@),
{
    let wanted = chars_of(word);
    let ghost part = chars@.subrange(from as int, to as int);
    if wanted.len() != to - from {
        return false;
    }
    let mut i: usize = 0;
    while i < wanted.len()
        invariant
            from <= to <= chars.len(),
            wanted.len() == to - from,
            wanted@ == word@,
            i <= wanted.len(),
            part == chars@.subrange(from as int, to as int),
            forall|j: int| 0 <= j < i ==> part[j] == wanted@[j],
        decreases wanted.len() - i,
    {
        if chars[from + i] != wanted[i] {
            assert(part[i as int] != wanted@[i as int]);
            return false;
        }
        i = i + 1;
    }
    assert(part =~= wanted@);
    true
}

/// The end of the field that begins at `from`.
pub(crate) fn find_separator(chars: &Vec<char>, from: usize) -> (end: usize)
    requires
        from <= chars.len(),
    ensures
        end == next_separator(chars@, from as int),
        from <= end <= chars.len(),
{
    let mut i: usize = from;
    while i < chars.len()
        invariant
            from <= i <= chars.len(),
            next_separator(chars@, from as int) == next_separator(chars@, i as int),
        decreases chars.len() - i,
    {
        if chars[i] == ':' {
            return i;
        }
        i = i + 1;
    }
    i
}

/// Where field number `k` lies in `chars`: its first position and the
/// position after its last.
pub fn field_bounds(chars: &Vec<char>, k: usize) -> (bounds: Option<(usize, usize)>)
    ensures
        match bounds {
            Some((from, to)) => {
                &&& from <= to <= chars.len()
                &&& from == field_start(chars@, k as nat)
                &&& to == next_separator(chars@, from as int)
                &&& field(chars@, k as nat) == Some(chars@.subrange(from as int, to as int))
            },
            None => field(chars@, k as nat) is None,
        },
{
    let mut from: usize = 0;
    let mut done: usize = 0;
    while done < k
        invariant
            done <= k,
            from <= chars.len(),
            from == field_start(chars@, done as nat),
        decreases k - done,
    {
        let to = find_separator(chars, from);
        if to >= chars.len() {
            proof {
                lemma_no_field_after_last(chars@, (done + 1) as nat, k as nat);
            }
            return None;
        }
        from = to + 1;
        done = done + 1;
    }
    let to = find_separator(chars, from);
    Some((from, to))
}

/// Field number `k` of `s`, as a string of its own.
pub fn field_text(s: &str, k: usize) -> (text: Option<String>)
    ensures
        match text {
            Some(t) => field(s@, k as nat) == Some(t@),
            None => field(s@, k as nat) is None,
        },
{
    let chars = chars_of(s);
    match field_bounds(&chars, k) {
        Some((from, to)) => Some(string_of(&chars, from, to)),
        None => None,
    }
}

/// `next_separator` stays within the string, skips only characters other
/// than `':'`, and stops on a `':'` unless it reached the end.
pub proof fn lemma_next_separator(s: Seq<char>, from: int)
    requires
        0 <= from <= s.len(),
    ensures
        from <= next_separator(s, from) <= s.len(),
        forall|j: int| from <= j < next_separator(s, from) ==> s[j] != ':',
        next_separator(s, from) < s.len() ==> s[next_separator(s, from)] == ':',
    decreases s.len() - from,
{
    if from < s.len() && s[from] != ':' {
        lemma_next_separator(s, from + 1);
    }
}

/// A field holds no `':'`.
pub proof fn lemma_field_has_no_separator(s: Seq<char>, k: nat)
    requires
        field(s, k) is Some,
    ensures
        forall|j: int| 0 <= j < field(s, k)->0.len() ==> field(s, k)->0[j] != ':',
{
    lemma_field_start_positive(s, k);
    lemma_next_separator(s, field_start(s, k));
}

/// Fields begin at or after the start of the string.
pub proof fn lemma_field_start_positive(s: Seq<char>, k: nat)
    ensures
        0 <= field_start(s, k),
    decreases k,
{
    if k > 0 {
        lemma_field_start_positive(s, (k - 1) as nat);
        let prev = field_start(s, (k - 1) as nat);
        if prev <= s.len() {
            lemma_next_separator(s, prev);
        }
    }
}

/// Once a field would begin beyond the end of the string, so do all later
/// ones.
pub proof fn lemma_no_field_after_last(s: Seq<char>, j: nat, k: nat)
    requires
        j <= k,
        field_start(s, j) > s.len(),
    ensures
        field_start(s, k) > s.len(),
    decreases k - j,
{
    if j < k {
        assert(field_start(s, j + 1) == next_separator(s, field_start(s, j)) + 1);
        lemma_no_field_after_last(s, j + 1, k);
    }
}

/// Where the next `':'` lies: at `at`, if no `':'` comes before it and either
/// one stands there or the string ends there.
pub proof fn lemma_next_separator_at(s: Seq<char>, from: int, at: int)
    requires
        0 <= from <= at <= s.len(),
        forall|j: int| from <= j < at ==> s[j] != ':',
        at < s.len() ==> s[at] == ':',
    ensures
        next_separator(s, from) == at,
    decreases at - from,
{
    if from < at {
        lemma_next_separator_at(s, from + 1, at);
    }
}

/// A string that has field number `k` has every field before it.
pub proof fn lemma_earlier_fields_exist(s: Seq<char>, j: nat, k: nat)
    requires
        j <= k,
        field(s, k) is Some,
    ensures
        field(s, j) is Some,
{
    if field_start(s, j) > s.len() {
        lemma_no_field_after_last(s, j, k);
    }
}

/// What is appended to a string after a further `':'` leaves the fields of
/// the string as they are.
pub proof fn lemma_fields_before_suffix(s: Seq<char>, suffix: Seq<char>, k: nat)
    requires
        field(s, k) is Some,
    ensures
        field_start(s + seq![':'] + suffix, k) == field_start(s, k),
        field(s + seq![':'] + suffix, k) == field(s, k),
    decreases k,
{
    let longer = s + seq![':'] + suffix;
    lemma_field_start_positive(s, k);
    if k > 0 {
        lemma_earlier_fields_exist(s, (k - 1) as nat, k);
        lemma_fields_before_suffix(s, suffix, (k - 1) as nat);
        let before = field_start(s, (k - 1) as nat);
        lemma_field_start_positive(s, (k - 1) as nat);
        lemma_next_separator(s, before);
        let end = next_separator(s, before);
        assert forall|j: int| before <= j < end implies longer[j] != ':' by {
            assert(longer[j] == s[j]);
        }
        if end < s.len() {
            assert(longer[end] == s[end]);
        }
        lemma_next_separator_at(longer, before, end);
    }
    let start = field_start(s, k);
    lemma_next_separator(s, start);
    let end = next_separator(s, start);
    assert forall|j: int| start <= j < end implies longer[j] != ':' by {
        assert(longer[j] == s[j]);
    }
    if end < s.len() {
        assert(longer[end] == s[end]);
    }
    lemma_next_separator_at(longer, start, end);
    assert(longer.subrange(start, end) =~= s.subrange(start, end));
}

/// The fields of two texts that are joined by a `':'`, where the first has
/// no `':'` in it: the first text is the first field, and the fields of the
/// second follow.
pub proof fn lemma_fields_of_joined(head: Seq<char>, rest: Seq<char>, k: nat)
    requires
        forall|j: int| 0 <= j < head.len() ==> head[j] != ':',
    ensures
        field(head + seq![':'] + rest, 0) == Some(head),
        field_start(head + seq![':'] + rest, k + 1) == head.len() + 1 + field_start(rest, k),
        field(head + seq![':'] + rest, k + 1) == field(rest, k),
    decreases k,
{
    let joined = head + seq![':'] + rest;
    let shift = head.len() + 1;
    assert forall|j: int| 0 <= j < head.len() implies joined[j] != ':' by {
        assert(joined[j] == head[j]);
    }
    lemma_next_separator_at(joined, 0, head.len() as int);
    assert(joined.subrange(0, head.len() as int) =~= head);
    if k > 0 {
        lemma_fields_of_joined(head, rest, (k - 1) as nat);
        let before = field_start(rest, (k - 1) as nat);
        lemma_field_start_positive(rest, (k - 1) as nat);
        lemma_shifted_separator(head, rest, before);
    }
    let start = field_start(rest, k);
    lemma_field_start_positive(rest, k);
    lemma_shifted_separator(head, rest, start);
    if start <= rest.len() {
        lemma_next_separator(rest, start);
        assert(joined.subrange(shift + start, shift + next_separator(rest, start))
            =~= rest.subrange(start, next_separator(rest, start)));
    }
}

/// Behind a first text and a `':'`, the next `':'` lies where it lies in
/// what follows, further on by what stands before.
proof fn lemma_shifted_separator(head: Seq<char>, rest: Seq<char>, from: int)
    requires
        0 <= from,
    ensures
        next_separator(head + seq![':'] + rest, head.len() + 1 + from) == head.len() + 1
            + if from <= rest.len() {
            next_separator(rest, from)
        } else {
            rest.len() as int
        },
    decreases rest.len() - from,
{
    let joined = head + seq![':'] + rest;
    let shift = head.len() + 1;
    if from < rest.len() {
        assert(joined[shift + from] == rest[from]);
        if rest[from] != ':' {
            lemma_shifted_separator(head, rest, from + 1);
        }
    }
}

} // verus!
