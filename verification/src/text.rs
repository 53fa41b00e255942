//! Plain text: lines, words and decimal numbers, as the standard library cuts them.
use vstd::prelude::*;

verus! {

/// The number of characters of `s` before the first `c`; the length of `s` where
/// there is none.
pub open spec fn find(s: Seq<char>, c: char) -> nat
    decreases s.len(),
{
    if s.len() == 0 || s[0] == c {
        0
    } else {
        1 + find(s.drop_first(), c)
    }
}

/// ASCII white space: space, tab, line feed, form feed and carriage return.
pub open spec fn is_blank(c: char) -> bool {
    c == ' ' || c == '\t' || c == '\n' || c == '\x0C' || c == '\r'
}

/// The number of leading characters of `s` that are blank (or, with `blank`
/// false, that are not).
pub open spec fn run_length(s: Seq<char>, blank: bool) -> nat
    decreases s.len(),
{
    if s.len() == 0 || is_blank(s[0]) != blank {
        0
    } else {
        1 + run_length(s.drop_first(), blank)
    }
}

/// `s` without a carriage return at its end.
pub open spec fn trim_return(s: Seq<char>) -> Seq<char> {
    if s.len() > 0 && s.last() == '\r' {
        s.drop_last()
    } else {
        s
    }
}

/// The lines of `s`: each ends at a line feed or at a carriage return followed by
/// one, and the last may lack its ending.
pub open spec fn lines(s: Seq<char>) -> Seq<Seq<char>>
    decreases s.len(),
{
    if s.len() == 0 {
        Seq::empty()
    } else if find(s, '\n') >= s.len() {
        seq![s]
    } else {
        let n = find(s, '\n');
        seq![trim_return(s.take(n as int))] + lines(s.skip(n as int + 1))
    }
}

/// The words of `s`: its maximal runs of characters that are not blank.
pub open spec fn words(s: Seq<char>) -> Seq<Seq<char>>
    decreases s.len(),
{
    let rest = s.skip(run_length(s, true) as int);
    if run_length(s, true) >= s.len() {
        Seq::empty()
    } else {
        proof {
            lemma_run_length(s, true);
            lemma_run_length(rest, false);
            assert(rest[0] == s[run_length(s, true) as int]);
        }
        let n = run_length(rest, false);
        seq![rest.take(n as int)] + words(rest.skip(n as int))
    }
}

pub open spec fn is_digit(c: char) -> bool {
    '0' <= c <= '9'
}

/// The number that a sequence of decimal digits writes.
pub open spec fn digits_value(s: Seq<char>) -> nat
    decreases s.len(),
{
    if s.len() == 0 {
        0
    } else {
        10 * digits_value(s.drop_last()) + (s.last() as nat - '0' as nat) as nat
    }
}

/// The digits of a number: what is left of it behind one optional plus sign.
pub open spec fn unsigned_digits(s: Seq<char>) -> Seq<char> {
    if s.len() > 0 && s[0] == '+' {
        s.skip(1)
    } else {
        s
    }
}

/// Whether `s` writes a number: an optional plus sign and at least one digit.
pub open spec fn is_number(s: Seq<char>) -> bool {
    &&& unsigned_digits(s).len() > 0
    &&& forall|i: int|
        0 <= i < unsigned_digits(s).len() ==> is_digit(#[trigger] unsigned_digits(s)[i])
}

/// The `usize` that `s` writes, if it writes a number that fits.
pub open spec fn number(s: Seq<char>) -> Option<usize> {
    if is_number(s) && digits_value(unsigned_digits(s)) <= usize::MAX {
        Some(digits_value(unsigned_digits(s)) as usize)
    } else {
        None
    }
}

pub open spec fn starts_with(s: Seq<char>, prefix: Seq<char>) -> bool {
    prefix.len() <= s.len() && s.take(prefix.len() as int) == prefix
}

/// The character sequences that a list of character vectors holds.
pub open spec fn char_views(list: Seq<Vec<char>>) -> Seq<Seq<char>> {
    list.map_values(|v: Vec<char>| v@)
}

/// The character sequences that a list of strings holds.
pub open spec fn string_views(list: Seq<String>) -> Seq<Seq<char>> {
    list.map_values(|s: String| s@)
}

pub proof fn lemma_find(s: Seq<char>, c: char)
    ensures
        find(s, c) <= s.len(),
        forall|i: int| 0 <= i < find(s, c) ==> s[i] != c,
        find(s, c) < s.len() ==> s[find(s, c) as int] == c,
    decreases s.len(),
{
    if s.len() > 0 && s[0] != c {
        lemma_find(s.drop_first(), c);
        assert forall|i: int| 0 <= i < find(s, c) implies s[i] != c by {
            if i > 0 {
                assert(s[i] == s.drop_first()[i - 1]);
            }
        }
    }
}

pub proof fn lemma_find_unique(s: Seq<char>, c: char, n: nat)
    requires
        n <= s.len(),
        forall|i: int| 0 <= i < n ==> s[i] != c,
        n < s.len() ==> s[n as int] == c,
    ensures
        find(s, c) == n,
{
    lemma_find(s, c);
    let m = find(s, c);
    if m < n {
        assert(s[m as int] != c);
    } else if n < m {
        assert(s[n as int] != c);
    }
}

pub proof fn lemma_run_length(s: Seq<char>, blank: bool)
    ensures
        run_length(s, blank) <= s.len(),
        forall|i: int| 0 <= i < run_length(s, blank) ==> is_blank(#[trigger] s[i]) == blank,
        run_length(s, blank) < s.len() ==> is_blank(s[run_length(s, blank) as int]) != blank,
    decreases s.len(),
{
    if s.len() > 0 && is_blank(s[0]) == blank {
        lemma_run_length(s.drop_first(), blank);
        assert forall|i: int| 0 <= i < run_length(s, blank) implies is_blank(#[trigger] s[i])
            == blank by {
            if i > 0 {
                assert(s[i] == s.drop_first()[i - 1]);
            }
        }
    }
}

pub proof fn lemma_run_length_unique(s: Seq<char>, blank: bool, n: nat)
    requires
        n <= s.len(),
        forall|i: int| 0 <= i < n ==> is_blank(#[trigger] s[i]) == blank,
        n < s.len() ==> is_blank(s[n as int]) != blank,
    ensures
        run_length(s, blank) == n,
{
    lemma_run_length(s, blank);
    let m = run_length(s, blank);
    if m < n {
        assert(is_blank(s[m as int]) == blank);
    } else if n < m {
        assert(is_blank(s[n as int]) == blank);
    }
}

/// The digits that write `n`, without leading zeros.
pub open spec fn decimal(n: nat) -> Seq<char>
    decreases n,
{
    if n < 10 {
        seq![('0' as nat + n) as char]
    } else {
        decimal(n / 10).push(('0' as nat + n % 10) as char)
    }
}

pub proof fn lemma_decimal(n: nat)
    ensures
        decimal(n).len() > 0,
        forall|i: int| 0 <= i < decimal(n).len() ==> is_digit(#[trigger] decimal(n)[i]),
        digits_value(decimal(n)) == n,
    decreases n,
{
    reveal_with_fuel(digits_value, 2);
    if n >= 10 {
        lemma_decimal(n / 10);
        assert(decimal(n).drop_last() == decimal(n / 10));
    } else {
        assert(decimal(n).drop_last() == Seq::<char>::empty());
    }
}

/// A number is read back from the digits that write it.
pub proof fn lemma_number_of_decimal(n: nat)
    requires
        n <= usize::MAX,
    ensures
        number(decimal(n)) == Some(n as usize),
{
    lemma_decimal(n);
    assert(is_digit(decimal(n)[0]));
    assert(unsigned_digits(decimal(n)) == decimal(n));
}

/// The lines of a text that holds a whole line in its middle.
pub proof fn lemma_lines_around(before: Seq<char>, line: Seq<char>, after: Seq<char>)
    requires
        before.len() == 0 || before.last() == '\n',
        forall|i: int| 0 <= i < line.len() ==> #[trigger] line[i] != '\n',
    ensures
        lines(before + line + seq!['\n'] + after) == lines(before) + seq![trim_return(line)] + lines(
            after,
        ),
    decreases before.len(),
{
    let all = before + line + seq!['\n'] + after;
    if before.len() == 0 {
        lemma_find_unique(all, '\n', line.len());
        assert(all.take(line.len() as int) == line);
        assert(all.skip(line.len() as int + 1) == after);
    } else {
        let n = find(before, '\n');
        lemma_find(before, '\n');
        assert(n < before.len());
        lemma_find_unique(all, '\n', n);
        let rest = before.skip(n as int + 1);
        assert(all.take(n as int) == before.take(n as int));
        assert(all.skip(n as int + 1) == rest + line + seq!['\n'] + after);
        assert(rest.len() > 0 ==> rest.last() == before.last());
        lemma_lines_around(rest, line, after);
    }
}

/// A text that is cut behind a line feed has the lines of its two parts.
pub proof fn lemma_lines_split(before: Seq<char>, after: Seq<char>)
    requires
        before.len() == 0 || before.last() == '\n',
    ensures
        lines(before + after) == lines(before) + lines(after),
    decreases before.len(),
{
    let all = before + after;
    if before.len() == 0 {
        assert(all == after);
    } else {
        let n = find(before, '\n');
        lemma_find(before, '\n');
        lemma_find_unique(all, '\n', n);
        let rest = before.skip(n as int + 1);
        assert(all.take(n as int) == before.take(n as int));
        assert(all.skip(n as int + 1) == rest + after);
        assert(rest.len() > 0 ==> rest.last() == before.last());
        lemma_lines_split(rest, after);
    }
}

/// The second word of a line that starts with a word, blanks and another word.
pub proof fn lemma_second_word(first: Seq<char>, gap: Seq<char>, second: Seq<char>, tail: Seq<char>)
    requires
        first.len() > 0,
        forall|i: int| 0 <= i < first.len() ==> !is_blank(#[trigger] first[i]),
        gap.len() > 0,
        forall|i: int| 0 <= i < gap.len() ==> is_blank(#[trigger] gap[i]),
        second.len() > 0,
        forall|i: int| 0 <= i < second.len() ==> !is_blank(#[trigger] second[i]),
        tail.len() > 0 ==> is_blank(tail[0]),
    ensures
        words(first + gap + second + tail).len() >= 2,
        words(first + gap + second + tail)[1] == second,
{
    let line = first + gap + second + tail;
    let rest = gap + second + tail;
    let end = second + tail;
    lemma_run_length_unique(line, true, 0);
    assert(line.skip(0) == line);
    lemma_run_length_unique(line, false, first.len());
    assert(line.skip(first.len() as int) == rest);
    lemma_run_length_unique(rest, true, gap.len());
    assert(rest.skip(gap.len() as int) == end);
    lemma_run_length_unique(end, false, second.len());
    assert(end.take(second.len() as int) == second);
    assert(words(rest)[0] == second);
    assert(words(line) == seq![first] + words(rest)) by {
        assert(line.take(first.len() as int) == first);
    }
}

/// Blank are the space, the tab, the line feed, the form feed and the carriage return,
/// and nothing else.
pub proof fn law_blanks(c: char)
    ensures
        is_blank(c) <==> (c == ' ' || c == '\t' || c == '\n' || c == '\x0C' || c == '\r'),
{
}

/// A text starts with a prefix where the prefix and some other text make it up.
pub proof fn law_prefix(s: Seq<char>, prefix: Seq<char>)
    ensures
        starts_with(prefix + s, prefix),
        starts_with(s, prefix) ==> s == prefix + s.skip(prefix.len() as int),
        starts_with(s, prefix) <==> prefix.len() <= s.len() && forall|i: int|
            0 <= i < prefix.len() ==> s[i] == #[trigger] prefix[i],
{
    assert((prefix + s).take(prefix.len() as int) == prefix);
    if starts_with(s, prefix) {
        assert(s == s.take(prefix.len() as int) + s.skip(prefix.len() as int));
        assert forall|i: int| 0 <= i < prefix.len() implies s[i] == #[trigger] prefix[i] by {
            assert(s.take(prefix.len() as int)[i] == prefix[i]);
        }
    }
    if prefix.len() <= s.len() && forall|i: int|
        0 <= i < prefix.len() ==> s[i] == #[trigger] prefix[i] {
        assert(s.take(prefix.len() as int) == prefix);
    }
}

/// No text has no lines. A text without a line feed is one line. Otherwise the first line
/// is what stands before the first line feed, less a carriage return at its end, and the
/// others are the lines of what stands behind it.
pub proof fn law_lines(line: Seq<char>, rest: Seq<char>)
    requires
        forall|i: int| 0 <= i < line.len() ==> #[trigger] line[i] != '\n',
    ensures
        lines(Seq::empty()) == Seq::<Seq<char>>::empty(),
        line.len() > 0 ==> lines(line) == seq![line],
        line.len() > 0 && line.last() == '\r' ==> lines(line + seq!['\n'] + rest) == seq![
            line.drop_last(),
        ] + lines(rest),
        line.len() == 0 || line.last() != '\r' ==> lines(line + seq!['\n'] + rest) == seq![line]
            + lines(rest),
{
    lemma_find_unique(line, '\n', line.len());
    let none = Seq::<char>::empty();
    lemma_lines_around(none, line, rest);
    assert(none + line + seq!['\n'] + rest == line + seq!['\n'] + rest);
    assert(lines(none) + seq![trim_return(line)] + lines(rest) == seq![trim_return(line)] + lines(
        rest,
    ));
}

/// Blanks alone hold no words. The first word is the first run of characters that are
/// not blank, and the others are the words of what follows it.
pub proof fn law_words(gap: Seq<char>, word: Seq<char>, tail: Seq<char>)
    requires
        forall|i: int|
            0 <= i < gap.len() ==> (#[trigger] gap[i] == ' ' || gap[i] == '\t' || gap[i] == '\n'
                || gap[i] == '\x0C' || gap[i] == '\r'),
        word.len() > 0,
        forall|i: int|
            0 <= i < word.len() ==> (#[trigger] word[i] != ' ' && word[i] != '\t' && word[i] != '\n'
                && word[i] != '\x0C' && word[i] != '\r'),
        tail.len() > 0 ==> (tail[0] == ' ' || tail[0] == '\t' || tail[0] == '\n' || tail[0]
            == '\x0C' || tail[0] == '\r'),
    ensures
        words(gap) == Seq::<Seq<char>>::empty(),
        words(gap + word + tail) == seq![word] + words(tail),
{
    let all = gap + word + tail;
    let rest = word + tail;
    lemma_run_length_unique(gap, true, gap.len());
    lemma_run_length_unique(all, true, gap.len());
    assert(all.skip(gap.len() as int) == rest);
    lemma_run_length_unique(rest, false, word.len());
    assert(rest.take(word.len() as int) == word);
    assert(rest.skip(word.len() as int) == tail);
}

proof fn lemma_number_of_digits(s: Seq<char>)
    requires
        s.len() > 0,
        forall|i: int| 0 <= i < s.len() ==> '0' <= #[trigger] s[i] <= '9',
    ensures
        unsigned_digits(s) == s,
        is_number(s),
{
    assert(s[0] != '+');
}

/// One digit writes its own value, and a digit behind a number makes it ten times as
/// large and adds its value, up to the largest `usize`: what is larger is no number. A
/// plus sign in front changes nothing.
pub proof fn law_number_of_digits(s: Seq<char>, c: char)
    requires
        s.len() > 0,
        forall|i: int| 0 <= i < s.len() ==> '0' <= #[trigger] s[i] <= '9',
        '0' <= c <= '9',
    ensures
        number(seq![c]) == Some((c as nat - '0' as nat) as usize),
        number(s) matches Some(m) && 10 * m + (c as nat - '0' as nat) <= usize::MAX ==> number(
            s.push(c),
        ) == Some((10 * number(s)->0 + (c as nat - '0' as nat)) as usize),
        number(s) matches Some(m) && 10 * m + (c as nat - '0' as nat) > usize::MAX ==> number(
            s.push(c),
        ) is None,
        number(s) is None ==> number(s.push(c)) is None,
        number(seq!['+'] + s) == number(s),
{
    let one = seq![c];
    let longer = s.push(c);
    let signed = seq!['+'] + s;
    lemma_number_of_digits(s);
    lemma_number_of_digits(one);
    lemma_number_of_digits(longer);
    reveal_with_fuel(digits_value, 2);
    assert(one.drop_last() == Seq::<char>::empty());
    assert(longer.drop_last() == s);
    assert(signed.skip(1) == s);
    assert(unsigned_digits(signed) == s);
}

/// What holds anything but digits behind an optional plus sign is no number, and neither
/// is what holds no digit at all.
pub proof fn law_no_number(s: Seq<char>, i: int)
    requires
        s.len() == 0 || (0 <= i < s.len() && !('0' <= s[i] <= '9') && !(i == 0 && s[0] == '+'
            && s.len() > 1)),
    ensures
        number(s) is None,
{
    if s.len() > 0 {
        if s[0] == '+' {
            if i > 0 {
                assert(unsigned_digits(s)[i - 1] == s[i]);
            }
        } else {
            assert(unsigned_digits(s)[i] == s[i]);
        }
    }
}

/// The digits that write a number: its last digit stands behind those that write the
/// rest of it.
pub proof fn law_decimal_digits(n: nat)
    ensures
        n < 10 ==> decimal(n).len() == 1 && decimal(n)[0] as nat == '0' as nat + n,
        n >= 10 ==> decimal(n).drop_last() == decimal(n / 10) && decimal(n).last() as nat
            == '0' as nat + n % 10,
{
    if n >= 10 {
        assert(decimal(n).drop_last() == decimal(n / 10));
    }
}

/// The characters of a string.
pub fn chars(s: &str) -> (list: Vec<char>)
    ensures
        list@ == s@,
{
    let mut list: Vec<char> = Vec::new();
    for c in it: s.chars()
        invariant
            it.seq() == s@,
            list@ == s@.take(it.index() as int),
    {
        list.push(c);
    }
    list
}

/// The characters of `text` from `from` up to, but not including, `to`.
fn range(text: &Vec<char>, from: usize, to: usize) -> (part: Vec<char>)
    requires
        from <= to <= text@.len(),
    ensures
        part@ == text@.subrange(from as int, to as int),
{
    let mut part: Vec<char> = Vec::new();
    let mut i: usize = from;
    while i < to
        invariant
            from <= i <= to <= text@.len(),
            part@ == text@.subrange(from as int, i as int),
        decreases to - i,
    {
        part.push(text[i]);
        i += 1;
    }
    part
}

/// The position of the first `c` at or behind `from`; the length where there is none.
fn find_from(text: &Vec<char>, from: usize, c: char) -> (at: usize)
    requires
        from <= text@.len(),
    ensures
        from <= at <= text@.len(),
        at - from == find(text@.skip(from as int), c),
{
    let mut i: usize = from;
    while i < text.len() && text[i] != c
        invariant
            from <= i <= text@.len(),
            forall|k: int| from <= k < i ==> text@[k] != c,
        decreases text@.len() - i,
    {
        i += 1;
    }
    proof {
        lemma_find_unique(text@.skip(from as int), c, (i - from) as nat);
    }
    i
}

fn blank(c: char) -> (b: bool)
    ensures
        b == is_blank(c),
{
    c == ' ' || c == '\t' || c == '\n' || c == '\x0C' || c == '\r'
}

/// The end of the run of blanks (or, with `of_blanks` false, of other characters) that
/// starts at `from`.
fn run_end(text: &Vec<char>, from: usize, of_blanks: bool) -> (at: usize)
    requires
        from <= text@.len(),
    ensures
        from <= at <= text@.len(),
        at - from == run_length(text@.skip(from as int), of_blanks),
{
    let mut i: usize = from;
    while i < text.len() && blank(text[i]) == of_blanks
        invariant
            from <= i <= text@.len(),
            forall|k: int| from <= k < i ==> is_blank(#[trigger] text@[k]) == of_blanks,
        decreases text@.len() - i,
    {
        i += 1;
    }
    proof {
        lemma_run_length_unique(text@.skip(from as int), of_blanks, (i - from) as nat);
    }
    i
}

/// Cuts a text into its lines.
pub fn split_lines(text: &Vec<char>) -> (list: Vec<Vec<char>>)
    ensures
        char_views(list@) == lines(text@),
        list@.len() == lines(text@).len(),
        forall|i: int| 0 <= i < list@.len() ==> #[trigger] list@[i]@ == lines(text@)[i],
{
    let mut list: Vec<Vec<char>> = Vec::new();
    let mut at: usize = 0;
    assert(text@.skip(0) == text@);
    while at < text.len()
        invariant
            at <= text@.len(),
            char_views(list@) + lines(text@.skip(at as int)) == lines(text@),
        decreases text@.len() - at,
    {
        let ghost rest = text@.skip(at as int);
        let ghost before = char_views(list@);
        let end = find_from(text, at, '\n');
        if end == text.len() {
            let line = range(text, at, end);
            assert(line@ == rest);
            list.push(line);
            assert(char_views(list@) == before.push(rest));
            assert(lines(text@.skip(end as int)) == Seq::<Seq<char>>::empty());
            at = end;
        } else {
            let stop = if end > at && text[end - 1] == '\r' {
                end - 1
            } else {
                end
            };
            let line = range(text, at, stop);
            assert(line@ == trim_return(rest.take(end - at)));
            list.push(line);
            assert(char_views(list@) == before.push(line@));
            assert(rest.skip(end - at + 1) == text@.skip(end + 1));
            at = end + 1;
        }
    }
    assert(lines(text@.skip(at as int)) == Seq::<Seq<char>>::empty());
    assert(char_views(list@) == lines(text@));
    list
}

/// Cuts a line into its words.
pub fn split_words(line: &Vec<char>) -> (list: Vec<Vec<char>>)
    ensures
        char_views(list@) == words(line@),
        list@.len() == words(line@).len(),
        forall|i: int| 0 <= i < list@.len() ==> #[trigger] list@[i]@ == words(line@)[i],
{
    let mut list: Vec<Vec<char>> = Vec::new();
    let mut at: usize = 0;
    assert(line@.skip(0) == line@);
    while at < line.len()
        invariant
            at <= line@.len(),
            char_views(list@) + words(line@.skip(at as int)) == words(line@),
        decreases line@.len() - at,
    {
        let ghost rest = line@.skip(at as int);
        let ghost before = char_views(list@);
        let start = run_end(line, at, true);
        if start == line.len() {
            assert(words(line@.skip(start as int)) == Seq::<Seq<char>>::empty());
            at = start;
        } else {
            let ghost tail = line@.skip(start as int);
            assert(rest.skip(start - at) == tail);
            let end = run_end(line, start, false);
            let word = range(line, start, end);
            proof {
                lemma_run_length(rest, true);
                assert(tail[0] == rest[start - at]);
            }
            assert(word@ == tail.take(end - start));
            list.push(word);
            assert(char_views(list@) == before.push(word@));
            assert(tail.skip(end - start) == line@.skip(end as int));
            at = end;
        }
    }
    assert(words(line@.skip(at as int)) == Seq::<Seq<char>>::empty());
    assert(char_views(list@) == words(line@));
    list
}

/// Whether a line starts with a label.
pub fn has_prefix(line: &Vec<char>, label: &Vec<char>) -> (b: bool)
    ensures
        b == starts_with(line@, label@),
{
    if label.len() > line.len() {
        return false;
    }
    let mut i: usize = 0;
    while i < label.len()
        invariant
            i <= label@.len() <= line@.len(),
            line@.take(i as int) == label@.take(i as int),
        decreases label@.len() - i,
    {
        if line[i] != label[i] {
            assert(line@.take(label@.len() as int)[i as int] == line@[i as int]);
            return false;
        }
        assert(line@.take(i + 1) == line@.take(i as int).push(line@[i as int]));
        assert(label@.take(i + 1) == label@.take(i as int).push(label@[i as int]));
        i += 1;
    }
    assert(label@.take(label@.len() as int) == label@);
    true
}

/// Reads a decimal number, as `usize::from_str` does.
pub fn read_number(word: &Vec<char>) -> (n: Option<usize>)
    ensures
        n == number(word@),
{
    let start: usize = if word.len() > 0 && word[0] == '+' {
        1
    } else {
        0
    };
    let ghost digits = unsigned_digits(word@);
    assert(digits == word@.skip(start as int));
    if start == word.len() {
        return None;
    }
    let mut value: usize = 0;
    let mut fits = true;
    let mut i: usize = start;
    while i < word.len()
        invariant
            start <= i <= word@.len(),
            digits == word@.skip(start as int),
            digits == unsigned_digits(word@),
            forall|k: int| 0 <= k < i - start ==> is_digit(#[trigger] digits[k]),
            fits ==> value == digits_value(digits.take(i - start)),
            !fits ==> digits_value(digits.take(i - start)) > usize::MAX,
        decreases word@.len() - i,
    {
        let c = word[i];
        assert(c == digits[i - start]);
        if !('0' <= c && c <= '9') {
            assert(!is_digit(digits[i - start]));
            return None;
        }
        assert(digits.take(i - start + 1).drop_last() == digits.take(i - start));
        let d: usize = (c as u32 - '0' as u32) as usize;
        if fits {
            match value.checked_mul(10) {
                None => {
                    fits = false;
                },
                Some(tens) => match tens.checked_add(d) {
                    None => {
                        fits = false;
                    },
                    Some(sum) => {
                        value = sum;
                    },
                },
            }
        }
        i += 1;
    }
    assert(digits.take(i - start) == digits);
    if fits {
        Some(value)
    } else {
        None
    }
}

} // verus!
