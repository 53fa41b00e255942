//! The memory report: what the allocator counts, and what the kernel says of the
//! process and the machine in its `proc` files.
use vstd::prelude::*;

use crate::text;
use crate::text::{chars, has_prefix, read_number, split_lines, split_words};

verus! {

/// What the counting allocator has recorded, in bytes.
#[derive(Clone, Copy, Debug, PartialEq, Eq, Structural)]
pub struct AllocatorStats {
    /// Heap in use now.
    pub current: usize,
    /// The most in use since the last report.
    pub spike: usize,
    /// The most ever in use.
    pub peak: usize,
}

/// The memory report of the worker.
#[derive(Clone, Copy, Debug, PartialEq, Eq, Structural)]
pub struct MemoryUsage {
    pub rust_used: u64,
    pub rust_peak: u64,
    pub rust_spike: u64,
    /// The peak of the virtual memory of the process, as `/proc/self/status` counts it.
    pub peak: u64,
    /// The free memory of the machine, as `/proc/meminfo` counts it.
    pub free: u64,
}

/// The first of `list` that starts with `label`.
pub open spec fn labelled_line(list: Seq<Seq<char>>, label: Seq<char>) -> Option<Seq<char>>
    decreases list.len(),
{
    if list.len() == 0 {
        None
    } else if text::starts_with(list[0], label) {
        Some(list[0])
    } else {
        labelled_line(list.drop_first(), label)
    }
}

/// The number that the second word of a line writes.
pub open spec fn line_value(line: Seq<char>) -> Option<usize> {
    if text::words(line).len() < 2 {
        None
    } else {
        text::number(text::words(line)[1])
    }
}

/// The value that a `proc` file gives under `label`: its first line with that label
/// decides.
pub open spec fn proc_value(content: Seq<char>, label: Seq<char>) -> Option<usize> {
    match labelled_line(text::lines(content), label) {
        None => None,
        Some(line) => line_value(line),
    }
}

/// The value under `label` of a file that could perhaps not be read.
pub open spec fn file_value(content: Option<&str>, label: Seq<char>) -> Option<usize> {
    match content {
        None => None,
        Some(text) => proc_value(text@, label),
    }
}

/// Looks up a label in the content of a `proc` file.
pub fn find_value(content: &str, label: &str) -> (value: Option<usize>)
    ensures
        value == proc_value(content@, label@),
{
    let wanted = chars(label);
    let list = split_lines(&chars(content));
    let ghost all = text::lines(content@);
    assert(all == text::char_views(list@));
    let mut i: usize = 0;
    assert(all.skip(0) == all);
    while i < list.len()
        invariant
            i <= list@.len(),
            wanted@ == label@,
            all == text::char_views(list@),
            all == text::lines(content@),
            labelled_line(all, label@) == labelled_line(all.skip(i as int), label@),
        decreases list@.len() - i,
    {
        assert(all[i as int] == list@[i as int]@);
        assert(all.skip(i as int)[0] == all[i as int]);
        assert(all.skip(i as int).drop_first() == all.skip(i + 1));
        if has_prefix(&list[i], &wanted) {
            let parts = split_words(&list[i]);
            if parts.len() < 2 {
                return None;
            }
            assert(text::words(list@[i as int]@)[1] == parts@[1]@);
            return read_number(&parts[1]);
        }
        i += 1;
    }
    None
}

/// The peak of the virtual memory of the process, read from the content of
/// `/proc/self/status`; `None` where the file could not be read or does not say.
pub fn vm_peak(status: Option<&str>) -> (peak: Option<usize>)
    ensures
        peak == file_value(status, "VmPeak:"@),
        status is None ==> peak is None,
        status matches Some(content) ==> peak == proc_value(content@, "VmPeak:"@),
{
    match status {
        None => None,
        Some(content) => find_value(content, "VmPeak:"),
    }
}

/// The free memory of the machine, read from the content of `/proc/meminfo`; `None`
/// where the file could not be read or does not say.
pub fn mem_free(meminfo: Option<&str>) -> (free: Option<usize>)
    ensures
        free == file_value(meminfo, "MemFree:"@),
        meminfo is None ==> free is None,
        meminfo matches Some(content) ==> free == proc_value(content@, "MemFree:"@),
{
    match meminfo {
        None => None,
        Some(content) => find_value(content, "MemFree:"),
    }
}

/// A figure of the report: zero where it is not known.
pub open spec fn reported(value: Option<usize>) -> u64 {
    match value {
        None => 0,
        Some(n) => n as u64,
    }
}

/// The memory report, out of the allocator's counters and the contents of
/// `/proc/self/status` and `/proc/meminfo` where they could be read.
pub fn mem_usage(stats: AllocatorStats, status: Option<&str>, meminfo: Option<&str>) -> (usage:
    MemoryUsage)
    ensures
        usage.rust_used == stats.current,
        usage.rust_peak == stats.peak,
        usage.rust_spike == stats.spike,
        usage.peak == reported(file_value(status, "VmPeak:"@)),
        usage.free == reported(file_value(meminfo, "MemFree:"@)),
        status is None ==> usage.peak == 0,
        status matches Some(content) ==> match proc_value(content@, "VmPeak:"@) {
            Some(n) => usage.peak == n,
            None => usage.peak == 0,
        },
        meminfo is None ==> usage.free == 0,
        meminfo matches Some(content) ==> match proc_value(content@, "MemFree:"@) {
            Some(n) => usage.free == n,
            None => usage.free == 0,
        },
{
    MemoryUsage {
        rust_used: stats.current as u64,
        rust_peak: stats.peak as u64,
        rust_spike: stats.spike as u64,
        peak: vm_peak(status).unwrap_or(0) as u64,
        free: mem_free(meminfo).unwrap_or(0) as u64,
    }
}

/// The first line with the label decides: what follows it in the file is not looked at.
pub proof fn law_first_label_decides(before: Seq<Seq<char>>, line: Seq<char>, after: Seq<Seq<char>>, label: Seq<char>)
    requires
        forall|i: int| 0 <= i < before.len() ==> !text::starts_with(#[trigger] before[i], label),
        text::starts_with(line, label),
    ensures
        labelled_line(before + seq![line] + after, label) == Some(line),
    decreases before.len(),
{
    let list = before + seq![line] + after;
    if before.len() == 0 {
        assert(list[0] == line);
    } else {
        assert(list[0] == before[0]);
        assert(list.drop_first() == before.drop_first() + seq![line] + after);
        assert forall|i: int| 0 <= i < before.drop_first().len() implies !text::starts_with(
            #[trigger] before.drop_first()[i],
            label,
        ) by {
            assert(before.drop_first()[i] == before[i + 1]);
        }
        law_first_label_decides(before.drop_first(), line, after, label);
    }
}

/// A file without the label gives no value.
pub proof fn law_missing_label(list: Seq<Seq<char>>, label: Seq<char>)
    requires
        forall|i: int| 0 <= i < list.len() ==> !text::starts_with(#[trigger] list[i], label),
    ensures
        labelled_line(list, label) is None,
    decreases list.len(),
{
    if list.len() > 0 {
        assert forall|i: int| 0 <= i < list.drop_first().len() implies !text::starts_with(
            #[trigger] list.drop_first()[i],
            label,
        ) by {
            assert(list.drop_first()[i] == list[i + 1]);
        }
        law_missing_label(list.drop_first(), label);
    }
}

proof fn lemma_labelled_line_split(
    first: Seq<Seq<char>>,
    second: Seq<Seq<char>>,
    label: Seq<char>,
)
    ensures
        labelled_line(first + second, label) == match labelled_line(first, label) {
            Some(line) => Some(line),
            None => labelled_line(second, label),
        },
    decreases first.len(),
{
    if first.len() == 0 {
        assert(first + second == second);
    } else {
        assert((first + second)[0] == first[0]);
        assert((first + second).drop_first() == first.drop_first() + second);
        lemma_labelled_line_split(first.drop_first(), second, label);
    }
}

/// A file can be read in two parts that meet at the end of a line: the first part
/// decides where it has the label, else the second does.
pub proof fn law_file_splits(before: Seq<char>, after: Seq<char>, label: Seq<char>)
    requires
        before.len() == 0 || before.last() == '\n',
    ensures
        proc_value(before + after, label) == if labelled_line(text::lines(before), label) is Some {
            proc_value(before, label)
        } else {
            proc_value(after, label)
        },
{
    text::lemma_lines_split(before, after);
    lemma_labelled_line_split(text::lines(before), text::lines(after), label);
}

/// What the kernel writes is what is read: in a file that holds a line made of the
/// label, blanks, a number that fits a `usize` and perhaps more words, with no earlier
/// line that starts with the label, the value under the label is that number.
pub proof fn law_written_value_is_read(
    before: Seq<char>,
    label: Seq<char>,
    gap: Seq<char>,
    n: nat,
    unit: Seq<char>,
    after: Seq<char>,
)
    requires
        before.len() == 0 || before.last() == '\n',
        forall|i: int|
            0 <= i < text::lines(before).len() ==> !text::starts_with(
                #[trigger] text::lines(before)[i],
                label,
            ),
        label.len() > 0,
        forall|i: int| 0 <= i < label.len() ==> !text::is_blank(#[trigger] label[i]),
        gap.len() > 0,
        forall|i: int|
            0 <= i < gap.len() ==> text::is_blank(#[trigger] gap[i]) && gap[i] != '\n',
        n <= usize::MAX,
        unit.len() > 0 ==> text::is_blank(unit[0]),
        forall|i: int| 0 <= i < unit.len() ==> #[trigger] unit[i] != '\n',
    ensures
        proc_value(
            before + (label + gap + text::decimal(n) + unit) + seq!['\n'] + after,
            label,
        ) == Some(n as usize),
{
    let line = label + gap + text::decimal(n) + unit;
    let shown = text::trim_return(line);
    let number = text::decimal(n);
    text::lemma_decimal(n);
    assert forall|i: int| 0 <= i < line.len() implies #[trigger] line[i] != '\n' by {
        if i < label.len() {
            assert(line[i] == label[i]);
        } else if i < label.len() + gap.len() {
            assert(line[i] == gap[i - label.len()]);
        } else if i < label.len() + gap.len() + number.len() {
            assert(line[i] == number[i - label.len() - gap.len()]);
        } else {
            assert(line[i] == unit[i - label.len() - gap.len() - number.len()]);
        }
    }
    text::lemma_lines_around(before, line, after);
    let all = before + line + seq!['\n'] + after;
    assert(text::starts_with(shown, label)) by {
        assert(shown.take(label.len() as int) == label);
    }
    law_first_label_decides(
        text::lines(before),
        shown,
        text::lines(after),
        label,
    );
    let tail = if unit.len() > 0 && unit.last() == '\r' { unit.drop_last() } else { unit };
    assert(line.last() != '\r' || unit.len() > 0) by {
        if unit.len() == 0 {
            assert(line.last() == number.last());
        }
    }
    assert(shown == label + gap + number + tail) by {
        if unit.len() > 0 {
            assert(line.last() == unit.last());
        }
    }
    text::lemma_second_word(label, gap, number, tail);
    text::lemma_number_of_decimal(n);
}

/// What the kernel writes under the labels of the report is what is read.
pub proof fn law_report_reads_what_is_written(
    before: Seq<char>,
    gap: Seq<char>,
    n: nat,
    unit: Seq<char>,
    after: Seq<char>,
    label: Seq<char>,
)
    requires
        label == "VmPeak:"@ || label == "MemFree:"@,
        before.len() == 0 || before.last() == '\n',
        forall|i: int|
            0 <= i < text::lines(before).len() ==> !text::starts_with(
                #[trigger] text::lines(before)[i],
                label,
            ),
        gap.len() > 0,
        forall|i: int|
            0 <= i < gap.len() ==> text::is_blank(#[trigger] gap[i]) && gap[i] != '\n',
        n <= usize::MAX,
        unit.len() > 0 ==> text::is_blank(unit[0]),
        forall|i: int| 0 <= i < unit.len() ==> #[trigger] unit[i] != '\n',
    ensures
        proc_value(
            before + (label + gap + text::decimal(n) + unit) + seq!['\n'] + after,
            label,
        ) == Some(n as usize),
{
    reveal_strlit("VmPeak:");
    reveal_strlit("MemFree:");
    law_written_value_is_read(before, label, gap, n, unit, after);
}

proof fn lemma_lines_without_label(content: Seq<char>, label: Seq<char>)
    requires
        label.len() > 0,
        forall|i: int|
            0 <= i <= content.len() - label.len() && (i == 0 || content[i - 1] == '\n') ==> (
            #[trigger] content.subrange(i, i + label.len())) != label,
    ensures
        forall|k: int|
            0 <= k < text::lines(content).len() ==> !text::starts_with(
                #[trigger] text::lines(content)[k],
                label,
            ),
    decreases content.len(),
{
    if content.len() > 0 {
        let all = text::lines(content);
        let n = text::find(content, '\n');
        text::lemma_find(content, '\n');
        if text::starts_with(all[0], label) {
            text::law_prefix(all[0], label);
            assert(content.subrange(0, 0 + label.len() as int) == label) by {
                assert forall|i: int| 0 <= i < label.len() implies content[i] == label[i] by {
                    assert(all[0][i] == content[i]);
                }
            }
            assert(false);
        }
        if n < content.len() {
            let rest = content.skip(n as int + 1);
            assert forall|i: int|
                0 <= i <= rest.len() - label.len() && (i == 0 || rest[i - 1] == '\n') implies (
            #[trigger] rest.subrange(i, i + label.len())) != label by {
                let j = i + n + 1;
                assert(rest.subrange(i, i + label.len()) == content.subrange(j, j + label.len()));
                assert(i > 0 ==> rest[i - 1] == content[j - 1]);
            }
            lemma_lines_without_label(rest, label);
            assert forall|k: int| 0 <= k < all.len() implies !text::starts_with(
                #[trigger] all[k],
                label,
            ) by {
                if k > 0 {
                    assert(all[k] == text::lines(rest)[k - 1]);
                }
            }
        }
    }
}

/// A file says nothing under a label that stands at the start of none of its lines,
/// wherever in the file it may stand otherwise.
pub proof fn law_file_without_label(content: Seq<char>, label: Seq<char>)
    requires
        label.len() > 0,
        forall|i: int|
            0 <= i <= content.len() - label.len() && (i == 0 || content[i - 1] == '\n') ==> (
            #[trigger] content.subrange(i, i + label.len())) != label,
    ensures
        proc_value(content, label) is None,
{
    lemma_lines_without_label(content, label);
    law_missing_label(text::lines(content), label);
}

proof fn lemma_labelled_line_decides(
    before: Seq<char>,
    line: Seq<char>,
    tail: Seq<char>,
    label: Seq<char>,
)
    requires
        before.len() == 0 || before.last() == '\n',
        label.len() > 0,
        forall|i: int|
            0 <= i <= before.len() - label.len() && (i == 0 || before[i - 1] == '\n') ==> (
            #[trigger] before.subrange(i, i + label.len())) != label,
        forall|i: int| 0 <= i < line.len() ==> #[trigger] line[i] != '\n',
        label.last() != '\r',
        text::starts_with(line, label),
        tail.len() > 0 ==> tail[0] == '\n',
    ensures
        proc_value(before + line + tail, label) == line_value(
            if tail.len() > 0 {
                text::trim_return(line)
            } else {
                line
            },
        ),
{
    let all = before + line + tail;
    lemma_lines_without_label(before, label);
    let shown = if tail.len() > 0 {
        text::trim_return(line)
    } else {
        line
    };
    text::law_prefix(line, label);
    assert(line[label.len() - 1] == label[label.len() - 1]);
    assert(text::starts_with(shown, label)) by {
        text::law_prefix(shown, label);
    }
    if tail.len() > 0 {
        let rest = tail.skip(1);
        assert(all == before + line + seq!['\n'] + rest);
        text::lemma_lines_around(before, line, rest);
        law_first_label_decides(text::lines(before), shown, text::lines(rest), label);
    } else {
        let none = Seq::<Seq<char>>::empty();
        assert(all == before + line);
        text::lemma_lines_split(before, line);
        text::law_lines(line, Seq::empty());
        law_first_label_decides(text::lines(before), shown, none, label);
        assert(text::lines(before) + seq![shown] + none == text::lines(before) + text::lines(line));
    }
}

/// What a file says under a label, wherever in it the first line that starts with the
/// label stands and whatever follows: the second word of that line decides. It may follow
/// the label directly or more characters of the same word, and the line may end with the
/// file. Without a second word the file says nothing.
pub proof fn law_second_word_decides(
    before: Seq<char>,
    label: Seq<char>,
    head: Seq<char>,
    gap: Seq<char>,
    word: Seq<char>,
    unit: Seq<char>,
    tail: Seq<char>,
)
    requires
        before.len() == 0 || before.last() == '\n',
        label.len() > 0,
        forall|i: int|
            0 <= i <= before.len() - label.len() && (i == 0 || before[i - 1] == '\n') ==> (
            #[trigger] before.subrange(i, i + label.len())) != label,
        forall|i: int|
            0 <= i < label.len() ==> (#[trigger] label[i] != ' ' && label[i] != '\t' && label[i]
                != '\n' && label[i] != '\x0C' && label[i] != '\r'),
        forall|i: int|
            0 <= i < head.len() ==> (#[trigger] head[i] != ' ' && head[i] != '\t' && head[i] != '\n'
                && head[i] != '\x0C' && head[i] != '\r'),
        gap.len() > 0,
        forall|i: int|
            0 <= i < gap.len() ==> (#[trigger] gap[i] == ' ' || gap[i] == '\t' || gap[i] == '\x0C'
                || gap[i] == '\r'),
        word.len() > 0,
        forall|i: int|
            0 <= i < word.len() ==> (#[trigger] word[i] != ' ' && word[i] != '\t' && word[i] != '\n'
                && word[i] != '\x0C' && word[i] != '\r'),
        unit.len() > 0 ==> (unit[0] == ' ' || unit[0] == '\t' || unit[0] == '\x0C' || unit[0]
            == '\r'),
        forall|i: int| 0 <= i < unit.len() ==> #[trigger] unit[i] != '\n',
        tail.len() > 0 ==> tail[0] == '\n',
    ensures
        proc_value(before + (label + head + gap + word + unit) + tail, label) == text::number(word),
        proc_value(before + (label + head + gap) + tail, label) is None,
        proc_value(before + (label + head) + tail, label) is None,
{
    let first = label + head;
    assert forall|i: int| 0 <= i < first.len() implies !text::is_blank(#[trigger] first[i]) by {
        if i < label.len() {
            assert(first[i] == label[i]);
        } else {
            assert(first[i] == head[i - label.len()]);
        }
    }
    let none = Seq::<char>::empty();
    lemma_value_of_line(first, gap, word, unit, tail.len() > 0);
    lemma_value_of_short_line(first, gap, tail.len() > 0);
    lemma_value_of_short_line(first, none, tail.len() > 0);
    assert(first + none == first);
    lemma_file_with_label(before, label, head + gap + word + unit, tail);
    assert(label + (head + gap + word + unit) == label + head + gap + word + unit);
    lemma_file_with_label(before, label, head + gap, tail);
    assert(label + (head + gap) == label + head + gap);
    lemma_file_with_label(before, label, head, tail);
}

proof fn lemma_file_with_label(
    before: Seq<char>,
    label: Seq<char>,
    end: Seq<char>,
    tail: Seq<char>,
)
    requires
        before.len() == 0 || before.last() == '\n',
        label.len() > 0,
        forall|i: int|
            0 <= i <= before.len() - label.len() && (i == 0 || before[i - 1] == '\n') ==> (
            #[trigger] before.subrange(i, i + label.len())) != label,
        forall|i: int| 0 <= i < label.len() ==> #[trigger] label[i] != '\n',
        label.last() != '\r',
        forall|i: int| 0 <= i < end.len() ==> #[trigger] end[i] != '\n',
        tail.len() > 0 ==> tail[0] == '\n',
    ensures
        proc_value(before + (label + end) + tail, label) == line_value(
            if tail.len() > 0 {
                text::trim_return(label + end)
            } else {
                label + end
            },
        ),
{
    let line = label + end;
    text::law_prefix(end, label);
    assert forall|i: int| 0 <= i < line.len() implies #[trigger] line[i] != '\n' by {
        if i < label.len() {
            assert(line[i] == label[i]);
        } else {
            assert(line[i] == end[i - label.len()]);
        }
    }
    lemma_labelled_line_decides(before, line, tail, label);
}

proof fn lemma_value_of_line(
    first: Seq<char>,
    gap: Seq<char>,
    word: Seq<char>,
    unit: Seq<char>,
    cut: bool,
)
    requires
        first.len() > 0,
        forall|i: int| 0 <= i < first.len() ==> !text::is_blank(#[trigger] first[i]),
        gap.len() > 0,
        forall|i: int| 0 <= i < gap.len() ==> text::is_blank(#[trigger] gap[i]),
        word.len() > 0,
        forall|i: int| 0 <= i < word.len() ==> !text::is_blank(#[trigger] word[i]),
        unit.len() > 0 ==> text::is_blank(unit[0]),
    ensures
        line_value(
            if cut {
                text::trim_return(first + gap + word + unit)
            } else {
                first + gap + word + unit
            },
        ) == text::number(word),
{
    let line = first + gap + word + unit;
    let shown = if cut {
        text::trim_return(line)
    } else {
        line
    };
    let end = if cut && unit.len() > 0 && unit.last() == '\r' {
        unit.drop_last()
    } else {
        unit
    };
    if unit.len() > 0 {
        assert(line.last() == unit.last());
    } else {
        assert(line.last() == word[word.len() - 1]);
    }
    assert(shown == first + gap + word + end);
    text::lemma_second_word(first, gap, word, end);
}

proof fn lemma_value_of_short_line(first: Seq<char>, gap: Seq<char>, cut: bool)
    requires
        first.len() > 0,
        forall|i: int| 0 <= i < first.len() ==> !text::is_blank(#[trigger] first[i]),
        forall|i: int| 0 <= i < gap.len() ==> text::is_blank(#[trigger] gap[i]),
    ensures
        line_value(
            if cut {
                text::trim_return(first + gap)
            } else {
                first + gap
            },
        ) is None,
{
    let line = first + gap;
    let none = Seq::<char>::empty();
    let shown = if cut {
        text::trim_return(line)
    } else {
        line
    };
    let end = if cut && gap.len() > 0 && gap.last() == '\r' {
        gap.drop_last()
    } else {
        gap
    };
    if gap.len() > 0 {
        assert(line.last() == gap.last());
    } else {
        assert(line.last() == first[first.len() - 1]);
    }
    assert(shown == none + first + end);
    assert forall|i: int| 0 <= i < end.len() implies text::is_blank(#[trigger] end[i]) by {
        assert(end[i] == gap[i]);
    }
    text::lemma_run_length_unique(end, true, end.len());
    assert(text::words(end).len() == 0);
    text::lemma_run_length_unique(shown, true, 0);
    assert(shown.skip(0) == shown);
    text::lemma_run_length_unique(shown, false, first.len());
    assert(shown.skip(first.len() as int) == end);
    assert(text::words(shown).len() == 1);
}

/// What the report says of a process: wherever in the status file the first line that
/// starts with the label of the peak stands, its number is the peak. Without a file the
/// peak is zero.
pub proof fn law_report_of_peak(
    content: &str,
    before: Seq<char>,
    gap: Seq<char>,
    n: nat,
    unit: Seq<char>,
    tail: Seq<char>,
)
    requires
        content@ == before + ("VmPeak:"@ + gap + text::decimal(n) + unit) + tail,
        before.len() == 0 || before.last() == '\n',
        forall|i: int|
            0 <= i <= before.len() - 7 && (i == 0 || before[i - 1] == '\n') ==> (
            #[trigger] before.subrange(i, i + 7)) != "VmPeak:"@,
        gap.len() > 0,
        forall|i: int| 0 <= i < gap.len() ==> (#[trigger] gap[i] == ' ' || gap[i] == '\t'),
        n <= usize::MAX,
        unit.len() > 0 ==> unit[0] == ' ' || unit[0] == '\t',
        forall|i: int| 0 <= i < unit.len() ==> #[trigger] unit[i] != '\n',
        tail.len() > 0 ==> tail[0] == '\n',
    ensures
        proc_value(content@, "VmPeak:"@) == Some(n as usize),
        file_value(Some(content), "VmPeak:"@) == Some(n as usize),
        reported(file_value(Some(content), "VmPeak:"@)) == n,
        reported(file_value(None, "VmPeak:"@)) == 0,
{
    reveal_strlit("VmPeak:");
    lemma_written_number(content@, before, "VmPeak:"@, gap, n, unit, tail);
}

/// What the report says of the machine: wherever in the memory file the first line that
/// starts with the label of the free memory stands, its number is what is free. Without a
/// file that is zero.
pub proof fn law_report_of_free(
    content: &str,
    before: Seq<char>,
    gap: Seq<char>,
    n: nat,
    unit: Seq<char>,
    tail: Seq<char>,
)
    requires
        content@ == before + ("MemFree:"@ + gap + text::decimal(n) + unit) + tail,
        before.len() == 0 || before.last() == '\n',
        forall|i: int|
            0 <= i <= before.len() - 8 && (i == 0 || before[i - 1] == '\n') ==> (
            #[trigger] before.subrange(i, i + 8)) != "MemFree:"@,
        gap.len() > 0,
        forall|i: int| 0 <= i < gap.len() ==> (#[trigger] gap[i] == ' ' || gap[i] == '\t'),
        n <= usize::MAX,
        unit.len() > 0 ==> unit[0] == ' ' || unit[0] == '\t',
        forall|i: int| 0 <= i < unit.len() ==> #[trigger] unit[i] != '\n',
        tail.len() > 0 ==> tail[0] == '\n',
    ensures
        proc_value(content@, "MemFree:"@) == Some(n as usize),
        file_value(Some(content), "MemFree:"@) == Some(n as usize),
        reported(file_value(Some(content), "MemFree:"@)) == n,
        reported(file_value(None, "MemFree:"@)) == 0,
{
    reveal_strlit("MemFree:");
    lemma_written_number(content@, before, "MemFree:"@, gap, n, unit, tail);
}

proof fn lemma_written_number(
    content: Seq<char>,
    before: Seq<char>,
    label: Seq<char>,
    gap: Seq<char>,
    n: nat,
    unit: Seq<char>,
    tail: Seq<char>,
)
    requires
        content == before + (label + gap + text::decimal(n) + unit) + tail,
        before.len() == 0 || before.last() == '\n',
        label.len() > 0,
        forall|i: int|
            0 <= i <= before.len() - label.len() && (i == 0 || before[i - 1] == '\n') ==> (
            #[trigger] before.subrange(i, i + label.len())) != label,
        forall|i: int| 0 <= i < label.len() ==> !text::is_blank(#[trigger] label[i]),
        gap.len() > 0,
        forall|i: int| 0 <= i < gap.len() ==> (#[trigger] gap[i] == ' ' || gap[i] == '\t'),
        n <= usize::MAX,
        unit.len() > 0 ==> unit[0] == ' ' || unit[0] == '\t',
        forall|i: int| 0 <= i < unit.len() ==> #[trigger] unit[i] != '\n',
        tail.len() > 0 ==> tail[0] == '\n',
    ensures
        proc_value(content, label) == Some(n as usize),
{
    let none = Seq::<char>::empty();
    text::lemma_decimal(n);
    text::lemma_number_of_decimal(n);
    assert(label + none + gap == label + gap);
    assert forall|i: int| 0 <= i < label.len() implies (#[trigger] label[i] != ' ' && label[i]
        != '\t' && label[i] != '\n' && label[i] != '\x0C' && label[i] != '\r') by {
        assert(!text::is_blank(label[i]));
    }
    assert forall|i: int| 0 <= i < text::decimal(n).len() implies (#[trigger] text::decimal(n)[i]
        != ' ' && text::decimal(n)[i] != '\t' && text::decimal(n)[i] != '\n' && text::decimal(n)[i]
        != '\x0C' && text::decimal(n)[i] != '\r') by {
        assert(text::is_digit(text::decimal(n)[i]));
    }
    law_second_word_decides(before, label, none, gap, text::decimal(n), unit, tail);
}

/// What is not known is reported as zero, and what is known as it is. Of a file that could
/// be read all is looked at.
pub proof fn law_reported_figures(value: Option<usize>, content: Option<&str>, label: Seq<char>)
    ensures
        value is None ==> reported(value) == 0,
        value matches Some(n) ==> reported(value) == n,
        content is None ==> file_value(content, label) is None,
        content matches Some(c) ==> file_value(content, label) == proc_value(c@, label),
{
}

} // verus!
