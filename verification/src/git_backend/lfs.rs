//! Large file storage: reading the output of the `git lfs` tool and the attributes file.

use vstd::prelude::*;
use crate::text::{
    has_prefix, has_suffix, has_infix, lines, char_rows, words, parse_unsigned, chars_of,
    split_lines, split_words, starts_with, ends_with, contains, parse_u64, string_of, all_digits,
};

use super::LfsStatus;

verus! {

/// The attributes text turns large file storage on: it holds the LFS filter line.
pub open spec fn enables_lfs(content: Seq<char>) -> bool {
    has_infix(content, "filter=lfs diff=lfs merge=lfs"@)
}

/// Whether an attributes file with this content configures large file storage.
pub fn attributes_enable_lfs(content: &str) -> (r: bool)
    ensures
        r == enables_lfs(content@),
{
    let c = chars_of(content);
    let p = chars_of("filter=lfs diff=lfs merge=lfs");
    contains(&c, &p)
}

/// The text without its leading and trailing double quotes (`trim_matches('"')`).
pub open spec fn trim_quotes(s: Seq<char>) -> Seq<char>
    decreases s.len(),
{
    if s.len() > 0 && s[0] == '"' {
        trim_quotes(s.drop_first())
    } else if s.len() > 0 && s.last() == '"' {
        trim_quotes(s.drop_last())
    } else {
        s
    }
}

/// The line reports a tracked pattern.
pub open spec fn reports_tracking(line: Seq<char>) -> bool {
    has_prefix(line, "Tracking "@) && has_suffix(line, "through .gitattributes"@)
}

/// A reporting line, past its prefix, still ends with the full suffix (the tool's output is
/// read with both taken off, and the second cut fails otherwise).
pub open spec fn tracking_line_cut(line: Seq<char>) -> bool {
    reports_tracking(line) ==> has_suffix(line.skip(9), " through .gitattributes"@)
}

/// The pattern a reporting line names.
pub open spec fn tracked_pattern(line: Seq<char>) -> Seq<char> {
    trim_quotes(line.subrange(9, line.len() - 23))
}

/// The patterns reported by the given lines, in order.
pub open spec fn tracked_patterns(ls: Seq<Seq<char>>) -> Seq<Seq<char>>
    decreases ls.len(),
{
    if ls.len() == 0 {
        Seq::empty()
    } else if reports_tracking(ls.last()) {
        tracked_patterns(ls.drop_last()).push(tracked_pattern(ls.last()))
    } else {
        tracked_patterns(ls.drop_last())
    }
}

/// Every reporting line of the output can be cut.
pub open spec fn tracking_output_ok(output: Seq<char>) -> bool {
    forall|i: int| 0 <= i < lines(output).len() ==> tracking_line_cut(#[trigger] lines(output)[i])
}

fn trim_quote_chars(v: &Vec<char>, from: usize, to: usize) -> (r: Vec<char>)
    requires
        from <= to <= v.len(),
    ensures
        r@ == trim_quotes(v@.subrange(from as int, to as int)),
    decreases to - from,
{
    let ghost s = v@.subrange(from as int, to as int);
    if from < to && v[from] == '"' {
        assert(s.drop_first() == v@.subrange(from + 1, to as int));
        trim_quote_chars(v, from + 1, to)
    } else if from < to && v[to - 1] == '"' {
        assert(s.drop_last() == v@.subrange(from as int, to - 1));
        trim_quote_chars(v, from, to - 1)
    } else {
        let mut r: Vec<char> = Vec::new();
        let mut i = from;
        while i < to
            invariant
                from <= i <= to <= v.len(),
                r@ == v@.subrange(from as int, i as int),
            decreases to - i,
        {
            r.push(v[i]);
            assert(v@.subrange(from as int, i + 1) == v@.subrange(from as int, i as int).push(v@[i as int]));
            i = i + 1;
        }
        r
    }
}

/// Whether the output of `git lfs track` can be read: every reporting line still ends with the
/// full suffix once its prefix is taken off.
pub fn tracking_output_readable(output: &str) -> (r: bool)
    ensures
        r == tracking_output_ok(output@),
{
    proof {
        reveal_strlit("Tracking ");
        reveal_strlit(" through .gitattributes");
    }
    let text = chars_of(output);
    let ls = split_lines(&text);
    let ghost gls = lines(output@);
    let pre = chars_of("Tracking ");
    let suf = chars_of("through .gitattributes");
    let full = chars_of(" through .gitattributes");
    for i in 0..ls.len()
        invariant
            char_rows(ls@) == gls,
            pre@ == "Tracking "@,
            "Tracking "@.len() == 9,
            " through .gitattributes"@.len() == 23,
            suf@ == "through .gitattributes"@,
            full@ == " through .gitattributes"@,
            gls == lines(output@),
            forall|k: int| 0 <= k < i ==> tracking_line_cut(#[trigger] gls[k]),
    {
        let line = &ls[i];
        assert(gls[i as int] == line@);
        if starts_with(line, &pre) && ends_with(line, &suf) {
            let mut rest: Vec<char> = Vec::new();
            let mut j: usize = 9;
            while j < line.len()
                invariant
                    9 <= j <= line.len(),
                    rest@ == line@.subrange(9, j as int),
                decreases line.len() - j,
            {
                rest.push(line[j]);
                assert(line@.subrange(9, j + 1) == line@.subrange(9, j as int).push(line@[j as int]));
                j = j + 1;
            }
            assert(rest@ == line@.skip(9));
            if !ends_with(&rest, &full) {
                assert(!tracking_line_cut(gls[i as int]));
                return false;
            }
        }
    }
    true
}

/// The patterns that `git lfs track` reports as tracked, in the order of its output.
pub fn parse_tracked_patterns(output: &str) -> (r: Vec<String>)
    requires
        tracking_output_ok(output@),
    ensures
        r@.map_values(|p: String| p@) == tracked_patterns(lines(output@)),
{
    proof {
        reveal_strlit("Tracking ");
        reveal_strlit(" through .gitattributes");
    }
    let text = chars_of(output);
    let ls = split_lines(&text);
    let ghost gls = lines(output@);
    let pre = chars_of("Tracking ");
    let suf = chars_of("through .gitattributes");
    let mut out: Vec<String> = Vec::new();
    for i in 0..ls.len()
        invariant
            char_rows(ls@) == gls,
            gls == lines(output@),
            tracking_output_ok(output@),
            pre@ == "Tracking "@,
            "Tracking "@.len() == 9,
            " through .gitattributes"@.len() == 23,
            suf@ == "through .gitattributes"@,
            out@.map_values(|p: String| p@) == tracked_patterns(gls.take(i as int)),
    {
        let line = &ls[i];
        assert(gls[i as int] == line@);
        assert(gls.take(i + 1).drop_last() == gls.take(i as int));
        assert(gls.take(i + 1).last() == line@);
        if starts_with(line, &pre) && ends_with(line, &suf) {
            assert(tracking_line_cut(gls[i as int]));
            assert(line@.len() >= 32) by {
                assert(has_suffix(line@.skip(9), " through .gitattributes"@));
            }
            let p = trim_quote_chars(line, 9, line.len() - 23);
            let ps = string_of(&p);
            let ghost before = out@.map_values(|q: String| q@);
            out.push(ps);
            assert(out@.map_values(|q: String| q@) =~= before.push(ps@));
        }
    }
    assert(gls.take(ls.len() as int) == gls);
    out
}

/// The size in bytes that one line of `git lfs ls-files --size` contributes: its second word,
/// read as a number of kilobytes, megabytes or gigabytes when it ends with `k`, `m` or `g`, and
/// as bytes otherwise; nothing when that word is missing or is no number.
pub open spec fn line_size(line: Seq<char>) -> nat {
    let w = words(line);
    if w.len() < 2 {
        0
    } else {
        let t = w[1];
        let max = u64::MAX as nat;
        if t.len() > 0 && t.last() == 'k' {
            match parse_unsigned(t.drop_last(), max) {
                Some(v) => v * 1024,
                None => 0,
            }
        } else if t.len() > 0 && t.last() == 'm' {
            match parse_unsigned(t.drop_last(), max) {
                Some(v) => v * 1048576,
                None => 0,
            }
        } else if t.len() > 0 && t.last() == 'g' {
            match parse_unsigned(t.drop_last(), max) {
                Some(v) => v * 1073741824,
                None => 0,
            }
        } else {
            match parse_unsigned(t, max) {
                Some(v) => v,
                None => 0,
            }
        }
    }
}

/// The sizes of all the lines, added up.
pub open spec fn total_size(ls: Seq<Seq<char>>) -> nat
    decreases ls.len(),
{
    if ls.len() == 0 {
        0
    } else {
        total_size(ls.drop_last()) + line_size(ls.last())
    }
}

fn size_of_line(line: &Vec<char>) -> (r: Option<u64>)
    ensures
        r matches Some(v) ==> v == line_size(line@),
        r is None ==> line_size(line@) > u64::MAX,
{
    let w = split_words(line);
    if w.len() < 2 {
        return Some(0);
    }
    let t = &w[1];
    assert(t@ == words(line@)[1]);
    let n = t.len();
    if n > 0 && (t[n - 1] == 'k' || t[n - 1] == 'm' || t[n - 1] == 'g') {
        let mut head: Vec<char> = Vec::new();
        let mut i: usize = 0;
        while i < n - 1
            invariant
                n == t.len(),
                n > 0,
                i <= n - 1,
                head@ == t@.subrange(0, i as int),
            decreases n - 1 - i,
        {
            head.push(t[i]);
            assert(t@.subrange(0, i + 1) == t@.subrange(0, i as int).push(t@[i as int]));
            i = i + 1;
        }
        assert(head@ == t@.drop_last());
        let mult: u64 = if t[n - 1] == 'k' { 1024 } else if t[n - 1] == 'm' { 1048576 } else { 1073741824 };
        match parse_u64(&head) {
            Some(v) => {
                if v > u64::MAX / mult {
                    assert(v * mult > u64::MAX) by (nonlinear_arith)
                        requires v > u64::MAX / mult, mult > 0;
                    None
                } else {
                    assert(v * mult <= u64::MAX) by (nonlinear_arith)
                        requires v <= u64::MAX / mult, mult > 0;
                    Some(v * mult)
                }
            },
            None => Some(0),
        }
    } else {
        match parse_u64(t) {
            Some(v) => Some(v),
            None => Some(0),
        }
    }
}

fn total_of_lines(ls: &Vec<Vec<char>>) -> (r: Option<u64>)
    ensures
        r matches Some(v) ==> v == total_size(char_rows(ls@)),
        r is None ==> total_size(char_rows(ls@)) > u64::MAX,
{
    let ghost rows = char_rows(ls@);
    let mut total: u64 = 0;
    for i in 0..ls.len()
        invariant
            rows == char_rows(ls@),
            total == total_size(rows.take(i as int)),
    {
        assert(rows.take(i + 1).drop_last() == rows.take(i as int));
        assert(rows.take(i + 1).last() == ls@[i as int]@);
        match size_of_line(&ls[i]) {
            Some(v) => {
                if v > u64::MAX - total {
                    proof {
                        lemma_total_size_grows(rows, i + 1);
                    }
                    return None;
                }
                total = total + v;
            },
            None => {
                proof {
                    lemma_total_size_grows(rows, i + 1);
                }
                return None;
            },
        }
    }
    assert(rows.take(ls.len() as int) == rows);
    Some(total)
}

proof fn lemma_total_size_grows(ls: Seq<Seq<char>>, k: int)
    requires
        0 <= k <= ls.len(),
    ensures
        total_size(ls.take(k)) <= total_size(ls),
    decreases ls.len() - k,
{
    if k < ls.len() {
        lemma_total_size_grows(ls, k + 1);
        assert(ls.take(k + 1).drop_last() == ls.take(k));
    } else {
        assert(ls.take(k) == ls);
    }
}

/// Whether the sizes listed by `git lfs ls-files --size` add up to a number that fits.
pub fn lfs_sizes_fit(output: &str) -> (r: bool)
    ensures
        r == (total_size(lines(output@)) <= u64::MAX),
{
    let text = chars_of(output);
    let ls = split_lines(&text);
    match total_of_lines(&ls) {
        Some(_) => true,
        None => false,
    }
}

/// Reads the output of `git lfs ls-files --size`: the number of listed objects (one per line)
/// and their total size in bytes.
pub fn parse_lfs_object_stats(output: &str) -> (r: (usize, u64))
    requires
        total_size(lines(output@)) <= u64::MAX,
    ensures
        r.0 == lines(output@).len(),
        r.1 == total_size(lines(output@)),
{
    let text = chars_of(output);
    let ls = split_lines(&text);
    assert(char_rows(ls@).len() == ls@.len());
    match total_of_lines(&ls) {
        Some(t) => (ls.len(), t),
        None => (ls.len(), 0),
    }
}

/// The state of large file storage: disabled, with nothing tracked and no objects, where it
/// is not configured; else its tracked patterns and its objects' count and total size.
pub fn lfs_status(stats: Option<(Vec<String>, usize, u64)>) -> (r: LfsStatus)
    ensures
        match stats {
            None => !r.enabled && r.tracked_patterns.len() == 0 && r.object_count == 0 && r.total_size == 0,
            Some((patterns, count, size)) => r.enabled && r.tracked_patterns@ == patterns@
                && r.object_count == count && r.total_size == size,
        },
{
    match stats {
        None => LfsStatus { enabled: false, tracked_patterns: Vec::new(), object_count: 0, total_size: 0 },
        Some((tracked_patterns, object_count, total_size)) => LfsStatus {
            enabled: true,
            tracked_patterns,
            object_count,
            total_size,
        },
    }
}

/// The unit letter after a size scales it: a size written with `k`, `m` or `g` after a number
/// counts 1024, 1024 * 1024 or 1024 * 1024 * 1024 times the bytes that the bare number counts.
pub proof fn law_size_units(bytes: Seq<char>, kilo: Seq<char>, mega: Seq<char>, giga: Seq<char>, d: Seq<char>)
    requires
        parse_unsigned(d, u64::MAX as nat) is Some,
        words(bytes).len() >= 2 && words(bytes)[1] == d,
        words(kilo).len() >= 2 && words(kilo)[1] == d.push('k'),
        words(mega).len() >= 2 && words(mega)[1] == d.push('m'),
        words(giga).len() >= 2 && words(giga)[1] == d.push('g'),
    ensures
        line_size(kilo) == 1024 * line_size(bytes),
        line_size(mega) == 1048576 * line_size(bytes),
        line_size(giga) == 1073741824 * line_size(bytes),
        line_size(giga) == 1024 * line_size(mega),
        line_size(mega) == 1024 * line_size(kilo),
{
    let e = if d.len() > 0 && d[0] == '+' { d.drop_first() } else { d };
    assert(e.len() > 0 && all_digits(e));
    assert(d.last() == e.last());
    assert('0' <= e[e.len() - 1] <= '9');
    assert(d.push('k').drop_last() =~= d);
    assert(d.push('m').drop_last() =~= d);
    assert(d.push('g').drop_last() =~= d);
}

} // verus!

