//! Conflict resolution: which side of a conflict to keep, and the rewriting of text that holds
//! conflict markers.

use vstd::prelude::*;
use crate::text::{owned, push_str, str_eq, has_prefix, lines, lines_from, line_end, strip_cr, lemma_line_end_bounds, char_rows, chars_of, split_lines, starts_with, extend_chars, string_of};

use crate::paths::{join, join_path, is_absolute_path, path_is_absolute};
use super::{GitBackendError, ConflictStrategy, string_views};
use super::operation::{conflicted_files, conflicted_spec};

verus! {

/// Strategy for resolving conflicts in bill-of-materials files.
#[derive(Debug, Clone, Copy, PartialEq, Eq, Structural)]
pub enum BomConflictStrategy {
    /// Keep our side of every conflict.
    PreferOurs,
    /// Keep their side of every conflict.
    PreferTheirs,
    /// Keep both sides, each labelled.
    MergeQuantities,
}

/// The ways in which conflict markers in a text are rewritten.
#[derive(Debug, Clone, Copy, PartialEq, Eq, Structural)]
pub enum MarkerResolution {
    /// Both sides, ours first.
    Union,
    /// Our side only.
    Ours,
    /// Their side only.
    Theirs,
    /// Both sides, each under a label.
    Labelled,
}

/// Where the reader of a text stands: outside every conflict, in our side of one, or in
/// their side of one.
#[derive(Debug, Clone, Copy, PartialEq, Eq, Structural)]
pub enum Region {
    /// Outside every conflict.
    Outside,
    /// Between an opening marker and the separator.
    Ours,
    /// Between the separator and the closing marker.
    Theirs,
}

/// The state kept while reading a text line by line: the output so far, where the reader
/// stands, and the two sides of the conflict being read.
pub type MarkerState = (Seq<char>, Region, Seq<char>, Seq<char>);

/// The line opens a conflict.
pub open spec fn opens_conflict(line: Seq<char>) -> bool {
    has_prefix(line, "<<<<<<< "@)
}

/// The line separates the two sides of a conflict.
pub open spec fn separates_conflict(line: Seq<char>) -> bool {
    has_prefix(line, "======="@)
}

/// The line closes a conflict.
pub open spec fn closes_conflict(line: Seq<char>) -> bool {
    has_prefix(line, ">>>>>>> "@)
}

/// The line is one of the three conflict markers.
pub open spec fn is_marker(line: Seq<char>) -> bool {
    opens_conflict(line) || separates_conflict(line) || closes_conflict(line)
}

/// What a closing marker adds to the output.
pub open spec fn closing_output(mode: MarkerResolution, ours: Seq<char>, theirs: Seq<char>) -> Seq<char> {
    match mode {
        MarkerResolution::Union => ours + theirs,
        MarkerResolution::Ours => ours,
        MarkerResolution::Theirs => theirs,
        MarkerResolution::Labelled => "# BEGIN MERGED BOM ENTRIES\n"@ + "# OUR VERSION:\n"@ + ours
            + "# THEIR VERSION:\n"@ + theirs + "# END MERGED BOM ENTRIES\n"@,
    }
}

/// One step of the reader on one line: a marker moves it between the regions, a closing marker
/// writes what the resolution keeps of the conflict, and any other line goes to the output or
/// to the side it belongs to. A closing marker met in our side leaves the reader there. The
/// resolutions that keep both sides write a line of their side straight to the output while
/// our side of the conflict is empty.
pub open spec fn marker_step(mode: MarkerResolution, st: MarkerState, line: Seq<char>) -> MarkerState {
    let (res, region, ours, theirs) = st;
    let nl = line.push('\n');
    if opens_conflict(line) {
        (res, Region::Ours, ours, theirs)
    } else if separates_conflict(line) {
        (res, Region::Theirs, ours, theirs)
    } else if closes_conflict(line) {
        (
            res + closing_output(mode, ours, theirs),
            if region == Region::Ours { Region::Ours } else { Region::Outside },
            Seq::empty(),
            Seq::empty(),
        )
    } else {
        match region {
            Region::Outside => (res + nl, region, ours, theirs),
            Region::Ours => (res, region, ours + nl, theirs),
            Region::Theirs => if ours.len() == 0 && (mode == MarkerResolution::Union || mode == MarkerResolution::Labelled) {
                (res + nl, region, ours, theirs)
            } else {
                (res, region, ours, theirs + nl)
            },
        }
    }
}

/// The reader's state after the given lines.
pub open spec fn marker_run(mode: MarkerResolution, ls: Seq<Seq<char>>) -> MarkerState
    decreases ls.len(),
{
    if ls.len() == 0 {
        (Seq::empty(), Region::Outside, Seq::empty(), Seq::empty())
    } else {
        marker_step(mode, marker_run(mode, ls.drop_last()), ls.last())
    }
}

/// The rewritten text.
pub open spec fn resolved_text(mode: MarkerResolution, content: Seq<char>) -> Seq<char> {
    marker_run(mode, lines(content)).0
}

/// The lines, each followed by a line feed.
pub open spec fn terminated(ls: Seq<Seq<char>>) -> Seq<char>
    decreases ls.len(),
{
    if ls.len() == 0 {
        Seq::empty()
    } else {
        ls[0].push('\n') + terminated(ls.drop_first())
    }
}

proof fn lemma_terminated_push(ls: Seq<Seq<char>>, l: Seq<char>)
    ensures
        terminated(ls.push(l)) == terminated(ls) + l.push('\n'),
    decreases ls.len(),
{
    if ls.len() == 0 {
        assert(ls.push(l).drop_first() == Seq::<Seq<char>>::empty());
        assert(terminated(Seq::<Seq<char>>::empty()) == Seq::<char>::empty());
        assert(terminated(ls.push(l)) == l.push('\n') + Seq::<char>::empty());
    } else {
        lemma_terminated_push(ls.drop_first(), l);
        assert(ls.push(l).drop_first() == ls.drop_first().push(l));
        assert(terminated(ls.push(l)) == ls[0].push('\n') + terminated(ls.drop_first().push(l)));
    }
}

proof fn lemma_marker_free_run(mode: MarkerResolution, ls: Seq<Seq<char>>)
    requires
        forall|i: int| 0 <= i < ls.len() ==> !is_marker(#[trigger] ls[i]),
    ensures
        marker_run(mode, ls) == (terminated(ls), Region::Outside, Seq::<char>::empty(), Seq::<char>::empty()),
    decreases ls.len(),
{
    if ls.len() > 0 {
        let prev = ls.drop_last();
        assert forall|i: int| 0 <= i < prev.len() implies !is_marker(#[trigger] prev[i]) by {
            assert(prev[i] == ls[i]);
        }
        lemma_marker_free_run(mode, prev);
        assert(!is_marker(ls[ls.len() - 1]));
        lemma_terminated_push(prev, ls.last());
        assert(prev.push(ls.last()) == ls);
    }
}

/// The lines of a text that ends with a line feed and holds no carriage return, each followed
/// by a line feed, give the text back.
proof fn lemma_lines_terminated(s: Seq<char>, i: int)
    requires
        0 <= i <= s.len(),
        s.len() == 0 || s.last() == '\n',
        forall|k: int| 0 <= k < s.len() ==> s[k] != '\r',
    ensures
        terminated(lines_from(s, i)) == s.subrange(i, s.len() as int),
    decreases s.len() - i,
{
    if i < s.len() {
        lemma_line_end_bounds(s, i);
        let e = line_end(s, i);
        if e == s.len() {
            assert(s[s.len() - 1] == '\n');
            assert(false);
        }
        let raw = s.subrange(i, e);
        if raw.len() > 0 {
            assert(raw.last() == s[e - 1]);
        }
        assert(strip_cr(raw) == raw);
        lemma_lines_terminated(s, e + 1);
        assert(lines_from(s, i) == seq![raw] + lines_from(s, e + 1));
        assert((seq![raw] + lines_from(s, e + 1)).drop_first() == lines_from(s, e + 1));
        assert(s.subrange(i, s.len() as int) =~= raw.push('\n') + s.subrange(e + 1, s.len() as int));
    } else {
        assert(s.subrange(i, s.len() as int) =~= Seq::<char>::empty());
    }
}

/// Rewrites the conflict markers of `content`.
pub fn resolve_markers(mode: MarkerResolution, content: &str) -> (r: String)
    ensures
        r@ == resolved_text(mode, content@),
{
    let open_m = chars_of("<<<<<<< ");
    let sep_m = chars_of("=======");
    let close_m = chars_of(">>>>>>> ");
    let begin_l = chars_of("# BEGIN MERGED BOM ENTRIES\n");
    let ours_l = chars_of("# OUR VERSION:\n");
    let theirs_l = chars_of("# THEIR VERSION:\n");
    let end_l = chars_of("# END MERGED BOM ENTRIES\n");
    let text = chars_of(content);
    let ls = split_lines(&text);
    let ghost gls = lines(content@);
    let mut res: Vec<char> = Vec::new();
    let mut region = Region::Outside;
    let mut ours: Vec<char> = Vec::new();
    let mut theirs: Vec<char> = Vec::new();
    for i in 0..ls.len()
        invariant
            char_rows(ls@) == gls,
            open_m@ == "<<<<<<< "@,
            sep_m@ == "======="@,
            close_m@ == ">>>>>>> "@,
            begin_l@ == "# BEGIN MERGED BOM ENTRIES\n"@,
            ours_l@ == "# OUR VERSION:\n"@,
            theirs_l@ == "# THEIR VERSION:\n"@,
            end_l@ == "# END MERGED BOM ENTRIES\n"@,
            (res@, region, ours@, theirs@) == marker_run(mode, gls.take(i as int)),
    {
        let line = &ls[i];
        assert(gls.take(i + 1).drop_last() == gls.take(i as int));
        assert(gls.take(i + 1).last() == line@);
        let mut nl = line.clone();
        assert(nl@ == line@);
        nl.push('\n');
        if starts_with(line, &open_m) {
            region = Region::Ours;
        } else if starts_with(line, &sep_m) {
            region = Region::Theirs;
        } else if starts_with(line, &close_m) {
            let ghost r0 = res@;
            match mode {
                MarkerResolution::Union => {
                    extend_chars(&mut res, &ours);
                    extend_chars(&mut res, &theirs);
                    assert(res@ =~= r0 + closing_output(mode, ours@, theirs@));
                },
                MarkerResolution::Ours => {
                    extend_chars(&mut res, &ours);
                },
                MarkerResolution::Theirs => {
                    extend_chars(&mut res, &theirs);
                },
                MarkerResolution::Labelled => {
                    extend_chars(&mut res, &begin_l);
                    extend_chars(&mut res, &ours_l);
                    extend_chars(&mut res, &ours);
                    extend_chars(&mut res, &theirs_l);
                    extend_chars(&mut res, &theirs);
                    extend_chars(&mut res, &end_l);
                    assert(res@ =~= r0 + closing_output(mode, ours@, theirs@));
                },
            }
            ours = Vec::new();
            theirs = Vec::new();
            if region != Region::Ours {
                region = Region::Outside;
            }
        } else {
            match region {
                Region::Outside => extend_chars(&mut res, &nl),
                Region::Ours => extend_chars(&mut ours, &nl),
                Region::Theirs => {
                    if ours.len() == 0 && (mode == MarkerResolution::Union || mode == MarkerResolution::Labelled) {
                        extend_chars(&mut res, &nl);
                    } else {
                        extend_chars(&mut theirs, &nl);
                    }
                },
            }
        }
    }
    assert(gls.take(ls.len() as int) == gls);
    string_of(&res)
}

/// Merges both sides of every conflict in `content`, ours first, and keeps the text outside
/// conflicts; each line of the result ends with a line feed.
pub fn resolve_union_text(content: &str) -> (r: String)
    ensures
        r@ == resolved_text(MarkerResolution::Union, content@),
{
    resolve_markers(MarkerResolution::Union, content)
}

/// The marker resolution that a bill-of-materials strategy uses.
pub open spec fn bom_resolution(strategy: BomConflictStrategy) -> MarkerResolution {
    match strategy {
        BomConflictStrategy::PreferOurs => MarkerResolution::Ours,
        BomConflictStrategy::PreferTheirs => MarkerResolution::Theirs,
        BomConflictStrategy::MergeQuantities => MarkerResolution::Labelled,
    }
}

/// Resolves the conflicts of a bill-of-materials text with the given strategy.
pub fn resolve_bom_text(strategy: BomConflictStrategy, content: &str) -> (r: String)
    ensures
        r@ == resolved_text(bom_resolution(strategy), content@),
{
    let mode = match strategy {
        BomConflictStrategy::PreferOurs => MarkerResolution::Ours,
        BomConflictStrategy::PreferTheirs => MarkerResolution::Theirs,
        BomConflictStrategy::MergeQuantities => MarkerResolution::Labelled,
    };
    resolve_markers(mode, content)
}

/// A text without conflict markers comes out of every rewriting as its lines, each ended by a
/// line feed.
pub proof fn law_marker_free_text(mode: MarkerResolution, content: Seq<char>)
    requires
        forall|i: int| 0 <= i < lines(content).len() ==> !is_marker(#[trigger] lines(content)[i]),
    ensures
        resolved_text(mode, content) == terminated(lines(content)),
{
    lemma_marker_free_run(mode, lines(content));
}

/// A text without conflict markers that ends with a line feed and holds no carriage return is
/// left exactly as it is by every rewriting.
pub proof fn law_marker_free_text_unchanged(mode: MarkerResolution, content: Seq<char>)
    requires
        forall|i: int| 0 <= i < lines(content).len() ==> !is_marker(#[trigger] lines(content)[i]),
        content.len() == 0 || content.last() == '\n',
        forall|k: int| 0 <= k < content.len() ==> content[k] != '\r',
    ensures
        resolved_text(mode, content) == content,
{
    lemma_marker_free_run(mode, lines(content));
    lemma_lines_terminated(content, 0);
    assert(content.subrange(0, content.len() as int) == content);
}

/// The reader's state after the given lines, starting from the state `st`.
pub open spec fn marker_run_from(mode: MarkerResolution, st: MarkerState, ls: Seq<Seq<char>>) -> MarkerState
    decreases ls.len(),
{
    if ls.len() == 0 {
        st
    } else {
        marker_step(mode, marker_run_from(mode, st, ls.drop_last()), ls.last())
    }
}

/// The state the reader starts in.
pub open spec fn start_state() -> MarkerState {
    (Seq::empty(), Region::Outside, Seq::empty(), Seq::empty())
}

proof fn lemma_run_from_start(mode: MarkerResolution, ls: Seq<Seq<char>>)
    ensures
        marker_run(mode, ls) == marker_run_from(mode, start_state(), ls),
    decreases ls.len(),
{
    if ls.len() > 0 {
        lemma_run_from_start(mode, ls.drop_last());
    }
}

proof fn lemma_run_from_concat(mode: MarkerResolution, st: MarkerState, a: Seq<Seq<char>>, b: Seq<Seq<char>>)
    ensures
        marker_run_from(mode, st, a + b) == marker_run_from(mode, marker_run_from(mode, st, a), b),
    decreases b.len(),
{
    if b.len() == 0 {
        assert(a + b =~= a);
    } else {
        assert((a + b).drop_last() =~= a + b.drop_last());
        assert((a + b).last() == b.last());
        lemma_run_from_concat(mode, st, a, b.drop_last());
    }
}

proof fn lemma_run_from_one(mode: MarkerResolution, st: MarkerState, l: Seq<char>)
    ensures
        marker_run_from(mode, st, seq![l]) == marker_step(mode, st, l),
{
    assert(seq![l].drop_last() =~= Seq::<Seq<char>>::empty());
    assert(marker_run_from(mode, st, seq![l].drop_last()) == st);
    assert(seq![l].last() == l);
}

/// The output written so far does not change how the reader goes on.
proof fn lemma_step_prefix(mode: MarkerResolution, p: Seq<char>, st: MarkerState, l: Seq<char>)
    ensures
        ({
            let s = marker_step(mode, st, l);
            marker_step(mode, (p + st.0, st.1, st.2, st.3), l) == (p + s.0, s.1, s.2, s.3)
        }),
{
    let nl = l.push('\n');
    assert((p + st.0) + nl =~= p + (st.0 + nl));
    assert((p + st.0) + closing_output(mode, st.2, st.3) =~= p + (st.0 + closing_output(mode, st.2, st.3)));
}

proof fn lemma_run_from_prefix(mode: MarkerResolution, p: Seq<char>, st: MarkerState, ls: Seq<Seq<char>>)
    ensures
        ({
            let s = marker_run_from(mode, st, ls);
            marker_run_from(mode, (p + st.0, st.1, st.2, st.3), ls) == (p + s.0, s.1, s.2, s.3)
        }),
    decreases ls.len(),
{
    if ls.len() > 0 {
        lemma_run_from_prefix(mode, p, st, ls.drop_last());
        lemma_step_prefix(mode, p, marker_run_from(mode, st, ls.drop_last()), ls.last());
    }
}

/// Lines without markers go where the reader stands: to the output outside conflicts, to our
/// side in our side, and to their side in theirs (straight to the output for the resolutions
/// that keep both sides, while our side is empty).
proof fn lemma_run_marker_free(mode: MarkerResolution, st: MarkerState, ls: Seq<Seq<char>>)
    requires
        forall|i: int| 0 <= i < ls.len() ==> !is_marker(#[trigger] ls[i]),
    ensures
        ({
            let (r, g, o, t) = st;
            let tl = terminated(ls);
            marker_run_from(mode, st, ls) == match g {
                Region::Outside => (r + tl, g, o, t),
                Region::Ours => (r, g, o + tl, t),
                Region::Theirs => if o.len() == 0 && (mode == MarkerResolution::Union || mode == MarkerResolution::Labelled) {
                    (r + tl, g, o, t)
                } else {
                    (r, g, o, t + tl)
                },
            }
        }),
    decreases ls.len(),
{
    if ls.len() == 0 {
        assert(terminated(ls) == Seq::<char>::empty());
        assert(st.0 + Seq::<char>::empty() =~= st.0);
        assert(st.2 + Seq::<char>::empty() =~= st.2);
        assert(st.3 + Seq::<char>::empty() =~= st.3);
    } else {
        let prev = ls.drop_last();
        assert forall|i: int| 0 <= i < prev.len() implies !is_marker(#[trigger] prev[i]) by {
            assert(prev[i] == ls[i]);
        }
        lemma_run_marker_free(mode, st, prev);
        assert(!is_marker(ls[ls.len() - 1]));
        lemma_terminated_push(prev, ls.last());
        assert(prev.push(ls.last()) == ls);
        let nl = ls.last().push('\n');
        assert(st.0 + terminated(prev) + nl =~= st.0 + (terminated(prev) + nl));
        assert(st.2 + terminated(prev) + nl =~= st.2 + (terminated(prev) + nl));
        assert(st.3 + terminated(prev) + nl =~= st.3 + (terminated(prev) + nl));
    }
}

proof fn lemma_terminated_len(ls: Seq<Seq<char>>)
    ensures
        terminated(ls).len() >= ls.len(),
    decreases ls.len(),
{
    if ls.len() > 0 {
        lemma_terminated_len(ls.drop_first());
    }
}

/// The three markers are told apart by their first character.
proof fn lemma_markers_differ(l: Seq<char>)
    ensures
        separates_conflict(l) ==> !opens_conflict(l),
        closes_conflict(l) ==> !opens_conflict(l) && !separates_conflict(l),
{
    reveal_strlit("<<<<<<< ");
    reveal_strlit("=======");
    reveal_strlit(">>>>>>> ");
    if separates_conflict(l) {
        assert(l[0] == l.subrange(0, 7)[0]);
        assert(l[0] == '=');
    }
    if closes_conflict(l) {
        assert(l[0] == l.subrange(0, 8)[0]);
        assert(l[0] == '>');
    }
    if opens_conflict(l) {
        assert(l[0] == l.subrange(0, 8)[0]);
        assert(l[0] == '<');
    }
}

/// A conflict contributes only its own two sides: text without markers, then one complete
/// conflict (an opening marker, our lines, the separator, their lines, the closing marker),
/// then any further lines, come out as the text before, what the resolution keeps of this
/// conflict's own sides, and then what the further lines come out as on their own. (The
/// labelled resolution is left out for a conflict whose side of ours is empty: it writes their
/// lines straight out, before the labels.)
pub proof fn law_conflict_keeps_its_own_sides(
    mode: MarkerResolution,
    before: Seq<Seq<char>>,
    open: Seq<char>,
    ours: Seq<Seq<char>>,
    sep: Seq<char>,
    theirs: Seq<Seq<char>>,
    close: Seq<char>,
    after: Seq<Seq<char>>,
)
    requires
        forall|i: int| 0 <= i < before.len() ==> !is_marker(#[trigger] before[i]),
        forall|i: int| 0 <= i < ours.len() ==> !is_marker(#[trigger] ours[i]),
        forall|i: int| 0 <= i < theirs.len() ==> !is_marker(#[trigger] theirs[i]),
        opens_conflict(open),
        separates_conflict(sep),
        closes_conflict(close),
        mode == MarkerResolution::Labelled ==> ours.len() > 0,
    ensures
        ({
            let rest = marker_run(mode, after);
            marker_run(mode, before + seq![open] + ours + seq![sep] + theirs + seq![close] + after) == (
                terminated(before) + closing_output(mode, terminated(ours), terminated(theirs)) + rest.0,
                rest.1,
                rest.2,
                rest.3,
            )
        }),
{
    let e = Seq::<char>::empty();
    let st0 = start_state();
    let tb = terminated(before);
    let to = terminated(ours);
    let tt = terminated(theirs);
    lemma_markers_differ(sep);
    lemma_markers_differ(close);
    lemma_terminated_len(ours);
    let l1 = before;
    let l2 = l1 + seq![open];
    let l3 = l2 + ours;
    let l4 = l3 + seq![sep];
    let l5 = l4 + theirs;
    let l6 = l5 + seq![close];
    lemma_run_marker_free(mode, st0, before);
    assert(e + tb =~= tb);
    let s1 = marker_run_from(mode, st0, l1);
    assert(s1 == (tb, Region::Outside, e, e));
    lemma_run_from_concat(mode, st0, l1, seq![open]);
    lemma_run_from_one(mode, s1, open);
    let s2 = marker_run_from(mode, st0, l2);
    assert(s2 == (tb, Region::Ours, e, e));
    lemma_run_from_concat(mode, st0, l2, ours);
    lemma_run_marker_free(mode, s2, ours);
    assert(e + to =~= to);
    let s3 = marker_run_from(mode, st0, l3);
    assert(s3 == (tb, Region::Ours, to, e));
    lemma_run_from_concat(mode, st0, l3, seq![sep]);
    lemma_run_from_one(mode, s3, sep);
    let s4 = marker_run_from(mode, st0, l4);
    assert(s4 == (tb, Region::Theirs, to, e));
    lemma_run_from_concat(mode, st0, l4, theirs);
    lemma_run_marker_free(mode, s4, theirs);
    assert(e + tt =~= tt);
    lemma_run_from_concat(mode, st0, l5, seq![close]);
    let s5 = marker_run_from(mode, st0, l5);
    lemma_run_from_one(mode, s5, close);
    let s6 = marker_run_from(mode, st0, l6);
    let kept = tb + closing_output(mode, to, tt);
    if to.len() == 0 && (mode == MarkerResolution::Union || mode == MarkerResolution::Labelled) {
        assert(mode == MarkerResolution::Union);
        assert(s5 == (tb + tt, Region::Theirs, e, e));
        assert(closing_output(mode, e, e) =~= e);
        assert(tb + tt + e =~= kept);
    } else {
        assert(s5 == (tb, Region::Theirs, to, tt));
    }
    assert(s6 == (kept, Region::Outside, e, e));
    lemma_run_from_concat(mode, st0, l6, after);
    lemma_run_from_prefix(mode, kept, st0, after);
    assert(kept + e =~= kept);
    lemma_run_from_start(mode, after);
    lemma_run_from_start(mode, l6 + after);
}

/// With our side kept, a text of two conflicts comes out as the text around them with each
/// conflict replaced by its own lines of ours, each written once.
pub proof fn law_two_conflicts_keep_ours_once(
    a: Seq<Seq<char>>,
    o1: Seq<char>, ours1: Seq<Seq<char>>, s1: Seq<char>, theirs1: Seq<Seq<char>>, c1: Seq<char>,
    b: Seq<Seq<char>>,
    o2: Seq<char>, ours2: Seq<Seq<char>>, s2: Seq<char>, theirs2: Seq<Seq<char>>, c2: Seq<char>,
    c: Seq<Seq<char>>,
)
    requires
        forall|i: int| 0 <= i < a.len() ==> !is_marker(#[trigger] a[i]),
        forall|i: int| 0 <= i < b.len() ==> !is_marker(#[trigger] b[i]),
        forall|i: int| 0 <= i < c.len() ==> !is_marker(#[trigger] c[i]),
        forall|i: int| 0 <= i < ours1.len() ==> !is_marker(#[trigger] ours1[i]),
        forall|i: int| 0 <= i < ours2.len() ==> !is_marker(#[trigger] ours2[i]),
        forall|i: int| 0 <= i < theirs1.len() ==> !is_marker(#[trigger] theirs1[i]),
        forall|i: int| 0 <= i < theirs2.len() ==> !is_marker(#[trigger] theirs2[i]),
        opens_conflict(o1) && separates_conflict(s1) && closes_conflict(c1),
        opens_conflict(o2) && separates_conflict(s2) && closes_conflict(c2),
    ensures
        marker_run(
            MarkerResolution::Ours,
            a + seq![o1] + ours1 + seq![s1] + theirs1 + seq![c1] + b + seq![o2] + ours2 + seq![s2] + theirs2 + seq![c2] + c,
        ).0 == terminated(a) + terminated(ours1) + terminated(b) + terminated(ours2) + terminated(c),
{
    let m = MarkerResolution::Ours;
    let second = b + seq![o2] + ours2 + seq![s2] + theirs2 + seq![c2] + c;
    let whole = a + seq![o1] + ours1 + seq![s1] + theirs1 + seq![c1] + b + seq![o2] + ours2 + seq![s2] + theirs2 + seq![c2] + c;
    assert(whole =~= a + seq![o1] + ours1 + seq![s1] + theirs1 + seq![c1] + second);
    law_conflict_keeps_its_own_sides(m, a, o1, ours1, s1, theirs1, c1, second);
    law_conflict_keeps_its_own_sides(m, b, o2, ours2, s2, theirs2, c2, c);
    lemma_marker_free_run(m, c);
    assert(terminated(a) + terminated(ours1) + (terminated(b) + terminated(ours2) + terminated(c))
        =~= terminated(a) + terminated(ours1) + terminated(b) + terminated(ours2) + terminated(c));
}

/// The paths of the three sides of a conflict in the index, where the side exists.
#[derive(Debug, Clone)]
pub struct ConflictPaths {
    /// Path of our side.
    pub our: Option<String>,
    /// Path of their side.
    pub their: Option<String>,
    /// Path of the common ancestor.
    pub ancestor: Option<String>,
}

/// Whether a conflict is the one of `file`: the path of its first side that exists, looking
/// at ours, then theirs, then the ancestor, is `file`.
pub open spec fn conflict_is_for(c: ConflictPaths, file: Seq<char>) -> bool {
    match c.our {
        Some(p) => p@ == file,
        None => match c.their {
            Some(p) => p@ == file,
            None => match c.ancestor {
                Some(p) => p@ == file,
                None => false,
            },
        },
    }
}

/// Whether the conflict is the one of `file`.
pub fn conflict_matches(c: &ConflictPaths, file: &str) -> (r: bool)
    ensures
        r == conflict_is_for(*c, file@),
{
    match &c.our {
        Some(p) => str_eq(p.as_str(), file),
        None => match &c.their {
            Some(p) => str_eq(p.as_str(), file),
            None => match &c.ancestor {
                Some(p) => str_eq(p.as_str(), file),
                None => false,
            },
        },
    }
}

/// The first of `conflicts` that is the one of `file`.
pub fn find_conflict(conflicts: &Vec<ConflictPaths>, file: &str) -> (r: Option<usize>)
    ensures
        match r {
            Some(i) => i < conflicts.len() && conflict_is_for(conflicts@[i as int], file@)
                && forall|j: int| 0 <= j < i ==> !conflict_is_for(#[trigger] conflicts@[j], file@),
            None => forall|j: int| 0 <= j < conflicts.len() ==> !conflict_is_for(#[trigger] conflicts@[j], file@),
        },
{
    for i in 0..conflicts.len()
        invariant
            forall|j: int| 0 <= j < i ==> !conflict_is_for(#[trigger] conflicts@[j], file@),
    {
        if conflict_matches(&conflicts[i], file) {
            return Some(i);
        }
    }
    None
}

/// Where a file of the working directory `work_dir` is: an absolute path as it is, a relative
/// one within the working directory.
pub fn conflict_file_path(work_dir: &str, file: &str) -> (r: String)
    ensures
        r@ == (if is_absolute_path(file@) { file@ } else { join_path(work_dir@, file@) }),
{
    if path_is_absolute(file) {
        owned(file)
    } else {
        join(work_dir, file)
    }
}

/// What is done to resolve a conflict in a file.
#[derive(Debug, Clone, Copy, PartialEq, Eq, Structural)]
pub enum ConflictAction {
    /// The file is written with our side.
    TakeOurs,
    /// The file is written with their side.
    TakeTheirs,
    /// The file is removed: the side to keep does not exist.
    RemoveFile,
    /// Both sides are kept, ours first.
    Union,
}

/// What resolving a conflict with `strategy` does, given which sides exist: the side the
/// strategy keeps where it exists, removing the file where it does not, and both sides for
/// the union.
pub fn conflict_action(strategy: ConflictStrategy, has_ours: bool, has_theirs: bool) -> (r: ConflictAction)
    ensures
        r == match strategy {
            ConflictStrategy::Ours => if has_ours { ConflictAction::TakeOurs } else { ConflictAction::RemoveFile },
            ConflictStrategy::Theirs => if has_theirs { ConflictAction::TakeTheirs } else { ConflictAction::RemoveFile },
            ConflictStrategy::Union => ConflictAction::Union,
        },
{
    match strategy {
        ConflictStrategy::Ours => if has_ours { ConflictAction::TakeOurs } else { ConflictAction::RemoveFile },
        ConflictStrategy::Theirs => if has_theirs { ConflictAction::TakeTheirs } else { ConflictAction::RemoveFile },
        ConflictStrategy::Union => ConflictAction::Union,
    }
}

/// A conflict error whose message is `prefix` followed by `path`.
fn conflict_error(prefix: &str, path: &str) -> (r: GitBackendError)
    ensures
        r matches GitBackendError::ConflictError(m) && m@ == prefix@ + path@,
{
    let mut m = owned(prefix);
    push_str(&mut m, path);
    GitBackendError::ConflictError(m)
}

/// The error given when the file to resolve does not exist.
pub fn missing_conflict_file(path: &str) -> (r: GitBackendError)
    ensures
        r matches GitBackendError::ConflictError(m) && m@ == "File "@ + path@ + " does not exist"@,
{
    let mut m = owned("File ");
    push_str(&mut m, path);
    push_str(&mut m, " does not exist");
    GitBackendError::ConflictError(m)
}

/// The error given when no conflict is recorded for the file to resolve.
pub fn no_conflict_for(path: &str) -> (r: GitBackendError)
    ensures
        r matches GitBackendError::ConflictError(m) && m@ == "No conflict found for file "@ + path@,
{
    conflict_error("No conflict found for file ", path)
}

/// The error given when a merge is to be aborted outside a merge.
pub fn not_merging() -> (r: GitBackendError)
    ensures
        r matches GitBackendError::ConflictError(m) && m@ == "Not in a merge state"@,
{
    GitBackendError::ConflictError(owned("Not in a merge state"))
}

/// The error given when aborting a merge fails, with what Git wrote to its error output.
pub fn abort_failed(stderr: &str) -> (r: GitBackendError)
    ensures
        r matches GitBackendError::ConflictError(m) && m@ == "Failed to abort merge: "@ + stderr@,
{
    conflict_error("Failed to abort merge: ", stderr)
}

/// The entries of the index that have a path, in order.
pub open spec fn named_entries(entries: Seq<Seq<char>>) -> Seq<Seq<char>>
    decreases entries.len(),
{
    if entries.len() == 0 {
        Seq::empty()
    } else if entries.last().len() > 0 {
        named_entries(entries.drop_last()).push(entries.last())
    } else {
        named_entries(entries.drop_last())
    }
}

/// The files in conflict: none where the index has no conflicts; else the index entries
/// with a path that some conflict names as our side, in index order.
pub fn get_conflicted_files(has_conflicts: bool, entries: &Vec<String>, ours: &Vec<String>) -> (r: Vec<String>)
    ensures
        !has_conflicts ==> r.len() == 0,
        has_conflicts ==> string_views(r@) == conflicted_spec(named_entries(string_views(entries@)), string_views(ours@)),
{
    if !has_conflicts {
        return Vec::new();
    }
    let mut named: Vec<String> = Vec::new();
    let ghost es = string_views(entries@);
    assert(string_views(named@) =~= named_entries(es.subrange(0, 0)));
    for i in 0..entries.len()
        invariant
            es == string_views(entries@),
            string_views(named@) == named_entries(es.subrange(0, i as int)),
    {
        let ghost before = string_views(named@);
        assert(es[i as int] == entries@[i as int]@);
        proof {
            reveal_strlit("");
        }
        let nonempty = !str_eq(entries[i].as_str(), "");
        assert(nonempty == (es[i as int].len() > 0)) by {
            if es[i as int].len() == 0 {
                assert(es[i as int] =~= ""@);
            }
        }
        if nonempty {
            named.push(owned(entries[i].as_str()));
            assert(string_views(named@) =~= before.push(es[i as int]));
        }
        proof {
            let sub = es.subrange(0, i + 1);
            assert(sub.drop_last() =~= es.subrange(0, i as int));
            assert(sub.last() == es[i as int]);
        }
    }
    assert(es.subrange(0, entries.len() as int) =~= es);
    conflicted_files(&named, ours)
}

} // verus!
