//! Parts and the numbers they are displayed under.

use vstd::prelude::*;
use crate::text::{
    signed_decimal, uppercase, first_chars, to_uppercase, take_chars, i64_to_decimal, owned,
    push_str, chars_of, string_of,
};
use crate::clock::system_now;
use std::time::SystemTime;

verus! {

/// Represents a part.
#[derive(Debug, Clone)]
pub struct Part {
    /// Sequential number of the part.
    pub part_id: i64,
    /// Category of the part.
    pub category: String,
    /// Subcategory of the part.
    pub subcategory: String,
    /// Name of the part.
    pub name: String,
    /// Description of the part.
    pub description: Option<String>,
    /// When the part was created.
    pub created_date: SystemTime,
    /// When the part was last modified.
    pub modified_date: SystemTime,
}

impl Part {
    /// Creates a part, stamped as created and modified now.
    pub fn new(
        part_id: i64,
        category: String,
        subcategory: String,
        name: String,
        description: Option<String>,
    ) -> (r: Part)
        ensures
            r.part_id == part_id,
            r.category == category,
            r.subcategory == subcategory,
            r.name == name,
            r.description == description,
            r.created_date == r.modified_date,
    {
        let now = system_now();
        Part {
            part_id,
            category,
            subcategory,
            name,
            description,
            created_date: now,
            modified_date: now,
        }
    }

    /// The number this part is displayed under, given the codes that the database records for
    /// its category and subcategory, if any.
    pub fn display_part_number(&self, category_code: Option<String>, subcategory_code: Option<String>) -> (r: String)
        ensures
            r@ == display_number(
                code_or(category_code, self.category@, 2),
                code_or(subcategory_code, self.subcategory@, 3),
                self.part_id as int,
            ),
    {
        Part::generate_display_part_number(category_code, subcategory_code, self.category.as_str(), self.subcategory.as_str(), self.part_id)
    }

    /// The display part number of a part with the given category, subcategory and sequence number;
    /// the codes are those that the database records, if any.
    pub fn generate_display_part_number(
        category_code: Option<String>,
        subcategory_code: Option<String>,
        category: &str,
        subcategory: &str,
        sequence: i64,
    ) -> (r: String)
        ensures
            r@ == display_number(code_or(category_code, category@, 2), code_or(subcategory_code, subcategory@, 3), sequence as int),
    {
        let c = match category_code {
            Some(c) => c,
            None => fallback_code_of(category, 2),
        };
        let s = match subcategory_code {
            Some(s) => s,
            None => fallback_code_of(subcategory, 3),
        };
        let mut r = c;
        push_str(&mut r, "-");
        push_str(&mut r, s.as_str());
        push_str(&mut r, "-");
        let n = i64_to_decimal(sequence);
        push_str(&mut r, n.as_str());
        r
    }
}

/// The code used for a category or subcategory that the database records no code for: the
/// first `n` characters of its name, in upper case.
pub open spec fn fallback_code(name: Seq<char>, n: nat) -> Seq<char> {
    uppercase(first_chars(name, n))
}

/// The recorded code, or the fallback code.
pub open spec fn code_or(code: Option<String>, name: Seq<char>, n: nat) -> Seq<char> {
    match code {
        Some(c) => c@,
        None => fallback_code(name, n),
    }
}

/// A display part number: category code, subcategory code and sequence number, joined by
/// hyphens.
pub open spec fn display_number(category_code: Seq<char>, subcategory_code: Seq<char>, sequence: int) -> Seq<char> {
    category_code + "-"@ + subcategory_code + "-"@ + signed_decimal(sequence)
}

/// The fallback code of a category or subcategory name.
pub fn fallback_code_of(name: &str, n: usize) -> (r: String)
    ensures
        r@ == fallback_code(name@, n as nat),
{
    let head = take_chars(name, n);
    to_uppercase(head.as_str())
}

/// Index of the first hyphen at or after `i`, or the length.
pub open spec fn hyphen_at_or_after(s: Seq<char>, i: int) -> int
    decreases s.len() - i,
{
    if i >= s.len() {
        s.len() as int
    } else if s[i] == '-' {
        i
    } else {
        hyphen_at_or_after(s, i + 1)
    }
}

proof fn lemma_hyphen_bounds(s: Seq<char>, i: int)
    requires
        0 <= i <= s.len(),
    ensures
        i <= hyphen_at_or_after(s, i) <= s.len(),
        hyphen_at_or_after(s, i) < s.len() ==> s[hyphen_at_or_after(s, i)] == '-',
    decreases s.len() - i,
{
    if i < s.len() && s[i] != '-' {
        lemma_hyphen_bounds(s, i + 1);
    }
}

/// The first two hyphen-separated fields of a display part number (its category and
/// subcategory codes), when it has at least two.
pub open spec fn number_codes(s: Seq<char>) -> Option<(Seq<char>, Seq<char>)> {
    let i = hyphen_at_or_after(s, 0);
    if i >= s.len() {
        None
    } else {
        let j = hyphen_at_or_after(s, i + 1);
        Some((s.subrange(0, i), s.subrange(i + 1, j)))
    }
}

fn hyphen_from(v: &Vec<char>, i: usize) -> (r: usize)
    requires
        i <= v.len(),
    ensures
        r == hyphen_at_or_after(v@, i as int),
{
    let mut k = i;
    while k < v.len() && v[k] != '-'
        invariant
            i <= k <= v.len(),
            hyphen_at_or_after(v@, k as int) == hyphen_at_or_after(v@, i as int),
        decreases v.len() - k,
    {
        k = k + 1;
    }
    k
}

fn chars_between(v: &Vec<char>, from: usize, to: usize) -> (r: String)
    requires
        from <= to <= v.len(),
    ensures
        r@ == v@.subrange(from as int, to as int),
{
    let mut out: Vec<char> = Vec::new();
    let mut k = from;
    while k < to
        invariant
            from <= k <= to <= v.len(),
            out@ == v@.subrange(from as int, k as int),
        decreases to - k,
    {
        out.push(v[k]);
        assert(v@.subrange(from as int, k + 1) == v@.subrange(from as int, k as int).push(v@[k as int]));
        k = k + 1;
    }
    string_of(&out)
}

/// The category and subcategory codes of a display part number, when it has them.
pub fn display_number_codes(display_part_number: &str) -> (r: Option<(String, String)>)
    ensures
        match r {
            Some((c, s)) => number_codes(display_part_number@) == Some((c@, s@)),
            None => number_codes(display_part_number@) is None,
        },
{
    let v = chars_of(display_part_number);
    proof {
        lemma_hyphen_bounds(v@, 0);
    }
    let i = hyphen_from(&v, 0);
    if i >= v.len() {
        return None;
    }
    proof {
        lemma_hyphen_bounds(v@, i + 1);
    }
    let j = hyphen_from(&v, i + 1);
    Some((chars_between(&v, 0, i), chars_between(&v, i + 1, j)))
}

proof fn lemma_hyphen_first(s: Seq<char>, i: int, k: int)
    requires
        0 <= i <= k < s.len(),
        s[k] == '-',
        forall|m: int| i <= m < k ==> s[m] != '-',
    ensures
        hyphen_at_or_after(s, i) == k,
    decreases k - i,
{
    if i < k {
        lemma_hyphen_first(s, i + 1, k);
    }
}

/// The codes that a display part number is made from are read back from it, where neither
/// code holds a hyphen.
pub proof fn law_display_number_codes_round_trip(category_code: Seq<char>, subcategory_code: Seq<char>, sequence: int)
    requires
        forall|m: int| 0 <= m < category_code.len() ==> category_code[m] != '-',
        forall|m: int| 0 <= m < subcategory_code.len() ==> subcategory_code[m] != '-',
    ensures
        number_codes(display_number(category_code, subcategory_code, sequence)) == Some((category_code, subcategory_code)),
{
    reveal_strlit("-");
    let d = display_number(category_code, subcategory_code, sequence);
    let a = category_code.len() as int;
    let b = subcategory_code.len() as int;
    assert(d[a] == '-');
    assert forall|m: int| 0 <= m < a implies d[m] != '-' by {
        assert(d[m] == category_code[m]);
    }
    lemma_hyphen_first(d, 0, a);
    assert(d[a + 1 + b] == '-');
    assert forall|m: int| a + 1 <= m < a + 1 + b implies d[m] != '-' by {
        assert(d[m] == subcategory_code[m - a - 1]);
    }
    lemma_hyphen_first(d, a + 1, a + 1 + b);
    assert(d.subrange(0, a) =~= category_code);
    assert(d.subrange(a + 1, a + 1 + b) =~= subcategory_code);
}

} // verus!
