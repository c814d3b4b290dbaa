//! Revisions of parts, their statuses and version numbering.

use vstd::prelude::*;
use crate::text::{str_eq, parse_unsigned, chars_of, parse_u64, u64_to_decimal, decimal, owned};
use crate::clock::system_now;
use std::time::SystemTime;

verus! {

/// Status of a revision.
#[derive(Debug, Clone, Copy, PartialEq, Eq, Structural)]
pub enum RevisionStatus {
    /// Initial state; the revision can be edited.
    Draft,
    /// Under review.
    InReview,
    /// Approved and released.
    Released,
    /// No longer active.
    Obsolete,
}

/// The text under which each revision status is stored.
pub open spec fn revision_status_text(s: RevisionStatus) -> Seq<char> {
    match s {
        RevisionStatus::Draft => "Draft"@,
        RevisionStatus::InReview => "In Review"@,
        RevisionStatus::Released => "Released"@,
        RevisionStatus::Obsolete => "Obsolete"@,
    }
}

/// The status stored under a text, if any.
pub open spec fn revision_status_parse(t: Seq<char>) -> Option<RevisionStatus> {
    if t == "Draft"@ {
        Some(RevisionStatus::Draft)
    } else if t == "In Review"@ {
        Some(RevisionStatus::InReview)
    } else if t == "Released"@ {
        Some(RevisionStatus::Released)
    } else if t == "Obsolete"@ {
        Some(RevisionStatus::Obsolete)
    } else {
        None
    }
}

/// Reading back the text of a status gives the status; a text that reads as a status is that
/// status's text.
pub proof fn law_revision_status_round_trip(s: RevisionStatus, t: Seq<char>)
    ensures
        revision_status_parse(revision_status_text(s)) == Some(s),
        revision_status_parse(t) matches Some(x) ==> revision_status_text(x) == t,
{
    reveal_strlit("Draft");
    reveal_strlit("In Review");
    reveal_strlit("Released");
    reveal_strlit("Obsolete");
    assert("Draft"@.len() != "In Review"@.len());
    assert("Draft"@.len() != "Released"@.len());
    assert("Draft"@.len() != "Obsolete"@.len());
    assert("In Review"@.len() != "Released"@.len());
    assert("In Review"@.len() != "Obsolete"@.len());
    assert("Released"@[0] != "Obsolete"@[0]);
}

impl RevisionStatus {
    /// Parses the stored text of a status; `None` for any other text.
    pub fn from_str(status: &str) -> (r: Option<RevisionStatus>)
        ensures
            r == revision_status_parse(status@),
    {
        if str_eq(status, "Draft") {
            Some(RevisionStatus::Draft)
        } else if str_eq(status, "In Review") {
            Some(RevisionStatus::InReview)
        } else if str_eq(status, "Released") {
            Some(RevisionStatus::Released)
        } else if str_eq(status, "Obsolete") {
            Some(RevisionStatus::Obsolete)
        } else {
            None
        }
    }

    /// The stored text of this status.
    pub fn to_str(&self) -> (r: &'static str)
        ensures
            r@ == revision_status_text(*self),
    {
        match self {
            RevisionStatus::Draft => "Draft",
            RevisionStatus::InReview => "In Review",
            RevisionStatus::Released => "Released",
            RevisionStatus::Obsolete => "Obsolete",
        }
    }
}

/// The status stored under a text, read as a draft when the text names none.
pub fn stored_revision_status(t: &str) -> (r: RevisionStatus)
    ensures
        r == match revision_status_parse(t@) {
            Some(s) => s,
            None => RevisionStatus::Draft,
        },
{
    match RevisionStatus::from_str(t) {
        Some(s) => s,
        None => RevisionStatus::Draft,
    }
}

/// Represents a revision of a part.
#[derive(Debug, Clone)]
pub struct Revision {
    /// Unique identifier for the revision.
    pub revision_id: Option<i64>,
    /// Part this revision belongs to.
    pub part_id: i64,
    /// Version of the revision.
    pub version: String,
    /// Status of the revision.
    pub status: RevisionStatus,
    /// When the revision was created.
    pub created_date: SystemTime,
    /// User who created the revision.
    pub created_by: String,
    /// Git commit associated with this revision.
    pub commit_hash: Option<String>,
}

impl Revision {
    /// Creates a revision, stamped with the current time.
    pub fn new(
        part_id: i64,
        version: String,
        status: RevisionStatus,
        created_by: String,
        commit_hash: Option<String>,
    ) -> (r: Revision)
        ensures
            r.revision_id is None,
            r.part_id == part_id,
            r.version == version,
            r.status == status,
            r.created_by == created_by,
            r.commit_hash == commit_hash,
    {
        Revision {
            revision_id: None,
            part_id,
            version,
            status,
            created_date: system_now(),
            created_by,
            commit_hash,
        }
    }
}

/// The version that follows the highest version recorded for a part: one more than it when it
/// reads as an unsigned 32-bit number, and `1` otherwise (also when there is none).
pub open spec fn next_version_text(max_version: Option<Seq<char>>) -> Seq<char> {
    match max_version {
        Some(v) => match parse_unsigned(v, u32::MAX as nat) {
            Some(n) => decimal(n + 1),
            None => "1"@,
        },
        None => "1"@,
    }
}

/// The highest recorded version reads as the largest unsigned 32-bit number, whose successor
/// does not exist.
pub open spec fn version_at_limit(max_version: Option<Seq<char>>) -> bool {
    max_version matches Some(v) && parse_unsigned(v, u32::MAX as nat) == Some(u32::MAX as nat)
}

/// The largest of the versions that read as unsigned 32-bit numbers, if any does.
pub open spec fn largest_version(vs: Seq<Seq<char>>) -> Option<nat>
    decreases vs.len(),
{
    if vs.len() == 0 {
        None
    } else {
        let rest = largest_version(vs.drop_last());
        match parse_unsigned(vs.last(), u32::MAX as nat) {
            Some(n) => match rest {
                Some(m) => Some(if n > m { n } else { m }),
                None => Some(n),
            },
            None => rest,
        }
    }
}

/// The version that follows the recorded versions of a part: one more than the largest that
/// reads as an unsigned 32-bit number, and `1` where none does.
pub open spec fn next_version_after(vs: Seq<Seq<char>>) -> Seq<char> {
    match largest_version(vs) {
        Some(n) => decimal(n + 1),
        None => "1"@,
    }
}

/// The texts held by a list of strings.
pub open spec fn version_views(vs: Seq<String>) -> Seq<Seq<char>> {
    vs.map_values(|v: String| v@)
}

/// The next version for a part whose recorded versions are `versions`, compared as numbers.
pub fn next_version_among(versions: &Vec<String>) -> (r: String)
    requires
        largest_version(version_views(versions@)) != Some(u32::MAX as nat),
    ensures
        r@ == next_version_after(version_views(versions@)),
{
    let ghost vs = version_views(versions@);
    let mut best: Option<u64> = None;
    for i in 0..versions.len()
        invariant
            vs == version_views(versions@),
            match best {
                Some(b) => largest_version(vs.take(i as int)) == Some(b as nat),
                None => largest_version(vs.take(i as int)) is None,
            },
            best matches Some(b) ==> b <= u32::MAX,
    {
        assert(vs.take(i + 1).drop_last() =~= vs.take(i as int));
        assert(vs.take(i + 1).last() == versions@[i as int]@);
        let c = chars_of(versions[i].as_str());
        match parse_u64(&c) {
            Some(n) => {
                if n <= 4294967295u64 {
                    best = match best {
                        Some(b) => if n > b { Some(n) } else { Some(b) },
                        None => Some(n),
                    };
                }
            },
            None => {},
        }
    }
    assert(vs.take(versions.len() as int) =~= vs);
    match best {
        Some(b) => {
            assert(b < u32::MAX);
            u64_to_decimal(b + 1)
        },
        None => owned("1"),
    }
}

/// The next version for a part whose highest recorded version is `max_version`.
pub fn next_version(max_version: Option<String>) -> (r: String)
    requires
        !version_at_limit(match max_version {
            Some(v) => Some(v@),
            None => None,
        }),
    ensures
        r@ == next_version_text(match max_version {
            Some(v) => Some(v@),
            None => None,
        }),
{
    match max_version {
        Some(v) => {
            let c = chars_of(v.as_str());
            match parse_u64(&c) {
                Some(n) => {
                    if n <= 4294967295u64 {
                        u64_to_decimal(n + 1)
                    } else {
                        owned("1")
                    }
                },
                None => {
                    proof {
                        assert(parse_unsigned(v@, u32::MAX as nat) is None);
                    }
                    owned("1")
                },
            }
        },
        None => owned("1"),
    }
}

/// The status named by a text that the command interface accepts (`Draft`, `InReview`,
/// `Released` or `Obsolete`), or the message that rejects any other text.
pub open spec fn command_revision_status(t: Seq<char>) -> Result<RevisionStatus, Seq<char>> {
    if t == "Draft"@ {
        Ok(RevisionStatus::Draft)
    } else if t == "InReview"@ {
        Ok(RevisionStatus::InReview)
    } else if t == "Released"@ {
        Ok(RevisionStatus::Released)
    } else if t == "Obsolete"@ {
        Ok(RevisionStatus::Obsolete)
    } else {
        Err("Invalid revision status: "@ + t)
    }
}

/// The name of a status as the command interface writes and reads it.
pub open spec fn command_status_name(s: RevisionStatus) -> Seq<char> {
    match s {
        RevisionStatus::Draft => "Draft"@,
        RevisionStatus::InReview => "InReview"@,
        RevisionStatus::Released => "Released"@,
        RevisionStatus::Obsolete => "Obsolete"@,
    }
}

/// The name of a status as the command interface writes it.
pub fn command_status_text(s: RevisionStatus) -> (r: &'static str)
    ensures
        r@ == command_status_name(s),
{
    match s {
        RevisionStatus::Draft => "Draft",
        RevisionStatus::InReview => "InReview",
        RevisionStatus::Released => "Released",
        RevisionStatus::Obsolete => "Obsolete",
    }
}

/// The command interface reads back the name it writes for a status.
pub proof fn law_command_status_round_trip(s: RevisionStatus)
    ensures
        command_revision_status(command_status_name(s)) == Ok::<RevisionStatus, Seq<char>>(s),
{
    reveal_strlit("Draft");
    reveal_strlit("InReview");
    reveal_strlit("Released");
    reveal_strlit("Obsolete");
    assert("Draft"@.len() == 5 && "InReview"@.len() == 8 && "Released"@.len() == 8 && "Obsolete"@.len() == 8);
    assert("Released"@[0] != "InReview"@[0] && "Obsolete"@[0] != "InReview"@[0]);
    assert("Obsolete"@[0] != "Released"@[0]);
}

/// Reads a status as the command interface names it.
pub fn parse_command_revision_status(t: &str) -> (r: Result<RevisionStatus, String>)
    ensures
        match r {
            Ok(s) => command_revision_status(t@) == Ok::<RevisionStatus, Seq<char>>(s),
            Err(m) => command_revision_status(t@) == Err::<RevisionStatus, Seq<char>>(m@),
        },
{
    if str_eq(t, "Draft") {
        Ok(RevisionStatus::Draft)
    } else if str_eq(t, "InReview") {
        Ok(RevisionStatus::InReview)
    } else if str_eq(t, "Released") {
        Ok(RevisionStatus::Released)
    } else if str_eq(t, "Obsolete") {
        Ok(RevisionStatus::Obsolete)
    } else {
        let mut m = owned("Invalid revision status: ");
        crate::text::push_str(&mut m, t);
        Err(m)
    }
}

} // verus!
