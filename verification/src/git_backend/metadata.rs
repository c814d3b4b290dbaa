//! Metadata carried in commit messages: a JSON object of string properties written after a
//! `PLM-Metadata: ` marker, and read back from there.

use vstd::prelude::*;
use crate::text::{owned, push_str, chars_of, find, find_from, has_infix, lemma_find_from_first};
use super::GitBackendError;
use std::collections::HashMap;

verus! {

/// Metadata of a commit: key-value properties. Where a key occurs twice, the later value is
/// the one that counts.
#[derive(Debug, Clone)]
pub struct Metadata {
    /// The properties, as key-value pairs.
    pub properties: Vec<(String, String)>,
}

/// The properties as a map; a later pair replaces an earlier one with the same key.
pub open spec fn pairs_map(v: Seq<(String, String)>) -> Map<Seq<char>, Seq<char>>
    decreases v.len(),
{
    if v.len() == 0 {
        Map::empty()
    } else {
        pairs_map(v.drop_last()).insert(v.last().0@, v.last().1@)
    }
}

/// No key occurs twice.
pub open spec fn distinct_keys(v: Seq<(String, String)>) -> bool {
    forall|i: int, j: int| 0 <= i < j < v.len() ==> (#[trigger] v[i]).0@ != (#[trigger] v[j]).0@
}

/// What `serde_json::from_str` gives when it reads a text as a JSON object whose values are
/// strings: the map it holds, or nothing when the text is not such an object.
pub uninterp spec fn json_string_map(json: Seq<char>) -> Option<Map<Seq<char>, Seq<char>>>;

/// The properties written as a JSON object (`serde_json::to_string` of a map built from the
/// pairs). The order of the keys in the text is that of a `HashMap`, which is not fixed, so
/// the text itself is not stated; what is stated is that it reads back as the properties' map
/// and that writing a map of strings does not fail, as serde_json documents.
#[verifier::external_body]
fn properties_to_json(props: &Vec<(String, String)>) -> (r: Result<String, String>)
    ensures
        match r {
            Ok(j) => json_string_map(j@) == Some(pairs_map(props@)),
            Err(_) => false,
        },
{
    let m: HashMap<&str, &str> = props.iter().map(|p| (p.0.as_str(), p.1.as_str())).collect();
    serde_json::to_string(&m).map_err(|e| e.to_string())
}

/// The properties held by a JSON object of strings (`serde_json::from_str` into a `HashMap`),
/// each key once, in the map's order, which is not fixed.
#[verifier::external_body]
fn json_to_properties(json: &str) -> (r: Option<Vec<(String, String)>>)
    ensures
        match r {
            Some(v) => distinct_keys(v@) && json_string_map(json@) == Some(pairs_map(v@)),
            None => json_string_map(json@) is None,
        },
{
    serde_json::from_str::<HashMap<String, String>>(json).ok().map(|m| m.into_iter().collect())
}

/// The marker that metadata follows in a commit message.
pub open spec fn metadata_marker() -> Seq<char> {
    "PLM-Metadata: "@
}

/// A commit message with metadata: the message, an empty line, the marker and the JSON text.
pub open spec fn metadata_message(message: Seq<char>, json: Seq<char>) -> Seq<char> {
    message + "\n\n"@ + metadata_marker() + json
}

/// The JSON text of a commit message: what follows the first marker, if there is one.
pub open spec fn metadata_json_in(message: Seq<char>) -> Option<Seq<char>> {
    match find_from(message, metadata_marker(), 0) {
        Some(i) => Some(message.subrange(i + metadata_marker().len(), message.len() as int)),
        None => None,
    }
}

/// The properties read back from a commit message: those of the JSON object after the
/// marker, and none where there is no marker or what follows it is no such object.
pub open spec fn metadata_read(message: Seq<char>) -> Map<Seq<char>, Seq<char>> {
    match metadata_json_in(message) {
        Some(j) => match json_string_map(j) {
            Some(m) => m,
            None => Map::empty(),
        },
        None => Map::empty(),
    }
}

/// The commit message that carries `metadata` after `message`.
pub fn commit_message_with_metadata(message: &str, metadata: &Metadata) -> (r: Result<String, GitBackendError>)
    ensures
        r matches Ok(s) && exists|j: Seq<char>| #![auto]
            s@ == metadata_message(message@, j) && json_string_map(j) == Some(pairs_map(metadata.properties@)),
{
    match properties_to_json(&metadata.properties) {
        Ok(json) => {
            let mut s = owned(message);
            push_str(&mut s, "\n\nPLM-Metadata: ");
            push_str(&mut s, json.as_str());
            proof {
                reveal_strlit("\n\nPLM-Metadata: ");
                reveal_strlit("\n\n");
                reveal_strlit("PLM-Metadata: ");
                assert(s@ =~= metadata_message(message@, json@));
            }
            Ok(s)
        },
        Err(e) => {
            let mut m = owned("Failed to serialize metadata: ");
            push_str(&mut m, e.as_str());
            Err(GitBackendError::Other(m))
        },
    }
}

/// The JSON text of a commit message: what follows the first marker.
pub fn metadata_json_of(message: &str) -> (r: Option<String>)
    ensures
        match r {
            Some(j) => metadata_json_in(message@) == Some(j@),
            None => metadata_json_in(message@) is None,
        },
{
    let v = chars_of(message);
    let marker = chars_of("PLM-Metadata: ");
    proof {
        reveal_strlit("PLM-Metadata: ");
        crate::text::lemma_find_from_spec(v@, marker@, 0);
    }
    match find(&v, &marker) {
        Some(i) => {
            assert(marker@.len() == 14);
            assert(i + marker@.len() <= v@.len());
            assert(i + 14 <= v.len());
            let mut r = String::new();
            let mut k: usize = i + 14;
            let ghost start = k as int;
            assert(r@ =~= v@.subrange(start, k as int));
            while k < v.len()
                invariant
                    0 <= start <= k <= v.len(),
                    r@ == v@.subrange(start, k as int),
                decreases v.len() - k,
            {
                crate::text::push_char(&mut r, v[k]);
                assert(v@.subrange(start, k + 1) =~= v@.subrange(start, k as int).push(v@[k as int]));
                k = k + 1;
            }
            Some(r)
        },
        None => None,
    }
}

/// The metadata of a commit, from its message (none where the message is not valid UTF-8):
/// the properties of the JSON object after the first marker; none where there is no marker
/// or no such object follows it.
pub fn get_commit_metadata(message: Option<&str>) -> (r: Result<Metadata, GitBackendError>)
    ensures
        message is None ==> (r matches Err(GitBackendError::Other(m)) && m@ == "Commit message is not valid UTF-8"@),
        message matches Some(t) ==> (r matches Ok(md) && pairs_map(md.properties@) == metadata_read(t@)
            && distinct_keys(md.properties@)),
{
    let message = match message {
        Some(t) => t,
        None => return Err(GitBackendError::Other(owned("Commit message is not valid UTF-8"))),
    };
    let empty: Vec<(String, String)> = Vec::new();
    assert(pairs_map(empty@) =~= Map::empty());
    match metadata_json_of(message) {
        Some(json) => match json_to_properties(json.as_str()) {
            Some(properties) => Ok(Metadata { properties }),
            None => Ok(Metadata { properties: empty }),
        },
        None => Ok(Metadata { properties: empty }),
    }
}

/// The JSON text written after a message that holds no marker is what is read back: the
/// first marker of the whole commit message is the one put after the message.
pub proof fn law_metadata_text_round_trip(message: Seq<char>, json: Seq<char>)
    requires
        !has_infix(message, metadata_marker()),
    ensures
        metadata_json_in(metadata_message(message, json)) == Some(json),
{
    reveal_strlit("PLM-Metadata: ");
    reveal_strlit("\n\n");
    let p = metadata_marker();
    let s = metadata_message(message, json);
    let n = message.len() as int;
    let k = n + 2;
    assert(s.subrange(k, k + p.len()) =~= p);
    assert forall|j: int| 0 <= j < k implies #[trigger] s.subrange(j, j + p.len()) != p by {
        if j + p.len() <= n {
            assert(s.subrange(j, j + p.len()) =~= message.subrange(j, j + p.len()));
        } else if j <= n {
            let t = n - j;
            assert(0 <= t < p.len());
            assert(s.subrange(j, j + p.len())[t] == '\n');
            assert(p[t] != '\n');
        } else {
            assert(s.subrange(j, j + p.len())[0] == '\n');
        }
    }
    lemma_find_from_first(s, p, 0, k);
    assert(s.subrange(k + p.len(), s.len() as int) =~= json);
}

/// Metadata written with a commit is what is read back from its message, as a map of
/// properties, for a message that holds no marker of its own.
pub proof fn law_metadata_round_trip(message: Seq<char>, json: Seq<char>, properties: Seq<(String, String)>)
    requires
        !has_infix(message, metadata_marker()),
        json_string_map(json) == Some(pairs_map(properties)),
    ensures
        metadata_read(metadata_message(message, json)) == pairs_map(properties),
{
    law_metadata_text_round_trip(message, json);
}

} // verus!
