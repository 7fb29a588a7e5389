use vstd::prelude::*;
use crate::error::{MalformedReason, RagError};

verus! {

/// What `serde_json::from_str::<serde_json::Value>` makes of a text: `None`
/// when it does not parse, `Some(None)` when it parses to something other
/// than an object, and `Some(Some(entries))` for an object, with each key and
/// its value when that value is a JSON string (`None` for any other value).
pub uninterp spec fn json_document(s: Seq<char>) -> Option<Option<Seq<(Seq<char>, Option<Seq<char>>)>>>;

/// The entries of an object, as plain sequences.
pub open spec fn entries_view(v: Seq<(String, Option<String>)>) -> Seq<(Seq<char>, Option<Seq<char>>)> {
    v.map_values(|e: (String, Option<String>)| (e.0@, match e.1 { Some(t) => Some(t@), None => None }))
}

/// A parsed document, as plain sequences.
pub open spec fn document_view(d: Option<Option<Vec<(String, Option<String>)>>>) -> Option<Option<Seq<(Seq<char>, Option<Seq<char>>)>>> {
    match d {
        None => None,
        Some(None) => Some(None),
        Some(Some(v)) => Some(Some(entries_view(v@))),
    }
}

/// Relies on serde_json::from_str into serde_json::Value: the value depends on
/// the text alone, and an object can only come from a text that holds `{`.
#[verifier::external_body]
fn parse_document(s: &str) -> (r: Option<Option<Vec<(String, Option<String>)>>>)
    ensures
        document_view(r) == json_document(s@),
        r matches Some(Some(_)) ==> s@.contains('{'),
{
    match serde_json::from_str::<serde_json::Value>(s) {
        Err(_) => None,
        Ok(serde_json::Value::Object(m)) => Some(Some(m.into_iter().map(|(k, v)| match v {
            serde_json::Value::String(t) => (k, Some(t)),
            _ => (k, None),
        }).collect())),
        Ok(_) => Some(None),
    }
}

/// The entries whose value is a string, in their order.
pub open spec fn string_entries(e: Seq<(Seq<char>, Option<Seq<char>>)>) -> Seq<(Seq<char>, Seq<char>)>
    decreases e.len(),
{
    if e.len() == 0 {
        seq![]
    } else {
        let rest = string_entries(e.drop_last());
        match e.last().1 {
            Some(t) => rest.push((e.last().0, t)),
            None => rest,
        }
    }
}

/// A recovered mapping, as plain sequences.
pub open spec fn pairs_view(v: Seq<(String, String)>) -> Seq<(Seq<char>, Seq<char>)> {
    v.map_values(|e: (String, String)| (e.0@, e.1@))
}

/// A result of the recovery parser, as plain sequences.
pub open spec fn outcome_view(r: Result<Vec<(String, String)>, RagError>) -> Result<Seq<(Seq<char>, Seq<char>)>, RagError> {
    match r {
        Ok(v) => Ok(pairs_view(v@)),
        Err(e) => Err(e),
    }
}

/// The mapping that a parsed document gives: the string-valued entries of an
/// object, or an error for anything else.
pub open spec fn from_document(d: Option<Seq<(Seq<char>, Option<Seq<char>>)>>) -> Result<Seq<(Seq<char>, Seq<char>)>, RagError> {
    match d {
        Some(e) => Ok(string_entries(e)),
        None => Err(RagError::MalformedInput(MalformedReason::NotAnObject)),
    }
}

/// The first index at or after `i` where `s` holds `c`.
pub open spec fn find_from(s: Seq<char>, c: char, i: int) -> Option<int>
    decreases s.len() - i,
{
    if i < 0 || i >= s.len() {
        None
    } else if s[i] == c {
        Some(i)
    } else {
        find_from(s, c, i + 1)
    }
}

/// `s` holds a comma at `k` that a double quote follows.
pub open spec fn is_boundary(s: Seq<char>, k: int) -> bool {
    0 <= k && k + 1 < s.len() && s[k] == ',' && s[k + 1] == '"'
}

/// The last boundary `k` with `lo <= k < hi`.
pub open spec fn last_boundary(s: Seq<char>, lo: int, hi: int) -> Option<int>
    decreases hi - lo,
{
    if hi <= lo {
        None
    } else if is_boundary(s, hi - 1) {
        Some(hi - 1)
    } else {
        last_boundary(s, lo, hi - 1)
    }
}

/// The text from the first `{` through the comma at `k`, closed by `"}`.
pub open spec fn repair_candidate(s: Seq<char>, start: int, k: int) -> Seq<char> {
    s.subrange(start, k + 1) + seq!['"', '}']
}

/// What the recovery parser makes of a text: the direct parse when it
/// succeeds; otherwise the text from the first `{` through the last comma
/// after it that a double quote follows, closed by `"}` and parsed again.
pub open spec fn recovered(s: Seq<char>) -> Result<Seq<(Seq<char>, Seq<char>)>, RagError> {
    match json_document(s) {
        Some(d) => from_document(d),
        None => match find_from(s, '{', 0) {
            None => Err(RagError::MalformedInput(MalformedReason::MissingOpeningBrace)),
            Some(start) => match last_boundary(s, start, s.len() as int) {
                None => Err(RagError::MalformedInput(MalformedReason::NoJsonStructure)),
                Some(k) => match json_document(repair_candidate(s, start, k)) {
                    Some(d) => from_document(d),
                    None => Err(RagError::MalformedInput(MalformedReason::RepairFailed)),
                },
            },
        },
    }
}

/// Keeps the string-valued entries of a parsed object; anything that is not
/// an object is an error.
pub fn process_json_object(doc: Option<Vec<(String, Option<String>)>>) -> (r: Result<Vec<(String, String)>, RagError>)
    ensures
        outcome_view(r) == from_document(match doc { Some(v) => Some(entries_view(v@)), None => None }),
{
    match doc {
        None => Err(RagError::MalformedInput(MalformedReason::NotAnObject)),
        Some(entries) => {
            let mut out: Vec<(String, String)> = Vec::new();
            let mut i: usize = 0;
            while i < entries.len()
                invariant
                    0 <= i <= entries@.len(),
                    pairs_view(out@) == string_entries(entries_view(entries@).take(i as int)),
                decreases entries@.len() - i,
            {
                let ghost before = out@;
                proof {
                    assert(entries_view(entries@).take(i + 1).drop_last() =~= entries_view(entries@).take(i as int));
                }
                match &entries[i] {
                    (k, Some(t)) => {
                        out.push((k.clone(), t.clone()));
                        proof {
                            assert(pairs_view(out@) =~= pairs_view(before).push((k@, t@)));
                        }
                    },
                    (_, None) => {},
                }
                i = i + 1;
            }
            proof {
                assert(entries_view(entries@).take(entries@.len() as int) =~= entries_view(entries@));
            }
            Ok(out)
        },
    }
}

/// Parses a model's JSON object of label summaries into its string-valued
/// entries, recovering from one truncation shape: a string value cut off
/// before its closing quote and brace. Any other malformation is an error.
pub fn parse_issue_summary_advanced(input: &str) -> (r: Result<Vec<(String, String)>, RagError>)
    ensures
        outcome_view(r) == recovered(input@),
        !input@.contains('{') ==> r matches Err(RagError::MalformedInput(_)),
{
    match parse_document(input) {
        Some(doc) => process_json_object(doc),
        None => {
            let n = input.unicode_len();
            let mut start: usize = 0;
            while start < n && input.get_char(start) != '{'
                invariant
                    n == input@.len(),
                    0 <= start <= n,
                    find_from(input@, '{', 0) == find_from(input@, '{', start as int),
                    forall|j: int| 0 <= j < start ==> input@[j] != '{',
                decreases n - start,
            {
                start = start + 1;
            }
            if start == n {
                proof {
                    assert(!input@.contains('{'));
                }
                return Err(RagError::MalformedInput(MalformedReason::MissingOpeningBrace));
            }
            let mut k: usize = n;
            while k > start && !(k < n && input.get_char(k - 1) == ',' && input.get_char(k) == '"')
                invariant
                    n == input@.len(),
                    start < n,
                    start <= k <= n,
                    last_boundary(input@, start as int, n as int) == last_boundary(input@, start as int, k as int),
                decreases k,
            {
                k = k - 1;
            }
            if k == start {
                return Err(RagError::MalformedInput(MalformedReason::NoJsonStructure));
            }
            let head = input.substring_char(start, k);
            let mut candidate = String::from_str(head);
            candidate.append("\"}");
            proof {
                reveal_strlit("\"}");
                assert(candidate@ =~= repair_candidate(input@, start as int, k - 1));
            }
            match parse_document(candidate.as_str()) {
                Some(doc) => process_json_object(doc),
                None => Err(RagError::MalformedInput(MalformedReason::RepairFailed)),
            }
        },
    }
}

} // verus!
