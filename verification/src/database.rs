//! The history of transcriptions: its records, and the decisions that
//! surround a query of the store.

use vstd::prelude::*;
use vstd::string::*;
use crate::text::chars_of;

verus! {

/// Shortest query, in characters, that the full-text index can answer.
pub const FULL_TEXT_MIN_CHARS: usize = 3;

/// Entries on a page of the history where the caller names no number.
pub const DEFAULT_PAGE_SIZE: u32 = 20;

/// How far back a summary looks where the caller names no time, in
/// minutes.
pub const DEFAULT_RECENT_MINUTES: u32 = 30;

/// One transcription in the history.
#[derive(Debug)]
pub struct TranscriptionEntry {
    /// Key of the entry; the store gives it out.
    pub id: Option<i64>,
    /// When the entry was made; the store sets it.
    pub created_at: String,
    /// Length of the recording in milliseconds.
    pub duration_ms: Option<u64>,
    /// What was said.
    pub text: String,
    /// What was said before it was rewritten.
    pub raw_text: Option<String>,
    /// The language that was spoken.
    pub language: Option<String>,
    /// Name of the model that transcribed.
    pub model_name: Option<String>,
    /// The pieces of the transcription, as JSON.
    pub segments_json: Option<String>,
}

/// One page of the history.
#[derive(Debug)]
pub struct HistoryPage {
    /// The entries on the page, newest first.
    pub entries: Vec<TranscriptionEntry>,
    /// Number of entries that the query matches in all.
    pub total_count: u32,
    /// Whether entries follow behind this page.
    pub has_more: bool,
}

/// How the store looks for a query.
#[derive(Debug)]
pub enum SearchPlan {
    /// Ask the full-text index for the query.
    FullText(String),
    /// Look for entries whose text matches this pattern, in which `%`
    /// stands for any text.
    Substring(String),
}

/// Whether a query is long enough for the full-text index.
pub open spec fn uses_full_text(query: Seq<char>) -> bool {
    query.len() >= FULL_TEXT_MIN_CHARS
}

/// The pattern that finds a query anywhere in a text.
pub open spec fn substring_pattern(query: Seq<char>) -> Seq<char> {
    "%"@ + query + "%"@
}

/// Chooses how to look for a query: the full-text index answers queries
/// of three characters and more, shorter ones are looked for as
/// substrings.
pub fn plan_search(query: &str) -> (plan: SearchPlan)
    ensures
        match plan {
            SearchPlan::FullText(q) => uses_full_text(query@) && q@ == query@,
            SearchPlan::Substring(p) => !uses_full_text(query@) && p@ == substring_pattern(query@),
        },
{
    let chars = chars_of(query);
    if chars.len() >= FULL_TEXT_MIN_CHARS {
        SearchPlan::FullText(String::from_str(query))
    } else {
        let mut pattern = String::from_str("%");
        pattern.append(query);
        pattern.append("%");
        SearchPlan::Substring(pattern)
    }
}

/// Whether entries follow behind a page: the page ends before the last
/// of `total` entries.
pub open spec fn more_behind(limit: u32, offset: u32, total: u32) -> bool {
    offset + limit < total
}

/// Whether entries follow behind the page of `limit` entries that starts
/// at `offset`, when the query matches `total` entries.
pub fn has_more(limit: u32, offset: u32, total: u32) -> (r: bool)
    ensures
        r == more_behind(limit, offset, total),
{
    (offset as u64) + (limit as u64) < total as u64
}

/// Puts a page together from what the store gave.
pub fn page_of(entries: Vec<TranscriptionEntry>, limit: u32, offset: u32, total: u32) -> (page: HistoryPage)
    ensures
        page.entries == entries,
        page.total_count == total,
        page.has_more == more_behind(limit, offset, total),
{
    HistoryPage { entries, total_count: total, has_more: has_more(limit, offset, total) }
}

/// The page that a caller asks for: `DEFAULT_PAGE_SIZE` entries from the
/// start unless the caller says otherwise.
pub fn page_request(limit: Option<u32>, offset: Option<u32>) -> (r: (u32, u32))
    ensures
        r.0 == match limit {
            Some(l) => l,
            None => DEFAULT_PAGE_SIZE,
        },
        r.1 == match offset {
            Some(o) => o,
            None => 0,
        },
{
    (
        match limit {
            Some(l) => l,
            None => DEFAULT_PAGE_SIZE,
        },
        match offset {
            Some(o) => o,
            None => 0,
        },
    )
}

/// Every page but the last is followed by more, and a page that reaches
/// the end is not.
pub proof fn lemma_pages_cover_the_history(limit: u32, offset: u32, total: u32)
    ensures
        more_behind(limit, offset, total) <==> offset + limit < total,
        offset + limit >= total ==> !more_behind(limit, offset, total),
        more_behind(limit, offset, total) ==> offset < total,
{
}

} // verus!
