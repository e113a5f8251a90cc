//! What the commands of the user interface decide before and after they
//! turn to the engine and the store.

use vstd::prelude::*;
use vstd::string::*;
use crate::database::{TranscriptionEntry, DEFAULT_RECENT_MINUTES};
use crate::text::opt_text;
use crate::types::{PostProcessSettings, SummarizeEntry};

verus! {

/// How far back a summary looks, in minutes: `DEFAULT_RECENT_MINUTES`
/// unless the caller says otherwise.
pub fn recent_minutes(minutes: Option<u32>) -> (r: u32)
    ensures
        r == match minutes {
            Some(m) => m,
            None => DEFAULT_RECENT_MINUTES,
        },
{
    match minutes {
        Some(m) => m,
        None => DEFAULT_RECENT_MINUTES,
    }
}

/// The language of the first entry that has one.
pub open spec fn first_language(entries: Seq<TranscriptionEntry>) -> Option<Seq<char>>
    decreases entries.len(),
{
    if entries.len() == 0 {
        None
    } else {
        match entries[0].language {
            Some(l) => Some(l@),
            None => first_language(entries.drop_first()),
        }
    }
}

/// The language to tell the summariser: that of the first entry that has
/// one.
pub fn language_of(entries: &Vec<TranscriptionEntry>) -> (r: Option<String>)
    ensures
        opt_text(r) == first_language(entries@),
{
    let mut i: usize = 0;
    assert(entries@.skip(0) =~= entries@);
    while i < entries.len()
        invariant
            i <= entries@.len(),
            first_language(entries@) == first_language(entries@.skip(i as int)),
        decreases entries@.len() - i,
    {
        proof {
            assert(entries@.skip(i as int).drop_first() =~= entries@.skip(i + 1));
            assert(entries@.skip(i as int)[0] == entries@[i as int]);
        }
        match &entries[i].language {
            Some(l) => {
                return Some(l.clone());
            },
            None => {},
        }
        i = i + 1;
    }
    assert(entries@.skip(i as int).len() == 0);
    None
}

/// What the summariser is given of the entries of the history: text and
/// time of each, in the same order.
pub fn summarize_entries(entries: &Vec<TranscriptionEntry>) -> (r: Vec<SummarizeEntry>)
    ensures
        r@.len() == entries@.len(),
        forall|i: int|
            0 <= i < entries@.len() ==> (#[trigger] r@[i]).text@ == entries@[i].text@ && r@[i].created_at@
                == entries@[i].created_at@,
{
    let mut r: Vec<SummarizeEntry> = Vec::new();
    let mut i: usize = 0;
    while i < entries.len()
        invariant
            i <= entries@.len(),
            r@.len() == i,
            forall|k: int|
                0 <= k < i ==> (#[trigger] r@[k]).text@ == entries@[k].text@ && r@[k].created_at@
                    == entries@[k].created_at@,
        decreases entries@.len() - i,
    {
        r.push(
            SummarizeEntry { text: entries[i].text.clone(), created_at: entries[i].created_at.clone() },
        );
        i = i + 1;
    }
    r
}

/// The dictionary to send along with a text: none where it is empty.
pub fn dictionary_to_send(settings: &PostProcessSettings) -> (r: Option<&Vec<(String, String)>>)
    ensures
        match r {
            Some(d) => settings.dictionary@.len() > 0 && *d == settings.dictionary,
            None => settings.dictionary@.len() == 0,
        },
{
    if settings.dictionary.len() == 0 {
        None
    } else {
        Some(&settings.dictionary)
    }
}

} // verus!
