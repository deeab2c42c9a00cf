//! The per-archive decisions of the reconciliation loop. The loop itself
//! performs each action (search, prompt, fetch, write-back, record) and hands
//! the result back to the next decision.
use vstd::prelude::*;
use crate::archive::{Archive, joined_tags, tags_are_empty};
use crate::eh::select_candidate;
use crate::title::extracted_title;

verus! {

/// Why an archive was not resolved.
#[derive(Debug, PartialEq, Eq, Structural, Clone, Copy)]
pub enum Unresolved {
    NoTitleMatch,
    NoSearchResults,
    OperatorSkip,
    /// The search or the detail fetch failed.
    FetchFailed,
}

/// What the loop does next for one archive.
#[derive(Debug)]
pub enum Action {
    /// The archive already has tags: leave it alone.
    Pass,
    /// Search the catalog for this phrase.
    Search(String),
    /// Show the ranked candidates and ask for a 1-based choice.
    AskChoice(usize),
    /// Fetch the tags of the candidate at this 0-based position.
    FetchTags(usize),
    /// Write these merged tags back to the archive server.
    WriteBack(String),
    /// Append the archive to the unresolved-item ledger.
    Record(Unresolved),
    /// The archive is done.
    Done,
    /// Stop the whole run: the write-back failed.
    Abort,
}

impl Archive {
    /// The first decision for an archive: leave tagged archives alone, record
    /// those without a search phrase, search for the others.
    pub fn first_action(&self) -> (r: Action)
        ensures
            !tags_are_empty(self.tags@) ==> r is Pass,
            tags_are_empty(self.tags@) && extracted_title(self.title@).len() == 0 ==> r
                == Action::Record(Unresolved::NoTitleMatch),
            tags_are_empty(self.tags@) && extracted_title(self.title@).len() > 0 ==> (r matches Action::Search(
                p,
            ) && p@ == extracted_title(self.title@)),
    {
        if !self.is_empty_tags() {
            return Action::Pass;
        }
        let phrase = self.regex_title();
        if phrase.as_str().unicode_len() == 0 {
            Action::Record(Unresolved::NoTitleMatch)
        } else {
            Action::Search(phrase)
        }
    }

    /// After the candidate tags were fetched: write the merged tags back, or
    /// record the archive when the fetch failed.
    pub fn after_tags<E>(&self, fetched: Result<String, E>) -> (r: Action)
        ensures
            fetched is Err ==> r == Action::Record(Unresolved::FetchFailed),
            fetched matches Ok(t) ==> (r matches Action::WriteBack(m) && m@ == joined_tags(
                self.tags@,
                t@,
            )),
    {
        match fetched {
            Ok(t) => Action::WriteBack(self.merged_tags(t.as_str())),
            Err(_) => Action::Record(Unresolved::FetchFailed),
        }
    }
}

/// After the search: record the archive when it failed or found nothing,
/// otherwise ask the operator to choose among the candidates.
pub fn after_search<E>(found: Result<usize, E>) -> (r: Action)
    ensures
        found is Err ==> r == Action::Record(Unresolved::FetchFailed),
        found == Ok::<usize, E>(0) ==> r == Action::Record(Unresolved::NoSearchResults),
        found matches Ok(n) ==> (n > 0 ==> r == Action::AskChoice(n)),
{
    match found {
        Err(_) => Action::Record(Unresolved::FetchFailed),
        Ok(n) => if n == 0 {
            Action::Record(Unresolved::NoSearchResults)
        } else {
            Action::AskChoice(n)
        },
    }
}

/// After the operator answered with `index` among `count` candidates: fetch
/// the chosen one, or record the archive on a skip (0 or out of range).
pub fn after_choice(index: i32, count: usize) -> (r: Action)
    ensures
        1 <= index <= count ==> r == Action::FetchTags((index - 1) as usize),
        !(1 <= index <= count) ==> r == Action::Record(Unresolved::OperatorSkip),
{
    match select_candidate(index, count) {
        Some(i) => Action::FetchTags(i),
        None => Action::Record(Unresolved::OperatorSkip),
    }
}

/// After the write-back: done when the server accepted it, otherwise stop
/// the whole run.
pub fn after_write_back(accepted: bool) -> (r: Action)
    ensures
        accepted ==> r is Done,
        !accepted ==> r is Abort,
{
    if accepted {
        Action::Done
    } else {
        Action::Abort
    }
}

} // verus!
