//! What a search result says of one repository.

use crate::text::{chars_of, decimal, string_of};
use vstd::prelude::*;
use vstd::string::*;

verus! {

/// One repository of a result page. A field is `None` where the search
/// service left it out.
#[derive(Debug)]
pub struct RepositorySummary {
    pub full_name: Option<String>,
    pub stargazers_count: Option<u32>,
    pub forks_count: Option<u32>,
    pub language: Option<String>,
    pub description: Option<String>,
    /// The size of the repository in kilobytes.
    pub size: Option<u32>,
    /// The address of the repository's page.
    pub html_url: Option<String>,
}

/// The text of an optional field, or `fallback` where it is missing.
pub open spec fn text_or(field: Option<String>, fallback: Seq<char>) -> Seq<char> {
    match field {
        Some(s) => s@,
        None => fallback,
    }
}

/// The value of an optional count, or zero where it is missing.
pub open spec fn count_or_zero(field: Option<u32>) -> nat {
    match field {
        Some(n) => n as nat,
        None => 0,
    }
}

/// A copy of an optional text, or `fallback` where it is missing.
pub fn text_or_else(field: &Option<String>, fallback: &str) -> (s: String)
    ensures
        s@ == text_or(*field, fallback@),
{
    match field {
        Some(text) => text.clone(),
        None => String::from_str(fallback),
    }
}

/// An optional count, or zero where it is missing.
pub fn count_or_default(field: Option<u32>) -> (n: u64)
    ensures
        n == count_or_zero(field),
{
    match field {
        Some(n) => n as u64,
        None => 0,
    }
}

impl RepositorySummary {
    /// The name shown for the repository.
    pub open spec fn name_text(self) -> Seq<char> {
        text_or(self.full_name, "Unknown"@)
    }

    /// The language shown for the repository.
    pub open spec fn language_text(self) -> Seq<char> {
        text_or(self.language, "Unknown"@)
    }

    /// The description shown for the repository.
    pub open spec fn description_text(self) -> Seq<char> {
        text_or(self.description, "No description"@)
    }

    /// The address shown for the repository: empty where it has none.
    pub open spec fn url_text(self) -> Seq<char> {
        text_or(self.html_url, Seq::empty())
    }

    /// The star count shown for the repository, in base ten.
    pub open spec fn stars_text(self) -> Seq<char> {
        decimal(count_or_zero(self.stargazers_count))
    }

    /// The fork count shown for the repository, in base ten.
    pub open spec fn forks_text(self) -> Seq<char> {
        decimal(count_or_zero(self.forks_count))
    }

    /// The size shown for the repository, in base ten.
    pub open spec fn size_text(self) -> Seq<char> {
        decimal(count_or_zero(self.size))
    }
}

/// A text without the slashes at its end.
pub open spec fn without_trailing_slashes(s: Seq<char>) -> Seq<char>
    decreases s.len(),
{
    if s.len() > 0 && s.last() == '/' {
        without_trailing_slashes(s.drop_last())
    } else {
        s
    }
}

/// What follows the last slash of a text: all of it, where it has none.
pub open spec fn last_segment(s: Seq<char>) -> Seq<char>
    decreases s.len(),
{
    if s.len() == 0 || s.last() == '/' {
        Seq::empty()
    } else {
        last_segment(s.drop_last()).push(s.last())
    }
}

/// Whether a text ends in `.git`.
pub open spec fn ends_in_git(s: Seq<char>) -> bool {
    &&& s.len() >= 4
    &&& s[s.len() - 4] == '.'
    &&& s[s.len() - 3] == 'g'
    &&& s[s.len() - 2] == 'i'
    &&& s[s.len() - 1] == 't'
}

/// A text without the `.git` at its end, however often it stands there.
pub open spec fn without_git_suffix(s: Seq<char>) -> Seq<char>
    decreases s.len(),
{
    if ends_in_git(s) {
        without_git_suffix(s.take(s.len() - 4))
    } else {
        s
    }
}

/// The directory name for a repository address: its last path segment,
/// without slashes and `.git` at the end, or `repo` where nothing is left.
pub open spec fn repo_name(url: Seq<char>) -> Seq<char> {
    let name = without_git_suffix(last_segment(without_trailing_slashes(url)));
    if name.len() == 0 {
        "repo"@
    } else {
        name
    }
}

proof fn lemma_last_segment(s: Seq<char>, start: int)
    requires
        0 <= start <= s.len(),
        forall|k: int| start <= k < s.len() ==> s[k] != '/',
        start == 0 || s[start - 1] == '/',
    ensures
        last_segment(s) == s.skip(start),
    decreases s.len() - start,
{
    if start == s.len() {
        assert(s.skip(start) =~= Seq::<char>::empty());
    } else {
        let front = s.drop_last();
        assert forall|k: int| start <= k < front.len() implies front[k] != '/' by {
            assert(front[k] == s[k]);
        }
        lemma_last_segment(front, start);
        assert(front.skip(start).push(s.last()) =~= s.skip(start));
    }
}

/// The directory name for a repository address.
pub fn repo_name_from_url(repo_url: &str) -> (name: String)
    ensures
        name@ == repo_name(repo_url@),
{
    let cs = chars_of(repo_url);
    let mut end: usize = cs.len();
    assert(cs@.take(end as int) =~= cs@);
    while end > 0 && cs[end - 1] == '/'
        invariant
            end <= cs.len(),
            without_trailing_slashes(cs@) == without_trailing_slashes(cs@.take(end as int)),
        decreases end,
    {
        assert(cs@.take(end as int).drop_last() =~= cs@.take(end - 1));
        end -= 1;
    }
    let ghost trimmed = cs@.take(end as int);
    assert(without_trailing_slashes(cs@) == trimmed);
    let mut start: usize = end;
    while start > 0 && cs[start - 1] != '/'
        invariant
            start <= end <= cs.len(),
            trimmed == cs@.take(end as int),
            forall|k: int| start <= k < end ==> trimmed[k] != '/',
        decreases start,
    {
        start -= 1;
    }
    proof {
        lemma_last_segment(trimmed, start as int);
    }
    let ghost segment = trimmed.skip(start as int);
    let mut stop: usize = end;
    assert(segment.take(stop - start) =~= segment);
    while stop - start >= 4 && cs[stop - 4] == '.' && cs[stop - 3] == 'g' && cs[stop - 2] == 'i'
        && cs[stop - 1] == 't'
        invariant
            start <= stop <= end <= cs.len(),
            segment == cs@.take(end as int).skip(start as int),
            without_git_suffix(segment) == without_git_suffix(segment.take(stop - start)),
        decreases stop,
    {
        assert(segment.take(stop - start).take(stop - start - 4) =~= segment.take(
            stop - start - 4,
        ));
        stop -= 4;
    }
    assert(without_git_suffix(segment) == segment.take(stop - start));
    if stop == start {
        String::from_str("repo")
    } else {
        let name = string_of(&cs, start, stop);
        assert(name@ =~= segment.take(stop - start));
        name
    }
}

} // verus!
