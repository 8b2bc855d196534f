//! The size filter and the query text that the search service gets.

use crate::text::{decimal, lowercase, push_decimal, same_text};
use vstd::prelude::*;
use vstd::string::*;

verus! {

/// A class of repository sizes.
#[derive(Clone, Copy, Debug, PartialEq, Eq)]
pub enum SizeFilter {
    /// Under 25 000 kilobytes.
    Small,
    /// From 25 000 to 100 000 kilobytes.
    Medium,
    /// Over 100 000 kilobytes.
    Large,
}

/// The search options that stay the same from one query to the next.
#[derive(Debug)]
pub struct SearchOptions {
    /// Only repositories in this language.
    pub language: Option<String>,
    /// Only repositories with at least this many stars.
    pub stars: Option<u32>,
}

/// Why no query could be made.
#[derive(Debug, PartialEq, Eq)]
pub enum QueryError {
    /// The size class has a name that is none of `small`, `medium`, `large`.
    InvalidRepoSize(String),
}

/// The size class that a lower-case name stands for.
pub open spec fn size_named(lower: Seq<char>) -> Option<SizeFilter> {
    if lower == "small"@ {
        Some(SizeFilter::Small)
    } else if lower == "medium"@ {
        Some(SizeFilter::Medium)
    } else if lower == "large"@ {
        Some(SizeFilter::Large)
    } else {
        None
    }
}

/// The size class that a name stands for, whatever its case: the class
/// that the name itself or its lower-case form is the name of.
pub open spec fn size_of_name(name: Seq<char>) -> Option<SizeFilter> {
    match size_named(name) {
        Some(filter) => Some(filter),
        None => size_named(lowercase(name)),
    }
}

/// The size class that a search filters by, under the size filter in
/// force: none where no filter is in force, the class that the name of the
/// filter stands for, or the name as an error where it stands for none.
pub open spec fn size_chosen(filter: Option<String>) -> Result<Option<SizeFilter>, Seq<char>> {
    match filter {
        None => Ok(None),
        Some(name) => match size_of_name(name@) {
            Some(class) => Ok(Some(class)),
            None => Err(name@),
        },
    }
}

/// The text of a query: the words typed, then one term for each option set.
pub open spec fn query_text(
    words: Seq<char>,
    language: Option<String>,
    stars: Option<u32>,
    size: Option<SizeFilter>,
) -> Seq<char> {
    words + (match language {
        Some(l) => " language:"@ + l@,
        None => Seq::empty(),
    }) + (match stars {
        Some(n) => " stars:>="@ + decimal(n as nat),
        None => Seq::empty(),
    }) + (match size {
        Some(f) => " "@ + f.fragment(),
        None => Seq::empty(),
    })
}

impl SizeFilter {
    /// The name of the class.
    pub open spec fn name_text(self) -> Seq<char> {
        match self {
            SizeFilter::Small => "small"@,
            SizeFilter::Medium => "medium"@,
            SizeFilter::Large => "large"@,
        }
    }

    /// The query term that selects the class.
    pub open spec fn fragment(self) -> Seq<char> {
        match self {
            SizeFilter::Small => "size:<25000"@,
            SizeFilter::Medium => "size:25000..100000"@,
            SizeFilter::Large => "size:>100000"@,
        }
    }

    /// The name of the class.
    pub fn name(self) -> (s: String)
        ensures
            s@ == self.name_text(),
    {
        match self {
            SizeFilter::Small => String::from_str("small"),
            SizeFilter::Medium => String::from_str("medium"),
            SizeFilter::Large => String::from_str("large"),
        }
    }

    /// The query term that selects the class.
    pub fn query_fragment(self) -> (s: String)
        ensures
            s@ == self.fragment(),
    {
        match self {
            SizeFilter::Small => String::from_str("size:<25000"),
            SizeFilter::Medium => String::from_str("size:25000..100000"),
            SizeFilter::Large => String::from_str("size:>100000"),
        }
    }

    /// The class that a name in lower case stands for.
    pub fn from_lowercase(lower: &str) -> (f: Option<SizeFilter>)
        ensures
            f == size_named(lower@),
    {
        if same_text(lower, "small") {
            Some(SizeFilter::Small)
        } else if same_text(lower, "medium") {
            Some(SizeFilter::Medium)
        } else if same_text(lower, "large") {
            Some(SizeFilter::Large)
        } else {
            None
        }
    }

    /// The class that a name stands for, whatever its case.
    pub fn parse(name: &str) -> (f: Option<SizeFilter>)
        ensures
            f == size_of_name(name@),
    {
        match SizeFilter::from_lowercase(name) {
            Some(filter) => Some(filter),
            None => {
                let lower = name.to_lowercase();
                SizeFilter::from_lowercase(lower.as_str())
            },
        }
    }
}

impl QueryError {
    /// The message of the error.
    pub open spec fn message_text(self) -> Seq<char> {
        match self {
            QueryError::InvalidRepoSize(name) => "Invalid repo_size '"@ + name@
                + "'. Use: small, medium, or large"@,
        }
    }

    /// The message of the error.
    pub fn message(&self) -> (s: String)
        ensures
            s@ == self.message_text(),
    {
        match self {
            QueryError::InvalidRepoSize(name) => {
                let mut s = String::from_str("Invalid repo_size '");
                s.append(name.as_str());
                s.append("'. Use: small, medium, or large");
                s
            },
        }
    }
}

/// The size class that an optional name stands for, if it stands for one.
pub open spec fn size_of_optional_name(name: Option<String>) -> Option<SizeFilter> {
    match name {
        Some(n) => size_of_name(n@),
        None => None,
    }
}

/// Puts a query together from the words typed and the options set.
pub fn search_query(
    words: &str,
    language: &Option<String>,
    stars: Option<u32>,
    size: Option<SizeFilter>,
) -> (q: String)
    ensures
        q@ == query_text(words@, *language, stars, size),
{
    let mut q = String::from_str(words);
    match language {
        Some(l) => {
            q.append(" language:");
            q.append(l.as_str());
        },
        None => {},
    }
    match stars {
        Some(n) => {
            q.append(" stars:>=");
            push_decimal(&mut q, n as u64);
        },
        None => {},
    }
    match size {
        Some(f) => {
            q.append(" ");
            q.append(f.query_fragment().as_str());
        },
        None => {},
    }
    assert(q@ =~= query_text(words@, *language, stars, size));
    q
}

/// The query for the words typed, under the options and the size filter
/// in force. With no filter in force the query has no size term. A filter
/// whose name stands for no class is an error; names are taken whatever
/// their case.
pub fn build_search_query(words: &str, options: &SearchOptions, size_filter: &Option<String>) -> (r:
    Result<String, QueryError>)
    ensures
        match size_chosen(*size_filter) {
            Ok(size) => r matches Ok(q) && q@ == query_text(
                words@,
                options.language,
                options.stars,
                size,
            ),
            Err(name) => r matches Err(QueryError::InvalidRepoSize(n)) && n@ == name,
        },
{
    match size_filter {
        None => Ok(search_query(words, &options.language, options.stars, None)),
        Some(name) => match SizeFilter::parse(name.as_str()) {
            Some(class) => Ok(search_query(words, &options.language, options.stars, Some(class))),
            None => Err(QueryError::InvalidRepoSize(name.clone())),
        },
    }
}

} // verus!
