//! Search results as the launcher shows them.
use vstd::prelude::*;

verus! {

/// The kind of thing a search result stands for.
#[derive(Clone, Copy, Debug, PartialEq, Eq, Structural)]
pub enum ItemType {
    Alias,
    Commnad,
    File,
    App,
}

/// Where a resource lives: a URL or a file.
#[derive(Debug)]
pub struct Link {
    url: Option<String>,
    file: Option<String>,
}

pub struct LinkView {
    pub url: Option<Seq<char>>,
    pub file: Option<Seq<char>>,
}

impl View for Link {
    type V = LinkView;

    closed spec fn view(&self) -> LinkView {
        LinkView {
            url: match self.url {
                Some(u) => Some(u@),
                None => None,
            },
            file: match self.file {
                Some(f) => Some(f@),
                None => None,
            },
        }
    }
}

impl Link {
    /// A link to `url`.
    pub fn new_url(url: &String) -> (r: Self)
        ensures
            r@ == (LinkView { url: Some(url@), file: None }),
    {
        Link { url: Some(url.clone()), file: None }
    }

    /// A link to the file at `file`.
    pub fn new_file(file: &String) -> (r: Self)
        ensures
            r@ == (LinkView { url: None, file: Some(file@) }),
    {
        Link { url: None, file: Some(file.clone()) }
    }
}

/// One search result.
#[derive(Debug)]
pub struct SearchedResult {
    title: String,
    content: Option<String>,
    item_type: ItemType,
    icon: Link,
}

pub struct SearchedResultView {
    pub title: Seq<char>,
    pub content: Option<Seq<char>>,
    pub item_type: ItemType,
    pub icon: LinkView,
}

impl View for SearchedResult {
    type V = SearchedResultView;

    closed spec fn view(&self) -> SearchedResultView {
        SearchedResultView {
            title: self.title@,
            content: match self.content {
                Some(c) => Some(c@),
                None => None,
            },
            item_type: self.item_type,
            icon: self.icon@,
        }
    }
}

impl SearchedResult {
    pub fn new(title: String, content: Option<String>, item_type: ItemType, icon: Link) -> (r: Self)
        ensures
            r@.title == title@,
            r@.content == (match content {
                Some(c) => Some(c@),
                None => None,
            }),
            r@.item_type == item_type,
            r@.icon == icon@,
    {
        SearchedResult { title, content, item_type, icon }
    }

    /// The text shown for the result.
    pub fn title(&self) -> (r: &str)
        ensures
            r@ == self@.title,
    {
        self.title.as_str()
    }

    /// The description, if any.
    pub fn content(&self) -> (r: Option<&str>)
        ensures
            match r {
                Some(c) => self@.content == Some(c@),
                None => self@.content is None,
            },
    {
        match &self.content {
            Some(c) => Some(c.as_str()),
            None => None,
        }
    }

    pub fn item_type(&self) -> (r: ItemType)
        ensures
            r == self@.item_type,
    {
        self.item_type
    }

    pub fn icon(&self) -> (r: &Link)
        ensures
            r@ == self@.icon,
    {
        &self.icon
    }
}

/// Why a search failed.
#[derive(Debug)]
pub enum SearchError {
    Custom(String),
}

/// The search entry point.
pub struct Search;

impl Search {
    /// Searches for `input`. No source of results is wired in yet, so every
    /// search succeeds with no results.
    pub fn search(input: String) -> (r: Result<Vec<SearchedResult>, SearchError>)
        ensures
            r matches Ok(v) && v@.len() == 0,
    {
        Ok(Vec::new())
    }
}

} // verus!
