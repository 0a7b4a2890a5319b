//! The configuration the core reads once at startup: the start page, the
//! search-fallback template (carrying one placeholder token), the bookmark
//! tree, and the local-vs-remote bookmark mode flag.  When the stored
//! configuration cannot be loaded, the built-in default below takes its
//! place.

use vstd::prelude::*;
use vstd::string::StringExecFns;
use crate::bookmarks::Entry;
use crate::fallback::{has_token, has_token_at};

verus! {

pub struct AppConfig {
    pub start_page: String,
    pub search_engine: String,
    pub local: bool,
    pub bookmarks: Vec<Vec<Entry>>,
}

impl Default for AppConfig {
    /// The built-in default configuration; its search template does carry
    /// the placeholder token, so the fallback chain works out of the box.
    fn default() -> (c: Self)
        ensures
            c.start_page@ == "https://duckduckgo.org"@,
            c.search_engine@ == "https://duckduckgo.com/?q=${}"@,
            !c.local,
            c.bookmarks@ == Seq::<Vec<Entry>>::empty(),
            has_token(c.search_engine@),
    {
        let c = AppConfig {
            start_page: String::from_str("https://duckduckgo.org"),
            search_engine: String::from_str("https://duckduckgo.com/?q=${}"),
            local: false,
            bookmarks: Vec::new(),
        };
        proof {
            reveal_strlit("https://duckduckgo.com/?q=${}");
            assert(has_token_at(c.search_engine@, 26));
        }
        c
    }
}

} // verus!
