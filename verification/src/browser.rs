//! The choices made while a browser is brought up: how long to wait for
//! its first page, and whether that page can be taken over.

use vstd::prelude::*;

verus! {

/// How often the browser is asked again for its first page.
pub const FIRST_PAGE_RETRIES: u32 = 10;

/// How long to wait before the browser is asked for its pages, in
/// milliseconds.
pub const FIRST_PAGE_DELAY: u64 = 100;

/// The address of the page a browser opens on its own.
pub const NEW_TAB_URL: &'static str = "chrome://new-tab-page/";

/// The address of the empty page.
pub const BLANK_URL: &'static str = "about:blank";

/// The width of the browser window.
pub const WINDOW_WIDTH: u32 = 800;

/// The height of the browser window.
pub const WINDOW_HEIGHT: u32 = 1000;

/// What to do after the browser was asked for its pages.
#[derive(Clone, Copy, Debug, PartialEq, Eq, Structural)]
pub enum FirstPage {
    /// Take the first page the browser has.
    Use,
    /// Stop waiting and open a page.
    Create,
    /// Wait and ask once more, with this many retries left.
    Retry(u32),
}

/// What to do with the first page of the browser.
#[derive(Clone, Copy, Debug, PartialEq, Eq, Structural)]
pub enum PageChoice {
    /// Send the page to the empty address and take it over.
    Reuse,
    /// Leave the page alone and open a new one.
    CreateNew,
}

/// The browser that the user signs in with.
#[derive(Clone, Copy, Debug, PartialEq, Eq, Structural)]
pub struct Browser {
    /// Whether the browser runs without a window.
    pub headless: bool,
}

impl Browser {
    /// A browser that is launched when its first page is asked for.
    pub fn new(headless: bool) -> (r: Browser)
        ensures
            r.headless == headless,
    {
        Browser { headless }
    }

    /// Decides how the wait for the first page goes on: a page that is
    /// there is taken; without one the browser is asked again while
    /// retries are left, and after that a page is opened.
    pub fn wait_for_first_page(&self, has_page: bool, retries: u32) -> (r: FirstPage)
        ensures
            has_page ==> r == FirstPage::Use,
            !has_page && retries == 0 ==> r == FirstPage::Create,
            !has_page && retries > 0 ==> r == FirstPage::Retry((retries - 1) as u32),
    {
        if has_page {
            FirstPage::Use
        } else if retries == 0 {
            FirstPage::Create
        } else {
            FirstPage::Retry(retries - 1)
        }
    }

    /// Decides whether the first page can be taken over: only the page
    /// that the browser opened on its own can, every other page belongs to
    /// someone.
    pub fn lazy_open_page(&self, first_page_url: Option<&str>) -> (r: PageChoice)
        ensures
            r == PageChoice::Reuse <==> (first_page_url matches Some(url) && url@ == NEW_TAB_URL@),
    {
        match first_page_url {
            Some(url) => {
                if url.to_owned() == NEW_TAB_URL.to_owned() {
                    PageChoice::Reuse
                } else {
                    PageChoice::CreateNew
                }
            },
            None => PageChoice::CreateNew,
        }
    }
}

} // verus!
