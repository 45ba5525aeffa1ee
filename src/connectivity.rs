use vstd::prelude::*;
use vstd::string::StrSliceExecFns;
use vstd::string::StringExecFns;
use crate::scripts::CHAT_URL;

verus! {

/// Host name of the chat service.
pub const CHAT_HOST: &'static str = "chat.mistral.ai";

/// Marks the address of the host's own local pages.
pub const LOCAL_PAGE_MARK: &'static str = "tauri";

/// Title words that signal an error page, matched in lower case.
pub const ERROR_TITLE_WORD: &'static str = "error";
pub const NOT_FOUND_TITLE_WORD: &'static str = "not found";

/// Fewer characters of body text than this, with no sidebar, is an empty page.
pub const MIN_BODY_TEXT: usize = 50;

/// Wait after a navigation before the load check runs.
pub const LOAD_CHECK_DELAY_MS: u64 = 5000;

/// Whether `needle` occurs in `hay` as a run of consecutive characters.
pub open spec fn contains_seq(hay: Seq<char>, needle: Seq<char>) -> bool {
    exists|i: int| 0 <= i && i + needle.len() <= hay.len() && #[trigger] hay.subrange(i, i + needle.len()) == needle
}

/// The lower-case form of a text, as std's `str::to_lowercase` gives it.
pub uninterp spec fn lowercase_of(s: Seq<char>) -> Seq<char>;

/// Relies on std's `str::to_lowercase`, whose result depends on the
/// characters of its argument alone, and maps the empty text to itself.
#[verifier::external_body]
fn to_lowercase(s: &str) -> (r: String)
    ensures
        r@ == lowercase_of(s@),
        s@.len() == 0 ==> r@.len() == 0,
{
    s.to_lowercase()
}

fn matches_at(hay: &str, hay_len: usize, needle: &str, needle_len: usize, at: usize) -> (r: bool)
    requires
        hay_len == hay@.len(),
        needle_len == needle@.len(),
        at + needle_len <= hay_len,
    ensures
        r == (hay@.subrange(at as int, at + needle_len) == needle@),
{
    let mut j: usize = 0;
    while j < needle_len
        invariant
            hay_len == hay@.len(),
            needle_len == needle@.len(),
            at + needle_len <= hay_len,
            j <= needle_len,
            forall|k: int| 0 <= k < j ==> hay@[at + k] == needle@[k],
        decreases needle_len - j,
    {
        if hay.get_char(at + j) != needle.get_char(j) {
            assert(hay@.subrange(at as int, at + needle_len)[j as int] != needle@[j as int]);
            return false;
        }
        j = j + 1;
    }
    assert(hay@.subrange(at as int, at + needle_len) =~= needle@);
    true
}

/// Whether `needle` occurs in `hay`.
pub fn contains_text(hay: &str, needle: &str) -> (r: bool)
    ensures
        r == contains_seq(hay@, needle@),
{
    let hay_len = hay.unicode_len();
    let needle_len = needle.unicode_len();
    if needle_len > hay_len {
        return false;
    }
    let last = hay_len - needle_len;
    let mut i: usize = 0;
    loop
        invariant
            hay_len == hay@.len(),
            needle_len == needle@.len(),
            last == hay_len - needle_len,
            i <= last,
            forall|k: int| 0 <= k < i ==> #[trigger] hay@.subrange(k, k + needle_len) != needle@,
        decreases last - i,
    {
        if matches_at(hay, hay_len, needle, needle_len, i) {
            return true;
        }
        if i == last {
            return false;
        }
        i = i + 1;
    }
}

/// What the page showed when the load check ran.
#[derive(Clone, Debug)]
pub struct PageSnapshot {
    /// Whether the browser reports a network connection.
    pub online: bool,
    pub title: String,
    /// Length of the body's visible text; `None` where there is no body.
    pub body_text_len: Option<usize>,
    /// Whether the chat's sidebar landmark is in the document.
    pub has_sidebar: bool,
    /// Current address of the page.
    pub href: String,
}

/// The load check, given the page and its title in lower case: the page
/// failed when offline, when its title names an error or is empty, or when
/// its body is nearly empty and lacks the sidebar; a local page never counts
/// as failed.
pub open spec fn load_failed(p: PageSnapshot, lower_title: Seq<char>) -> bool {
    let error_page = !p.online
        || contains_seq(lower_title, ERROR_TITLE_WORD@)
        || contains_seq(lower_title, NOT_FOUND_TITLE_WORD@)
        || p.title@.len() == 0
        || match p.body_text_len {
            Some(n) => n < MIN_BODY_TEXT && !p.has_sidebar,
            None => false,
        };
    error_page && !contains_seq(p.href@, LOCAL_PAGE_MARK@)
}

/// The load check on a page whose title was already put in lower case.
pub fn load_failed_with_title(page: &PageSnapshot, lower_title: &str) -> (r: bool)
    ensures
        r == load_failed(*page, lower_title@),
{
    let thin_body = match page.body_text_len {
        Some(n) => n < MIN_BODY_TEXT && !page.has_sidebar,
        None => false,
    };
    let error_page = !page.online
        || contains_text(lower_title, ERROR_TITLE_WORD)
        || contains_text(lower_title, NOT_FOUND_TITLE_WORD)
        || page.title.as_str().unicode_len() == 0
        || thin_body;
    error_page && !contains_text(page.href.as_str(), LOCAL_PAGE_MARK)
}

/// Whether the page failed to load, so that the host should show its local
/// fallback page.
pub fn page_load_failed(page: &PageSnapshot) -> (r: bool)
    ensures
        r == load_failed(*page, lowercase_of(page.title@)),
{
    let lower = to_lowercase(page.title.as_str());
    load_failed_with_title(page, lower.as_str())
}

/// What the page does when the browser comes back online.
#[derive(Clone, Debug, PartialEq, Eq)]
pub enum OnlineAction {
    /// Already on the chat service: reload the page.
    Reload,
    /// Elsewhere: go to this address.
    Navigate(String),
}

pub fn online_action(href: &str) -> (r: OnlineAction)
    ensures
        contains_seq(href@, CHAT_HOST@) ==> r == OnlineAction::Reload,
        !contains_seq(href@, CHAT_HOST@) ==> (r matches OnlineAction::Navigate(u) && u@ == CHAT_URL@),
{
    if contains_text(href, CHAT_HOST) {
        OnlineAction::Reload
    } else {
        OnlineAction::Navigate(String::from_str(CHAT_URL))
    }
}

} // verus!
