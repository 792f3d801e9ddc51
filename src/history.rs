//! The navigation history of a browsing window.

use vstd::prelude::*;

verus! {

/// The page shown when the browser starts.
pub const DEFAULT_URL: &'static str = "gemini://gemini.circumlunar.space/";

/// Browsing state of one window: the address of the page on screen, the
/// addresses visited, and the position in that list of the page on screen.
pub struct Castor {
    current_url: String,
    history: Vec<String>,
    history_index: usize,
}

/// The mathematical model of [`Castor`].
pub struct CastorView {
    pub current_url: Seq<char>,
    pub history: Seq<Seq<char>>,
    pub index: int,
}

/// The history that a visit to `url` from position `index` leaves: everything
/// up to and including the current entry, then `url`.
pub open spec fn history_after_visit(history: Seq<Seq<char>>, index: int, url: Seq<char>) -> Seq<Seq<char>> {
    history.subrange(0, index + 1).push(url)
}

/// A visit keeps the entries up to the current one, puts the visited address
/// right after them, and leaves nothing after it.
pub proof fn lemma_visit_shape(history: Seq<Seq<char>>, index: int, url: Seq<char>)
    requires
        0 <= index < history.len(),
    ensures
        history_after_visit(history, index, url).len() == index + 2,
        history_after_visit(history, index, url)[index + 1] == url,
        forall|i: int| 0 <= i <= index ==> history_after_visit(history, index, url)[i] == history[i],
{
}

impl View for Castor {
    type V = CastorView;

    closed spec fn view(&self) -> CastorView {
        CastorView {
            current_url: self.current_url@,
            history: self.history.deep_view(),
            index: self.history_index as int,
        }
    }
}

impl Castor {
    /// The history is never empty and the position lies inside it.
    pub open spec fn well_formed(&self) -> bool {
        &&& self@.history.len() > 0
        &&& 0 <= self@.index < self@.history.len()
    }

    /// A window that starts on `start_url`, with that address as its only
    /// history entry.
    pub fn with_start_url(start_url: String) -> (r: Castor)
        ensures
            r.well_formed(),
            r@.current_url == start_url@,
            r@.history == seq![start_url@],
            r@.index == 0,
    {
        let entry = start_url.clone();
        let history = vec![entry];
        let r = Castor { current_url: start_url, history, history_index: 0 };
        assert(r@.history =~= seq![r.current_url@]);
        r
    }

    /// A window that starts on [`DEFAULT_URL`].
    pub fn new() -> (r: Castor)
        ensures
            r.well_formed(),
            r@.current_url == DEFAULT_URL@,
            r@.history == seq![DEFAULT_URL@],
            r@.index == 0,
    {
        Castor::with_start_url(String::from_str(DEFAULT_URL))
    }

    /// The history entry at the current position.
    pub fn get_current_url(&self) -> (r: &str)
        requires
            self.well_formed(),
        ensures
            r@ == self@.history[self@.index],
    {
        self.history[self.history_index].as_str()
    }

    /// The address of the page that was last loaded.
    pub fn current_url(&self) -> (r: &str)
        ensures
            r@ == self@.current_url,
    {
        self.current_url.as_str()
    }

    /// The number of history entries.
    pub fn history_len(&self) -> (r: usize)
        ensures
            r == self@.history.len(),
    {
        self.history.len()
    }

    /// The position of the current entry in the history.
    pub fn history_index(&self) -> (r: usize)
        ensures
            r == self@.index,
    {
        self.history_index
    }

    /// Whether there is an entry before the current one.
    pub fn can_go_back(&self) -> (r: bool)
        ensures
            r == (self@.index > 0),
    {
        self.history_index > 0
    }

    /// Whether there is an entry after the current one.
    pub fn can_go_forward(&self) -> (r: bool)
        requires
            self.well_formed(),
        ensures
            r == (self@.index + 1 < self@.history.len()),
    {
        self.history_index < self.history.len() - 1
    }

    /// Records a visit to `url`: the entries after the current one are
    /// dropped, `url` is appended and becomes the current entry.
    pub fn push_to_history(&mut self, url: String)
        requires
            old(self).well_formed(),
            old(self)@.index + 1 < usize::MAX,
        ensures
            final(self).well_formed(),
            final(self)@.history == history_after_visit(old(self)@.history, old(self)@.index, url@),
            final(self)@.index == old(self)@.index + 1,
            final(self)@.current_url == old(self)@.current_url,
    {
        let keep = self.history_index + 1;
        self.history.truncate(keep);
        self.history.push(url);
        self.history_index = keep;
        assert(self@.history =~= history_after_visit(old(self)@.history, old(self)@.index, url@));
    }

    /// Steps one entry back and returns the address to load there; with no
    /// entry before the current one, nothing changes and `None` comes back.
    pub fn go_back(&mut self) -> (r: Option<String>)
        requires
            old(self).well_formed(),
        ensures
            final(self).well_formed(),
            final(self)@.history == old(self)@.history,
            final(self)@.current_url == old(self)@.current_url,
            old(self)@.index == 0 ==> r is None && final(self)@.index == 0,
            old(self)@.index > 0 ==> {
                &&& final(self)@.index == old(self)@.index - 1
                &&& r is Some
                &&& r->Some_0@ == old(self)@.history[old(self)@.index - 1]
            },
    {
        if self.history_index == 0 {
            None
        } else {
            self.history_index = self.history_index - 1;
            Some(self.history[self.history_index].clone())
        }
    }

    /// Steps one entry forward and returns the address to load there; with no
    /// entry after the current one, nothing changes and `None` comes back.
    pub fn go_forward(&mut self) -> (r: Option<String>)
        requires
            old(self).well_formed(),
        ensures
            final(self).well_formed(),
            final(self)@.history == old(self)@.history,
            final(self)@.current_url == old(self)@.current_url,
            old(self)@.index + 1 == old(self)@.history.len() ==> {
                &&& r is None
                &&& final(self)@.index == old(self)@.index
            },
            old(self)@.index + 1 < old(self)@.history.len() ==> {
                &&& final(self)@.index == old(self)@.index + 1
                &&& r is Some
                &&& r->Some_0@ == old(self)@.history[old(self)@.index + 1]
            },
    {
        if self.history_index == self.history.len() - 1 {
            None
        } else {
            self.history_index = self.history_index + 1;
            Some(self.history[self.history_index].clone())
        }
    }

    /// Records that the page at `url` is now on screen.
    pub fn page_loaded(&mut self, url: String)
        ensures
            final(self)@.current_url == url@,
            final(self)@.history == old(self)@.history,
            final(self)@.index == old(self)@.index,
    {
        self.current_url = url;
    }
}

} // verus!
