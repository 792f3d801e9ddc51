//! The application delegate: what the browser does with a command raised in
//! the page.

use vstd::prelude::*;
use crate::history::Castor;
use crate::urls::{UrlError, UrlFault, parse_url, join_url, url_parse, url_join};

verus! {

/// A command raised in the page.
#[derive(Debug, PartialEq, Eq)]
pub enum Command {
    /// A link was clicked; its target, as written in the page.
    LinkClicked(String),
    /// A page finished loading.
    PageLoaded,
}

/// What the delegate decided about a command.
#[derive(Debug, PartialEq, Eq)]
pub enum DelegateAction {
    /// Not handled here: the command travels on to the widgets.
    Pass,
    /// Load this address and record it in the history.
    Load(String),
    /// The link names no address that can be loaded.
    Reject(UrlError),
}

/// The mathematical model of [`DelegateAction`].
pub enum DelegateActionView {
    Pass,
    Load(Seq<char>),
    Reject(UrlFault),
}

impl View for DelegateAction {
    type V = DelegateActionView;

    open spec fn view(&self) -> DelegateActionView {
        match self {
            DelegateAction::Pass => DelegateActionView::Pass,
            DelegateAction::Load(u) => DelegateActionView::Load(u@),
            DelegateAction::Reject(e) => DelegateActionView::Reject(e@),
        }
    }
}

/// The action for a click on a link to `target` while the history entry
/// `current` is on screen: an absolute link loads its URL as the parser
/// serializes it; a relative one loads its join with `current`; a link that
/// is neither is rejected with the parser's complaint.
pub open spec fn link_action(current: Seq<char>, target: Seq<char>) -> DelegateActionView {
    match url_parse(target) {
        Ok(u) => DelegateActionView::Load(u),
        Err(f) => if f.relative_without_base && url_join(current, target) is Some {
            DelegateActionView::Load(url_join(current, target)->Some_0)
        } else {
            DelegateActionView::Reject(f)
        },
    }
}

/// Handles the commands that concern the whole window.
pub struct Delegate;

impl Delegate {
    /// Decides what to do with `cmd` while `data` is the browsing state. A
    /// clicked link is resolved against the current history entry; a
    /// finished load is left to the widgets.
    pub fn command(&mut self, cmd: &Command, data: &Castor) -> (r: DelegateAction)
        requires
            data.well_formed(),
        ensures
            match cmd {
                Command::LinkClicked(target) => r@ == link_action(data@.history[data@.index], target@),
                Command::PageLoaded => r is Pass,
            },
    {
        match cmd {
            Command::LinkClicked(target) => {
                match parse_url(target.as_str()) {
                    Ok(u) => DelegateAction::Load(u),
                    Err(e) => {
                        if e.relative_without_base {
                            match join_url(data.get_current_url(), target.as_str()) {
                                Some(u) => DelegateAction::Load(u),
                                None => DelegateAction::Reject(e),
                            }
                        } else {
                            DelegateAction::Reject(e)
                        }
                    },
                }
            },
            Command::PageLoaded => DelegateAction::Pass,
        }
    }
}

} // verus!
