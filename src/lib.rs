//! Browsing logic of a Gemini client: the navigation history, how a link or
//! an address typed by the user becomes the address that is requested, what
//! is done with each kind of server response, and how a gemtext page is laid
//! out as styled text.

pub mod delegate;
pub mod gemtext;
pub mod history;
pub mod page;
pub mod status;
pub mod urls;
