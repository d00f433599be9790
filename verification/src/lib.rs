//! Threads of a web forum, chosen and written up for a chat.
//!
//! The library reads the forum's pages (`markup`), chooses threads from them
//! (`select`), cuts and escapes their excerpts (`normalize`, `dialect`),
//! assembles replies (`present`), and keeps the list of chats that receive
//! the scheduled reply (`registry`). It fetches nothing and sends nothing:
//! a `session` names the page it needs next and decides what follows from
//! the page it is handed.
//!
//! Every function is verified against a contract over the views of its
//! arguments. What the `scraper` crate finds in a page is not described but
//! named, in `markup`; the number that `rand` draws is taken as it comes.

pub mod command;
pub mod dialect;
pub mod markup;
pub mod normalize;
pub mod present;
pub mod registry;
pub mod select;
pub mod session;
pub mod site;
pub mod text;
pub mod thread;
