//! Intake of newsletter subscriptions.
//!
//! A sign-up is a name and an email address. The library validates the two
//! (`domain`), says what is to be stored and what is to be sent for a valid
//! sign-up (`routes`, `email_client`), and decides step by step how the
//! request ends. It does no input or output of its own: the caller writes to
//! the store and posts to the email service, and reports what came of it.
//!
//! Five calls into other crates are taken on trust, each behind a private
//! function that does nothing else: counting grapheme clusters
//! (`unicode_segmentation`), checking the syntax of an address (`validator`),
//! resolving a URL (`reqwest`), drawing an identifier (`uuid`) and reading
//! the clock (`chrono`). Everything else is proved.

pub mod domain;
pub mod email_client;
pub mod routes;
