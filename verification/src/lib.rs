//! Verified core of an IMAP client: transport negotiation decisions,
//! authentication payloads, mailbox command building, and normalization of
//! fetched MIME messages into plain application records.
pub mod classify;
pub mod codec;
pub mod commands;
pub mod flags;
pub mod mime;
pub mod negotiate;
pub mod normalize;
pub mod session;
pub mod text;
pub mod types;
pub mod uids;
pub mod xoauth2;
