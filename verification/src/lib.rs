//! A change-data-capture engine over a polled upstream match service.
//!
//! A roster of tracked identities is read from a store each tick; the most
//! recent activity record for every identity is fetched concurrently; a pure
//! change detector compares each fetched record against the identity's stored
//! watermark and decides whether the watermark advances and whether the record
//! is emitted to the downstream notification sink.
//!
//! Everything that decides — the change detector, the per-tick reconciliation,
//! the roster model — lives here with a proved contract. The surrounding I/O
//! (the upstream HTTP calls, the relational store, the chat front end) hands
//! this library plain values and takes plain values back.

pub mod emblem_response;
pub mod emoji;
pub mod match_checker;
pub mod match_request;
pub mod match_response;
pub mod matches_request;
pub mod report;
pub mod roster;
