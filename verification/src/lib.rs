//! Mod catalogue, download lifecycle and on-disk layout for a Barony mod manager.
//!
//! The library holds every decision the manager makes: how a mod title becomes a
//! folder name, what an archive unpacks to, how the download service's replies are
//! read, and how each mod's status moves in response to events. Performing the
//! effects (network requests, writing files, drawing) is left to the caller.

pub mod text;
pub mod data;
pub mod widgets;
pub mod filesystem;
pub mod manager;
pub mod sorting;
pub mod tags;
pub mod listing;
pub mod archive;
pub mod extraction;
pub mod containment;
pub mod downloader_api;
pub mod events;
pub mod steam_api;
pub mod lifecycle;
pub mod dates;
