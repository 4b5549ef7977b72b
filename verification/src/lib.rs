//! Presentation core of a small second-hand clothing storefront.
//!
//! The library builds the document served for a URL path: a router maps the
//! path to one page view, the page view yields a content tree and an optional
//! metadata override, a layout composer wraps the content in the shared
//! header / navigation / footer shell, and the shell renderer merges the
//! metadata over the global defaults and assembles the full document.

pub mod content;
pub mod metadata;
pub mod layout;
pub mod pages;
pub mod routes;
pub mod shell;
