//! A Cloudflare worker that serves a Notion site under a custom domain:
//! it routes requests, rewrites the Notion pages and their metadata,
//! and injects the blog's scripts. This crate holds the logic of that worker.

pub mod text;
pub mod strmap;
pub mod json;
pub mod config;
pub mod html;
pub mod scripts;
pub mod rewrite;
pub mod ids;
pub mod proxy;
pub mod routing;
pub mod page;

