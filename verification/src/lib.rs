//! Engineering documents manager: the verified core of a service that stores
//! engineering components and documents and renders documents as Markdown.

pub mod components;
pub mod config;
pub mod documents;
pub mod numeric;
pub mod rendering;
pub mod repositories;
pub mod text;
pub mod web;
