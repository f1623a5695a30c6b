//! Verified core of a binding layer for a native 2D graphics framework.
//!
//! The framework hands out reference-counted resources by address, reports
//! failures by a null address or a status code, and calls back into client
//! code from threads of its own.  This crate holds every decision the binding
//! takes around those native calls, each with a contract; the calls
//! themselves are made by a thin unverified layer that is told what to do by
//! the values returned here.
#![allow(non_snake_case, non_camel_case_types, non_upper_case_globals)]

pub mod affine_transform;
pub mod base;
pub mod bitmap_context;
pub mod color;
pub mod color_conversion_info;
pub mod color_space;
pub mod context;
pub mod display;
pub mod display_stream;
pub mod error;
pub mod event;
pub mod event_types;
pub mod font;
pub mod geometry;
pub mod handle;
pub mod image;
pub mod ledger;
pub mod path;
pub mod pattern;
pub mod window;
pub mod window_level;
