//! A cross-platform file-dialog bridge.
//!
//! The crate models the path a file-open/save request takes through a
//! desktop shell: the caller describes the dialog ([`dialog`]), the
//! event-loop bridge hands the request to a platform driver and marshals
//! the native outcome back onto the owner thread ([`bridge`]), the driver
//! logic normalizes native outcomes and translates filetype filters
//! ([`driver`]), and the result dispatcher delivers the outcome to the
//! requester exactly once ([`dispatcher`]).

pub mod bridge;
pub mod dialog;
pub mod dispatcher;
pub mod driver;
