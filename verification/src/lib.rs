//! Verified core of a local-subnet ARP scanner.
//!
//! The heart of the crate is the platform-abstracted scanning engine:
//! address and frame modelling (`addr`, `codec`), the flood-then-collect
//! broadcast protocol (`broadcast`), the bounded-concurrency native
//! resolution engine (`native`), and the capability dispatcher that
//! selects between them and applies fallback (`dispatch`).  Raw sockets,
//! clocks and OS resolution calls live outside this crate; the engines
//! here are driven with plain values and verified for every value the
//! outside may hand in.
//!
//! Around the scanner stand the shared helpers of the service that hosts
//! it: response envelope types (`api`), access and entity validation
//! (`validation`), and the ordering columns of its list endpoints
//! (`ordering`).

pub mod addr;
pub mod api;
pub mod broadcast;
pub mod codec;
pub mod dispatch;
pub mod native;
pub mod ordering;
pub mod validation;
