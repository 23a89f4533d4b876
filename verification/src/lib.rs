//! A prepend-only list primitive: insertion at the head, a one-time consuming
//! drain in most-recently-inserted-first order, and iterative teardown.

pub mod atomic_list;
