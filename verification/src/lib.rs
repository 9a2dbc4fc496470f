//! Three singly-linked list variants: an exclusively-owned stack with
//! push/pop at the front, the same stack extended with borrowing views and
//! iteration, and an immutable, structurally-shared persistent list.

pub mod persistent;
pub mod stack;
pub mod stack_views;
