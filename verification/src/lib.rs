//! ABI-stable dynamic dispatch: fat pointers made of an erased data pointer and
//! a capability table, and the reflection reports that decide whether two
//! independently built definitions of a type agree.

pub mod fatptr;
pub mod report;
pub mod vtable;
