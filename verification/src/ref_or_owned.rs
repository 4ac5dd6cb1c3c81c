//! Abstractions over references and ownership: types which may represent
//! either a borrowed reference or an owned value.
//!
//! Both sized and unsized types may be used, and references may be either
//! mutable or immutable. The right enum should be chosen on these bases:
//!
//! | borrowed form | owned inline    | owned behind a `Box` |
//! |---------------|-----------------|----------------------|
//! | `&T`          | `RefOrOwned`    | `RefOrBox`           |
//! | `&mut T`      | `RefMutOrOwned` | `RefMutOrBox`        |
//!
//! Every operation of a container goes through its payload, the value that
//! `Deref` leads to, so that the active case cannot be told from what an
//! operation returns. Each type has a spec function `payload` for that value,
//! and the contracts speak of it.
//!
//! All four compare with `==` and `<`, hash and display as their payload does.
//! The two inline containers also have a total order, as a function of their
//! own, `cmp`, and not as `Ord`: hand `cmp` to `sort_by` and the like.

pub mod forward;
pub mod laws;
mod ref_mut_or_box;
mod ref_mut_or_owned;
mod ref_or_box;
mod ref_or_owned;

pub use ref_mut_or_box::RefMutOrBox;
pub use ref_mut_or_owned::RefMutOrOwned;
pub use ref_or_box::RefOrBox;
pub use ref_or_owned::RefOrOwned;
