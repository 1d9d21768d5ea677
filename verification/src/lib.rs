//! Order-independent decorator stacks.
//!
//! A payload is wrapped in any number of decorators, each of which adds one
//! capability: a usage tag, a changed flag, a text label. Every decorator
//! dereferences to what it wraps, so a capability is reached through the
//! outermost value wherever its layer lies. `Construct` builds a whole stack
//! from the payload and `With` configures one capability inside a stack; both
//! find their layer by a depth index that the compiler infers.

pub mod above;
pub mod apart;
pub mod capability;
pub mod changed;
pub mod construct;
pub mod depth;
pub mod label;
pub mod permutations;
pub mod usage;
pub mod with;

pub use above::Above;
pub use apart::Apart;
pub use capability::Capability;
pub use changed::{Changed, ChangedFlagTrait, ChangedWrap};
pub use construct::Construct;
pub use depth::{S, Z};
pub use label::{Label, LabelTrait, LabelWrap};
pub use usage::{Usage, UsageTag, UsageTrait};
pub use with::With;
