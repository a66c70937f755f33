//! A compact self-describing binary codec built around a dynamic value type.
//!
//! The crate offers three tightly coupled pieces:
//! - [`generic::Generic`], a closed sum type that can represent any wire
//!   value, together with adapters that let typed values encode themselves
//!   into it and decode themselves back out of it (including a fixed wire
//!   convention for sum-type variants);
//! - [`map_serializer::MapSerializer`], a deferred-length framer that emits
//!   a length-prefixed map header either up front (when the entry count is
//!   known) or after buffering the entries (when it is not);
//! - a byte-level encoding of `Generic` values whose map headers pick the
//!   minimal size class.

pub mod builder;
pub mod decode;
pub mod defs;
pub mod error;
pub mod generic;
pub mod map_serializer;

pub use builder::Encode;
pub use builder::MapGeneric;
pub use builder::VecGeneric;
pub use decode::GenericVisitor;
pub use decode::MapVisitor;
pub use decode::SeqVisitor;
pub use decode::VariantVisitor;
pub use error::Error;
pub use error::Reason;
pub use generic::Generic;
pub use generic::GenericModel;
pub use map_serializer::MapSerializer;
