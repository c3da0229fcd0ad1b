//! Small extensions for Bevy's entity-component-system: resolving a query that
//! is expected to match at most one entity into an `Option`.

pub mod optional_single;
