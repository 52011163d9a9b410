mod constants;
mod converters;
mod flow;
mod hybrid;
mod link_type;
mod links;
mod point;
mod query;

pub use constants::{lemma_external_partition, lemma_sentinels_disjoint, range_holds, LinksConstants};
pub use converters::{lemma_round_trip, AddrToRaw, RawToAddr};
pub use flow::{control_flow_of, flow_of, Flow};
pub use hybrid::{modulus, negated, Hybrid};
pub use link_type::{FuntyPart, LinkType};
pub use links::Error;
pub use point::{all_equal_first, lemma_full_is_partial, some_equal_first, Point, PointIter};
pub use query::{cow_items, Query, ToQuery};
