//! Core parameter-derivation and symbol-selection arithmetic for a
//! Raptor-family forward-error-correction codec.
//!
//! The crate covers the wire identifiers (`PayloadId`, `EncodingPacket`),
//! the object transmission information record and its parameter-derivation
//! policy, the `partition` helper, the degree distribution, and the
//! intermediate-symbol tuple generator.  The systematic constants and the
//! pseudo-random lookup tables that the specification supplies as fixed
//! data are injected by the caller through [`SystematicConstants`].

mod constants;
mod degree;
mod errors;
mod oti;
mod partition;
mod tuple;
mod wire;

pub use constants::MAX_SYSTEMATIC_INDEX;
pub use constants::SystematicConstants;
pub use constants::SystematicRow;
pub use constants::rows_bounded;
pub use constants::rows_sorted;
pub use constants::spec_find;
pub use constants::spec_kl;
pub use degree::DEG_DOMAIN;
pub use degree::deg;
pub use degree::lemma_deg_monotone;
pub use degree::spec_deg;
pub use degree::spec_deg_raw;
pub use errors::Error;
pub use oti::MAX_TRANSFER_LENGTH;
pub use oti::ObjectTransmissionInformation;
pub use oti::lemma_oti_round_trip;
pub use oti::spec_derive;
pub use oti::spec_kl_bound;
pub use oti::spec_scan;
pub use partition::ceil_div;
pub use partition::partition;
pub use tuple::intermediate_tuple;
pub use tuple::lemma_tuple_deterministic;
pub use tuple::spec_tuple;
pub use tuple::spec_tuple_a;
pub use tuple::spec_tuple_b;
pub use tuple::spec_tuple_y;
pub use wire::EncodingPacket;
pub use wire::MAX_ENCODING_SYMBOL_ID;
pub use wire::PayloadId;
pub use wire::lemma_encoding_packet_round_trip;
pub use wire::lemma_payload_id_round_trip;
