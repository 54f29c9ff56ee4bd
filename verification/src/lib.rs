//! Verified core of a pending-transaction feed relay.
//!
//! The library covers the logic of the relay: normalizing fetched
//! transaction details into snapshot records, bounding and assembling
//! snapshots, the operator's selection store, a bounded fan-out hub for
//! publishing snapshots to subscribers, and the job-declaration stub.
//! Transport, routing and the actual network calls live outside the
//! library and hand it plain values.

use vstd::prelude::*;

mod builder;
mod declare;
mod hub;
mod record;
mod selection;
mod session;

pub use builder::assemble_snapshot;
pub use builder::lemma_assemble_all_ok;
pub use builder::lemma_assemble_len;
pub use builder::lemma_assemble_one_failure;
pub use builder::lemma_assemble_order;
pub use builder::lemma_failed_list_yields_empty;
pub use builder::lemma_snapshot_bounded;
pub use builder::plan_details;
pub use builder::spec_assemble;
pub use builder::spec_ids_of;
pub use builder::spec_kept_ids;
pub use builder::spec_plan;

pub use declare::JobDeclarationRequest;
pub use declare::JobDeclarationResponse;
pub use declare::hex8;
pub use declare::hex_digit;
pub use declare::is_hex_id;
pub use declare::is_lower_hex;
pub use declare::job_declare;
pub use declare::job_declare_with;
pub use declare::lemma_hex8_is_hex_id;
pub use declare::spec_hex8;
pub use declare::spec_template;

pub use hub::Hub;
pub use hub::RecvOutcome;
pub use hub::Snapshot;
pub use hub::Subscription;
pub use hub::lemma_no_replay;
pub use hub::spec_delivery;

pub use record::MempoolTransaction;
pub use record::TxDetail;
pub use record::age_minutes;
pub use record::derive_record;
pub use record::spec_age;
pub use record::spec_count;
pub use record::spec_derive;
pub use record::spec_fee;
pub use record::spec_fee_rate_parts;
pub use record::spec_size;
pub use record::spec_weight;
pub use record::trunc_div_minutes;
pub use record::wrap_u32;

pub use selection::SelectionStore;

pub use session::SessionStep;
pub use session::on_recv;

verus! {

/// Upper bound on the number of identifiers kept per refresh cycle.
pub const MAX_SNAPSHOT_LEN: usize = 25;

/// Seconds between refresh cycles.
pub const REFRESH_INTERVAL_SECS: u64 = 15;

/// Per-request timeout for outbound fetches, in seconds.
pub const FETCH_TIMEOUT_SECS: u64 = 10;

/// Number of pending snapshots a subscriber may lag behind before it
/// is dropped.
pub const HUB_CAPACITY: usize = 16;

} // verus!
