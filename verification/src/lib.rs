//! A small library for managing the DNS records of one zone: looking a
//! record up by name, filtering records for display, and planning the
//! create / update / delete calls that a client issues against the zone's
//! REST endpoint. All network traffic is left to the caller; this crate
//! holds the decisions and the text they produce, with proofs.

mod endpoint;
mod messages;
mod plan;
mod record;
mod show;
mod text;

pub use endpoint::ZoneConfig;
pub use endpoint::auth_header_spec;
pub use endpoint::collection_endpoint_spec;
pub use endpoint::record_endpoint_spec;

pub use record::Entry;
pub use record::EntryView;
pub use record::find_rec;
pub use record::lemma_find_first;
pub use record::spec_find;

pub use show::format_line;
pub use show::keeps;
pub use show::lemma_show_all_keeps_every_record;
pub use show::lemma_show_outputs_exactly_matching;
pub use show::line_of;
pub use show::show_all_filter;
pub use show::show_lines_spec;
pub use show::show_rec;

pub use plan::DelPlan;
pub use plan::DestPlan;
pub use plan::SetPlan;
pub use plan::del_rec;
pub use plan::public_ip_sentinel;
pub use plan::resolve_dest;
pub use plan::resolved_ip;
pub use plan::set_rec;

pub use messages::msg_create_intro;
pub use messages::msg_created;
pub use messages::msg_delete_error;
pub use messages::msg_deleted;
pub use messages::msg_no_record;
pub use messages::msg_update_error;
pub use messages::msg_update_intro;
pub use messages::msg_updated;

pub use text::is_ws;
pub use text::str_eq;
pub use text::trim;
pub use text::trim_end_spec;
pub use text::trim_spec;
pub use text::trim_start_spec;
