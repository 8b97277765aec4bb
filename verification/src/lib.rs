//! Read status data from certain models of LiFePO4 Battery Management Systems
//! over a serial-over-wireless link.
//!
//! The device speaks a length-prefixed, checksummed request/response protocol
//! on top of a notification stream that provides no reliable message
//! delimiters and may duplicate or truncate chunks. This crate holds the
//! protocol engine: frame parsing and validation, reassembly of a response
//! from transport chunks, and decoding of the two known response payloads
//! into typed telemetry. Transport discovery, connection handling and I/O
//! live outside the library.

mod assembler;
mod battery_state;
mod checksum;
mod client;
mod frame;
mod message;

pub use assembler::Assembler;
pub use assembler::AssemblyStep;
pub use battery_state::BatteryState;
pub use checksum::checksum_bytes;
pub use checksum::checksum_of;
pub use checksum::crc16_modbus;
pub use client::compose_state;
pub use client::decode_battery_state;
pub use client::RetryPolicy;
pub use frame::build_frame;
pub use frame::lemma_bad_header_invalid;
pub use frame::lemma_frame_round_trip;
pub use frame::lemma_length_byte_corruption;
pub use frame::lemma_payload_corruption_detected;
pub use frame::lemma_short_buffer_incomplete;
pub use frame::parse;
pub use frame::spec_frame;
pub use frame::spec_parse;
pub use frame::InvalidReason;
pub use frame::ParseOutcome;
pub use frame::SpecParseOutcome;
pub use frame::FRAME_OVERHEAD;
pub use frame::HEADER_BYTE_0;
pub use frame::HEADER_BYTE_1;
pub use message::lemma_decoding_deterministic;
pub use message::soc_message::soc_request;
pub use message::soc_message::spec_soc_request;
pub use message::soc_message::SocMessage;
pub use message::soc_message::CYCLES_COUNT_WORD;
pub use message::soc_message::RESIDUAL_CAPACITY_WORD;
pub use message::soc_message::SOC_PCT_WORD;
pub use message::spec_words;
pub use message::voltages_message::lemma_populated_cells_len;
pub use message::voltages_message::populated_cells;
pub use message::voltages_message::sentinel_count;
pub use message::voltages_message::spec_voltages_request;
pub use message::voltages_message::voltages_request;
pub use message::voltages_message::VoltagesMessage;
pub use message::voltages_message::BATTERY_VOLTAGE_WORD;
pub use message::voltages_message::CELL_SLOT_COUNT;
pub use message::voltages_message::CELL_VOLTAGE_NA_VALUE;
pub use message::words_from_bytes;
