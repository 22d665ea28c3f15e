//! Decoding of the configuration profile stored in a gaming mouse.
//!
//! The library holds the field layout of the profile buffer, the handlers that
//! validate and render each field, and the handshake that a transport runs
//! against the device before the buffer can be trusted.

mod attribute;
mod attribute_args;
mod fields;
mod profile;
mod protocol;
mod text;

pub use text::{
    append_decimal, append_fixed_point, decimal_text, digit_char, fixed_point_text, fraction_text,
    pow10, MAX_SCALE,
};
pub use attribute_args::{
    div_toward_zero, lemma_lookup_absent, lemma_lookup_found, lookup, Range, Translation,
    NOT_MEANINGFUL,
};
pub use attribute::{
    dpi_text, dpi_valid, le16, lemma_single_bit, power_of_two_byte, switch_text,
    AttributeHandler, DpiRangeHandler, KailhButtonFilterHandler, ProfileAttribute,
    ProfileAttributeHandler, SingleBinaryAttributeHandler, SingleByteContinuousAttribute,
    SwitchAttributeHandler, DPI_MAX, DPI_MIN, DPI_STEP, FILTER_LEVEL_MAX, INVALID_VALUE,
    SAFE_MODE, SAFE_MODE_LABEL, SPEED_MODE, SPEED_MODE_LABEL, SWITCH_OFF, SWITCH_ON,
    SWITCH_UNSUPPORTED,
};
pub use fields::{
    field_addresses, field_description, field_handler, field_label, field_order, is_click_filter_range,
    is_field_entry, is_standard_button_filter, range_is, MouseProfile, ProfileFieldName, FIELD_COUNT,
};
pub use profile::{empty_buffer, gather, lemma_decode_repeatable, Profile, EMPTY_FILL, PROFILE_SIZE};
pub use protocol::{
    error_text, expected_handshake_response, expected_response, expected_response_byte,
    get_report_header, is_expected_response, lemma_failure_is_final, lemma_handshake_completes,
    lemma_mismatched_response_aborts, lemma_no_partial_profile, lemma_received_is_final,
    pending_step, request, request_payload, run, set_report_header, step, transfer_for,
    ControlHeader, DeviceConfig, HandshakeState, Outcome, ProtocolError, Session, Transfer,
    TransferOutcome, TransferSpec, TransferStep, HANDSHAKE_COMMAND, INTERFACE, PAYLOAD_LENGTH,
    PRODUCT_ID, READ_PROFILE_COMMAND, REPORT_ID, TIMEOUT_SECS, VENDOR_ID,
};
