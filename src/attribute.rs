//! Attribute handlers: how the bytes of one setting are validated and shown.

use vstd::arithmetic::power2::{lemma2_to64, lemma_pow2_strictly_increases, pow2};
use vstd::prelude::*;

use crate::attribute_args::{Range, Translation};
use crate::text::{append_decimal, append_fixed_point, decimal_text};

verus! {

/// What a switch renders for 0.
pub const SWITCH_OFF: &'static str = "OFF";

/// What a switch renders for 1.
pub const SWITCH_ON: &'static str = "ON";

/// What a switch renders for any other byte.
pub const SWITCH_UNSUPPORTED: &'static str = "Not Supported";

/// What a button filter renders for its speed-mode byte.
pub const SPEED_MODE_LABEL: &'static str = "GX Speed Mode";

/// What a button filter renders for its safe-mode byte.
pub const SAFE_MODE_LABEL: &'static str = "GX Safe Mode";

/// What a button filter renders for a byte that is neither a level nor a mode.
pub const INVALID_VALUE: &'static str = "Invalid Value Found";

/// The smallest DPI value that the device takes.
pub const DPI_MIN: u16 = 10;

/// The largest DPI value that the device takes.
pub const DPI_MAX: u16 = 30000;

/// DPI values are multiples of this step.
pub const DPI_STEP: u16 = 10;

/// The byte that a button filter reads as safe mode.
pub const SAFE_MODE: u8 = 0xf0;

/// The byte that a button filter reads as speed mode.
pub const SPEED_MODE: u8 = 0xf1;

/// The highest filter level of a button filter.
pub const FILTER_LEVEL_MAX: u8 = 0x19;

/// Validation and rendering of the bytes of one attribute.
///
/// `data` holds the bytes read from the attribute's addresses, in order.
pub trait ProfileAttributeHandler {
    /// How many bytes the handler reads.
    spec fn arity(&self) -> nat;

    /// The handler's parameters can be computed with.
    spec fn well_formed(&self) -> bool;

    /// The bytes lie in the domain that the hardware produces.
    spec fn accepts(&self, data: Seq<u8>) -> bool;

    /// The display text of the bytes.
    spec fn text(&self, data: Seq<u8>) -> Seq<char>;

    fn validate(&self, data: &Vec<u8>) -> (r: bool)
        requires
            self.well_formed(),
            data@.len() >= self.arity(),
        ensures
            r == self.accepts(data@),
    ;

    fn tostring(&self, data: &Vec<u8>) -> (r: String)
        requires
            self.well_formed(),
            data@.len() >= self.arity(),
        ensures
            r@ == self.text(data@),
    ;
}

/// The text of a switch byte.
pub open spec fn switch_text(b: u8) -> Seq<char> {
    if b == 0 {
        SWITCH_OFF@
    } else if b == 1 {
        SWITCH_ON@
    } else {
        SWITCH_UNSUPPORTED@
    }
}

/// `b` is a power of two.
pub open spec fn power_of_two_byte(b: u8) -> bool {
    exists|k: nat| pow2(k) == b
}

/// The little-endian 16-bit value of two bytes.
pub open spec fn le16(lo: u8, hi: u8) -> int {
    lo + hi * 256
}

/// `v` is a DPI value that the device takes.
pub open spec fn dpi_valid(v: int) -> bool {
    &&& DPI_MIN <= v <= DPI_MAX
    &&& v % (DPI_STEP as int) == 0
}

/// The text of two DPI values.
pub open spec fn dpi_text(left: nat, right: nat) -> Seq<char> {
    decimal_text(left) + "dpi "@ + decimal_text(right) + "dpi"@
}

/// A single byte that is off (0) or on (1).
pub struct SwitchAttributeHandler;

impl ProfileAttributeHandler for SwitchAttributeHandler {
    open spec fn arity(&self) -> nat {
        1
    }

    open spec fn well_formed(&self) -> bool {
        true
    }

    open spec fn accepts(&self, data: Seq<u8>) -> bool {
        data[0] == 0 || data[0] == 1
    }

    open spec fn text(&self, data: Seq<u8>) -> Seq<char> {
        switch_text(data[0])
    }

    fn validate(&self, data: &Vec<u8>) -> (r: bool) {
        data[0] == 0 || data[0] == 1
    }

    fn tostring(&self, data: &Vec<u8>) -> (r: String) {
        match data[0] {
            0 => String::from_str(SWITCH_OFF),
            1 => String::from_str(SWITCH_ON),
            _ => String::from_str(SWITCH_UNSUPPORTED),
        }
    }
}

/// A single byte on a linear range, shown as its decoded value and unit.
pub struct SingleByteContinuousAttribute {
    pub range: Range,
}

impl SingleByteContinuousAttribute {
    pub fn new(range: Range) -> (r: Self)
        ensures
            r.range == range,
    {
        Self { range }
    }
}

impl ProfileAttributeHandler for SingleByteContinuousAttribute {
    open spec fn arity(&self) -> nat {
        1
    }

    open spec fn well_formed(&self) -> bool {
        self.range.well_formed()
    }

    open spec fn accepts(&self, data: Seq<u8>) -> bool {
        self.range.covers(data[0])
    }

    open spec fn text(&self, data: Seq<u8>) -> Seq<char> {
        self.range.text(data[0])
    }

    fn validate(&self, data: &Vec<u8>) -> (r: bool) {
        let b = data[0];
        b >= self.range.code_min && b <= self.range.code_max && (b - self.range.code_min)
            % self.range.code_step == 0
    }

    fn tostring(&self, data: &Vec<u8>) -> (r: String) {
        let v = self.range.decode(data[0]);
        let mut s = String::new();
        append_fixed_point(&mut s, v, self.range.scale);
        s.append(self.range.unit.as_str());
        s
    }
}

/// For a positive byte, clearing its lowest set bit leaves zero exactly when it
/// is a power of two.
pub proof fn lemma_single_bit(b: u8)
    requires
        b > 0,
    ensures
        (b & ((b - 1) as u8) == 0) <==> power_of_two_byte(b),
{
    assert((b & ((b - 1) as u8) == 0) <==> (b == 1 || b == 2 || b == 4 || b == 8 || b == 16 || b
        == 32 || b == 64 || b == 128)) by (bit_vector)
        requires
            b > 0,
    ;
    lemma2_to64();
    if b & ((b - 1) as u8) == 0 {
        let k: nat = if b == 1 {
            0
        } else if b == 2 {
            1
        } else if b == 4 {
            2
        } else if b == 8 {
            3
        } else if b == 16 {
            4
        } else if b == 32 {
            5
        } else if b == 64 {
            6
        } else {
            7
        };
        assert(pow2(k) == b);
    }
    if power_of_two_byte(b) {
        let k = choose|k: nat| pow2(k) == b;
        if k > 8 {
            lemma_pow2_strictly_increases(8, k);
        }
        assert(k < 8);
    }
}

/// A single byte that must be a power of two, shown through a translation
/// table.
pub struct SingleBinaryAttributeHandler {
    pub translation: Translation,
}

impl SingleBinaryAttributeHandler {
    pub fn new(translation: Translation) -> (r: Self)
        ensures
            r.translation == translation,
    {
        Self { translation }
    }
}

impl ProfileAttributeHandler for SingleBinaryAttributeHandler {
    open spec fn arity(&self) -> nat {
        1
    }

    open spec fn well_formed(&self) -> bool {
        self.translation.well_formed()
    }

    open spec fn accepts(&self, data: Seq<u8>) -> bool {
        data[0] > 0 && power_of_two_byte(data[0])
    }

    open spec fn text(&self, data: Seq<u8>) -> Seq<char> {
        self.translation.text(data[0])
    }

    fn validate(&self, data: &Vec<u8>) -> (r: bool) {
        let b = data[0];
        if b == 0 {
            return false;
        }
        proof {
            lemma_single_bit(b);
        }
        b & (b - 1) == 0
    }

    fn tostring(&self, data: &Vec<u8>) -> (r: String) {
        self.translation.translate(data[0])
    }
}

/// Four bytes holding two little-endian DPI values, for the two axes.
pub struct DpiRangeHandler;

impl DpiRangeHandler {
    fn dpi_in_domain(v: u16) -> (r: bool)
        ensures
            r == dpi_valid(v as int),
    {
        v >= DPI_MIN && v <= DPI_MAX && v % DPI_STEP == 0
    }
}

impl ProfileAttributeHandler for DpiRangeHandler {
    open spec fn arity(&self) -> nat {
        4
    }

    open spec fn well_formed(&self) -> bool {
        true
    }

    open spec fn accepts(&self, data: Seq<u8>) -> bool {
        dpi_valid(le16(data[0], data[1])) && dpi_valid(le16(data[2], data[3]))
    }

    open spec fn text(&self, data: Seq<u8>) -> Seq<char> {
        dpi_text(le16(data[0], data[1]) as nat, le16(data[2], data[3]) as nat)
    }

    fn validate(&self, data: &Vec<u8>) -> (r: bool) {
        let left: u16 = data[0] as u16 + data[1] as u16 * 256;
        let right: u16 = data[2] as u16 + data[3] as u16 * 256;
        Self::dpi_in_domain(left) && Self::dpi_in_domain(right)
    }

    fn tostring(&self, data: &Vec<u8>) -> (r: String) {
        proof {
            reveal_strlit("dpi ");
            reveal_strlit("dpi");
        }
        let left: u16 = data[0] as u16 + data[1] as u16 * 256;
        let right: u16 = data[2] as u16 + data[3] as u16 * 256;
        let mut s = String::new();
        append_decimal(&mut s, left as u64);
        s.append("dpi ");
        append_decimal(&mut s, right as u64);
        s.append("dpi");
        assert(s@ =~= dpi_text(left as nat, right as nat));
        s
    }
}

/// A single button-filter byte: a level on a range, or one of two mode bytes.
pub struct KailhButtonFilterHandler {
    pub range: Range,
    pub speed_mode: u8,
    pub safe_mode: u8,
}

impl KailhButtonFilterHandler {
    /// Levels 0 to `FILTER_LEVEL_MAX`, with the modes `SPEED_MODE` and
    /// `SAFE_MODE`.
    pub fn new() -> (r: Self)
        ensures
            r.range.code_min == 0,
            r.range.code_max == FILTER_LEVEL_MAX,
            r.range.code_step == 1,
            r.range.decode_min == 0,
            r.range.decode_step == 1,
            r.range.scale == 0,
            r.range.unit@ == Seq::<char>::empty(),
            r.speed_mode == SPEED_MODE,
            r.safe_mode == SAFE_MODE,
    {
        Self {
            range: Range {
                decode_min: 0,
                decode_step: 1,
                scale: 0,
                code_min: 0,
                code_step: 1,
                code_max: FILTER_LEVEL_MAX,
                unit: String::new(),
            },
            speed_mode: SPEED_MODE,
            safe_mode: SAFE_MODE,
        }
    }

    /// `b` is a filter level.
    pub open spec fn is_level(&self, b: u8) -> bool {
        self.range.code_min <= b <= self.range.code_max
    }
}

impl ProfileAttributeHandler for KailhButtonFilterHandler {
    open spec fn arity(&self) -> nat {
        1
    }

    open spec fn well_formed(&self) -> bool {
        true
    }

    open spec fn accepts(&self, data: Seq<u8>) -> bool {
        self.is_level(data[0]) || data[0] == self.speed_mode || data[0] == self.safe_mode
    }

    open spec fn text(&self, data: Seq<u8>) -> Seq<char> {
        if self.is_level(data[0]) {
            decimal_text(data[0] as nat)
        } else if data[0] == self.speed_mode {
            SPEED_MODE_LABEL@
        } else if data[0] == self.safe_mode {
            SAFE_MODE_LABEL@
        } else {
            INVALID_VALUE@
        }
    }

    fn validate(&self, data: &Vec<u8>) -> (r: bool) {
        let b = data[0];
        (b >= self.range.code_min && b <= self.range.code_max) || b == self.speed_mode || b
            == self.safe_mode
    }

    fn tostring(&self, data: &Vec<u8>) -> (r: String) {
        let b = data[0];
        if b >= self.range.code_min && b <= self.range.code_max {
            let mut s = String::new();
            append_decimal(&mut s, b as u64);
            assert(s@ =~= decimal_text(b as nat));
            s
        } else if b == self.speed_mode {
            String::from_str(SPEED_MODE_LABEL)
        } else if b == self.safe_mode {
            String::from_str(SAFE_MODE_LABEL)
        } else {
            String::from_str(INVALID_VALUE)
        }
    }
}

/// One of the fixed set of handler variants.
pub enum AttributeHandler {
    Switch(SwitchAttributeHandler),
    Continuous(SingleByteContinuousAttribute),
    Binary(SingleBinaryAttributeHandler),
    DpiRange(DpiRangeHandler),
    ButtonFilter(KailhButtonFilterHandler),
}

impl ProfileAttributeHandler for AttributeHandler {
    open spec fn arity(&self) -> nat {
        match self {
            AttributeHandler::Switch(h) => h.arity(),
            AttributeHandler::Continuous(h) => h.arity(),
            AttributeHandler::Binary(h) => h.arity(),
            AttributeHandler::DpiRange(h) => h.arity(),
            AttributeHandler::ButtonFilter(h) => h.arity(),
        }
    }

    open spec fn well_formed(&self) -> bool {
        match self {
            AttributeHandler::Switch(h) => h.well_formed(),
            AttributeHandler::Continuous(h) => h.well_formed(),
            AttributeHandler::Binary(h) => h.well_formed(),
            AttributeHandler::DpiRange(h) => h.well_formed(),
            AttributeHandler::ButtonFilter(h) => h.well_formed(),
        }
    }

    open spec fn accepts(&self, data: Seq<u8>) -> bool {
        match self {
            AttributeHandler::Switch(h) => h.accepts(data),
            AttributeHandler::Continuous(h) => h.accepts(data),
            AttributeHandler::Binary(h) => h.accepts(data),
            AttributeHandler::DpiRange(h) => h.accepts(data),
            AttributeHandler::ButtonFilter(h) => h.accepts(data),
        }
    }

    open spec fn text(&self, data: Seq<u8>) -> Seq<char> {
        match self {
            AttributeHandler::Switch(h) => h.text(data),
            AttributeHandler::Continuous(h) => h.text(data),
            AttributeHandler::Binary(h) => h.text(data),
            AttributeHandler::DpiRange(h) => h.text(data),
            AttributeHandler::ButtonFilter(h) => h.text(data),
        }
    }

    fn validate(&self, data: &Vec<u8>) -> (r: bool) {
        match self {
            AttributeHandler::Switch(h) => h.validate(data),
            AttributeHandler::Continuous(h) => h.validate(data),
            AttributeHandler::Binary(h) => h.validate(data),
            AttributeHandler::DpiRange(h) => h.validate(data),
            AttributeHandler::ButtonFilter(h) => h.validate(data),
        }
    }

    fn tostring(&self, data: &Vec<u8>) -> (r: String) {
        match self {
            AttributeHandler::Switch(h) => h.tostring(data),
            AttributeHandler::Continuous(h) => h.tostring(data),
            AttributeHandler::Binary(h) => h.tostring(data),
            AttributeHandler::DpiRange(h) => h.tostring(data),
            AttributeHandler::ButtonFilter(h) => h.tostring(data),
        }
    }
}

/// A named setting: the buffer offsets it is read from and its handler.
pub struct ProfileAttribute {
    pub name: String,
    pub description: String,
    pub addresses: Vec<u8>,
    pub has_datafield: bool,
    pub datafield_addresses: Option<Vec<u8>>,
    pub attribute_handler: AttributeHandler,
}

impl ProfileAttribute {
    /// The handler reads as many bytes as there are addresses, and its
    /// parameters can be computed with.
    pub open spec fn well_formed(&self) -> bool {
        &&& self.addresses.len() == self.attribute_handler.arity()
        &&& self.attribute_handler.well_formed()
    }
}

} // verus!
