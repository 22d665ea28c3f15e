//! The field registry: every known setting of the profile, its offsets and
//! its handler.

use vstd::prelude::*;

use crate::attribute::{
    AttributeHandler, DpiRangeHandler, KailhButtonFilterHandler, ProfileAttribute,
    SingleBinaryAttributeHandler, SingleByteContinuousAttribute, SwitchAttributeHandler,
    FILTER_LEVEL_MAX, SAFE_MODE, SPEED_MODE,
};
use crate::attribute_args::{Range, Translation};

verus! {

/// The identifier of a known setting.
#[derive(Clone, Copy, PartialEq, Eq, Structural, Debug, Hash)]
pub enum ProfileFieldName {
    PollRate,
    SlamclickFilter,
    DisableLedOnLiftoff,
    LiftoffDistance,
    AngleSnapping,
    RippleControl,
    MotionSync,
    CpiLevels,
    CpiProf1,
    CpiProf2,
    CpiProf3,
    CpiProf4,
    LeftBtnMF,
    RightBtnMF,
    MidBtnMF,
    ForwardBtnMF,
    BackBtnMf,
}

/// The number of known settings.
pub const FIELD_COUNT: usize = 17;

/// Every identifier once, in display order.
pub open spec fn field_order() -> Seq<ProfileFieldName> {
    seq![
        ProfileFieldName::PollRate,
        ProfileFieldName::SlamclickFilter,
        ProfileFieldName::DisableLedOnLiftoff,
        ProfileFieldName::LiftoffDistance,
        ProfileFieldName::AngleSnapping,
        ProfileFieldName::RippleControl,
        ProfileFieldName::MotionSync,
        ProfileFieldName::CpiLevels,
        ProfileFieldName::CpiProf1,
        ProfileFieldName::CpiProf2,
        ProfileFieldName::CpiProf3,
        ProfileFieldName::CpiProf4,
        ProfileFieldName::LeftBtnMF,
        ProfileFieldName::RightBtnMF,
        ProfileFieldName::MidBtnMF,
        ProfileFieldName::ForwardBtnMF,
        ProfileFieldName::BackBtnMf,
    ]
}

impl ProfileFieldName {
    /// Every identifier once, in display order.
    pub fn all() -> (r: Vec<ProfileFieldName>)
        ensures
            r@ == field_order(),
            r@.len() == FIELD_COUNT,
    {
        let r = vec![
            ProfileFieldName::PollRate,
            ProfileFieldName::SlamclickFilter,
            ProfileFieldName::DisableLedOnLiftoff,
            ProfileFieldName::LiftoffDistance,
            ProfileFieldName::AngleSnapping,
            ProfileFieldName::RippleControl,
            ProfileFieldName::MotionSync,
            ProfileFieldName::CpiLevels,
            ProfileFieldName::CpiProf1,
            ProfileFieldName::CpiProf2,
            ProfileFieldName::CpiProf3,
            ProfileFieldName::CpiProf4,
            ProfileFieldName::LeftBtnMF,
            ProfileFieldName::RightBtnMF,
            ProfileFieldName::MidBtnMF,
            ProfileFieldName::ForwardBtnMF,
            ProfileFieldName::BackBtnMf,
        ];
        assert(r@ =~= field_order());
        r
    }
}

const POLL_RATE_NAME: &'static str = "Polling Rate";

const POLL_RATE_DESCRIPTION: &'static str =
    "Polling Rate is the frequency in which information is being exchanged between the computer and the mouse.\nAllowed values are [8, 4, 2, 1] and represent [1000, 2000, 4000, 8000] Hz respectively.";

const SLAMCLICK_FILTER_NAME: &'static str = "Slamclick Filter";

const SLAMCLICK_FILTER_DESCRIPTION: &'static str =
    "Slamclick Filter filters out accidental clicks when the mouse is lifted and slammed down. When enabled non-intended mouseclicks will be filtered out.\nAllowed values are [0,1] which represent [OFF, ON] respectively";

const DISABLE_LED_NAME: &'static str = "Disable LED on Lift-Off";

const DISABLE_LED_DESCRIPTION: &'static str =
    "Disables the bottom indicator LED when the mouse is lifted off.\nAllowed values are [0,1] which represent [OFF, ON] respectively";

const LIFTOFF_DISTANCE_NAME: &'static str = "LOD (Lift-Off Distance)";

const LIFTOFF_DISTANCE_DESCRIPTION: &'static str =
    "Describes at which distance a Lift-Off is considered to be one.\nAllowed values are [0 - 10] which represent [0.7mm - 1.7mm] in 0.1mm steps.";

const ANGLE_SNAPPING_NAME: &'static str = "Angle Snapping";

const ANGLE_SNAPPING_DESCRIPTION: &'static str =
    "Angle Snapping will ignore smaller jitters when moving horizontally or vertically and will straighten out the movement.\nAllowed values are [0,1] which represent [OFF, ON] respectively.";

const RIPPLE_CONTROL_NAME: &'static str = "Ripple Control";

const RIPPLE_CONTROL_DESCRIPTION: &'static str =
    "Reducing jitter by applying smoothing for CPI>=1900. Side effects are a few less frames and added motion delay.\nAllowed values are [0,1] which represent [OFF, ON] respectively.";

const MOTION_SYNC_NAME: &'static str = "Motion Sync";

const MOTION_SYNC_DESCRIPTION: &'static str =
    "Motion Sync synchronizes USB polling with frame reading. A new polling-frame will only be generated when it has been fetched. Input delay increases slightly (~1ms).\nAllowed values are [0,1] which represent [OFF, ON] respectively";

const CPI_LEVELS_NAME: &'static str = "Number of CPI Levels";

const CPI_LEVELS_DESCRIPTION: &'static str =
    "Sets how many CPI levels are available when cycling through CPI profiles.\nAllowed values are [1,2,3,4] which represent the number of CPI levels respectively";

const CPI_PROF1_NAME: &'static str = "DPI Setting for Profile 1";

const CPI_PROF1_DESCRIPTION: &'static str =
    "Sets the DPI for profile 1.\nAllowed values are [10-30.000] in steps of 10.";

const CPI_PROF2_NAME: &'static str = "DPI Setting for Profile 2";

const CPI_PROF2_DESCRIPTION: &'static str =
    "Sets the DPI for profile 2.\nAllowed values are [10-30.000] in steps of 10.";

const CPI_PROF3_NAME: &'static str = "DPI Setting for Profile 3";

const CPI_PROF3_DESCRIPTION: &'static str =
    "Sets the DPI for profile 3.\nAllowed values are [10-30.000] in steps of 10.";

const CPI_PROF4_NAME: &'static str = "DPI Setting for Profile 4";

const CPI_PROF4_DESCRIPTION: &'static str =
    "Sets the DPI for profile 4.\nAllowed values are [10-30.000] in steps of 10.";

const RIGHT_BUTTON_NAME: &'static str = "Multiclick Filter Right Mouse Button";

const LEFT_BUTTON_NAME: &'static str = "Multiclick Filter Left Mouse Button";

const FRONT_BUTTON_DESCRIPTION: &'static str =
    "Sets the level of filtering multiclicks. The front buttons support special modes GX Speed Mode and GX Safe Mode. GX Speed Mode registers at loss of contact for two contactpoints. GX Safe Mode registers at loss of one of those contactpoints as click. GX Safe Mode is good for worn down switches and is considered a hardware implemented double-click filter.\nAllowed values are [0-25], 240 or 241 which are the filter level, GX Safe Mode or GX Speed Mode respectively.";

const MIDDLE_BUTTON_NAME: &'static str = "Multiclick Filter Middle Mouse Button";

const FORWARD_BUTTON_NAME: &'static str = "Multiclick Filter Forward Mouse Button";

const BACK_BUTTON_NAME: &'static str = "Multiclick Filter Back Mouse Button";

const OTHER_BUTTON_DESCRIPTION: &'static str =
    "Sets the level of filtering multiclicks.\nAllowed values are [0-25].";

/// The display name of a setting.
pub closed spec fn field_label(f: ProfileFieldName) -> Seq<char> {
    match f {
        ProfileFieldName::PollRate => POLL_RATE_NAME@,
        ProfileFieldName::SlamclickFilter => SLAMCLICK_FILTER_NAME@,
        ProfileFieldName::DisableLedOnLiftoff => DISABLE_LED_NAME@,
        ProfileFieldName::LiftoffDistance => LIFTOFF_DISTANCE_NAME@,
        ProfileFieldName::AngleSnapping => ANGLE_SNAPPING_NAME@,
        ProfileFieldName::RippleControl => RIPPLE_CONTROL_NAME@,
        ProfileFieldName::MotionSync => MOTION_SYNC_NAME@,
        ProfileFieldName::CpiLevels => CPI_LEVELS_NAME@,
        ProfileFieldName::CpiProf1 => CPI_PROF1_NAME@,
        ProfileFieldName::CpiProf2 => CPI_PROF2_NAME@,
        ProfileFieldName::CpiProf3 => CPI_PROF3_NAME@,
        ProfileFieldName::CpiProf4 => CPI_PROF4_NAME@,
        ProfileFieldName::LeftBtnMF => LEFT_BUTTON_NAME@,
        ProfileFieldName::RightBtnMF => RIGHT_BUTTON_NAME@,
        ProfileFieldName::MidBtnMF => MIDDLE_BUTTON_NAME@,
        ProfileFieldName::ForwardBtnMF => FORWARD_BUTTON_NAME@,
        ProfileFieldName::BackBtnMf => BACK_BUTTON_NAME@,
    }
}

/// The help text of a setting.
pub closed spec fn field_description(f: ProfileFieldName) -> Seq<char> {
    match f {
        ProfileFieldName::PollRate => POLL_RATE_DESCRIPTION@,
        ProfileFieldName::SlamclickFilter => SLAMCLICK_FILTER_DESCRIPTION@,
        ProfileFieldName::DisableLedOnLiftoff => DISABLE_LED_DESCRIPTION@,
        ProfileFieldName::LiftoffDistance => LIFTOFF_DISTANCE_DESCRIPTION@,
        ProfileFieldName::AngleSnapping => ANGLE_SNAPPING_DESCRIPTION@,
        ProfileFieldName::RippleControl => RIPPLE_CONTROL_DESCRIPTION@,
        ProfileFieldName::MotionSync => MOTION_SYNC_DESCRIPTION@,
        ProfileFieldName::CpiLevels => CPI_LEVELS_DESCRIPTION@,
        ProfileFieldName::CpiProf1 => CPI_PROF1_DESCRIPTION@,
        ProfileFieldName::CpiProf2 => CPI_PROF2_DESCRIPTION@,
        ProfileFieldName::CpiProf3 => CPI_PROF3_DESCRIPTION@,
        ProfileFieldName::CpiProf4 => CPI_PROF4_DESCRIPTION@,
        ProfileFieldName::LeftBtnMF => FRONT_BUTTON_DESCRIPTION@,
        ProfileFieldName::RightBtnMF => FRONT_BUTTON_DESCRIPTION@,
        ProfileFieldName::MidBtnMF => OTHER_BUTTON_DESCRIPTION@,
        ProfileFieldName::ForwardBtnMF => OTHER_BUTTON_DESCRIPTION@,
        ProfileFieldName::BackBtnMf => OTHER_BUTTON_DESCRIPTION@,
    }
}

/// The buffer offsets of a setting, in the order its handler reads them.
pub open spec fn field_addresses(f: ProfileFieldName) -> Seq<u8> {
    match f {
        ProfileFieldName::PollRate => seq![21],
        ProfileFieldName::SlamclickFilter => seq![22],
        ProfileFieldName::DisableLedOnLiftoff => seq![24],
        ProfileFieldName::LiftoffDistance => seq![25],
        ProfileFieldName::AngleSnapping => seq![26],
        ProfileFieldName::RippleControl => seq![27],
        ProfileFieldName::MotionSync => seq![28],
        ProfileFieldName::CpiLevels => seq![30],
        ProfileFieldName::CpiProf1 => seq![52, 53, 54, 55],
        ProfileFieldName::CpiProf2 => seq![57, 58, 59, 60],
        ProfileFieldName::CpiProf3 => seq![62, 63, 64, 65],
        ProfileFieldName::CpiProf4 => seq![67, 68, 69, 70],
        ProfileFieldName::LeftBtnMF => seq![84],
        ProfileFieldName::RightBtnMF => seq![77],
        ProfileFieldName::MidBtnMF => seq![91],
        ProfileFieldName::ForwardBtnMF => seq![98],
        ProfileFieldName::BackBtnMf => seq![105],
    }
}

/// `r` holds exactly the given parameters.
pub open spec fn range_is(
    r: Range,
    decode_min: int,
    decode_step: int,
    scale: nat,
    code_min: u8,
    code_step: u8,
    code_max: u8,
    unit: Seq<char>,
) -> bool {
    &&& r.decode_min == decode_min
    &&& r.decode_step == decode_step
    &&& r.scale == scale
    &&& r.code_min == code_min
    &&& r.code_step == code_step
    &&& r.code_max == code_max
    &&& r.unit@ == unit
}

/// The range of the button filters without modes: levels 0 to
/// `FILTER_LEVEL_MAX`, shown as the level itself.
pub open spec fn is_click_filter_range(r: Range) -> bool {
    range_is(r, 0, 1, 0, 0, 1, FILTER_LEVEL_MAX, Seq::empty())
}

/// `k` is the button filter with levels 0 to `FILTER_LEVEL_MAX` and the two
/// mode bytes.
pub open spec fn is_standard_button_filter(k: KailhButtonFilterHandler) -> bool {
    &&& is_click_filter_range(k.range)
    &&& k.speed_mode == SPEED_MODE
    &&& k.safe_mode == SAFE_MODE
}

/// `h` is the handler that the registry gives to `f`.
pub open spec fn field_handler(f: ProfileFieldName, h: AttributeHandler) -> bool {
    match f {
        ProfileFieldName::PollRate => {
            &&& h matches AttributeHandler::Binary(b)
            &&& b.translation.code@ == seq![0x08u8, 0x04, 0x02, 0x01]
            &&& b.translation.decodes() == seq!["1000Hz"@, "2000Hz"@, "4000Hz"@, "8000Hz"@]
        },
        ProfileFieldName::LiftoffDistance => {
            &&& h matches AttributeHandler::Continuous(c)
            &&& range_is(c.range, 7, 1, 1, 0, 1, 10, "mm"@)
        },
        ProfileFieldName::CpiLevels => {
            &&& h matches AttributeHandler::Continuous(c)
            &&& range_is(c.range, 1, 1, 0, 1, 1, 4, " levels"@)
        },
        ProfileFieldName::CpiProf1 | ProfileFieldName::CpiProf2 | ProfileFieldName::CpiProf3
        | ProfileFieldName::CpiProf4 => h is DpiRange,
        ProfileFieldName::LeftBtnMF | ProfileFieldName::RightBtnMF => {
            &&& h matches AttributeHandler::ButtonFilter(k)
            &&& is_standard_button_filter(k)
        },
        ProfileFieldName::MidBtnMF | ProfileFieldName::ForwardBtnMF
        | ProfileFieldName::BackBtnMf => {
            &&& h matches AttributeHandler::Continuous(c)
            &&& is_click_filter_range(c.range)
        },
        _ => h is Switch,
    }
}

/// `a` is the registry's entry for `f`.
pub open spec fn is_field_entry(f: ProfileFieldName, a: ProfileAttribute) -> bool {
    &&& a.name@ == field_label(f)
    &&& a.description@ == field_description(f)
    &&& a.addresses@ == field_addresses(f)
    &&& !a.has_datafield
    &&& a.datafield_addresses is None
    &&& field_handler(f, a.attribute_handler)
    &&& a.well_formed()
}

fn attribute(
    name: &'static str,
    description: &'static str,
    addresses: Vec<u8>,
    handler: AttributeHandler,
) -> (r: ProfileAttribute)
    ensures
        r.name@ == name@,
        r.description@ == description@,
        r.addresses == addresses,
        !r.has_datafield,
        r.datafield_addresses is None,
        r.attribute_handler == handler,
{
    ProfileAttribute {
        name: String::from_str(name),
        description: String::from_str(description),
        addresses,
        has_datafield: false,
        datafield_addresses: None,
        attribute_handler: handler,
    }
}

fn click_filter_range() -> (r: Range)
    ensures
        is_click_filter_range(r),
{
    Range {
        decode_min: 0,
        decode_step: 1,
        scale: 0,
        code_min: 0,
        code_step: 1,
        code_max: FILTER_LEVEL_MAX,
        unit: String::new(),
    }
}

fn switch(name: &'static str, description: &'static str, address: u8) -> (r: ProfileAttribute)
    ensures
        r.name@ == name@,
        r.description@ == description@,
        r.addresses@ == seq![address],
        !r.has_datafield,
        r.datafield_addresses is None,
        r.attribute_handler is Switch,
{
    let r = attribute(
        name,
        description,
        vec![address],
        AttributeHandler::Switch(SwitchAttributeHandler),
    );
    assert(r.addresses@ =~= seq![address]);
    r
}

fn dpi(name: &'static str, description: &'static str, first: u8) -> (r: ProfileAttribute)
    requires
        first <= 252,
    ensures
        r.name@ == name@,
        r.description@ == description@,
        r.addresses@ == seq![first, (first + 1) as u8, (first + 2) as u8, (first + 3) as u8],
        !r.has_datafield,
        r.datafield_addresses is None,
        r.attribute_handler is DpiRange,
{
    let r = attribute(
        name,
        description,
        vec![first, first + 1, first + 2, first + 3],
        AttributeHandler::DpiRange(DpiRangeHandler),
    );
    assert(r.addresses@ =~= seq![first, (first + 1) as u8, (first + 2) as u8, (first + 3) as u8]);
    r
}

fn front_button(name: &'static str, address: u8) -> (r: ProfileAttribute)
    ensures
        r.name@ == name@,
        r.description@ == FRONT_BUTTON_DESCRIPTION@,
        r.addresses@ == seq![address],
        !r.has_datafield,
        r.datafield_addresses is None,
        r.attribute_handler matches AttributeHandler::ButtonFilter(k)
            && is_standard_button_filter(k),
{
    let r = attribute(
        name,
        FRONT_BUTTON_DESCRIPTION,
        vec![address],
        AttributeHandler::ButtonFilter(KailhButtonFilterHandler::new()),
    );
    assert(r.addresses@ =~= seq![address]);
    r
}

fn other_button(name: &'static str, address: u8) -> (r: ProfileAttribute)
    ensures
        r.name@ == name@,
        r.description@ == OTHER_BUTTON_DESCRIPTION@,
        r.addresses@ == seq![address],
        !r.has_datafield,
        r.datafield_addresses is None,
        r.attribute_handler matches AttributeHandler::Continuous(c) && is_click_filter_range(
            c.range,
        ),
{
    let r = attribute(
        name,
        OTHER_BUTTON_DESCRIPTION,
        vec![address],
        AttributeHandler::Continuous(SingleByteContinuousAttribute::new(click_filter_range())),
    );
    assert(r.addresses@ =~= seq![address]);
    r
}

fn poll_rate() -> (r: ProfileAttribute)
    ensures
        is_field_entry(ProfileFieldName::PollRate, r),
{
    proof {
        reveal_strlit("1000Hz");
        reveal_strlit("2000Hz");
        reveal_strlit("4000Hz");
        reveal_strlit("8000Hz");
    }
    let translation = Translation {
        code: vec![0x08, 0x04, 0x02, 0x01],
        decode: vec![
            String::from_str("1000Hz"),
            String::from_str("2000Hz"),
            String::from_str("4000Hz"),
            String::from_str("8000Hz"),
        ],
    };
    assert(translation.code@ =~= seq![0x08u8, 0x04, 0x02, 0x01]);
    assert(translation.decodes() =~= seq!["1000Hz"@, "2000Hz"@, "4000Hz"@, "8000Hz"@]);
    let r = attribute(
        POLL_RATE_NAME,
        POLL_RATE_DESCRIPTION,
        vec![21],
        AttributeHandler::Binary(SingleBinaryAttributeHandler::new(translation)),
    );
    assert(r.addresses@ =~= seq![21u8]);
    r
}

fn liftoff_distance() -> (r: ProfileAttribute)
    ensures
        is_field_entry(ProfileFieldName::LiftoffDistance, r),
{
    let range = Range {
        decode_min: 7,
        decode_step: 1,
        scale: 1,
        code_min: 0x00,
        code_step: 0x01,
        code_max: 0x0a,
        unit: String::from_str("mm"),
    };
    let r = attribute(
        LIFTOFF_DISTANCE_NAME,
        LIFTOFF_DISTANCE_DESCRIPTION,
        vec![25],
        AttributeHandler::Continuous(SingleByteContinuousAttribute::new(range)),
    );
    assert(r.addresses@ =~= seq![25u8]);
    r
}

fn cpi_levels() -> (r: ProfileAttribute)
    ensures
        is_field_entry(ProfileFieldName::CpiLevels, r),
{
    let range = Range {
        decode_min: 1,
        decode_step: 1,
        scale: 0,
        code_min: 1,
        code_step: 1,
        code_max: 4,
        unit: String::from_str(" levels"),
    };
    let r = attribute(
        CPI_LEVELS_NAME,
        CPI_LEVELS_DESCRIPTION,
        vec![30],
        AttributeHandler::Continuous(SingleByteContinuousAttribute::new(range)),
    );
    assert(r.addresses@ =~= seq![30u8]);
    r
}

/// The registry: one attribute per known setting.
pub struct MouseProfile {
    pub poll_rate: ProfileAttribute,
    pub slamclick_filter: ProfileAttribute,
    pub disable_led_on_liftoff: ProfileAttribute,
    pub liftoff_distance: ProfileAttribute,
    pub angle_snapping: ProfileAttribute,
    pub ripple_control: ProfileAttribute,
    pub motion_sync: ProfileAttribute,
    pub cpi_levels: ProfileAttribute,
    pub cpi_prof1: ProfileAttribute,
    pub cpi_prof2: ProfileAttribute,
    pub cpi_prof3: ProfileAttribute,
    pub cpi_prof4: ProfileAttribute,
    pub left_btn_mouse_filter: ProfileAttribute,
    pub right_btn_mouse_filter: ProfileAttribute,
    pub mid_btn_mouse_filter: ProfileAttribute,
    pub forward_btn_mouse_filter: ProfileAttribute,
    pub back_btn_mouse_filter: ProfileAttribute,
}

impl MouseProfile {
    /// The attribute stored for `f`.
    pub open spec fn field(&self, f: ProfileFieldName) -> ProfileAttribute {
        match f {
            ProfileFieldName::PollRate => self.poll_rate,
            ProfileFieldName::SlamclickFilter => self.slamclick_filter,
            ProfileFieldName::DisableLedOnLiftoff => self.disable_led_on_liftoff,
            ProfileFieldName::LiftoffDistance => self.liftoff_distance,
            ProfileFieldName::AngleSnapping => self.angle_snapping,
            ProfileFieldName::RippleControl => self.ripple_control,
            ProfileFieldName::MotionSync => self.motion_sync,
            ProfileFieldName::CpiLevels => self.cpi_levels,
            ProfileFieldName::CpiProf1 => self.cpi_prof1,
            ProfileFieldName::CpiProf2 => self.cpi_prof2,
            ProfileFieldName::CpiProf3 => self.cpi_prof3,
            ProfileFieldName::CpiProf4 => self.cpi_prof4,
            ProfileFieldName::LeftBtnMF => self.left_btn_mouse_filter,
            ProfileFieldName::RightBtnMF => self.right_btn_mouse_filter,
            ProfileFieldName::MidBtnMF => self.mid_btn_mouse_filter,
            ProfileFieldName::ForwardBtnMF => self.forward_btn_mouse_filter,
            ProfileFieldName::BackBtnMf => self.back_btn_mouse_filter,
        }
    }

    /// Every attribute can be decoded.
    pub open spec fn well_formed(&self) -> bool {
        forall|f: ProfileFieldName| #[trigger] self.field(f).well_formed()
    }

    /// Every attribute is the one that the device layout gives.
    pub open spec fn is_device_layout(&self) -> bool {
        forall|f: ProfileFieldName| is_field_entry(f, #[trigger] self.field(f))
    }

    /// The registry of the device's layout.
    pub fn new() -> (r: Self)
        ensures
            r.is_device_layout(),
            r.well_formed(),
    {
        let r = Self {
            poll_rate: poll_rate(),
            slamclick_filter: switch(SLAMCLICK_FILTER_NAME, SLAMCLICK_FILTER_DESCRIPTION, 22),
            disable_led_on_liftoff: switch(DISABLE_LED_NAME, DISABLE_LED_DESCRIPTION, 24),
            liftoff_distance: liftoff_distance(),
            angle_snapping: switch(ANGLE_SNAPPING_NAME, ANGLE_SNAPPING_DESCRIPTION, 26),
            ripple_control: switch(RIPPLE_CONTROL_NAME, RIPPLE_CONTROL_DESCRIPTION, 27),
            motion_sync: switch(MOTION_SYNC_NAME, MOTION_SYNC_DESCRIPTION, 28),
            cpi_levels: cpi_levels(),
            cpi_prof1: dpi(CPI_PROF1_NAME, CPI_PROF1_DESCRIPTION, 52),
            cpi_prof2: dpi(CPI_PROF2_NAME, CPI_PROF2_DESCRIPTION, 57),
            cpi_prof3: dpi(CPI_PROF3_NAME, CPI_PROF3_DESCRIPTION, 62),
            cpi_prof4: dpi(CPI_PROF4_NAME, CPI_PROF4_DESCRIPTION, 67),
            left_btn_mouse_filter: front_button(LEFT_BUTTON_NAME, 84),
            right_btn_mouse_filter: front_button(RIGHT_BUTTON_NAME, 77),
            mid_btn_mouse_filter: other_button(MIDDLE_BUTTON_NAME, 91),
            forward_btn_mouse_filter: other_button(FORWARD_BUTTON_NAME, 98),
            back_btn_mouse_filter: other_button(BACK_BUTTON_NAME, 105),
        };
        assert forall|f: ProfileFieldName| is_field_entry(f, #[trigger] r.field(f)) by {
            match f {
                ProfileFieldName::PollRate => {},
                ProfileFieldName::SlamclickFilter => {},
                ProfileFieldName::DisableLedOnLiftoff => {},
                ProfileFieldName::LiftoffDistance => {},
                ProfileFieldName::AngleSnapping => {},
                ProfileFieldName::RippleControl => {},
                ProfileFieldName::MotionSync => {},
                ProfileFieldName::CpiLevels => {},
                ProfileFieldName::CpiProf1 => {},
                ProfileFieldName::CpiProf2 => {},
                ProfileFieldName::CpiProf3 => {},
                ProfileFieldName::CpiProf4 => {},
                ProfileFieldName::LeftBtnMF => {},
                ProfileFieldName::RightBtnMF => {},
                ProfileFieldName::MidBtnMF => {},
                ProfileFieldName::ForwardBtnMF => {},
                ProfileFieldName::BackBtnMf => {},
            }
        }
        r
    }

    /// The attribute of `f`. Every identifier is in the registry, so the
    /// lookup cannot fail.
    pub fn get(&self, f: ProfileFieldName) -> (r: &ProfileAttribute)
        ensures
            *r == self.field(f),
    {
        match f {
            ProfileFieldName::PollRate => &self.poll_rate,
            ProfileFieldName::SlamclickFilter => &self.slamclick_filter,
            ProfileFieldName::DisableLedOnLiftoff => &self.disable_led_on_liftoff,
            ProfileFieldName::LiftoffDistance => &self.liftoff_distance,
            ProfileFieldName::AngleSnapping => &self.angle_snapping,
            ProfileFieldName::RippleControl => &self.ripple_control,
            ProfileFieldName::MotionSync => &self.motion_sync,
            ProfileFieldName::CpiLevels => &self.cpi_levels,
            ProfileFieldName::CpiProf1 => &self.cpi_prof1,
            ProfileFieldName::CpiProf2 => &self.cpi_prof2,
            ProfileFieldName::CpiProf3 => &self.cpi_prof3,
            ProfileFieldName::CpiProf4 => &self.cpi_prof4,
            ProfileFieldName::LeftBtnMF => &self.left_btn_mouse_filter,
            ProfileFieldName::RightBtnMF => &self.right_btn_mouse_filter,
            ProfileFieldName::MidBtnMF => &self.mid_btn_mouse_filter,
            ProfileFieldName::ForwardBtnMF => &self.forward_btn_mouse_filter,
            ProfileFieldName::BackBtnMf => &self.back_btn_mouse_filter,
        }
    }

    /// The registry as a table of identifier and attribute, one entry per
    /// setting, in display order.
    pub fn hashmap(&self) -> (r: Vec<(ProfileFieldName, &ProfileAttribute)>)
        ensures
            r@.len() == FIELD_COUNT,
            forall|i: int|
                0 <= i < r@.len() ==> {
                    &&& (#[trigger] r@[i]).0 == field_order()[i]
                    &&& *r@[i].1 == self.field(field_order()[i])
                },
    {
        let order = ProfileFieldName::all();
        let mut r: Vec<(ProfileFieldName, &ProfileAttribute)> = Vec::new();
        let mut i: usize = 0;
        while i < order.len()
            invariant
                order@ == field_order(),
                i <= order.len(),
                r@.len() == i,
                forall|j: int|
                    0 <= j < i ==> {
                        &&& (#[trigger] r@[j]).0 == field_order()[j]
                        &&& *r@[j].1 == self.field(field_order()[j])
                    },
            decreases order.len() - i,
        {
            let f = order[i];
            r.push((f, self.get(f)));
            i = i + 1;
        }
        r
    }
}

} // verus!
