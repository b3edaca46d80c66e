//! The modes that a monitor can be driven in.

use vstd::prelude::*;
use vstd::string::*;

use crate::scale;
use crate::scale::{Scale, ScaleView};
use crate::sway;
use crate::text;
use crate::wayland_observer::OutputModeSnapshot;

verus! {

/// One mode of a monitor; the refresh rate is in mHz.
#[derive(Debug, PartialEq)]
pub struct Modes {
    pub id: String,
    pub width: i32,
    pub height: i32,
    pub refresh_mhz: i32,
    pub preferred_scale: Scale,
    pub supported_scales: Vec<Scale>,
    pub properties: ModeProperties,
}

/// Flags of a mode.
#[derive(Debug, Clone, Copy, PartialEq, Eq, Structural)]
pub struct ModeProperties {
    pub current: Option<bool>,
    pub preferred: Option<bool>,
    pub interlaced: Option<bool>,
}

/// What a mode stands for.
pub struct ModesView {
    pub id: Seq<char>,
    pub width: i32,
    pub height: i32,
    pub refresh_mhz: i32,
    pub preferred_scale: ScaleView,
    pub supported_scales: Seq<ScaleView>,
    pub properties: ModeProperties,
}

impl View for Modes {
    type V = ModesView;

    open spec fn view(&self) -> ModesView {
        ModesView {
            id: self.id@,
            width: self.width,
            height: self.height,
            refresh_mhz: self.refresh_mhz,
            preferred_scale: self.preferred_scale@,
            supported_scales: scale::scale_views(self.supported_scales@),
            properties: self.properties,
        }
    }
}

impl ModesView {
    /// Whether the monitor is driven in this mode.
    pub open spec fn current(self) -> bool {
        self.properties.current == Some(true)
    }

    /// Whether the mode can be shown at the scale with these bits.
    pub open spec fn valid_scale(self, bits: u64) -> bool {
        exists|i: int|
            0 <= i < self.supported_scales.len() && scale::same_number(
                #[trigger] self.supported_scales[i].bits,
                bits,
            )
    }
}

/// What a list of modes stands for.
pub open spec fn mode_views(modes: Seq<Modes>) -> Seq<ModesView> {
    Seq::new(modes.len(), |i: int| modes[i]@)
}

/// The name of a mode, such as `1920x1080@59.94Hz`.
pub open spec fn mode_id(width: int, height: int, refresh_mhz: int) -> Seq<char> {
    text::decimal(width) + "x"@ + text::decimal(height) + "@"@ + text::decimal_milli(refresh_mhz)
        + "Hz"@
}

/// The scales that a mode of this size can be shown at.
pub open spec fn supported_scales(width: int, height: int) -> Seq<ScaleView> {
    if width >= 1920 && height >= 1080 {
        seq![
            ScaleView::new(0x3ff0_0000_0000_0000, "1"@),
            ScaleView::new(0x3ff4_0000_0000_0000, "1.25"@),
            ScaleView::new(0x3ff8_0000_0000_0000, "1.5"@),
            ScaleView::new(0x3ffc_0000_0000_0000, "1.75"@),
            ScaleView::new(0x4000_0000_0000_0000, "2"@),
        ]
    } else {
        seq![
            ScaleView::new(0x3ff0_0000_0000_0000, "1"@),
            ScaleView::new(0x4000_0000_0000_0000, "2"@),
        ]
    }
}

/// The mode of this size and refresh rate, with the given flags.
pub open spec fn described_mode(
    width: i32,
    height: i32,
    refresh_mhz: i32,
    current: bool,
    preferred: bool,
) -> ModesView {
    ModesView {
        id: mode_id(width as int, height as int, refresh_mhz as int),
        width,
        height,
        refresh_mhz,
        preferred_scale: scale::scale_one(),
        supported_scales: supported_scales(width as int, height as int),
        properties: ModeProperties {
            current: Some(current),
            preferred: Some(preferred),
            interlaced: Some(false),
        },
    }
}

/// The mode that sway reports as `mode` of `output`.
pub open spec fn sway_mode(output: sway::OutputView, mode: sway::Mode) -> ModesView {
    described_mode(
        mode.width,
        mode.height,
        mode.refresh,
        output.current_mode == Some(mode),
        false,
    )
}

/// The mode that a snapshot describes, marked current or not as told; without
/// a refresh rate there is none.
pub open spec fn snapshot_mode(mode: OutputModeSnapshot, current: bool) -> Option<ModesView> {
    match mode.refresh_mhz {
        Some(refresh) => Some(
            described_mode(mode.width, mode.height, refresh, current, mode.preferred),
        ),
        None => None,
    }
}

impl Modes {
    pub fn get_id(&self) -> (id: &str)
        ensures
            id@ == self@.id,
    {
        self.id.as_str()
    }

    /// The mode that sway reports as `mode_info` of `output`.
    pub fn new(output: &sway::Output, mode_info: &sway::Mode) -> (mode: Modes)
        ensures
            mode@ == sway_mode(output@, *mode_info),
    {
        let is_current = match &output.current_mode {
            Some(x) => Self::is_current_mode(x, mode_info),
            None => false,
        };
        Self::described(
            mode_info.width,
            mode_info.height,
            mode_info.refresh,
            is_current,
            false,
        )
    }

    /// The mode that the snapshot describes, if its refresh rate is known.
    pub fn from_snapshot(mode_info: &OutputModeSnapshot) -> (mode: Option<Modes>)
        ensures
            match mode {
                Some(m) => snapshot_mode(*mode_info, mode_info.current) == Some(m@),
                None => snapshot_mode(*mode_info, mode_info.current) is None,
            },
    {
        Self::from_snapshot_with_current(mode_info, mode_info.current)
    }

    /// As [`Modes::from_snapshot`], with the mode marked current or not as told.
    pub fn from_snapshot_with_current(mode_info: &OutputModeSnapshot, current: bool) -> (mode:
        Option<Modes>)
        ensures
            match mode {
                Some(m) => snapshot_mode(*mode_info, current) == Some(m@),
                None => snapshot_mode(*mode_info, current) is None,
            },
    {
        match mode_info.refresh_mhz {
            Some(refresh) => Some(
                Self::described(
                    mode_info.width,
                    mode_info.height,
                    refresh,
                    current,
                    mode_info.preferred,
                ),
            ),
            None => None,
        }
    }

    fn described(
        width: i32,
        height: i32,
        refresh_mhz: i32,
        current: bool,
        preferred: bool,
    ) -> (mode: Modes)
        ensures
            mode@ == described_mode(width, height, refresh_mhz, current, preferred),
    {
        Modes {
            id: Self::mode_id(width, height, refresh_mhz),
            width,
            height,
            refresh_mhz,
            preferred_scale: Scale::one(),
            supported_scales: Self::supported_scales(width, height),
            properties: ModeProperties {
                current: Some(current),
                preferred: Some(preferred),
                interlaced: Some(false),
            },
        }
    }

    pub fn get_modestr(&self) -> (id: &str)
        ensures
            id@ == self@.id,
    {
        self.id.as_str()
    }

    /// Whether the mode can be shown at this scale.
    pub fn is_valid_scale(&self, scale: &Scale) -> (r: bool)
        ensures
            r == self@.valid_scale(scale@.bits),
    {
        for i in 0..self.supported_scales.len()
            invariant
                forall|j: int|
                    0 <= j < i ==> !scale::same_number(
                        #[trigger] self@.supported_scales[j].bits,
                        scale@.bits,
                    ),
        {
            if self.supported_scales[i].same_as(scale) {
                assert(scale::same_number(self@.supported_scales[i as int].bits, scale@.bits));
                return true;
            }
        }
        false
    }

    /// Whether both are the same mode.
    pub fn is_current_mode(actual: &sway::Mode, current: &sway::Mode) -> (r: bool)
        ensures
            r == (*actual == *current),
    {
        current.height == actual.height && current.width == actual.width && current.refresh
            == actual.refresh
    }

    /// Whether the monitor is driven in this mode.
    pub fn current(&self) -> (r: bool)
        ensures
            r == self@.current(),
    {
        match self.properties.current {
            Some(current) => current,
            None => false,
        }
    }

    /// The name of the mode of this size and refresh rate.
    pub fn mode_id(width: i32, height: i32, refresh_mhz: i32) -> (id: String)
        ensures
            id@ == mode_id(width as int, height as int, refresh_mhz as int),
    {
        let mut id = String::new();
        text::push_int(&mut id, width);
        id.append("x");
        text::push_int(&mut id, height);
        id.append("@");
        text::push_milli(&mut id, refresh_mhz);
        id.append("Hz");
        assert(id@ =~= mode_id(width as int, height as int, refresh_mhz as int));
        id
    }

    /// The scales that a mode of this size can be shown at.
    pub fn supported_scales(width: i32, height: i32) -> (scales: Vec<Scale>)
        ensures
            scale::scale_views(scales@) == supported_scales(width as int, height as int),
    {
        let mut scales: Vec<Scale> = Vec::new();
        scales.push(Scale::new(0x3ff0_0000_0000_0000, "1"));
        if width >= 1920 && height >= 1080 {
            scales.push(Scale::new(0x3ff4_0000_0000_0000, "1.25"));
            scales.push(Scale::new(0x3ff8_0000_0000_0000, "1.5"));
            scales.push(Scale::new(0x3ffc_0000_0000_0000, "1.75"));
        }
        scales.push(Scale::new(0x4000_0000_0000_0000, "2"));
        assert(scale::scale_views(scales@) =~= supported_scales(width as int, height as int));
        scales
    }
}

impl Clone for Modes {
    fn clone(&self) -> (r: Modes)
        ensures
            r@ == self@,
    {
        let r = Modes {
            id: self.id.clone(),
            width: self.width,
            height: self.height,
            refresh_mhz: self.refresh_mhz,
            preferred_scale: self.preferred_scale.clone(),
            supported_scales: self.supported_scales.clone(),
            properties: self.properties,
        };
        assert(r@.supported_scales =~= self@.supported_scales);
        r
    }
}

/// Every mode can be shown at scale one, which is the one it prefers, and at
/// scale two; the scales between them are for modes of 1920 by 1080 and more.
pub proof fn whole_scales_are_always_supported(
    width: i32,
    height: i32,
    refresh_mhz: i32,
    current: bool,
    preferred: bool,
)
    ensures
        ({
            let mode = described_mode(width, height, refresh_mhz, current, preferred);
            &&& mode.valid_scale(mode.preferred_scale.bits)
            &&& mode.valid_scale(0x3ff0_0000_0000_0000)
            &&& mode.valid_scale(0x4000_0000_0000_0000)
            &&& mode.valid_scale(0x3ff4_0000_0000_0000) <==> width >= 1920 && height >= 1080
        }),
{
    let mode = described_mode(width, height, refresh_mhz, current, preferred);
    let scales = mode.supported_scales;
    assert(scale::same_number(scales[0].bits, 0x3ff0_0000_0000_0000));
    assert(scale::same_number(scales[scales.len() - 1].bits, 0x4000_0000_0000_0000));
    if width >= 1920 && height >= 1080 {
        assert(scale::same_number(scales[1].bits, 0x3ff4_0000_0000_0000));
    } else {
        assert(scales.len() == 2);
        assert(!scale::same_number(scales[0].bits, 0x3ff4_0000_0000_0000));
        assert(!scale::same_number(scales[1].bits, 0x3ff4_0000_0000_0000));
    }
}

proof fn lemma_decimal_lacks(i: int, c: char)
    requires
        c == 'x' || c == '@',
    ensures
        text::lacks(text::decimal(i), c),
{
    let magnitude = if i < 0 {
        (-i) as nat
    } else {
        i as nat
    };
    text::lemma_decimal_nat_digits(magnitude);
}

/// The name of a mode determines its size and its refresh rate.
pub proof fn mode_names_are_unique(
    width: int,
    height: int,
    refresh_mhz: int,
    other_width: int,
    other_height: int,
    other_refresh_mhz: int,
)
    requires
        mode_id(width, height, refresh_mhz) == mode_id(
            other_width,
            other_height,
            other_refresh_mhz,
        ),
    ensures
        width == other_width,
        height == other_height,
        refresh_mhz == other_refresh_mhz,
{
    reveal_strlit("x");
    reveal_strlit("@");
    reveal_strlit("Hz");
    assert("x"@ =~= seq!['x']);
    assert("@"@ =~= seq!['@']);
    let rate = text::decimal_milli(refresh_mhz) + "Hz"@;
    let other_rate = text::decimal_milli(other_refresh_mhz) + "Hz"@;
    let rest = text::decimal(height) + seq!['@'] + rate;
    let other_rest = text::decimal(other_height) + seq!['@'] + other_rate;
    assert(mode_id(width, height, refresh_mhz) =~= text::decimal(width) + seq!['x'] + rest);
    assert(mode_id(other_width, other_height, other_refresh_mhz) =~= text::decimal(other_width)
        + seq!['x'] + other_rest);
    lemma_decimal_lacks(width, 'x');
    lemma_decimal_lacks(other_width, 'x');
    text::lemma_split_at(text::decimal(width), rest, text::decimal(other_width), other_rest, 'x');
    lemma_decimal_lacks(height, '@');
    lemma_decimal_lacks(other_height, '@');
    text::lemma_split_at(
        text::decimal(height),
        rate,
        text::decimal(other_height),
        other_rate,
        '@',
    );
    let milli = text::decimal_milli(refresh_mhz);
    let other_milli = text::decimal_milli(other_refresh_mhz);
    assert(rate.len() == other_rate.len());
    assert(milli =~= rate.take(rate.len() - 2));
    assert(other_milli =~= other_rate.take(other_rate.len() - 2));
    text::lemma_decimal_injective(width, other_width);
    text::lemma_decimal_injective(height, other_height);
    text::lemma_decimal_milli_injective(refresh_mhz, other_refresh_mhz);
}

} // verus!
