//! What a mode is called, at which scales it can be shown, and how it is marked.

use vstd::prelude::*;

use crate::modes;
use crate::modes::{Modes, ModesView};
use crate::scale;
use crate::sway;
use crate::text;
use crate::wayland_observer::OutputModeSnapshot;

verus! {

/// A mode of 1920 by 1080 and more can be shown at the scales 1, 1.25, 1.5, 1.75
/// and 2, and at no other; a mode of any other size at 1 and 2, and at no other.
pub proof fn valid_scales_depend_on_the_size(
    width: i32,
    height: i32,
    refresh_mhz: i32,
    current: bool,
    preferred: bool,
    bits: u64,
)
    ensures
        ({
            let mode = modes::described_mode(width, height, refresh_mhz, current, preferred);
            if width >= 1920 && height >= 1080 {
                mode.valid_scale(bits) <==> {
                    ||| bits == 0x3ff0_0000_0000_0000
                    ||| bits == 0x3ff4_0000_0000_0000
                    ||| bits == 0x3ff8_0000_0000_0000
                    ||| bits == 0x3ffc_0000_0000_0000
                    ||| bits == 0x4000_0000_0000_0000
                }
            } else {
                mode.valid_scale(bits) <==> bits == 0x3ff0_0000_0000_0000 || bits
                    == 0x4000_0000_0000_0000
            }
        }),
{
    let mode = modes::described_mode(width, height, refresh_mhz, current, preferred);
    let scales = mode.supported_scales;
    assert(scale::same_number(scales[0].bits, bits) <==> bits == 0x3ff0_0000_0000_0000);
    if width >= 1920 && height >= 1080 {
        assert(scales.len() == 5);
        assert(scale::same_number(scales[1].bits, bits) <==> bits == 0x3ff4_0000_0000_0000);
        assert(scale::same_number(scales[2].bits, bits) <==> bits == 0x3ff8_0000_0000_0000);
        assert(scale::same_number(scales[3].bits, bits) <==> bits == 0x3ffc_0000_0000_0000);
        assert(scale::same_number(scales[4].bits, bits) <==> bits == 0x4000_0000_0000_0000);
    } else {
        assert(scales.len() == 2);
        assert(scale::same_number(scales[1].bits, bits) <==> bits == 0x4000_0000_0000_0000);
    }
}

/// The scales between one and two come together: each of them is valid where any
/// of them is, and whether they are valid depends on nothing but the size.
pub proof fn scales_between_come_together(
    mode: ModesView,
    other: ModesView,
    refresh_mhz: i32,
    other_refresh_mhz: i32,
    flags: (bool, bool),
    other_flags: (bool, bool),
    bits: u64,
)
    requires
        mode == modes::described_mode(mode.width, mode.height, refresh_mhz, flags.0, flags.1),
        other == modes::described_mode(
            other.width,
            other.height,
            other_refresh_mhz,
            other_flags.0,
            other_flags.1,
        ),
    ensures
        mode.valid_scale(0x3ff4_0000_0000_0000) <==> mode.valid_scale(0x3ff8_0000_0000_0000),
        mode.valid_scale(0x3ff8_0000_0000_0000) <==> mode.valid_scale(0x3ffc_0000_0000_0000),
        mode.width <= other.width && mode.height <= other.height && mode.valid_scale(bits)
            ==> other.valid_scale(bits),
{
    let (a, b) = flags;
    let (c, d) = other_flags;
    valid_scales_depend_on_the_size(
        mode.width,
        mode.height,
        refresh_mhz,
        a,
        b,
        0x3ff4_0000_0000_0000,
    );
    valid_scales_depend_on_the_size(
        mode.width,
        mode.height,
        refresh_mhz,
        a,
        b,
        0x3ff8_0000_0000_0000,
    );
    valid_scales_depend_on_the_size(
        mode.width,
        mode.height,
        refresh_mhz,
        a,
        b,
        0x3ffc_0000_0000_0000,
    );
    valid_scales_depend_on_the_size(mode.width, mode.height, refresh_mhz, a, b, bits);
    valid_scales_depend_on_the_size(other.width, other.height, other_refresh_mhz, c, d, bits);
}

/// A mode can be shown at the scales that it lists, compared as numbers, and at no
/// other.
pub proof fn listed_scales_are_valid(mode: ModesView, bits: u64, i: int)
    ensures
        0 <= i < mode.supported_scales.len() && scale::same_number(
            mode.supported_scales[i].bits,
            bits,
        ) ==> mode.valid_scale(bits),
        (forall|k: int|
            0 <= k < mode.supported_scales.len() ==> !scale::same_number(
                #[trigger] mode.supported_scales[k].bits,
                bits,
            )) ==> !mode.valid_scale(bits),
{
}

/// The scales are listed in ascending order, each with its decimal text.
pub proof fn scales_are_listed_in_order(width: int, height: int)
    ensures
        ({
            let scales = modes::supported_scales(width, height);
            let last = scales.len() - 1;
            &&& scales.len() == if width >= 1920 && height >= 1080 {
                5nat
            } else {
                2
            }
            &&& scales[0].bits == 0x3ff0_0000_0000_0000 && scales[0].text == "1"@
            &&& scales[last].bits == 0x4000_0000_0000_0000 && scales[last].text == "2"@
            &&& width >= 1920 && height >= 1080 ==> {
                &&& scales[1].bits == 0x3ff4_0000_0000_0000 && scales[1].text == "1.25"@
                &&& scales[2].bits == 0x3ff8_0000_0000_0000 && scales[2].text == "1.5"@
                &&& scales[3].bits == 0x3ffc_0000_0000_0000 && scales[3].text == "1.75"@
            }
        }),
{
}

/// The name of a mode spells its width, an `x`, its height, an `@`, its refresh
/// rate in Hz, and `Hz`.
pub proof fn mode_names_spell_size_and_rate(width: int, height: int, refresh_mhz: int)
    ensures
        modes::mode_id(width, height, refresh_mhz) == text::decimal(width) + seq!['x']
            + text::decimal(height) + seq!['@'] + text::decimal_milli(refresh_mhz) + seq!['H', 'z'],
{
    reveal_strlit("x");
    reveal_strlit("@");
    reveal_strlit("Hz");
    assert("x"@ =~= seq!['x']);
    assert("@"@ =~= seq!['@']);
    assert("Hz"@ =~= seq!['H', 'z']);
}

/// A mode keeps its size, its refresh rate and its marks, prefers the scale one,
/// and is not interlaced.
pub proof fn modes_keep_what_describes_them(
    width: i32,
    height: i32,
    refresh_mhz: i32,
    current: bool,
    preferred: bool,
)
    ensures
        ({
            let mode = modes::described_mode(width, height, refresh_mhz, current, preferred);
            &&& mode.id == modes::mode_id(width as int, height as int, refresh_mhz as int)
            &&& mode.width == width
            &&& mode.height == height
            &&& mode.refresh_mhz == refresh_mhz
            &&& mode.preferred_scale.bits == 0x3ff0_0000_0000_0000
            &&& mode.preferred_scale.text == "1"@
            &&& mode.supported_scales == modes::supported_scales(width as int, height as int)
            &&& mode.properties.current == Some(current)
            &&& mode.properties.preferred == Some(preferred)
            &&& mode.properties.interlaced == Some(false)
            &&& mode.current() == current
        }),
{
}

/// A mode of a sway output keeps what sway reports. It is marked current exactly
/// where the output is driven in a mode of the same width, height and refresh
/// rate, and never marked preferred.
pub proof fn sway_modes_are_marked_current(output: sway::OutputView, mode: sway::Mode)
    ensures
        ({
            let named = modes::sway_mode(output, mode);
            &&& named == modes::described_mode(
                mode.width,
                mode.height,
                mode.refresh,
                named.current(),
                false,
            )
            &&& named.current() <==> {
                &&& output.current_mode is Some
                &&& (output.current_mode->0).width == mode.width
                &&& (output.current_mode->0).height == mode.height
                &&& (output.current_mode->0).refresh == mode.refresh
            }
        }),
{
}

/// A mode of a head has a name exactly where its refresh rate is known. It keeps
/// what the snapshot says of it, and is marked current as told.
pub proof fn snapshot_modes_need_a_rate(mode: OutputModeSnapshot, current: bool)
    ensures
        match modes::snapshot_mode(mode, current) {
            Some(named) => {
                &&& mode.refresh_mhz == Some(named.refresh_mhz)
                &&& named == modes::described_mode(
                    mode.width,
                    mode.height,
                    named.refresh_mhz,
                    current,
                    mode.preferred,
                )
            },
            None => mode.refresh_mhz is None,
        },
{
}

/// A mode counts as current exactly where it is marked so; a mode without a mark
/// does not.
pub proof fn unmarked_modes_are_not_current(mode: ModesView)
    ensures
        match mode.properties.current {
            Some(marked) => mode.current() == marked,
            None => !mode.current(),
        },
{
}

/// The view of a mode tells each of its fields, and a list of modes is seen one by
/// one.
pub proof fn mode_views_tell_every_field(mode: Modes, listed: Seq<Modes>, i: int)
    ensures
        mode@.id == mode.id@,
        mode@.width == mode.width,
        mode@.height == mode.height,
        mode@.refresh_mhz == mode.refresh_mhz,
        mode@.preferred_scale == mode.preferred_scale@,
        mode@.supported_scales.len() == mode.supported_scales@.len(),
        0 <= i < mode.supported_scales@.len() ==> mode@.supported_scales[i]
            == mode.supported_scales@[i]@,
        mode@.properties == mode.properties,
        modes::mode_views(listed).len() == listed.len(),
        0 <= i < listed.len() ==> modes::mode_views(listed)[i] == listed[i]@,
{
}

} // verus!
