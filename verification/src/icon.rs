//! Selection of the tray icon asset from the current theme and display scale.
//!
//! The binary ships ten pre-baked icon assets: a light and a dark set, each
//! in five nominal pixel sizes. Selection is a pure function of the icon
//! parameters: the theme picks the set, and the display scale picks the
//! member of the set whose nominal size lies nearest to the scaled base size
//! of sixteen pixels, earlier sizes winning ties.
//!
//! The display scale is carried as an integer count of hundredths, so a
//! scale of one and a half is one hundred fifty. The unverified binary reads
//! the operating system's floating-point scale and converts it once at the
//! boundary.

use vstd::prelude::*;

verus! {

/// Theme and display-scale parameters that the icon choice depends on.
/// `scale_centi` is the display scaling factor in hundredths.
#[derive(Debug, Clone, Copy, PartialEq, Eq, Structural)]
pub struct IconParam {
    pub light_mode: bool,
    pub scale_centi: u32,
}

impl Default for IconParam {
    /// Dark theme at scale zero, the neutral starting value before the
    /// first probe of the system settings.
    fn default() -> (d: Self)
        ensures
            d.light_mode == false,
            d.scale_centi == 0,
    {
        IconParam { light_mode: false, scale_centi: 0 }
    }
}

/// The ten pre-baked icon assets: two theme sets of five nominal sizes.
#[derive(Debug, Clone, Copy, PartialEq, Eq, Structural)]
pub enum IconAsset {
    Light16,
    Light24,
    Light32,
    Light48,
    Light256,
    Dark16,
    Dark24,
    Dark32,
    Dark48,
    Dark256,
}

/// Whether an asset belongs to the light-theme set.
pub open spec fn is_light(asset: IconAsset) -> bool {
    match asset {
        IconAsset::Light16 => true,
        IconAsset::Light24 => true,
        IconAsset::Light32 => true,
        IconAsset::Light48 => true,
        IconAsset::Light256 => true,
        IconAsset::Dark16 => false,
        IconAsset::Dark24 => false,
        IconAsset::Dark32 => false,
        IconAsset::Dark48 => false,
        IconAsset::Dark256 => false,
    }
}

/// The nominal pixel size of an asset.
pub open spec fn nominal_size(asset: IconAsset) -> int {
    match asset {
        IconAsset::Light16 => 16,
        IconAsset::Light24 => 24,
        IconAsset::Light32 => 32,
        IconAsset::Light48 => 48,
        IconAsset::Light256 => 256,
        IconAsset::Dark16 => 16,
        IconAsset::Dark24 => 24,
        IconAsset::Dark32 => 32,
        IconAsset::Dark48 => 48,
        IconAsset::Dark256 => 256,
    }
}

/// The nominal sizes available in each theme set, in declared order.
pub open spec fn sizes() -> Seq<int> {
    seq![16, 24, 32, 48, 256]
}

/// Position of a nominal size in the declared order.
pub open spec fn size_index(size: int) -> int {
    if size == 16 {
        0
    } else if size == 24 {
        1
    } else if size == 32 {
        2
    } else if size == 48 {
        3
    } else if size == 256 {
        4
    } else {
        5
    }
}

/// Distance, in hundredths of a pixel, between a nominal size and the
/// target size of sixteen pixels scaled by the display factor.
pub open spec fn dist_centi(size: int, scale_centi: int) -> int {
    let target: int = 16 * scale_centi;
    let nominal: int = 100 * size;
    if nominal >= target {
        nominal - target
    } else {
        target - nominal
    }
}

/// The nominal size chosen among `sizes()[i..]`: the first one whose
/// distance to the scaled target is minimal.
pub open spec fn pick_from(scale_centi: int, i: int) -> int
    decreases 5 - i,
{
    if i >= 4 {
        256
    } else {
        let rest: int = pick_from(scale_centi, i + 1);
        if dist_centi(sizes()[i], scale_centi) <= dist_centi(rest, scale_centi) {
            sizes()[i]
        } else {
            rest
        }
    }
}

/// The nominal size the multi-resolution policy chooses for a scale.
pub open spec fn chosen_size(scale_centi: int) -> int {
    pick_from(scale_centi, 0)
}

/// The asset of a theme set with a given nominal size. Sizes outside the
/// declared set fall back to the largest member.
pub open spec fn asset_of(light: bool, size: int) -> IconAsset {
    if light {
        if size == 16 {
            IconAsset::Light16
        } else if size == 24 {
            IconAsset::Light24
        } else if size == 32 {
            IconAsset::Light32
        } else if size == 48 {
            IconAsset::Light48
        } else {
            IconAsset::Light256
        }
    } else {
        if size == 16 {
            IconAsset::Dark16
        } else if size == 24 {
            IconAsset::Dark24
        } else if size == 32 {
            IconAsset::Dark32
        } else if size == 48 {
            IconAsset::Dark48
        } else {
            IconAsset::Dark256
        }
    }
}

/// The asset the multi-resolution policy selects for given parameters.
pub open spec fn selected_asset(params: IconParam) -> IconAsset {
    asset_of(params.light_mode, chosen_size(params.scale_centi as int))
}

/// Distance between a nominal size and the scaled target, computed exactly
/// in hundredths. No overflow: the nominal term is at most 25600 and the
/// target term fits in 36 bits.
fn dist_exec(size: u32, scale_centi: u32) -> (d: u64)
    requires
        size <= 256,
    ensures
        d as int == dist_centi(size as int, scale_centi as int),
{
    let nominal: u64 = 100 * (size as u64);
    let target: u64 = 16 * (scale_centi as u64);
    if nominal >= target {
        nominal - target
    } else {
        target - nominal
    }
}

/// The nominal size nearest to the scaled target, earlier declared sizes
/// winning ties.
fn choose_size(scale_centi: u32) -> (size: u32)
    ensures
        size as int == chosen_size(scale_centi as int),
{
    proof {
        reveal_with_fuel(pick_from, 6);
    }
    let mut best: u32 = 256;
    if dist_exec(48, scale_centi) <= dist_exec(best, scale_centi) {
        best = 48;
    }
    if dist_exec(32, scale_centi) <= dist_exec(best, scale_centi) {
        best = 32;
    }
    if dist_exec(24, scale_centi) <= dist_exec(best, scale_centi) {
        best = 24;
    }
    if dist_exec(16, scale_centi) <= dist_exec(best, scale_centi) {
        best = 16;
    }
    best
}

/// The asset of a theme set with a given declared nominal size.
fn asset_for(light: bool, size: u32) -> (asset: IconAsset)
    requires
        size == 16 || size == 24 || size == 32 || size == 48 || size == 256,
    ensures
        asset == asset_of(light, size as int),
{
    if light {
        if size == 16 {
            IconAsset::Light16
        } else if size == 24 {
            IconAsset::Light24
        } else if size == 32 {
            IconAsset::Light32
        } else if size == 48 {
            IconAsset::Light48
        } else {
            IconAsset::Light256
        }
    } else {
        if size == 16 {
            IconAsset::Dark16
        } else if size == 24 {
            IconAsset::Dark24
        } else if size == 32 {
            IconAsset::Dark32
        } else if size == 48 {
            IconAsset::Dark48
        } else {
            IconAsset::Dark256
        }
    }
}

/// Multi-resolution policy: select the asset of the active theme whose
/// nominal size lies nearest to sixteen pixels scaled by the display
/// factor, earlier declared sizes winning ties. Never fails: the candidate
/// set is non-empty for either theme.
pub fn select_icon(params: IconParam) -> (asset: IconAsset)
    ensures
        asset == selected_asset(params),
{
    let size = choose_size(params.scale_centi);
    proof {
        lemma_chosen_size_is_declared(params.scale_centi as int);
    }
    asset_for(params.light_mode, size)
}

/// The assets of the reduced two-asset policy: one light and one dark
/// asset, with no size choice.
#[derive(Debug, Clone, Copy, PartialEq, Eq, Structural)]
pub enum ThemeAsset {
    LightAsset,
    DarkAsset,
}

/// Two-asset policy: the theme alone decides; every scaling factor maps to
/// the same asset of the active theme.
pub fn select_theme_asset(params: IconParam) -> (asset: ThemeAsset)
    ensures
        asset == (if params.light_mode {
            ThemeAsset::LightAsset
        } else {
            ThemeAsset::DarkAsset
        }),
{
    if params.light_mode {
        ThemeAsset::LightAsset
    } else {
        ThemeAsset::DarkAsset
    }
}

/// Icon parameters assembled from the boundary probes: the theme registry
/// value (present only when the read succeeded; zero means the light theme
/// is off for the system, and the probe reports light mode exactly on a
/// present zero) and the display scale in hundredths.
pub fn icon_param_from_probe(system_uses_light_theme: Option<u32>, scale_centi: u32) -> (params:
    IconParam)
    ensures
        params.light_mode == (system_uses_light_theme == Some(0u32)),
        params.scale_centi == scale_centi,
{
    let light_mode = match system_uses_light_theme {
        Some(value) => value == 0,
        None => false,
    };
    IconParam { light_mode, scale_centi }
}

/// The chosen size is always one of the declared sizes.
pub proof fn lemma_chosen_size_is_declared(scale_centi: int)
    ensures
        chosen_size(scale_centi) == 16 || chosen_size(scale_centi) == 24 || chosen_size(scale_centi)
            == 32 || chosen_size(scale_centi) == 48 || chosen_size(scale_centi) == 256,
{
    reveal_with_fuel(pick_from, 6);
}

/// The selected asset always comes from the active theme's declared set:
/// selection never fails and never crosses themes, for every combination of
/// parameters.
pub proof fn lemma_selected_asset_well_formed(params: IconParam)
    ensures
        is_light(selected_asset(params)) == params.light_mode,
        sizes().contains(nominal_size(selected_asset(params))),
{
    lemma_chosen_size_is_declared(params.scale_centi as int);
    let s: int = chosen_size(params.scale_centi as int);
    let k: int = size_index(s);
    assert(sizes()[k] == nominal_size(selected_asset(params)));
}

/// The multi-resolution policy minimizes the distance between the nominal
/// size and the scaled target over the declared sizes, and among equally
/// near sizes picks the one declared first.
pub proof fn lemma_selection_policy(scale_centi: int)
    ensures
        forall|j: int|
            0 <= j < sizes().len() ==> dist_centi(chosen_size(scale_centi), scale_centi)
                <= dist_centi(sizes()[j], scale_centi),
        forall|j: int|
            0 <= j < size_index(chosen_size(scale_centi)) ==> dist_centi(sizes()[j], scale_centi)
                > dist_centi(chosen_size(scale_centi), scale_centi),
{
    reveal_with_fuel(pick_from, 6);
}

} // verus!
