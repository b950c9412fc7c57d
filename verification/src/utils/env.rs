//! The settings of the tile server and how their raw values are read. The
//! environment itself is read outside this crate; these functions take the
//! variable's value, or `None` where it is not set.
use crate::store::opt_view;
use crate::text::{parse_bool, parse_bool_spec, parse_u32, parse_u32_spec};
use vstd::prelude::*;

verus! {

/// The variable that names the log file.
pub const ENV_LOG_FILE: &'static str = "MVTS_LOG_FILE";

/// The variable that sets the lowest zoom level served.
pub const ENV_MIN_ZOOM: &'static str = "MVTS_MIN_ZOOM";

/// The variable that sets the highest zoom level served.
pub const ENV_MAX_ZOOM: &'static str = "MVTS_MAX_ZOOM";

/// The variable that sets the most features a tile holds.
pub const ENV_MAX_FEATURES_PER_TILE: &'static str = "MVTS_MAX_FEATURES_PER_TILE";

/// The variable that sets whether geometries are clipped at the tile buffer.
pub const ENV_CLIP_GEOMETRIES: &'static str = "MVTS_CLIP_GEOMETRIES";

pub const DEFAULT_MIN_ZOOM: u32 = 0;

pub const DEFAULT_MAX_ZOOM: u32 = 22;

pub const DEFAULT_MAX_FEATURES_PER_TILE: u32 = 50000;

pub const DEFAULT_CLIP_GEOMETRIES: bool = true;

/// A numeric setting: the value where it parses as a `u32`, else the default.
pub open spec fn u32_setting(raw: Option<Seq<char>>, default: u32) -> u32 {
    match raw {
        Some(v) => match parse_u32_spec(v) {
            Ok(n) => n,
            Err(_) => default,
        },
        None => default,
    }
}

/// A flag setting: the value where it is `true` or `false`, else the default.
pub open spec fn bool_setting(raw: Option<Seq<char>>, default: bool) -> bool {
    match raw {
        Some(v) => match parse_bool_spec(v) {
            Some(b) => b,
            None => default,
        },
        None => default,
    }
}

fn read_u32(raw: Option<&str>, default: u32) -> (r: u32)
    ensures
        r == u32_setting(opt_view(raw), default),
{
    match raw {
        Some(v) => match parse_u32(v) {
            Ok(n) => n,
            Err(_) => default,
        },
        None => default,
    }
}

/// The lowest zoom level served.
pub fn get_min_zoom(raw: Option<&str>) -> (r: u32)
    ensures
        r == u32_setting(opt_view(raw), DEFAULT_MIN_ZOOM),
{
    read_u32(raw, DEFAULT_MIN_ZOOM)
}

/// The highest zoom level served.
pub fn get_max_zoom(raw: Option<&str>) -> (r: u32)
    ensures
        r == u32_setting(opt_view(raw), DEFAULT_MAX_ZOOM),
{
    read_u32(raw, DEFAULT_MAX_ZOOM)
}

/// The most features that one tile holds.
pub fn get_max_features_per_tile(raw: Option<&str>) -> (r: u32)
    ensures
        r == u32_setting(opt_view(raw), DEFAULT_MAX_FEATURES_PER_TILE),
{
    read_u32(raw, DEFAULT_MAX_FEATURES_PER_TILE)
}

/// Whether ST_AsMVTGeom clips geometries at the tile buffer.
pub fn get_clip_geometries(raw: Option<&str>) -> (r: bool)
    ensures
        r == bool_setting(opt_view(raw), DEFAULT_CLIP_GEOMETRIES),
{
    match raw {
        Some(v) => match parse_bool(v) {
            Some(b) => b,
            None => DEFAULT_CLIP_GEOMETRIES,
        },
        None => DEFAULT_CLIP_GEOMETRIES,
    }
}

/// A setting that is set to a decimal number takes that number; one that is
/// unset or not a number takes its default: zoom levels 0 to 22, at most
/// 50000 features per tile, and clipping on unless set to `false`.
pub proof fn law_setting_defaults(raw: Option<Seq<char>>)
    ensures
        (raw is Some && parse_u32_spec(raw->0) is Ok) ==> u32_setting(raw, DEFAULT_MIN_ZOOM)
            == parse_u32_spec(raw->0)->Ok_0 && u32_setting(raw, DEFAULT_MAX_ZOOM)
            == parse_u32_spec(raw->0)->Ok_0 && u32_setting(raw, DEFAULT_MAX_FEATURES_PER_TILE)
            == parse_u32_spec(raw->0)->Ok_0,
        (raw is None || parse_u32_spec(raw->0) is Err) ==> u32_setting(raw, DEFAULT_MIN_ZOOM) == 0
            && u32_setting(raw, DEFAULT_MAX_ZOOM) == 22 && u32_setting(
            raw,
            DEFAULT_MAX_FEATURES_PER_TILE,
        ) == 50000,
        bool_setting(raw, DEFAULT_CLIP_GEOMETRIES) == !(raw == Some("false"@)),
{
    reveal_strlit("true");
    reveal_strlit("false");
    if raw == Some("true"@) {
        assert("true"@ != "false"@) by {
            assert("true"@[0] != "false"@[0]);
        }
    }
}

} // verus!
