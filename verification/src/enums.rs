use vstd::prelude::*;

verus! {

/// Engine mode. Mirrors the C++ `vizdoom::Mode`.
#[derive(Debug, Clone, Copy, PartialEq, Eq, Hash, Structural)]
pub enum Mode {
    Player,
    Spectator,
    AsyncPlayer,
    AsyncSpectator,
}

impl Mode {
    /// The integer the C ABI uses for this mode.
    pub open spec fn raw_value(self) -> i32 {
        match self {
            Mode::Player => 0,
            Mode::Spectator => 1,
            Mode::AsyncPlayer => 2,
            Mode::AsyncSpectator => 3,
        }
    }

    /// The mode that the C ABI integer `value` stands for, if any.
    pub open spec fn from_raw_value(value: i32) -> Option<Self> {
        if value == 0 {
            Some(Mode::Player)
        } else if value == 1 {
            Some(Mode::Spectator)
        } else if value == 2 {
            Some(Mode::AsyncPlayer)
        } else if value == 3 {
            Some(Mode::AsyncSpectator)
        } else {
            None
        }
    }

    /// The integer passed across the C ABI for this mode.
    pub fn to_raw(self) -> (value: i32)
        ensures
            value == self.raw_value(),
    {
        match self {
            Mode::Player => 0,
            Mode::Spectator => 1,
            Mode::AsyncPlayer => 2,
            Mode::AsyncSpectator => 3,
        }
    }
}

/// Each mode is passed across the C ABI as an integer in `0..4`, and that
/// integer leads back to the mode it came from.
pub proof fn lemma_mode_raw_round_trip(x: Mode)
    ensures
        0 <= x.raw_value() < 4,
        Mode::from_raw_value(x.raw_value()) == Some(x),
{
}

/// Distinct modes are passed across the C ABI as distinct integers.
pub proof fn lemma_mode_raw_injective(a: Mode, b: Mode)
    ensures
        a.raw_value() == b.raw_value() ==> a == b,
{
    lemma_mode_raw_round_trip(a);
    lemma_mode_raw_round_trip(b);
}

/// The integer the C++ `vizdoom::Mode` declares for each mode: what
/// [`Mode::to_raw`] sends across the C ABI.
pub proof fn lemma_mode_c_values()
    ensures
        Mode::Player.raw_value() == 0i32,
        Mode::Spectator.raw_value() == 1i32,
        Mode::AsyncPlayer.raw_value() == 2i32,
        Mode::AsyncSpectator.raw_value() == 3i32,
{
}

/// Exactly the integers in `0..4` stand for a mode, and each stands for
/// the mode passed as it.
pub proof fn lemma_mode_from_raw_value(value: i32)
    ensures
        Mode::from_raw_value(value) is Some <==> 0 <= value < 4,
        Mode::from_raw_value(value) matches Some(x) ==> x.raw_value() == value,
{
}

/// Screen pixel format. Mirrors the C++ `vizdoom::ScreenFormat`.
#[derive(Debug, Clone, Copy, PartialEq, Eq, Hash, Structural)]
pub enum ScreenFormat {
    Crcgcb,
    Rgb24,
    Rgba32,
    Argb32,
    Cbcgcr,
    Bgr24,
    Bgra32,
    Abgr32,
    Gray8,
    Doom256Colors8,
}

impl ScreenFormat {
    /// The integer the C ABI uses for this screen format.
    pub open spec fn raw_value(self) -> i32 {
        match self {
            ScreenFormat::Crcgcb => 0,
            ScreenFormat::Rgb24 => 1,
            ScreenFormat::Rgba32 => 2,
            ScreenFormat::Argb32 => 3,
            ScreenFormat::Cbcgcr => 4,
            ScreenFormat::Bgr24 => 5,
            ScreenFormat::Bgra32 => 6,
            ScreenFormat::Abgr32 => 7,
            ScreenFormat::Gray8 => 8,
            ScreenFormat::Doom256Colors8 => 9,
        }
    }

    /// The screen format that the C ABI integer `value` stands for, if any.
    pub open spec fn from_raw_value(value: i32) -> Option<Self> {
        if value == 0 {
            Some(ScreenFormat::Crcgcb)
        } else if value == 1 {
            Some(ScreenFormat::Rgb24)
        } else if value == 2 {
            Some(ScreenFormat::Rgba32)
        } else if value == 3 {
            Some(ScreenFormat::Argb32)
        } else if value == 4 {
            Some(ScreenFormat::Cbcgcr)
        } else if value == 5 {
            Some(ScreenFormat::Bgr24)
        } else if value == 6 {
            Some(ScreenFormat::Bgra32)
        } else if value == 7 {
            Some(ScreenFormat::Abgr32)
        } else if value == 8 {
            Some(ScreenFormat::Gray8)
        } else if value == 9 {
            Some(ScreenFormat::Doom256Colors8)
        } else {
            None
        }
    }

    /// The integer passed across the C ABI for this screen format.
    pub fn to_raw(self) -> (value: i32)
        ensures
            value == self.raw_value(),
    {
        match self {
            ScreenFormat::Crcgcb => 0,
            ScreenFormat::Rgb24 => 1,
            ScreenFormat::Rgba32 => 2,
            ScreenFormat::Argb32 => 3,
            ScreenFormat::Cbcgcr => 4,
            ScreenFormat::Bgr24 => 5,
            ScreenFormat::Bgra32 => 6,
            ScreenFormat::Abgr32 => 7,
            ScreenFormat::Gray8 => 8,
            ScreenFormat::Doom256Colors8 => 9,
        }
    }

    /// Maps a raw C ABI integer back to a [`ScreenFormat`].
    pub fn from_raw(value: i32) -> (r: Option<Self>)
        ensures
            r == Self::from_raw_value(value),
    {
        match value {
            0 => Some(ScreenFormat::Crcgcb),
            1 => Some(ScreenFormat::Rgb24),
            2 => Some(ScreenFormat::Rgba32),
            3 => Some(ScreenFormat::Argb32),
            4 => Some(ScreenFormat::Cbcgcr),
            5 => Some(ScreenFormat::Bgr24),
            6 => Some(ScreenFormat::Bgra32),
            7 => Some(ScreenFormat::Abgr32),
            8 => Some(ScreenFormat::Gray8),
            9 => Some(ScreenFormat::Doom256Colors8),
            _ => None,
        }
    }
}

/// Each screen format is passed across the C ABI as an integer in `0..10`, and that
/// integer leads back to the screen format it came from.
pub proof fn lemma_screen_format_raw_round_trip(x: ScreenFormat)
    ensures
        0 <= x.raw_value() < 10,
        ScreenFormat::from_raw_value(x.raw_value()) == Some(x),
{
}

/// Distinct screen formats are passed across the C ABI as distinct integers.
pub proof fn lemma_screen_format_raw_injective(a: ScreenFormat, b: ScreenFormat)
    ensures
        a.raw_value() == b.raw_value() ==> a == b,
{
    lemma_screen_format_raw_round_trip(a);
    lemma_screen_format_raw_round_trip(b);
}

/// The integer the C++ `vizdoom::ScreenFormat` declares for each screen format: what
/// [`ScreenFormat::to_raw`] sends across the C ABI.
pub proof fn lemma_screen_format_c_values()
    ensures
        ScreenFormat::Crcgcb.raw_value() == 0i32,
        ScreenFormat::Rgb24.raw_value() == 1i32,
        ScreenFormat::Rgba32.raw_value() == 2i32,
        ScreenFormat::Argb32.raw_value() == 3i32,
        ScreenFormat::Cbcgcr.raw_value() == 4i32,
        ScreenFormat::Bgr24.raw_value() == 5i32,
        ScreenFormat::Bgra32.raw_value() == 6i32,
        ScreenFormat::Abgr32.raw_value() == 7i32,
        ScreenFormat::Gray8.raw_value() == 8i32,
        ScreenFormat::Doom256Colors8.raw_value() == 9i32,
{
}

/// Exactly the integers in `0..10` stand for a screen format, and each stands for
/// the screen format passed as it.
pub proof fn lemma_screen_format_from_raw_value(value: i32)
    ensures
        ScreenFormat::from_raw_value(value) is Some <==> 0 <= value < 10,
        ScreenFormat::from_raw_value(value) matches Some(x) ==> x.raw_value() == value,
{
}

/// Screen resolution. Mirrors the C++ `vizdoom::ScreenResolution` (sequential from 0).
#[derive(Debug, Clone, Copy, PartialEq, Eq, Hash, Structural)]
pub enum ScreenResolution {
    Res160x120,
    Res200x125,
    Res200x150,
    Res256x144,
    Res256x160,
    Res256x192,
    Res320x180,
    Res320x200,
    Res320x240,
    Res320x256,
    Res400x225,
    Res400x250,
    Res400x300,
    Res512x288,
    Res512x320,
    Res512x384,
    Res640x360,
    Res640x400,
    Res640x480,
    Res800x450,
    Res800x500,
    Res800x600,
    Res1024x576,
    Res1024x640,
    Res1024x768,
    Res1280x720,
    Res1280x800,
    Res1280x960,
    Res1280x1024,
    Res1400x787,
    Res1400x875,
    Res1400x1050,
    Res1600x900,
    Res1600x1000,
    Res1600x1200,
    Res1920x1080,
}

impl ScreenResolution {
    /// The integer the C ABI uses for this screen resolution.
    pub open spec fn raw_value(self) -> i32 {
        match self {
            ScreenResolution::Res160x120 => 0,
            ScreenResolution::Res200x125 => 1,
            ScreenResolution::Res200x150 => 2,
            ScreenResolution::Res256x144 => 3,
            ScreenResolution::Res256x160 => 4,
            ScreenResolution::Res256x192 => 5,
            ScreenResolution::Res320x180 => 6,
            ScreenResolution::Res320x200 => 7,
            ScreenResolution::Res320x240 => 8,
            ScreenResolution::Res320x256 => 9,
            ScreenResolution::Res400x225 => 10,
            ScreenResolution::Res400x250 => 11,
            ScreenResolution::Res400x300 => 12,
            ScreenResolution::Res512x288 => 13,
            ScreenResolution::Res512x320 => 14,
            ScreenResolution::Res512x384 => 15,
            ScreenResolution::Res640x360 => 16,
            ScreenResolution::Res640x400 => 17,
            ScreenResolution::Res640x480 => 18,
            ScreenResolution::Res800x450 => 19,
            ScreenResolution::Res800x500 => 20,
            ScreenResolution::Res800x600 => 21,
            ScreenResolution::Res1024x576 => 22,
            ScreenResolution::Res1024x640 => 23,
            ScreenResolution::Res1024x768 => 24,
            ScreenResolution::Res1280x720 => 25,
            ScreenResolution::Res1280x800 => 26,
            ScreenResolution::Res1280x960 => 27,
            ScreenResolution::Res1280x1024 => 28,
            ScreenResolution::Res1400x787 => 29,
            ScreenResolution::Res1400x875 => 30,
            ScreenResolution::Res1400x1050 => 31,
            ScreenResolution::Res1600x900 => 32,
            ScreenResolution::Res1600x1000 => 33,
            ScreenResolution::Res1600x1200 => 34,
            ScreenResolution::Res1920x1080 => 35,
        }
    }

    /// The screen resolution that the C ABI integer `value` stands for, if any.
    pub open spec fn from_raw_value(value: i32) -> Option<Self> {
        if value == 0 {
            Some(ScreenResolution::Res160x120)
        } else if value == 1 {
            Some(ScreenResolution::Res200x125)
        } else if value == 2 {
            Some(ScreenResolution::Res200x150)
        } else if value == 3 {
            Some(ScreenResolution::Res256x144)
        } else if value == 4 {
            Some(ScreenResolution::Res256x160)
        } else if value == 5 {
            Some(ScreenResolution::Res256x192)
        } else if value == 6 {
            Some(ScreenResolution::Res320x180)
        } else if value == 7 {
            Some(ScreenResolution::Res320x200)
        } else if value == 8 {
            Some(ScreenResolution::Res320x240)
        } else if value == 9 {
            Some(ScreenResolution::Res320x256)
        } else if value == 10 {
            Some(ScreenResolution::Res400x225)
        } else if value == 11 {
            Some(ScreenResolution::Res400x250)
        } else if value == 12 {
            Some(ScreenResolution::Res400x300)
        } else if value == 13 {
            Some(ScreenResolution::Res512x288)
        } else if value == 14 {
            Some(ScreenResolution::Res512x320)
        } else if value == 15 {
            Some(ScreenResolution::Res512x384)
        } else if value == 16 {
            Some(ScreenResolution::Res640x360)
        } else if value == 17 {
            Some(ScreenResolution::Res640x400)
        } else if value == 18 {
            Some(ScreenResolution::Res640x480)
        } else if value == 19 {
            Some(ScreenResolution::Res800x450)
        } else if value == 20 {
            Some(ScreenResolution::Res800x500)
        } else if value == 21 {
            Some(ScreenResolution::Res800x600)
        } else if value == 22 {
            Some(ScreenResolution::Res1024x576)
        } else if value == 23 {
            Some(ScreenResolution::Res1024x640)
        } else if value == 24 {
            Some(ScreenResolution::Res1024x768)
        } else if value == 25 {
            Some(ScreenResolution::Res1280x720)
        } else if value == 26 {
            Some(ScreenResolution::Res1280x800)
        } else if value == 27 {
            Some(ScreenResolution::Res1280x960)
        } else if value == 28 {
            Some(ScreenResolution::Res1280x1024)
        } else if value == 29 {
            Some(ScreenResolution::Res1400x787)
        } else if value == 30 {
            Some(ScreenResolution::Res1400x875)
        } else if value == 31 {
            Some(ScreenResolution::Res1400x1050)
        } else if value == 32 {
            Some(ScreenResolution::Res1600x900)
        } else if value == 33 {
            Some(ScreenResolution::Res1600x1000)
        } else if value == 34 {
            Some(ScreenResolution::Res1600x1200)
        } else if value == 35 {
            Some(ScreenResolution::Res1920x1080)
        } else {
            None
        }
    }

    /// The integer passed across the C ABI for this screen resolution.
    pub fn to_raw(self) -> (value: i32)
        ensures
            value == self.raw_value(),
    {
        match self {
            ScreenResolution::Res160x120 => 0,
            ScreenResolution::Res200x125 => 1,
            ScreenResolution::Res200x150 => 2,
            ScreenResolution::Res256x144 => 3,
            ScreenResolution::Res256x160 => 4,
            ScreenResolution::Res256x192 => 5,
            ScreenResolution::Res320x180 => 6,
            ScreenResolution::Res320x200 => 7,
            ScreenResolution::Res320x240 => 8,
            ScreenResolution::Res320x256 => 9,
            ScreenResolution::Res400x225 => 10,
            ScreenResolution::Res400x250 => 11,
            ScreenResolution::Res400x300 => 12,
            ScreenResolution::Res512x288 => 13,
            ScreenResolution::Res512x320 => 14,
            ScreenResolution::Res512x384 => 15,
            ScreenResolution::Res640x360 => 16,
            ScreenResolution::Res640x400 => 17,
            ScreenResolution::Res640x480 => 18,
            ScreenResolution::Res800x450 => 19,
            ScreenResolution::Res800x500 => 20,
            ScreenResolution::Res800x600 => 21,
            ScreenResolution::Res1024x576 => 22,
            ScreenResolution::Res1024x640 => 23,
            ScreenResolution::Res1024x768 => 24,
            ScreenResolution::Res1280x720 => 25,
            ScreenResolution::Res1280x800 => 26,
            ScreenResolution::Res1280x960 => 27,
            ScreenResolution::Res1280x1024 => 28,
            ScreenResolution::Res1400x787 => 29,
            ScreenResolution::Res1400x875 => 30,
            ScreenResolution::Res1400x1050 => 31,
            ScreenResolution::Res1600x900 => 32,
            ScreenResolution::Res1600x1000 => 33,
            ScreenResolution::Res1600x1200 => 34,
            ScreenResolution::Res1920x1080 => 35,
        }
    }
}

/// Each screen resolution is passed across the C ABI as an integer in `0..36`, and that
/// integer leads back to the screen resolution it came from.
pub proof fn lemma_screen_resolution_raw_round_trip(x: ScreenResolution)
    ensures
        0 <= x.raw_value() < 36,
        ScreenResolution::from_raw_value(x.raw_value()) == Some(x),
{
}

/// Distinct screen resolutions are passed across the C ABI as distinct integers.
pub proof fn lemma_screen_resolution_raw_injective(a: ScreenResolution, b: ScreenResolution)
    ensures
        a.raw_value() == b.raw_value() ==> a == b,
{
    lemma_screen_resolution_raw_round_trip(a);
    lemma_screen_resolution_raw_round_trip(b);
}

/// The integer the C++ `vizdoom::ScreenResolution` declares for each screen resolution: what
/// [`ScreenResolution::to_raw`] sends across the C ABI.
pub proof fn lemma_screen_resolution_c_values()
    ensures
        ScreenResolution::Res160x120.raw_value() == 0i32,
        ScreenResolution::Res200x125.raw_value() == 1i32,
        ScreenResolution::Res200x150.raw_value() == 2i32,
        ScreenResolution::Res256x144.raw_value() == 3i32,
        ScreenResolution::Res256x160.raw_value() == 4i32,
        ScreenResolution::Res256x192.raw_value() == 5i32,
        ScreenResolution::Res320x180.raw_value() == 6i32,
        ScreenResolution::Res320x200.raw_value() == 7i32,
        ScreenResolution::Res320x240.raw_value() == 8i32,
        ScreenResolution::Res320x256.raw_value() == 9i32,
        ScreenResolution::Res400x225.raw_value() == 10i32,
        ScreenResolution::Res400x250.raw_value() == 11i32,
        ScreenResolution::Res400x300.raw_value() == 12i32,
        ScreenResolution::Res512x288.raw_value() == 13i32,
        ScreenResolution::Res512x320.raw_value() == 14i32,
        ScreenResolution::Res512x384.raw_value() == 15i32,
        ScreenResolution::Res640x360.raw_value() == 16i32,
        ScreenResolution::Res640x400.raw_value() == 17i32,
        ScreenResolution::Res640x480.raw_value() == 18i32,
        ScreenResolution::Res800x450.raw_value() == 19i32,
        ScreenResolution::Res800x500.raw_value() == 20i32,
        ScreenResolution::Res800x600.raw_value() == 21i32,
        ScreenResolution::Res1024x576.raw_value() == 22i32,
        ScreenResolution::Res1024x640.raw_value() == 23i32,
        ScreenResolution::Res1024x768.raw_value() == 24i32,
        ScreenResolution::Res1280x720.raw_value() == 25i32,
        ScreenResolution::Res1280x800.raw_value() == 26i32,
        ScreenResolution::Res1280x960.raw_value() == 27i32,
        ScreenResolution::Res1280x1024.raw_value() == 28i32,
        ScreenResolution::Res1400x787.raw_value() == 29i32,
        ScreenResolution::Res1400x875.raw_value() == 30i32,
        ScreenResolution::Res1400x1050.raw_value() == 31i32,
        ScreenResolution::Res1600x900.raw_value() == 32i32,
        ScreenResolution::Res1600x1000.raw_value() == 33i32,
        ScreenResolution::Res1600x1200.raw_value() == 34i32,
        ScreenResolution::Res1920x1080.raw_value() == 35i32,
{
}

/// Exactly the integers in `0..36` stand for a screen resolution, and each stands for
/// the screen resolution passed as it.
pub proof fn lemma_screen_resolution_from_raw_value(value: i32)
    ensures
        ScreenResolution::from_raw_value(value) is Some <==> 0 <= value < 36,
        ScreenResolution::from_raw_value(value) matches Some(x) ==> x.raw_value() == value,
{
}

/// Automap rendering mode. Mirrors the C++ `vizdoom::AutomapMode`.
#[derive(Debug, Clone, Copy, PartialEq, Eq, Hash, Structural)]
pub enum AutomapMode {
    Normal,
    Whole,
    Objects,
    ObjectsWithSize,
}

impl AutomapMode {
    /// The integer the C ABI uses for this automap mode.
    pub open spec fn raw_value(self) -> i32 {
        match self {
            AutomapMode::Normal => 0,
            AutomapMode::Whole => 1,
            AutomapMode::Objects => 2,
            AutomapMode::ObjectsWithSize => 3,
        }
    }

    /// The automap mode that the C ABI integer `value` stands for, if any.
    pub open spec fn from_raw_value(value: i32) -> Option<Self> {
        if value == 0 {
            Some(AutomapMode::Normal)
        } else if value == 1 {
            Some(AutomapMode::Whole)
        } else if value == 2 {
            Some(AutomapMode::Objects)
        } else if value == 3 {
            Some(AutomapMode::ObjectsWithSize)
        } else {
            None
        }
    }

    /// The integer passed across the C ABI for this automap mode.
    pub fn to_raw(self) -> (value: i32)
        ensures
            value == self.raw_value(),
    {
        match self {
            AutomapMode::Normal => 0,
            AutomapMode::Whole => 1,
            AutomapMode::Objects => 2,
            AutomapMode::ObjectsWithSize => 3,
        }
    }
}

/// Each automap mode is passed across the C ABI as an integer in `0..4`, and that
/// integer leads back to the automap mode it came from.
pub proof fn lemma_automap_mode_raw_round_trip(x: AutomapMode)
    ensures
        0 <= x.raw_value() < 4,
        AutomapMode::from_raw_value(x.raw_value()) == Some(x),
{
}

/// Distinct automap modes are passed across the C ABI as distinct integers.
pub proof fn lemma_automap_mode_raw_injective(a: AutomapMode, b: AutomapMode)
    ensures
        a.raw_value() == b.raw_value() ==> a == b,
{
    lemma_automap_mode_raw_round_trip(a);
    lemma_automap_mode_raw_round_trip(b);
}

/// The integer the C++ `vizdoom::AutomapMode` declares for each automap mode: what
/// [`AutomapMode::to_raw`] sends across the C ABI.
pub proof fn lemma_automap_mode_c_values()
    ensures
        AutomapMode::Normal.raw_value() == 0i32,
        AutomapMode::Whole.raw_value() == 1i32,
        AutomapMode::Objects.raw_value() == 2i32,
        AutomapMode::ObjectsWithSize.raw_value() == 3i32,
{
}

/// Exactly the integers in `0..4` stand for a automap mode, and each stands for
/// the automap mode passed as it.
pub proof fn lemma_automap_mode_from_raw_value(value: i32)
    ensures
        AutomapMode::from_raw_value(value) is Some <==> 0 <= value < 4,
        AutomapMode::from_raw_value(value) matches Some(x) ==> x.raw_value() == value,
{
}

/// Audio sampling rate. Mirrors the C++ `vizdoom::SamplingRate`.
#[derive(Debug, Clone, Copy, PartialEq, Eq, Hash, Structural)]
pub enum SamplingRate {
    Sr11025,
    Sr22050,
    Sr44100,
}

impl SamplingRate {
    /// The integer the C ABI uses for this sampling rate.
    pub open spec fn raw_value(self) -> i32 {
        match self {
            SamplingRate::Sr11025 => 0,
            SamplingRate::Sr22050 => 1,
            SamplingRate::Sr44100 => 2,
        }
    }

    /// The sampling rate that the C ABI integer `value` stands for, if any.
    pub open spec fn from_raw_value(value: i32) -> Option<Self> {
        if value == 0 {
            Some(SamplingRate::Sr11025)
        } else if value == 1 {
            Some(SamplingRate::Sr22050)
        } else if value == 2 {
            Some(SamplingRate::Sr44100)
        } else {
            None
        }
    }

    /// The integer passed across the C ABI for this sampling rate.
    pub fn to_raw(self) -> (value: i32)
        ensures
            value == self.raw_value(),
    {
        match self {
            SamplingRate::Sr11025 => 0,
            SamplingRate::Sr22050 => 1,
            SamplingRate::Sr44100 => 2,
        }
    }
}

/// Each sampling rate is passed across the C ABI as an integer in `0..3`, and that
/// integer leads back to the sampling rate it came from.
pub proof fn lemma_sampling_rate_raw_round_trip(x: SamplingRate)
    ensures
        0 <= x.raw_value() < 3,
        SamplingRate::from_raw_value(x.raw_value()) == Some(x),
{
}

/// Distinct sampling rates are passed across the C ABI as distinct integers.
pub proof fn lemma_sampling_rate_raw_injective(a: SamplingRate, b: SamplingRate)
    ensures
        a.raw_value() == b.raw_value() ==> a == b,
{
    lemma_sampling_rate_raw_round_trip(a);
    lemma_sampling_rate_raw_round_trip(b);
}

/// The integer the C++ `vizdoom::SamplingRate` declares for each sampling rate: what
/// [`SamplingRate::to_raw`] sends across the C ABI.
pub proof fn lemma_sampling_rate_c_values()
    ensures
        SamplingRate::Sr11025.raw_value() == 0i32,
        SamplingRate::Sr22050.raw_value() == 1i32,
        SamplingRate::Sr44100.raw_value() == 2i32,
{
}

/// Exactly the integers in `0..3` stand for a sampling rate, and each stands for
/// the sampling rate passed as it.
pub proof fn lemma_sampling_rate_from_raw_value(value: i32)
    ensures
        SamplingRate::from_raw_value(value) is Some <==> 0 <= value < 3,
        SamplingRate::from_raw_value(value) matches Some(x) ==> x.raw_value() == value,
{
}

/// Input buttons. Mirrors the C++ `vizdoom::Button`.
#[derive(Debug, Clone, Copy, PartialEq, Eq, Hash, Structural)]
pub enum Button {
    Attack,
    Use,
    Jump,
    Crouch,
    Turn180,
    AltAttack,
    Reload,
    Zoom,
    Speed,
    Strafe,
    MoveRight,
    MoveLeft,
    MoveBackward,
    MoveForward,
    TurnRight,
    TurnLeft,
    LookUp,
    LookDown,
    MoveUp,
    MoveDown,
    Land,
    SelectWeapon1,
    SelectWeapon2,
    SelectWeapon3,
    SelectWeapon4,
    SelectWeapon5,
    SelectWeapon6,
    SelectWeapon7,
    SelectWeapon8,
    SelectWeapon9,
    SelectWeapon0,
    SelectNextWeapon,
    SelectPrevWeapon,
    DropSelectedWeapon,
    ActivateSelectedItem,
    SelectNextItem,
    SelectPrevItem,
    DropSelectedItem,
    LookUpDownDelta,
    TurnLeftRightDelta,
    MoveForwardBackwardDelta,
    MoveLeftRightDelta,
    MoveUpDownDelta,
}

impl Button {
    /// The integer the C ABI uses for this button.
    pub open spec fn raw_value(self) -> i32 {
        match self {
            Button::Attack => 0,
            Button::Use => 1,
            Button::Jump => 2,
            Button::Crouch => 3,
            Button::Turn180 => 4,
            Button::AltAttack => 5,
            Button::Reload => 6,
            Button::Zoom => 7,
            Button::Speed => 8,
            Button::Strafe => 9,
            Button::MoveRight => 10,
            Button::MoveLeft => 11,
            Button::MoveBackward => 12,
            Button::MoveForward => 13,
            Button::TurnRight => 14,
            Button::TurnLeft => 15,
            Button::LookUp => 16,
            Button::LookDown => 17,
            Button::MoveUp => 18,
            Button::MoveDown => 19,
            Button::Land => 20,
            Button::SelectWeapon1 => 21,
            Button::SelectWeapon2 => 22,
            Button::SelectWeapon3 => 23,
            Button::SelectWeapon4 => 24,
            Button::SelectWeapon5 => 25,
            Button::SelectWeapon6 => 26,
            Button::SelectWeapon7 => 27,
            Button::SelectWeapon8 => 28,
            Button::SelectWeapon9 => 29,
            Button::SelectWeapon0 => 30,
            Button::SelectNextWeapon => 31,
            Button::SelectPrevWeapon => 32,
            Button::DropSelectedWeapon => 33,
            Button::ActivateSelectedItem => 34,
            Button::SelectNextItem => 35,
            Button::SelectPrevItem => 36,
            Button::DropSelectedItem => 37,
            Button::LookUpDownDelta => 38,
            Button::TurnLeftRightDelta => 39,
            Button::MoveForwardBackwardDelta => 40,
            Button::MoveLeftRightDelta => 41,
            Button::MoveUpDownDelta => 42,
        }
    }

    /// The button that the C ABI integer `value` stands for, if any.
    pub open spec fn from_raw_value(value: i32) -> Option<Self> {
        if value == 0 {
            Some(Button::Attack)
        } else if value == 1 {
            Some(Button::Use)
        } else if value == 2 {
            Some(Button::Jump)
        } else if value == 3 {
            Some(Button::Crouch)
        } else if value == 4 {
            Some(Button::Turn180)
        } else if value == 5 {
            Some(Button::AltAttack)
        } else if value == 6 {
            Some(Button::Reload)
        } else if value == 7 {
            Some(Button::Zoom)
        } else if value == 8 {
            Some(Button::Speed)
        } else if value == 9 {
            Some(Button::Strafe)
        } else if value == 10 {
            Some(Button::MoveRight)
        } else if value == 11 {
            Some(Button::MoveLeft)
        } else if value == 12 {
            Some(Button::MoveBackward)
        } else if value == 13 {
            Some(Button::MoveForward)
        } else if value == 14 {
            Some(Button::TurnRight)
        } else if value == 15 {
            Some(Button::TurnLeft)
        } else if value == 16 {
            Some(Button::LookUp)
        } else if value == 17 {
            Some(Button::LookDown)
        } else if value == 18 {
            Some(Button::MoveUp)
        } else if value == 19 {
            Some(Button::MoveDown)
        } else if value == 20 {
            Some(Button::Land)
        } else if value == 21 {
            Some(Button::SelectWeapon1)
        } else if value == 22 {
            Some(Button::SelectWeapon2)
        } else if value == 23 {
            Some(Button::SelectWeapon3)
        } else if value == 24 {
            Some(Button::SelectWeapon4)
        } else if value == 25 {
            Some(Button::SelectWeapon5)
        } else if value == 26 {
            Some(Button::SelectWeapon6)
        } else if value == 27 {
            Some(Button::SelectWeapon7)
        } else if value == 28 {
            Some(Button::SelectWeapon8)
        } else if value == 29 {
            Some(Button::SelectWeapon9)
        } else if value == 30 {
            Some(Button::SelectWeapon0)
        } else if value == 31 {
            Some(Button::SelectNextWeapon)
        } else if value == 32 {
            Some(Button::SelectPrevWeapon)
        } else if value == 33 {
            Some(Button::DropSelectedWeapon)
        } else if value == 34 {
            Some(Button::ActivateSelectedItem)
        } else if value == 35 {
            Some(Button::SelectNextItem)
        } else if value == 36 {
            Some(Button::SelectPrevItem)
        } else if value == 37 {
            Some(Button::DropSelectedItem)
        } else if value == 38 {
            Some(Button::LookUpDownDelta)
        } else if value == 39 {
            Some(Button::TurnLeftRightDelta)
        } else if value == 40 {
            Some(Button::MoveForwardBackwardDelta)
        } else if value == 41 {
            Some(Button::MoveLeftRightDelta)
        } else if value == 42 {
            Some(Button::MoveUpDownDelta)
        } else {
            None
        }
    }

    /// The integer passed across the C ABI for this button.
    pub fn to_raw(self) -> (value: i32)
        ensures
            value == self.raw_value(),
    {
        match self {
            Button::Attack => 0,
            Button::Use => 1,
            Button::Jump => 2,
            Button::Crouch => 3,
            Button::Turn180 => 4,
            Button::AltAttack => 5,
            Button::Reload => 6,
            Button::Zoom => 7,
            Button::Speed => 8,
            Button::Strafe => 9,
            Button::MoveRight => 10,
            Button::MoveLeft => 11,
            Button::MoveBackward => 12,
            Button::MoveForward => 13,
            Button::TurnRight => 14,
            Button::TurnLeft => 15,
            Button::LookUp => 16,
            Button::LookDown => 17,
            Button::MoveUp => 18,
            Button::MoveDown => 19,
            Button::Land => 20,
            Button::SelectWeapon1 => 21,
            Button::SelectWeapon2 => 22,
            Button::SelectWeapon3 => 23,
            Button::SelectWeapon4 => 24,
            Button::SelectWeapon5 => 25,
            Button::SelectWeapon6 => 26,
            Button::SelectWeapon7 => 27,
            Button::SelectWeapon8 => 28,
            Button::SelectWeapon9 => 29,
            Button::SelectWeapon0 => 30,
            Button::SelectNextWeapon => 31,
            Button::SelectPrevWeapon => 32,
            Button::DropSelectedWeapon => 33,
            Button::ActivateSelectedItem => 34,
            Button::SelectNextItem => 35,
            Button::SelectPrevItem => 36,
            Button::DropSelectedItem => 37,
            Button::LookUpDownDelta => 38,
            Button::TurnLeftRightDelta => 39,
            Button::MoveForwardBackwardDelta => 40,
            Button::MoveLeftRightDelta => 41,
            Button::MoveUpDownDelta => 42,
        }
    }
}

/// Each button is passed across the C ABI as an integer in `0..43`, and that
/// integer leads back to the button it came from.
pub proof fn lemma_button_raw_round_trip(x: Button)
    ensures
        0 <= x.raw_value() < 43,
        Button::from_raw_value(x.raw_value()) == Some(x),
{
}

/// Distinct buttons are passed across the C ABI as distinct integers.
pub proof fn lemma_button_raw_injective(a: Button, b: Button)
    ensures
        a.raw_value() == b.raw_value() ==> a == b,
{
    lemma_button_raw_round_trip(a);
    lemma_button_raw_round_trip(b);
}

/// The integer the C++ `vizdoom::Button` declares for each button: what
/// [`Button::to_raw`] sends across the C ABI.
pub proof fn lemma_button_c_values()
    ensures
        Button::Attack.raw_value() == 0i32,
        Button::Use.raw_value() == 1i32,
        Button::Jump.raw_value() == 2i32,
        Button::Crouch.raw_value() == 3i32,
        Button::Turn180.raw_value() == 4i32,
        Button::AltAttack.raw_value() == 5i32,
        Button::Reload.raw_value() == 6i32,
        Button::Zoom.raw_value() == 7i32,
        Button::Speed.raw_value() == 8i32,
        Button::Strafe.raw_value() == 9i32,
        Button::MoveRight.raw_value() == 10i32,
        Button::MoveLeft.raw_value() == 11i32,
        Button::MoveBackward.raw_value() == 12i32,
        Button::MoveForward.raw_value() == 13i32,
        Button::TurnRight.raw_value() == 14i32,
        Button::TurnLeft.raw_value() == 15i32,
        Button::LookUp.raw_value() == 16i32,
        Button::LookDown.raw_value() == 17i32,
        Button::MoveUp.raw_value() == 18i32,
        Button::MoveDown.raw_value() == 19i32,
        Button::Land.raw_value() == 20i32,
        Button::SelectWeapon1.raw_value() == 21i32,
        Button::SelectWeapon2.raw_value() == 22i32,
        Button::SelectWeapon3.raw_value() == 23i32,
        Button::SelectWeapon4.raw_value() == 24i32,
        Button::SelectWeapon5.raw_value() == 25i32,
        Button::SelectWeapon6.raw_value() == 26i32,
        Button::SelectWeapon7.raw_value() == 27i32,
        Button::SelectWeapon8.raw_value() == 28i32,
        Button::SelectWeapon9.raw_value() == 29i32,
        Button::SelectWeapon0.raw_value() == 30i32,
        Button::SelectNextWeapon.raw_value() == 31i32,
        Button::SelectPrevWeapon.raw_value() == 32i32,
        Button::DropSelectedWeapon.raw_value() == 33i32,
        Button::ActivateSelectedItem.raw_value() == 34i32,
        Button::SelectNextItem.raw_value() == 35i32,
        Button::SelectPrevItem.raw_value() == 36i32,
        Button::DropSelectedItem.raw_value() == 37i32,
        Button::LookUpDownDelta.raw_value() == 38i32,
        Button::TurnLeftRightDelta.raw_value() == 39i32,
        Button::MoveForwardBackwardDelta.raw_value() == 40i32,
        Button::MoveLeftRightDelta.raw_value() == 41i32,
        Button::MoveUpDownDelta.raw_value() == 42i32,
{
}

/// Exactly the integers in `0..43` stand for a button, and each stands for
/// the button passed as it.
pub proof fn lemma_button_from_raw_value(value: i32)
    ensures
        Button::from_raw_value(value) is Some <==> 0 <= value < 43,
        Button::from_raw_value(value) matches Some(x) ==> x.raw_value() == value,
{
}

/// Game variables exposed in state. Mirrors the C++ `vizdoom::GameVariable`
/// (sequential from 0; `USER0` is reserved and intentionally omitted).
#[derive(Debug, Clone, Copy, PartialEq, Eq, Hash, Structural)]
pub enum GameVariable {
    KillCount,
    ItemCount,
    SecretCount,
    FragCount,
    DeathCount,
    HitCount,
    HitsTaken,
    DamageCount,
    DamageTaken,
    Health,
    Armor,
    Dead,
    OnGround,
    AttackReady,
    AltAttackReady,
    SelectedWeapon,
    SelectedWeaponAmmo,
    Ammo0,
    Ammo1,
    Ammo2,
    Ammo3,
    Ammo4,
    Ammo5,
    Ammo6,
    Ammo7,
    Ammo8,
    Ammo9,
    Weapon0,
    Weapon1,
    Weapon2,
    Weapon3,
    Weapon4,
    Weapon5,
    Weapon6,
    Weapon7,
    Weapon8,
    Weapon9,
    PositionX,
    PositionY,
    PositionZ,
    Angle,
    Pitch,
    Roll,
    ViewHeight,
    VelocityX,
    VelocityY,
    VelocityZ,
    CameraPositionX,
    CameraPositionY,
    CameraPositionZ,
    CameraAngle,
    CameraPitch,
    CameraRoll,
    CameraFov,
    PlayerNumber,
    PlayerCount,
    Player1FragCount,
    Player2FragCount,
    Player3FragCount,
    Player4FragCount,
    Player5FragCount,
    Player6FragCount,
    Player7FragCount,
    Player8FragCount,
    Player9FragCount,
    Player10FragCount,
    Player11FragCount,
    Player12FragCount,
    Player13FragCount,
    Player14FragCount,
    Player15FragCount,
    Player16FragCount,
    User1,
    User2,
    User3,
    User4,
    User5,
    User6,
    User7,
    User8,
    User9,
    User10,
    User11,
    User12,
    User13,
    User14,
    User15,
    User16,
    User17,
    User18,
    User19,
    User20,
    User21,
    User22,
    User23,
    User24,
    User25,
    User26,
    User27,
    User28,
    User29,
    User30,
    User31,
    User32,
    User33,
    User34,
    User35,
    User36,
    User37,
    User38,
    User39,
    User40,
    User41,
    User42,
    User43,
    User44,
    User45,
    User46,
    User47,
    User48,
    User49,
    User50,
    User51,
    User52,
    User53,
    User54,
    User55,
    User56,
    User57,
    User58,
    User59,
    User60,
}

impl GameVariable {
    /// The integer the C ABI uses for this game variable.
    pub open spec fn raw_value(self) -> i32 {
        match self {
            GameVariable::KillCount => 0,
            GameVariable::ItemCount => 1,
            GameVariable::SecretCount => 2,
            GameVariable::FragCount => 3,
            GameVariable::DeathCount => 4,
            GameVariable::HitCount => 5,
            GameVariable::HitsTaken => 6,
            GameVariable::DamageCount => 7,
            GameVariable::DamageTaken => 8,
            GameVariable::Health => 9,
            GameVariable::Armor => 10,
            GameVariable::Dead => 11,
            GameVariable::OnGround => 12,
            GameVariable::AttackReady => 13,
            GameVariable::AltAttackReady => 14,
            GameVariable::SelectedWeapon => 15,
            GameVariable::SelectedWeaponAmmo => 16,
            GameVariable::Ammo0 => 17,
            GameVariable::Ammo1 => 18,
            GameVariable::Ammo2 => 19,
            GameVariable::Ammo3 => 20,
            GameVariable::Ammo4 => 21,
            GameVariable::Ammo5 => 22,
            GameVariable::Ammo6 => 23,
            GameVariable::Ammo7 => 24,
            GameVariable::Ammo8 => 25,
            GameVariable::Ammo9 => 26,
            GameVariable::Weapon0 => 27,
            GameVariable::Weapon1 => 28,
            GameVariable::Weapon2 => 29,
            GameVariable::Weapon3 => 30,
            GameVariable::Weapon4 => 31,
            GameVariable::Weapon5 => 32,
            GameVariable::Weapon6 => 33,
            GameVariable::Weapon7 => 34,
            GameVariable::Weapon8 => 35,
            GameVariable::Weapon9 => 36,
            GameVariable::PositionX => 37,
            GameVariable::PositionY => 38,
            GameVariable::PositionZ => 39,
            GameVariable::Angle => 40,
            GameVariable::Pitch => 41,
            GameVariable::Roll => 42,
            GameVariable::ViewHeight => 43,
            GameVariable::VelocityX => 44,
            GameVariable::VelocityY => 45,
            GameVariable::VelocityZ => 46,
            GameVariable::CameraPositionX => 47,
            GameVariable::CameraPositionY => 48,
            GameVariable::CameraPositionZ => 49,
            GameVariable::CameraAngle => 50,
            GameVariable::CameraPitch => 51,
            GameVariable::CameraRoll => 52,
            GameVariable::CameraFov => 53,
            GameVariable::PlayerNumber => 54,
            GameVariable::PlayerCount => 55,
            GameVariable::Player1FragCount => 56,
            GameVariable::Player2FragCount => 57,
            GameVariable::Player3FragCount => 58,
            GameVariable::Player4FragCount => 59,
            GameVariable::Player5FragCount => 60,
            GameVariable::Player6FragCount => 61,
            GameVariable::Player7FragCount => 62,
            GameVariable::Player8FragCount => 63,
            GameVariable::Player9FragCount => 64,
            GameVariable::Player10FragCount => 65,
            GameVariable::Player11FragCount => 66,
            GameVariable::Player12FragCount => 67,
            GameVariable::Player13FragCount => 68,
            GameVariable::Player14FragCount => 69,
            GameVariable::Player15FragCount => 70,
            GameVariable::Player16FragCount => 71,
            GameVariable::User1 => 72,
            GameVariable::User2 => 73,
            GameVariable::User3 => 74,
            GameVariable::User4 => 75,
            GameVariable::User5 => 76,
            GameVariable::User6 => 77,
            GameVariable::User7 => 78,
            GameVariable::User8 => 79,
            GameVariable::User9 => 80,
            GameVariable::User10 => 81,
            GameVariable::User11 => 82,
            GameVariable::User12 => 83,
            GameVariable::User13 => 84,
            GameVariable::User14 => 85,
            GameVariable::User15 => 86,
            GameVariable::User16 => 87,
            GameVariable::User17 => 88,
            GameVariable::User18 => 89,
            GameVariable::User19 => 90,
            GameVariable::User20 => 91,
            GameVariable::User21 => 92,
            GameVariable::User22 => 93,
            GameVariable::User23 => 94,
            GameVariable::User24 => 95,
            GameVariable::User25 => 96,
            GameVariable::User26 => 97,
            GameVariable::User27 => 98,
            GameVariable::User28 => 99,
            GameVariable::User29 => 100,
            GameVariable::User30 => 101,
            GameVariable::User31 => 102,
            GameVariable::User32 => 103,
            GameVariable::User33 => 104,
            GameVariable::User34 => 105,
            GameVariable::User35 => 106,
            GameVariable::User36 => 107,
            GameVariable::User37 => 108,
            GameVariable::User38 => 109,
            GameVariable::User39 => 110,
            GameVariable::User40 => 111,
            GameVariable::User41 => 112,
            GameVariable::User42 => 113,
            GameVariable::User43 => 114,
            GameVariable::User44 => 115,
            GameVariable::User45 => 116,
            GameVariable::User46 => 117,
            GameVariable::User47 => 118,
            GameVariable::User48 => 119,
            GameVariable::User49 => 120,
            GameVariable::User50 => 121,
            GameVariable::User51 => 122,
            GameVariable::User52 => 123,
            GameVariable::User53 => 124,
            GameVariable::User54 => 125,
            GameVariable::User55 => 126,
            GameVariable::User56 => 127,
            GameVariable::User57 => 128,
            GameVariable::User58 => 129,
            GameVariable::User59 => 130,
            GameVariable::User60 => 131,
        }
    }

    /// The game variable that the C ABI integer `value` stands for, if any.
    pub open spec fn from_raw_value(value: i32) -> Option<Self> {
        if value == 0 {
            Some(GameVariable::KillCount)
        } else if value == 1 {
            Some(GameVariable::ItemCount)
        } else if value == 2 {
            Some(GameVariable::SecretCount)
        } else if value == 3 {
            Some(GameVariable::FragCount)
        } else if value == 4 {
            Some(GameVariable::DeathCount)
        } else if value == 5 {
            Some(GameVariable::HitCount)
        } else if value == 6 {
            Some(GameVariable::HitsTaken)
        } else if value == 7 {
            Some(GameVariable::DamageCount)
        } else if value == 8 {
            Some(GameVariable::DamageTaken)
        } else if value == 9 {
            Some(GameVariable::Health)
        } else if value == 10 {
            Some(GameVariable::Armor)
        } else if value == 11 {
            Some(GameVariable::Dead)
        } else if value == 12 {
            Some(GameVariable::OnGround)
        } else if value == 13 {
            Some(GameVariable::AttackReady)
        } else if value == 14 {
            Some(GameVariable::AltAttackReady)
        } else if value == 15 {
            Some(GameVariable::SelectedWeapon)
        } else if value == 16 {
            Some(GameVariable::SelectedWeaponAmmo)
        } else if value == 17 {
            Some(GameVariable::Ammo0)
        } else if value == 18 {
            Some(GameVariable::Ammo1)
        } else if value == 19 {
            Some(GameVariable::Ammo2)
        } else if value == 20 {
            Some(GameVariable::Ammo3)
        } else if value == 21 {
            Some(GameVariable::Ammo4)
        } else if value == 22 {
            Some(GameVariable::Ammo5)
        } else if value == 23 {
            Some(GameVariable::Ammo6)
        } else if value == 24 {
            Some(GameVariable::Ammo7)
        } else if value == 25 {
            Some(GameVariable::Ammo8)
        } else if value == 26 {
            Some(GameVariable::Ammo9)
        } else if value == 27 {
            Some(GameVariable::Weapon0)
        } else if value == 28 {
            Some(GameVariable::Weapon1)
        } else if value == 29 {
            Some(GameVariable::Weapon2)
        } else if value == 30 {
            Some(GameVariable::Weapon3)
        } else if value == 31 {
            Some(GameVariable::Weapon4)
        } else if value == 32 {
            Some(GameVariable::Weapon5)
        } else if value == 33 {
            Some(GameVariable::Weapon6)
        } else if value == 34 {
            Some(GameVariable::Weapon7)
        } else if value == 35 {
            Some(GameVariable::Weapon8)
        } else if value == 36 {
            Some(GameVariable::Weapon9)
        } else if value == 37 {
            Some(GameVariable::PositionX)
        } else if value == 38 {
            Some(GameVariable::PositionY)
        } else if value == 39 {
            Some(GameVariable::PositionZ)
        } else if value == 40 {
            Some(GameVariable::Angle)
        } else if value == 41 {
            Some(GameVariable::Pitch)
        } else if value == 42 {
            Some(GameVariable::Roll)
        } else if value == 43 {
            Some(GameVariable::ViewHeight)
        } else if value == 44 {
            Some(GameVariable::VelocityX)
        } else if value == 45 {
            Some(GameVariable::VelocityY)
        } else if value == 46 {
            Some(GameVariable::VelocityZ)
        } else if value == 47 {
            Some(GameVariable::CameraPositionX)
        } else if value == 48 {
            Some(GameVariable::CameraPositionY)
        } else if value == 49 {
            Some(GameVariable::CameraPositionZ)
        } else if value == 50 {
            Some(GameVariable::CameraAngle)
        } else if value == 51 {
            Some(GameVariable::CameraPitch)
        } else if value == 52 {
            Some(GameVariable::CameraRoll)
        } else if value == 53 {
            Some(GameVariable::CameraFov)
        } else if value == 54 {
            Some(GameVariable::PlayerNumber)
        } else if value == 55 {
            Some(GameVariable::PlayerCount)
        } else if value == 56 {
            Some(GameVariable::Player1FragCount)
        } else if value == 57 {
            Some(GameVariable::Player2FragCount)
        } else if value == 58 {
            Some(GameVariable::Player3FragCount)
        } else if value == 59 {
            Some(GameVariable::Player4FragCount)
        } else if value == 60 {
            Some(GameVariable::Player5FragCount)
        } else if value == 61 {
            Some(GameVariable::Player6FragCount)
        } else if value == 62 {
            Some(GameVariable::Player7FragCount)
        } else if value == 63 {
            Some(GameVariable::Player8FragCount)
        } else if value == 64 {
            Some(GameVariable::Player9FragCount)
        } else if value == 65 {
            Some(GameVariable::Player10FragCount)
        } else if value == 66 {
            Some(GameVariable::Player11FragCount)
        } else if value == 67 {
            Some(GameVariable::Player12FragCount)
        } else if value == 68 {
            Some(GameVariable::Player13FragCount)
        } else if value == 69 {
            Some(GameVariable::Player14FragCount)
        } else if value == 70 {
            Some(GameVariable::Player15FragCount)
        } else if value == 71 {
            Some(GameVariable::Player16FragCount)
        } else if value == 72 {
            Some(GameVariable::User1)
        } else if value == 73 {
            Some(GameVariable::User2)
        } else if value == 74 {
            Some(GameVariable::User3)
        } else if value == 75 {
            Some(GameVariable::User4)
        } else if value == 76 {
            Some(GameVariable::User5)
        } else if value == 77 {
            Some(GameVariable::User6)
        } else if value == 78 {
            Some(GameVariable::User7)
        } else if value == 79 {
            Some(GameVariable::User8)
        } else if value == 80 {
            Some(GameVariable::User9)
        } else if value == 81 {
            Some(GameVariable::User10)
        } else if value == 82 {
            Some(GameVariable::User11)
        } else if value == 83 {
            Some(GameVariable::User12)
        } else if value == 84 {
            Some(GameVariable::User13)
        } else if value == 85 {
            Some(GameVariable::User14)
        } else if value == 86 {
            Some(GameVariable::User15)
        } else if value == 87 {
            Some(GameVariable::User16)
        } else if value == 88 {
            Some(GameVariable::User17)
        } else if value == 89 {
            Some(GameVariable::User18)
        } else if value == 90 {
            Some(GameVariable::User19)
        } else if value == 91 {
            Some(GameVariable::User20)
        } else if value == 92 {
            Some(GameVariable::User21)
        } else if value == 93 {
            Some(GameVariable::User22)
        } else if value == 94 {
            Some(GameVariable::User23)
        } else if value == 95 {
            Some(GameVariable::User24)
        } else if value == 96 {
            Some(GameVariable::User25)
        } else if value == 97 {
            Some(GameVariable::User26)
        } else if value == 98 {
            Some(GameVariable::User27)
        } else if value == 99 {
            Some(GameVariable::User28)
        } else if value == 100 {
            Some(GameVariable::User29)
        } else if value == 101 {
            Some(GameVariable::User30)
        } else if value == 102 {
            Some(GameVariable::User31)
        } else if value == 103 {
            Some(GameVariable::User32)
        } else if value == 104 {
            Some(GameVariable::User33)
        } else if value == 105 {
            Some(GameVariable::User34)
        } else if value == 106 {
            Some(GameVariable::User35)
        } else if value == 107 {
            Some(GameVariable::User36)
        } else if value == 108 {
            Some(GameVariable::User37)
        } else if value == 109 {
            Some(GameVariable::User38)
        } else if value == 110 {
            Some(GameVariable::User39)
        } else if value == 111 {
            Some(GameVariable::User40)
        } else if value == 112 {
            Some(GameVariable::User41)
        } else if value == 113 {
            Some(GameVariable::User42)
        } else if value == 114 {
            Some(GameVariable::User43)
        } else if value == 115 {
            Some(GameVariable::User44)
        } else if value == 116 {
            Some(GameVariable::User45)
        } else if value == 117 {
            Some(GameVariable::User46)
        } else if value == 118 {
            Some(GameVariable::User47)
        } else if value == 119 {
            Some(GameVariable::User48)
        } else if value == 120 {
            Some(GameVariable::User49)
        } else if value == 121 {
            Some(GameVariable::User50)
        } else if value == 122 {
            Some(GameVariable::User51)
        } else if value == 123 {
            Some(GameVariable::User52)
        } else if value == 124 {
            Some(GameVariable::User53)
        } else if value == 125 {
            Some(GameVariable::User54)
        } else if value == 126 {
            Some(GameVariable::User55)
        } else if value == 127 {
            Some(GameVariable::User56)
        } else if value == 128 {
            Some(GameVariable::User57)
        } else if value == 129 {
            Some(GameVariable::User58)
        } else if value == 130 {
            Some(GameVariable::User59)
        } else if value == 131 {
            Some(GameVariable::User60)
        } else {
            None
        }
    }

    /// The integer passed across the C ABI for this game variable.
    pub fn to_raw(self) -> (value: i32)
        ensures
            value == self.raw_value(),
    {
        match self {
            GameVariable::KillCount => 0,
            GameVariable::ItemCount => 1,
            GameVariable::SecretCount => 2,
            GameVariable::FragCount => 3,
            GameVariable::DeathCount => 4,
            GameVariable::HitCount => 5,
            GameVariable::HitsTaken => 6,
            GameVariable::DamageCount => 7,
            GameVariable::DamageTaken => 8,
            GameVariable::Health => 9,
            GameVariable::Armor => 10,
            GameVariable::Dead => 11,
            GameVariable::OnGround => 12,
            GameVariable::AttackReady => 13,
            GameVariable::AltAttackReady => 14,
            GameVariable::SelectedWeapon => 15,
            GameVariable::SelectedWeaponAmmo => 16,
            GameVariable::Ammo0 => 17,
            GameVariable::Ammo1 => 18,
            GameVariable::Ammo2 => 19,
            GameVariable::Ammo3 => 20,
            GameVariable::Ammo4 => 21,
            GameVariable::Ammo5 => 22,
            GameVariable::Ammo6 => 23,
            GameVariable::Ammo7 => 24,
            GameVariable::Ammo8 => 25,
            GameVariable::Ammo9 => 26,
            GameVariable::Weapon0 => 27,
            GameVariable::Weapon1 => 28,
            GameVariable::Weapon2 => 29,
            GameVariable::Weapon3 => 30,
            GameVariable::Weapon4 => 31,
            GameVariable::Weapon5 => 32,
            GameVariable::Weapon6 => 33,
            GameVariable::Weapon7 => 34,
            GameVariable::Weapon8 => 35,
            GameVariable::Weapon9 => 36,
            GameVariable::PositionX => 37,
            GameVariable::PositionY => 38,
            GameVariable::PositionZ => 39,
            GameVariable::Angle => 40,
            GameVariable::Pitch => 41,
            GameVariable::Roll => 42,
            GameVariable::ViewHeight => 43,
            GameVariable::VelocityX => 44,
            GameVariable::VelocityY => 45,
            GameVariable::VelocityZ => 46,
            GameVariable::CameraPositionX => 47,
            GameVariable::CameraPositionY => 48,
            GameVariable::CameraPositionZ => 49,
            GameVariable::CameraAngle => 50,
            GameVariable::CameraPitch => 51,
            GameVariable::CameraRoll => 52,
            GameVariable::CameraFov => 53,
            GameVariable::PlayerNumber => 54,
            GameVariable::PlayerCount => 55,
            GameVariable::Player1FragCount => 56,
            GameVariable::Player2FragCount => 57,
            GameVariable::Player3FragCount => 58,
            GameVariable::Player4FragCount => 59,
            GameVariable::Player5FragCount => 60,
            GameVariable::Player6FragCount => 61,
            GameVariable::Player7FragCount => 62,
            GameVariable::Player8FragCount => 63,
            GameVariable::Player9FragCount => 64,
            GameVariable::Player10FragCount => 65,
            GameVariable::Player11FragCount => 66,
            GameVariable::Player12FragCount => 67,
            GameVariable::Player13FragCount => 68,
            GameVariable::Player14FragCount => 69,
            GameVariable::Player15FragCount => 70,
            GameVariable::Player16FragCount => 71,
            GameVariable::User1 => 72,
            GameVariable::User2 => 73,
            GameVariable::User3 => 74,
            GameVariable::User4 => 75,
            GameVariable::User5 => 76,
            GameVariable::User6 => 77,
            GameVariable::User7 => 78,
            GameVariable::User8 => 79,
            GameVariable::User9 => 80,
            GameVariable::User10 => 81,
            GameVariable::User11 => 82,
            GameVariable::User12 => 83,
            GameVariable::User13 => 84,
            GameVariable::User14 => 85,
            GameVariable::User15 => 86,
            GameVariable::User16 => 87,
            GameVariable::User17 => 88,
            GameVariable::User18 => 89,
            GameVariable::User19 => 90,
            GameVariable::User20 => 91,
            GameVariable::User21 => 92,
            GameVariable::User22 => 93,
            GameVariable::User23 => 94,
            GameVariable::User24 => 95,
            GameVariable::User25 => 96,
            GameVariable::User26 => 97,
            GameVariable::User27 => 98,
            GameVariable::User28 => 99,
            GameVariable::User29 => 100,
            GameVariable::User30 => 101,
            GameVariable::User31 => 102,
            GameVariable::User32 => 103,
            GameVariable::User33 => 104,
            GameVariable::User34 => 105,
            GameVariable::User35 => 106,
            GameVariable::User36 => 107,
            GameVariable::User37 => 108,
            GameVariable::User38 => 109,
            GameVariable::User39 => 110,
            GameVariable::User40 => 111,
            GameVariable::User41 => 112,
            GameVariable::User42 => 113,
            GameVariable::User43 => 114,
            GameVariable::User44 => 115,
            GameVariable::User45 => 116,
            GameVariable::User46 => 117,
            GameVariable::User47 => 118,
            GameVariable::User48 => 119,
            GameVariable::User49 => 120,
            GameVariable::User50 => 121,
            GameVariable::User51 => 122,
            GameVariable::User52 => 123,
            GameVariable::User53 => 124,
            GameVariable::User54 => 125,
            GameVariable::User55 => 126,
            GameVariable::User56 => 127,
            GameVariable::User57 => 128,
            GameVariable::User58 => 129,
            GameVariable::User59 => 130,
            GameVariable::User60 => 131,
        }
    }
}

/// Each game variable is passed across the C ABI as an integer in `0..132`, and that
/// integer leads back to the game variable it came from.
pub proof fn lemma_game_variable_raw_round_trip(x: GameVariable)
    ensures
        0 <= x.raw_value() < 132,
        GameVariable::from_raw_value(x.raw_value()) == Some(x),
{
}

/// Distinct game variables are passed across the C ABI as distinct integers.
pub proof fn lemma_game_variable_raw_injective(a: GameVariable, b: GameVariable)
    ensures
        a.raw_value() == b.raw_value() ==> a == b,
{
    lemma_game_variable_raw_round_trip(a);
    lemma_game_variable_raw_round_trip(b);
}

/// The integer the C++ `vizdoom::GameVariable` declares for each game variable: what
/// [`GameVariable::to_raw`] sends across the C ABI.
pub proof fn lemma_game_variable_c_values()
    ensures
        GameVariable::KillCount.raw_value() == 0i32,
        GameVariable::ItemCount.raw_value() == 1i32,
        GameVariable::SecretCount.raw_value() == 2i32,
        GameVariable::FragCount.raw_value() == 3i32,
        GameVariable::DeathCount.raw_value() == 4i32,
        GameVariable::HitCount.raw_value() == 5i32,
        GameVariable::HitsTaken.raw_value() == 6i32,
        GameVariable::DamageCount.raw_value() == 7i32,
        GameVariable::DamageTaken.raw_value() == 8i32,
        GameVariable::Health.raw_value() == 9i32,
        GameVariable::Armor.raw_value() == 10i32,
        GameVariable::Dead.raw_value() == 11i32,
        GameVariable::OnGround.raw_value() == 12i32,
        GameVariable::AttackReady.raw_value() == 13i32,
        GameVariable::AltAttackReady.raw_value() == 14i32,
        GameVariable::SelectedWeapon.raw_value() == 15i32,
        GameVariable::SelectedWeaponAmmo.raw_value() == 16i32,
        GameVariable::Ammo0.raw_value() == 17i32,
        GameVariable::Ammo1.raw_value() == 18i32,
        GameVariable::Ammo2.raw_value() == 19i32,
        GameVariable::Ammo3.raw_value() == 20i32,
        GameVariable::Ammo4.raw_value() == 21i32,
        GameVariable::Ammo5.raw_value() == 22i32,
        GameVariable::Ammo6.raw_value() == 23i32,
        GameVariable::Ammo7.raw_value() == 24i32,
        GameVariable::Ammo8.raw_value() == 25i32,
        GameVariable::Ammo9.raw_value() == 26i32,
        GameVariable::Weapon0.raw_value() == 27i32,
        GameVariable::Weapon1.raw_value() == 28i32,
        GameVariable::Weapon2.raw_value() == 29i32,
        GameVariable::Weapon3.raw_value() == 30i32,
        GameVariable::Weapon4.raw_value() == 31i32,
        GameVariable::Weapon5.raw_value() == 32i32,
        GameVariable::Weapon6.raw_value() == 33i32,
        GameVariable::Weapon7.raw_value() == 34i32,
        GameVariable::Weapon8.raw_value() == 35i32,
        GameVariable::Weapon9.raw_value() == 36i32,
        GameVariable::PositionX.raw_value() == 37i32,
        GameVariable::PositionY.raw_value() == 38i32,
        GameVariable::PositionZ.raw_value() == 39i32,
        GameVariable::Angle.raw_value() == 40i32,
        GameVariable::Pitch.raw_value() == 41i32,
        GameVariable::Roll.raw_value() == 42i32,
        GameVariable::ViewHeight.raw_value() == 43i32,
        GameVariable::VelocityX.raw_value() == 44i32,
        GameVariable::VelocityY.raw_value() == 45i32,
        GameVariable::VelocityZ.raw_value() == 46i32,
        GameVariable::CameraPositionX.raw_value() == 47i32,
        GameVariable::CameraPositionY.raw_value() == 48i32,
        GameVariable::CameraPositionZ.raw_value() == 49i32,
        GameVariable::CameraAngle.raw_value() == 50i32,
        GameVariable::CameraPitch.raw_value() == 51i32,
        GameVariable::CameraRoll.raw_value() == 52i32,
        GameVariable::CameraFov.raw_value() == 53i32,
        GameVariable::PlayerNumber.raw_value() == 54i32,
        GameVariable::PlayerCount.raw_value() == 55i32,
        GameVariable::Player1FragCount.raw_value() == 56i32,
        GameVariable::Player2FragCount.raw_value() == 57i32,
        GameVariable::Player3FragCount.raw_value() == 58i32,
        GameVariable::Player4FragCount.raw_value() == 59i32,
        GameVariable::Player5FragCount.raw_value() == 60i32,
        GameVariable::Player6FragCount.raw_value() == 61i32,
        GameVariable::Player7FragCount.raw_value() == 62i32,
        GameVariable::Player8FragCount.raw_value() == 63i32,
        GameVariable::Player9FragCount.raw_value() == 64i32,
        GameVariable::Player10FragCount.raw_value() == 65i32,
        GameVariable::Player11FragCount.raw_value() == 66i32,
        GameVariable::Player12FragCount.raw_value() == 67i32,
        GameVariable::Player13FragCount.raw_value() == 68i32,
        GameVariable::Player14FragCount.raw_value() == 69i32,
        GameVariable::Player15FragCount.raw_value() == 70i32,
        GameVariable::Player16FragCount.raw_value() == 71i32,
        GameVariable::User1.raw_value() == 72i32,
        GameVariable::User2.raw_value() == 73i32,
        GameVariable::User3.raw_value() == 74i32,
        GameVariable::User4.raw_value() == 75i32,
        GameVariable::User5.raw_value() == 76i32,
        GameVariable::User6.raw_value() == 77i32,
        GameVariable::User7.raw_value() == 78i32,
        GameVariable::User8.raw_value() == 79i32,
        GameVariable::User9.raw_value() == 80i32,
        GameVariable::User10.raw_value() == 81i32,
        GameVariable::User11.raw_value() == 82i32,
        GameVariable::User12.raw_value() == 83i32,
        GameVariable::User13.raw_value() == 84i32,
        GameVariable::User14.raw_value() == 85i32,
        GameVariable::User15.raw_value() == 86i32,
        GameVariable::User16.raw_value() == 87i32,
        GameVariable::User17.raw_value() == 88i32,
        GameVariable::User18.raw_value() == 89i32,
        GameVariable::User19.raw_value() == 90i32,
        GameVariable::User20.raw_value() == 91i32,
        GameVariable::User21.raw_value() == 92i32,
        GameVariable::User22.raw_value() == 93i32,
        GameVariable::User23.raw_value() == 94i32,
        GameVariable::User24.raw_value() == 95i32,
        GameVariable::User25.raw_value() == 96i32,
        GameVariable::User26.raw_value() == 97i32,
        GameVariable::User27.raw_value() == 98i32,
        GameVariable::User28.raw_value() == 99i32,
        GameVariable::User29.raw_value() == 100i32,
        GameVariable::User30.raw_value() == 101i32,
        GameVariable::User31.raw_value() == 102i32,
        GameVariable::User32.raw_value() == 103i32,
        GameVariable::User33.raw_value() == 104i32,
        GameVariable::User34.raw_value() == 105i32,
        GameVariable::User35.raw_value() == 106i32,
        GameVariable::User36.raw_value() == 107i32,
        GameVariable::User37.raw_value() == 108i32,
        GameVariable::User38.raw_value() == 109i32,
        GameVariable::User39.raw_value() == 110i32,
        GameVariable::User40.raw_value() == 111i32,
        GameVariable::User41.raw_value() == 112i32,
        GameVariable::User42.raw_value() == 113i32,
        GameVariable::User43.raw_value() == 114i32,
        GameVariable::User44.raw_value() == 115i32,
        GameVariable::User45.raw_value() == 116i32,
        GameVariable::User46.raw_value() == 117i32,
        GameVariable::User47.raw_value() == 118i32,
        GameVariable::User48.raw_value() == 119i32,
        GameVariable::User49.raw_value() == 120i32,
        GameVariable::User50.raw_value() == 121i32,
        GameVariable::User51.raw_value() == 122i32,
        GameVariable::User52.raw_value() == 123i32,
        GameVariable::User53.raw_value() == 124i32,
        GameVariable::User54.raw_value() == 125i32,
        GameVariable::User55.raw_value() == 126i32,
        GameVariable::User56.raw_value() == 127i32,
        GameVariable::User57.raw_value() == 128i32,
        GameVariable::User58.raw_value() == 129i32,
        GameVariable::User59.raw_value() == 130i32,
        GameVariable::User60.raw_value() == 131i32,
{
}

/// Exactly the integers in `0..132` stand for a game variable, and each stands for
/// the game variable passed as it.
pub proof fn lemma_game_variable_from_raw_value(value: i32)
    ensures
        GameVariable::from_raw_value(value) is Some <==> 0 <= value < 132,
        GameVariable::from_raw_value(value) matches Some(x) ==> x.raw_value() == value,
{
}

} // verus!
