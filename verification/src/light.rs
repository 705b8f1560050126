//! The device's light-control resource: power, brightness and color.
//!
//! A light's color is carried on the wire either as one of twenty named
//! presets (a six-digit hex string) or as an explicit chromaticity pair
//! scaled to sixteen bits; the two representations are mutually exclusive
//! on write.

use crate::text::comma_join;
use crate::text::lemma_comma_join_step;
use crate::text::spec_decimal;
use crate::text::str_eq;
use crate::text::u16_decimal;
use crate::text::u8_decimal;
use vstd::prelude::*;
use vstd::string::StringExecFns;

verus! {

/// The named color presets the device ships with, each a fixed
/// six-hex-digit wire string.
#[derive(Copy, Clone, Debug, PartialEq, Eq, Structural)]
pub enum LightColorPreset {
    Blue,
    LightBlue,
    SaturatedPurple,
    Lime,
    LightPurple,
    Yellow,
    SaturatedPink,
    DarkPeach,
    SaturatedRed,
    ColdSky,
    Pink,
    Peach,
    WarmAmber,
    LightPink,
    CoolDaylight,
    Candlelight,
    WarmGlow,
    WarmWhite,
    Sunrise,
    CoolWhite,
}

impl LightColorPreset {
    /// The wire string of a preset.
    pub open spec fn spec_hex(self) -> Seq<char> {
        match self {
            Self::Blue => "4a418a"@,
            Self::LightBlue => "6c83ba"@,
            Self::SaturatedPurple => "8f2686"@,
            Self::Lime => "a9d62b"@,
            Self::LightPurple => "c984bb"@,
            Self::Yellow => "d6e44b"@,
            Self::SaturatedPink => "d9337c"@,
            Self::DarkPeach => "da5d41"@,
            Self::SaturatedRed => "dc4b31"@,
            Self::ColdSky => "dcf0f8"@,
            Self::Pink => "e491af"@,
            Self::Peach => "e57345"@,
            Self::WarmAmber => "e78834"@,
            Self::LightPink => "e8bedd"@,
            Self::CoolDaylight => "eaf6fb"@,
            Self::Candlelight => "ebb63e"@,
            Self::WarmGlow => "efd275"@,
            Self::WarmWhite => "f1e0b5"@,
            Self::Sunrise => "f2eccf"@,
            Self::CoolWhite => "f5faf6"@,
        }
    }

    /// The preset a wire string names, if any. Unknown strings name no
    /// preset.
    pub open spec fn spec_from_hex(s: Seq<char>) -> Option<LightColorPreset> {
        if s == Self::Blue.spec_hex() {
            Some(Self::Blue)
        } else if s == Self::LightBlue.spec_hex() {
            Some(Self::LightBlue)
        } else if s == Self::SaturatedPurple.spec_hex() {
            Some(Self::SaturatedPurple)
        } else if s == Self::Lime.spec_hex() {
            Some(Self::Lime)
        } else if s == Self::LightPurple.spec_hex() {
            Some(Self::LightPurple)
        } else if s == Self::Yellow.spec_hex() {
            Some(Self::Yellow)
        } else if s == Self::SaturatedPink.spec_hex() {
            Some(Self::SaturatedPink)
        } else if s == Self::DarkPeach.spec_hex() {
            Some(Self::DarkPeach)
        } else if s == Self::SaturatedRed.spec_hex() {
            Some(Self::SaturatedRed)
        } else if s == Self::ColdSky.spec_hex() {
            Some(Self::ColdSky)
        } else if s == Self::Pink.spec_hex() {
            Some(Self::Pink)
        } else if s == Self::Peach.spec_hex() {
            Some(Self::Peach)
        } else if s == Self::WarmAmber.spec_hex() {
            Some(Self::WarmAmber)
        } else if s == Self::LightPink.spec_hex() {
            Some(Self::LightPink)
        } else if s == Self::CoolDaylight.spec_hex() {
            Some(Self::CoolDaylight)
        } else if s == Self::Candlelight.spec_hex() {
            Some(Self::Candlelight)
        } else if s == Self::WarmGlow.spec_hex() {
            Some(Self::WarmGlow)
        } else if s == Self::WarmWhite.spec_hex() {
            Some(Self::WarmWhite)
        } else if s == Self::Sunrise.spec_hex() {
            Some(Self::Sunrise)
        } else if s == Self::CoolWhite.spec_hex() {
            Some(Self::CoolWhite)
        } else {
            None
        }
    }

    /// The six-hex-digit wire string of this preset.
    pub fn to_hex(&self) -> (r: &'static str)
        ensures
            r@ == self.spec_hex(),
    {
        match self {
            Self::Blue => "4a418a",
            Self::LightBlue => "6c83ba",
            Self::SaturatedPurple => "8f2686",
            Self::Lime => "a9d62b",
            Self::LightPurple => "c984bb",
            Self::Yellow => "d6e44b",
            Self::SaturatedPink => "d9337c",
            Self::DarkPeach => "da5d41",
            Self::SaturatedRed => "dc4b31",
            Self::ColdSky => "dcf0f8",
            Self::Pink => "e491af",
            Self::Peach => "e57345",
            Self::WarmAmber => "e78834",
            Self::LightPink => "e8bedd",
            Self::CoolDaylight => "eaf6fb",
            Self::Candlelight => "ebb63e",
            Self::WarmGlow => "efd275",
            Self::WarmWhite => "f1e0b5",
            Self::Sunrise => "f2eccf",
            Self::CoolWhite => "f5faf6",
        }
    }

    /// Looks a wire string up in the preset table.
    pub fn from_hex(hex: &str) -> (r: Option<Self>)
        ensures
            r == Self::spec_from_hex(hex@),
    {
        if str_eq(hex, "4a418a") {
            Some(Self::Blue)
        } else if str_eq(hex, "6c83ba") {
            Some(Self::LightBlue)
        } else if str_eq(hex, "8f2686") {
            Some(Self::SaturatedPurple)
        } else if str_eq(hex, "a9d62b") {
            Some(Self::Lime)
        } else if str_eq(hex, "c984bb") {
            Some(Self::LightPurple)
        } else if str_eq(hex, "d6e44b") {
            Some(Self::Yellow)
        } else if str_eq(hex, "d9337c") {
            Some(Self::SaturatedPink)
        } else if str_eq(hex, "da5d41") {
            Some(Self::DarkPeach)
        } else if str_eq(hex, "dc4b31") {
            Some(Self::SaturatedRed)
        } else if str_eq(hex, "dcf0f8") {
            Some(Self::ColdSky)
        } else if str_eq(hex, "e491af") {
            Some(Self::Pink)
        } else if str_eq(hex, "e57345") {
            Some(Self::Peach)
        } else if str_eq(hex, "e78834") {
            Some(Self::WarmAmber)
        } else if str_eq(hex, "e8bedd") {
            Some(Self::LightPink)
        } else if str_eq(hex, "eaf6fb") {
            Some(Self::CoolDaylight)
        } else if str_eq(hex, "ebb63e") {
            Some(Self::Candlelight)
        } else if str_eq(hex, "efd275") {
            Some(Self::WarmGlow)
        } else if str_eq(hex, "f1e0b5") {
            Some(Self::WarmWhite)
        } else if str_eq(hex, "f2eccf") {
            Some(Self::Sunrise)
        } else if str_eq(hex, "f5faf6") {
            Some(Self::CoolWhite)
        } else {
            None
        }
    }
}

/// Decoding a preset's own wire string yields that preset back: the
/// twenty-entry hex table round-trips.
pub proof fn lemma_preset_hex_round_trip(p: LightColorPreset)
    ensures
        LightColorPreset::spec_from_hex(p.spec_hex()) == Some(p),
{
    reveal_strlit("4a418a");
    reveal_strlit("6c83ba");
    reveal_strlit("8f2686");
    reveal_strlit("a9d62b");
    reveal_strlit("c984bb");
    reveal_strlit("d6e44b");
    reveal_strlit("d9337c");
    reveal_strlit("da5d41");
    reveal_strlit("dc4b31");
    reveal_strlit("dcf0f8");
    reveal_strlit("e491af");
    reveal_strlit("e57345");
    reveal_strlit("e78834");
    reveal_strlit("e8bedd");
    reveal_strlit("eaf6fb");
    reveal_strlit("ebb63e");
    reveal_strlit("efd275");
    reveal_strlit("f1e0b5");
    reveal_strlit("f2eccf");
    reveal_strlit("f5faf6");
    assert(("4a418a"@).index(0) == '4');
    assert(("4a418a"@).index(1) == 'a');
    assert(("4a418a"@).index(2) == '4');
    assert(("6c83ba"@).index(0) == '6');
    assert(("6c83ba"@).index(1) == 'c');
    assert(("6c83ba"@).index(2) == '8');
    assert(("8f2686"@).index(0) == '8');
    assert(("8f2686"@).index(1) == 'f');
    assert(("8f2686"@).index(2) == '2');
    assert(("a9d62b"@).index(0) == 'a');
    assert(("a9d62b"@).index(1) == '9');
    assert(("a9d62b"@).index(2) == 'd');
    assert(("c984bb"@).index(0) == 'c');
    assert(("c984bb"@).index(1) == '9');
    assert(("c984bb"@).index(2) == '8');
    assert(("d6e44b"@).index(0) == 'd');
    assert(("d6e44b"@).index(1) == '6');
    assert(("d6e44b"@).index(2) == 'e');
    assert(("d9337c"@).index(0) == 'd');
    assert(("d9337c"@).index(1) == '9');
    assert(("d9337c"@).index(2) == '3');
    assert(("da5d41"@).index(0) == 'd');
    assert(("da5d41"@).index(1) == 'a');
    assert(("da5d41"@).index(2) == '5');
    assert(("dc4b31"@).index(0) == 'd');
    assert(("dc4b31"@).index(1) == 'c');
    assert(("dc4b31"@).index(2) == '4');
    assert(("dcf0f8"@).index(0) == 'd');
    assert(("dcf0f8"@).index(1) == 'c');
    assert(("dcf0f8"@).index(2) == 'f');
    assert(("e491af"@).index(0) == 'e');
    assert(("e491af"@).index(1) == '4');
    assert(("e491af"@).index(2) == '9');
    assert(("e57345"@).index(0) == 'e');
    assert(("e57345"@).index(1) == '5');
    assert(("e57345"@).index(2) == '7');
    assert(("e78834"@).index(0) == 'e');
    assert(("e78834"@).index(1) == '7');
    assert(("e78834"@).index(2) == '8');
    assert(("e8bedd"@).index(0) == 'e');
    assert(("e8bedd"@).index(1) == '8');
    assert(("e8bedd"@).index(2) == 'b');
    assert(("eaf6fb"@).index(0) == 'e');
    assert(("eaf6fb"@).index(1) == 'a');
    assert(("eaf6fb"@).index(2) == 'f');
    assert(("ebb63e"@).index(0) == 'e');
    assert(("ebb63e"@).index(1) == 'b');
    assert(("ebb63e"@).index(2) == 'b');
    assert(("efd275"@).index(0) == 'e');
    assert(("efd275"@).index(1) == 'f');
    assert(("efd275"@).index(2) == 'd');
    assert(("f1e0b5"@).index(0) == 'f');
    assert(("f1e0b5"@).index(1) == '1');
    assert(("f1e0b5"@).index(2) == 'e');
    assert(("f2eccf"@).index(0) == 'f');
    assert(("f2eccf"@).index(1) == '2');
    assert(("f2eccf"@).index(2) == 'e');
    assert(("f5faf6"@).index(0) == 'f');
    assert(("f5faf6"@).index(1) == '5');
    assert(("f5faf6"@).index(2) == 'f');
    match p {
        LightColorPreset::Blue => assert(LightColorPreset::spec_from_hex(p.spec_hex()) == Some(p)),
        LightColorPreset::LightBlue => assert(LightColorPreset::spec_from_hex(p.spec_hex())
            == Some(p)),
        LightColorPreset::SaturatedPurple => assert(LightColorPreset::spec_from_hex(p.spec_hex())
            == Some(p)),
        LightColorPreset::Lime => assert(LightColorPreset::spec_from_hex(p.spec_hex()) == Some(p)),
        LightColorPreset::LightPurple => assert(LightColorPreset::spec_from_hex(p.spec_hex())
            == Some(p)),
        LightColorPreset::Yellow => assert(LightColorPreset::spec_from_hex(p.spec_hex())
            == Some(p)),
        LightColorPreset::SaturatedPink => assert(LightColorPreset::spec_from_hex(p.spec_hex())
            == Some(p)),
        LightColorPreset::DarkPeach => assert(LightColorPreset::spec_from_hex(p.spec_hex())
            == Some(p)),
        LightColorPreset::SaturatedRed => assert(LightColorPreset::spec_from_hex(p.spec_hex())
            == Some(p)),
        LightColorPreset::ColdSky => assert(LightColorPreset::spec_from_hex(p.spec_hex())
            == Some(p)),
        LightColorPreset::Pink => assert(LightColorPreset::spec_from_hex(p.spec_hex()) == Some(p)),
        LightColorPreset::Peach => assert(LightColorPreset::spec_from_hex(p.spec_hex()) == Some(p)),
        LightColorPreset::WarmAmber => assert(LightColorPreset::spec_from_hex(p.spec_hex())
            == Some(p)),
        LightColorPreset::LightPink => assert(LightColorPreset::spec_from_hex(p.spec_hex())
            == Some(p)),
        LightColorPreset::CoolDaylight => assert(LightColorPreset::spec_from_hex(p.spec_hex())
            == Some(p)),
        LightColorPreset::Candlelight => assert(LightColorPreset::spec_from_hex(p.spec_hex())
            == Some(p)),
        LightColorPreset::WarmGlow => assert(LightColorPreset::spec_from_hex(p.spec_hex())
            == Some(p)),
        LightColorPreset::WarmWhite => assert(LightColorPreset::spec_from_hex(p.spec_hex())
            == Some(p)),
        LightColorPreset::Sunrise => assert(LightColorPreset::spec_from_hex(p.spec_hex())
            == Some(p)),
        LightColorPreset::CoolWhite => assert(LightColorPreset::spec_from_hex(p.spec_hex())
            == Some(p)),
    }
}

/// The abstract state of a light-control entry: which fields an update
/// carries, and their values. Absent fields are omitted from the wire
/// encoding entirely.
pub struct LightState {
    pub on_off: Option<u8>,
    pub brightness: Option<u8>,
    pub color_preset: Option<Seq<char>>,
    pub color_x: Option<u16>,
    pub color_y: Option<u16>,
}

impl LightState {
    /// An update that carries no fields.
    pub open spec fn empty() -> LightState {
        LightState {
            on_off: None,
            brightness: None,
            color_preset: None,
            color_x: None,
            color_y: None,
        }
    }

    /// Brightness as stored: clamped to [1, 255].
    pub open spec fn clamp_brightness(b: u8) -> u8 {
        if b == 0 {
            1u8
        } else {
            b
        }
    }

    pub open spec fn with_on(self, on: bool) -> LightState {
        LightState { on_off: Some(if on { 1u8 } else { 0u8 }), ..self }
    }

    pub open spec fn with_brightness(self, b: u8) -> LightState {
        LightState { brightness: Some(Self::clamp_brightness(b)), ..self }
    }

    pub open spec fn with_preset(self, p: LightColorPreset) -> LightState {
        LightState { color_preset: Some(p.spec_hex()), color_x: None, color_y: None, ..self }
    }

    pub open spec fn with_xy(self, x: u16, y: u16) -> LightState {
        LightState { color_preset: None, color_x: Some(x), color_y: Some(y), ..self }
    }

    pub open spec fn spec_get_on(self) -> Option<bool> {
        match self.on_off {
            Some(o) => Some(o != 0),
            None => None,
        }
    }

    pub open spec fn spec_get_color_preset(self) -> Option<LightColorPreset> {
        match self.color_preset {
            Some(s) => LightColorPreset::spec_from_hex(s),
            None => None,
        }
    }

    pub open spec fn spec_get_color_xy(self) -> Option<(u16, u16)> {
        match (self.color_x, self.color_y) {
            (Some(x), Some(y)) => Some((x, y)),
            _ => None,
        }
    }

    /// The two color representations are never simultaneously present.
    pub open spec fn color_modes_exclusive(self) -> bool {
        !(self.color_preset is Some && (self.color_x is Some || self.color_y is Some))
    }

    /// The key/value texts of the present fields, in wire order.
    pub open spec fn json_entries(self) -> Seq<Seq<char>> {
        (match self.on_off {
            Some(o) => seq!["\"5850\":"@ + spec_decimal(o as nat)],
            None => Seq::<Seq<char>>::empty(),
        }) + (match self.brightness {
            Some(b) => seq!["\"5851\":"@ + spec_decimal(b as nat)],
            None => Seq::<Seq<char>>::empty(),
        }) + (match self.color_preset {
            Some(p) => seq!["\"5706\":\""@ + p + "\""@],
            None => Seq::<Seq<char>>::empty(),
        }) + (match self.color_x {
            Some(x) => seq!["\"5709\":"@ + spec_decimal(x as nat)],
            None => Seq::<Seq<char>>::empty(),
        }) + (match self.color_y {
            Some(y) => seq!["\"5710\":"@ + spec_decimal(y as nat)],
            None => Seq::<Seq<char>>::empty(),
        })
    }

    /// The compact wire encoding: one light-control entry under key 3311,
    /// holding exactly the present fields.
    pub open spec fn spec_json(self) -> Seq<char> {
        "{\"3311\":[{"@ + comma_join(self.json_entries()) + "}]}"@
    }
}

struct LightOptions {
    on_off: Option<u8>,
    brightness: Option<u8>,
    color_preset: Option<String>,
    color_x: Option<u16>,
    color_y: Option<u16>,
}

/// One light-control update: a builder for the fields of the device's
/// light resource, encoded on the wire as described by [`LightState::spec_json`].
pub struct LightInfo {
    options: LightOptions,
}

impl View for LightInfo {
    type V = LightState;

    closed spec fn view(&self) -> LightState {
        LightState {
            on_off: self.options.on_off,
            brightness: self.options.brightness,
            color_preset: match self.options.color_preset {
                Some(s) => Some(s@),
                None => None,
            },
            color_x: self.options.color_x,
            color_y: self.options.color_y,
        }
    }
}

impl Default for LightInfo {
    fn default() -> (r: Self)
        ensures
            r@ == LightState::empty(),
    {
        LightInfo::new()
    }
}

impl LightInfo {
    /// An update that carries no fields yet.
    pub fn new() -> (r: Self)
        ensures
            r@ == LightState::empty(),
    {
        LightInfo {
            options: LightOptions {
                on_off: None,
                brightness: None,
                color_preset: None,
                color_x: None,
                color_y: None,
            },
        }
    }

    /// Sets the power flag: 1 for on, 0 for off.
    pub fn on(self, on: bool) -> (r: Self)
        ensures
            r@ == self@.with_on(on),
    {
        let mut s = self;
        s.options.on_off = Some(if on { 1 } else { 0 });
        s
    }

    pub fn get_on(&self) -> (r: Option<bool>)
        ensures
            r == self@.spec_get_on(),
    {
        match self.options.on_off {
            Some(o) => Some(o != 0),
            None => None,
        }
    }

    /// Sets the brightness, clamped to [1, 255]: a raw 0 is stored as 1.
    pub fn brightness(self, brightness: u8) -> (r: Self)
        ensures
            r@ == self@.with_brightness(brightness),
    {
        let mut s = self;
        s.options.brightness = Some(if brightness == 0 { 1 } else { brightness });
        s
    }

    pub fn get_brightness(&self) -> (r: Option<u8>)
        ensures
            r == self@.brightness,
    {
        self.options.brightness
    }

    /// Selects a named color preset; any explicit chromaticity pair is
    /// cleared, the two representations being mutually exclusive.
    pub fn color_preset(self, preset: LightColorPreset) -> (r: Self)
        ensures
            r@ == self@.with_preset(preset),
    {
        let mut s = self;
        s.options.color_x = None;
        s.options.color_y = None;
        s.options.color_preset = Some(String::from_str(preset.to_hex()));
        s
    }

    pub fn get_color_preset(&self) -> (r: Option<LightColorPreset>)
        ensures
            r == self@.spec_get_color_preset(),
    {
        match &self.options.color_preset {
            Some(p) => LightColorPreset::from_hex(p.as_str()),
            None => None,
        }
    }

    /// Sets an explicit chromaticity pair; any named preset is cleared,
    /// the two representations being mutually exclusive.
    pub fn color_xy(self, x: u16, y: u16) -> (r: Self)
        ensures
            r@ == self@.with_xy(x, y),
    {
        let mut s = self;
        s.options.color_preset = None;
        s.options.color_x = Some(x);
        s.options.color_y = Some(y);
        s
    }

    pub fn get_color_xy(&self) -> (r: Option<(u16, u16)>)
        ensures
            r == self@.spec_get_color_xy(),
    {
        match (self.options.color_x, self.options.color_y) {
            (Some(x), Some(y)) => Some((x, y)),
            _ => None,
        }
    }

    /// Serializes the update to its compact wire encoding.
    pub fn to_json(&self) -> (r: String)
        ensures
            r@ == self@.spec_json(),
    {
        let mut entries: Vec<String> = Vec::new();
        if let Some(o) = self.options.on_off {
            let mut e = String::from_str("\"5850\":");
            let d = u8_decimal(o);
            e.append(d.as_str());
            entries.push(e);
        }
        if let Some(b) = self.options.brightness {
            let mut e = String::from_str("\"5851\":");
            let d = u8_decimal(b);
            e.append(d.as_str());
            entries.push(e);
        }
        if let Some(p) = &self.options.color_preset {
            let mut e = String::from_str("\"5706\":\"");
            e.append(p.as_str());
            e.append("\"");
            entries.push(e);
        }
        if let Some(x) = self.options.color_x {
            let mut e = String::from_str("\"5709\":");
            let d = u16_decimal(x);
            e.append(d.as_str());
            entries.push(e);
        }
        if let Some(y) = self.options.color_y {
            let mut e = String::from_str("\"5710\":");
            let d = u16_decimal(y);
            e.append(d.as_str());
            entries.push(e);
        }
        proof {
            assert(entries@.map_values(|s: String| s@) =~= self@.json_entries());
        }
        let ghost evs: Seq<Seq<char>> = entries@.map_values(|s: String| s@);
        let mut out = String::from_str("{\"3311\":[{");
        let mut i: usize = 0;
        while i < entries.len()
            invariant
                i <= entries.len(),
                evs == entries@.map_values(|s: String| s@),
                evs.len() == entries@.len(),
                out@ == "{\"3311\":[{"@ + comma_join(evs.take(i as int)),
            decreases entries.len() - i,
        {
            if i > 0 {
                out.append(",");
            }
            out.append(entries[i].as_str());
            proof {
                lemma_comma_join_step(evs, i as int);
                assert(evs[i as int] == entries@[i as int]@);
            }
            i += 1;
        }
        proof {
            assert(evs.take(evs.len() as int) =~= evs);
        }
        out.append("}]}");
        out
    }
}

/// Selecting a preset clears the explicit chromaticity pair, selecting an
/// explicit pair clears the preset: the two color representations are
/// never simultaneously present after either write.
pub proof fn lemma_color_modes_exclusive(v: LightState, p: LightColorPreset, x: u16, y: u16)
    ensures
        v.with_preset(p).color_x is None,
        v.with_preset(p).color_y is None,
        v.with_preset(p).color_preset == Some(p.spec_hex()),
        v.with_xy(x, y).color_preset is None,
        v.with_xy(x, y).color_x == Some(x),
        v.with_xy(x, y).color_y == Some(y),
        v.with_preset(p).color_modes_exclusive(),
        v.with_xy(x, y).color_modes_exclusive(),
{
}

/// The stored brightness always lies in [1, 255]: a raw 0 is stored as 1,
/// 255 is stored as 255, anything else is kept as given.
pub proof fn lemma_brightness_clamped(v: LightState, b: u8)
    ensures
        v.with_brightness(b).brightness == Some(LightState::clamp_brightness(b)),
        1 <= LightState::clamp_brightness(b) <= 255,
        b == 0 ==> LightState::clamp_brightness(b) == 1,
        b != 0 ==> LightState::clamp_brightness(b) == b,
{
}

} // verus!
