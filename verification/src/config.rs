//! The render configuration shared by the note-lifecycle renderer and the
//! frame renderer: channel inversion, a brightness scalar, and the two
//! envelope durations (microseconds of fade-in and fade-out).

use vstd::prelude::*;

verus! {

/// Anything that carries the render configuration. Every getter returns
/// the value that the matching spec accessor names, so verified callers
/// can speak of a configuration regardless of who holds it.
pub trait LedConfig: Sized {
    /// Whether the left and right channels are swapped.
    spec fn spec_invert(&self) -> bool;

    /// The global brightness weight.
    spec fn spec_brightness(&self) -> u8;

    /// How long a released note takes to fade out.
    spec fn spec_fade_out(&self) -> u32;

    /// How long a fresh note takes to reach full power.
    spec fn spec_fade_in(&self) -> u32;

    fn set_invert(&mut self, invert: bool)
        ensures
            final(self).spec_invert() == invert,
            final(self).spec_brightness() == old(self).spec_brightness(),
            final(self).spec_fade_out() == old(self).spec_fade_out(),
            final(self).spec_fade_in() == old(self).spec_fade_in();

    fn set_fade_out(&mut self, fade_out: u32)
        ensures
            final(self).spec_fade_out() == fade_out,
            final(self).spec_invert() == old(self).spec_invert(),
            final(self).spec_brightness() == old(self).spec_brightness(),
            final(self).spec_fade_in() == old(self).spec_fade_in();

    fn set_fade_in(&mut self, fade_in: u32)
        ensures
            final(self).spec_fade_in() == fade_in,
            final(self).spec_invert() == old(self).spec_invert(),
            final(self).spec_brightness() == old(self).spec_brightness(),
            final(self).spec_fade_out() == old(self).spec_fade_out();

    fn set_brightness(&mut self, brightness: u8)
        ensures
            final(self).spec_brightness() == brightness,
            final(self).spec_invert() == old(self).spec_invert(),
            final(self).spec_fade_out() == old(self).spec_fade_out(),
            final(self).spec_fade_in() == old(self).spec_fade_in();

    fn get_fade_out(&self) -> (r: u32)
        ensures
            r == self.spec_fade_out();

    fn get_fade_in(&self) -> (r: u32)
        ensures
            r == self.spec_fade_in();

    fn get_brightness(&self) -> (r: u8)
        ensures
            r == self.spec_brightness();

    fn get_invert(&self) -> (r: bool)
        ensures
            r == self.spec_invert();
}

/// The plain value form of the configuration.
#[derive(Clone, Copy, Debug)]
pub struct LedConfigData {
    invert: bool,
    brightness: u8,
    fade_out: u32,
    fade_in: u32,
}

impl Default for LedConfigData {
    /// Full brightness, three seconds of fade-out, a fifth of a second of
    /// fade-in, channels not inverted.
    fn default() -> (d: LedConfigData)
        ensures
            !d.spec_invert(),
            d.spec_brightness() == 255u8,
            d.spec_fade_out() == 3000000u32,
            d.spec_fade_in() == 200000u32,
    {
        LedConfigData { brightness: 255, fade_out: 3000000, fade_in: 200000, invert: false }
    }
}

impl LedConfigData {
    /// Copies a whole configuration over this one.
    pub fn set_config(&mut self, config: &LedConfigData)
        ensures
            final(self).spec_invert() == config.spec_invert(),
            final(self).spec_brightness() == config.spec_brightness(),
            final(self).spec_fade_out() == config.spec_fade_out(),
            final(self).spec_fade_in() == config.spec_fade_in(),
    {
        *self = *config;
    }

    /// The configuration as a plain value.
    pub fn get_config(&self) -> (r: LedConfigData)
        ensures
            r.spec_invert() == self.spec_invert(),
            r.spec_brightness() == self.spec_brightness(),
            r.spec_fade_out() == self.spec_fade_out(),
            r.spec_fade_in() == self.spec_fade_in(),
    {
        *self
    }
}

impl LedConfig for LedConfigData {
    closed spec fn spec_invert(&self) -> bool {
        self.invert
    }

    closed spec fn spec_brightness(&self) -> u8 {
        self.brightness
    }

    closed spec fn spec_fade_out(&self) -> u32 {
        self.fade_out
    }

    closed spec fn spec_fade_in(&self) -> u32 {
        self.fade_in
    }

    fn set_fade_out(&mut self, fade_out: u32) {
        self.fade_out = fade_out;
    }

    fn set_fade_in(&mut self, fade_in: u32) {
        self.fade_in = fade_in;
    }

    fn set_brightness(&mut self, brightness: u8) {
        self.brightness = brightness;
    }

    fn set_invert(&mut self, invert: bool) {
        self.invert = invert;
    }

    fn get_fade_out(&self) -> u32 {
        self.fade_out
    }

    fn get_fade_in(&self) -> u32 {
        self.fade_in
    }

    fn get_brightness(&self) -> u8 {
        self.brightness
    }

    fn get_invert(&self) -> bool {
        self.invert
    }
}

} // verus!
