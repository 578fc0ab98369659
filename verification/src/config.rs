//! The user's settings: which formats are on and at what quality, as they
//! are kept between runs and as the session takes them.

use crate::paths::path_join;
use crate::state::State;
use vstd::prelude::*;

verus! {

/// The settings document as it is stored: every entry may be missing.
#[derive(Clone, Copy, Debug, PartialEq, Eq, Structural)]
pub struct ConvertConfig {
    pub avif_quality: Option<u8>,
    pub support_avif: Option<bool>,
    pub webp_quality: Option<u8>,
    pub support_webp: Option<bool>,
    pub png_quality: Option<u8>,
    pub support_png: Option<bool>,
    pub jpeg_quality: Option<u8>,
    pub support_jpeg: Option<bool>,
}

/// The settings as the user sees them: a quality and a switch per format.
#[derive(Clone, Copy, Debug, PartialEq, Eq, Structural)]
pub struct Settings {
    pub avif_quality: u8,
    pub support_avif: bool,
    pub webp_quality: u8,
    pub support_webp: bool,
    pub png_quality: u8,
    pub support_png: bool,
    pub jpeg_quality: u8,
    pub support_jpeg: bool,
}

/// A stored quality, or `default` where none is stored.
pub open spec fn quality_or(stored: Option<u8>, default: u8) -> u8 {
    match stored {
        Some(q) => q,
        None => default,
    }
}

/// A stored switch; a format is on where nothing is stored.
pub open spec fn switch_or_on(stored: Option<bool>) -> bool {
    match stored {
        Some(on) => on,
        None => true,
    }
}

/// The quality that the session works with: that of the settings where the
/// format is on, 0 where it is off.
pub open spec fn effective(on: bool, quality: u8) -> u8 {
    if on {
        quality
    } else {
        0
    }
}

fn stored_quality(stored: Option<u8>, default: u8) -> (q: u8)
    ensures
        q == quality_or(stored, default),
{
    match stored {
        Some(q) => q,
        None => default,
    }
}

fn stored_switch(stored: Option<bool>) -> (on: bool)
    ensures
        on == switch_or_on(stored),
{
    match stored {
        Some(on) => on,
        None => true,
    }
}

impl ConvertConfig {
    /// The settings that the document stands for: what it leaves out is
    /// filled in, AVIF at 70, the other formats at 80, every format on.
    pub fn settings(&self) -> (s: Settings)
        ensures
            s.avif_quality == quality_or(self.avif_quality, 70),
            s.support_avif == switch_or_on(self.support_avif),
            s.webp_quality == quality_or(self.webp_quality, 80),
            s.support_webp == switch_or_on(self.support_webp),
            s.png_quality == quality_or(self.png_quality, 80),
            s.support_png == switch_or_on(self.support_png),
            s.jpeg_quality == quality_or(self.jpeg_quality, 80),
            s.support_jpeg == switch_or_on(self.support_jpeg),
    {
        Settings {
            avif_quality: stored_quality(self.avif_quality, 70),
            support_avif: stored_switch(self.support_avif),
            webp_quality: stored_quality(self.webp_quality, 80),
            support_webp: stored_switch(self.support_webp),
            png_quality: stored_quality(self.png_quality, 80),
            support_png: stored_switch(self.support_png),
            jpeg_quality: stored_quality(self.jpeg_quality, 80),
            support_jpeg: stored_switch(self.support_jpeg),
        }
    }
}

impl Settings {
    /// The document that stores the settings: every entry is written out.
    pub fn document(&self) -> (c: ConvertConfig)
        ensures
            c == (ConvertConfig {
                avif_quality: Some(self.avif_quality),
                support_avif: Some(self.support_avif),
                webp_quality: Some(self.webp_quality),
                support_webp: Some(self.support_webp),
                png_quality: Some(self.png_quality),
                support_png: Some(self.support_png),
                jpeg_quality: Some(self.jpeg_quality),
                support_jpeg: Some(self.support_jpeg),
            }),
    {
        ConvertConfig {
            avif_quality: Some(self.avif_quality),
            support_avif: Some(self.support_avif),
            webp_quality: Some(self.webp_quality),
            support_webp: Some(self.support_webp),
            png_quality: Some(self.png_quality),
            support_png: Some(self.support_png),
            jpeg_quality: Some(self.jpeg_quality),
            support_jpeg: Some(self.support_jpeg),
        }
    }

    /// Hands the settings to the session: a format that is off gets quality
    /// 0. The batch and the flag of the session stay as they are.
    pub fn apply(&self, state: &mut State)
        ensures
            *final(state) == (State {
                jpeg_quality: effective(self.support_jpeg, self.jpeg_quality),
                png_quality: effective(self.support_png, self.png_quality),
                avif_quality: effective(self.support_avif, self.avif_quality),
                webp_quality: effective(self.support_webp, self.webp_quality),
                ..*old(state)
            }),
    {
        state.jpeg_quality = if self.support_jpeg {
            self.jpeg_quality
        } else {
            0
        };
        state.png_quality = if self.support_png {
            self.png_quality
        } else {
            0
        };
        state.avif_quality = if self.support_avif {
            self.avif_quality
        } else {
            0
        };
        state.webp_quality = if self.support_webp {
            self.webp_quality
        } else {
            0
        };
    }
}

/// The path of the settings document below the home directory `home`.
pub open spec fn config_path(home: Seq<char>) -> Seq<char> {
    path_join(path_join(home, ".image-converter"@), "config.yml"@)
}

/// The path of the settings document, given the user's home directory;
/// `None` where there is no home directory.
pub fn get_config_file(home: Option<String>) -> (path: Option<String>)
    ensures
        match home {
            Some(h) => path is Some && path->0@ == config_path(h@),
            None => path is None,
        },
{
    match home {
        Some(h) => {
            let dir = crate::paths::join(h.as_str(), ".image-converter");
            Some(crate::paths::join(dir.as_str(), "config.yml"))
        },
        None => None,
    }
}

} // verus!
