//! GIF optimisation settings and the `gifsicle` arguments they call for.

use vstd::prelude::*;
use vstd::string::*;
use crate::text::{concat2, dec, prefixed_number, views, push_msg};

verus! {

/// How far frames are optimised.
#[derive(Debug, Clone, Copy, PartialEq, Eq, Structural)]
pub enum FrameOptimization {
    NoOptimization,
    Basic,
    Balanced,
    Aggressive,
}

/// The `gifsicle` optimisation level of a frame optimisation.
pub open spec fn level_spec(f: FrameOptimization) -> Seq<char> {
    match f {
        FrameOptimization::NoOptimization => "O1"@,
        FrameOptimization::Basic => "O2"@,
        _ => "O3"@,
    }
}

impl FrameOptimization {
    /// `O1`, `O2`, or `O3` for the two strongest levels.
    pub fn gifsicle_level(&self) -> (res: &'static str)
        ensures
            res@ == level_spec(*self),
    {
        match self {
            FrameOptimization::NoOptimization => "O1",
            FrameOptimization::Basic => "O2",
            FrameOptimization::Balanced => "O3",
            FrameOptimization::Aggressive => "O3",
        }
    }
}

/// GIF optimisation settings.
#[derive(Debug, Clone)]
pub struct GifOptimizationConfig {
    pub color_optimization: u8,
    pub frame_optimization: FrameOptimization,
    pub lossy_compression: bool,
    pub lossy_quality: u8,
    pub strip_metadata: bool,
    pub max_fps: Option<u8>,
    pub max_width: Option<u32>,
}

impl Default for GifOptimizationConfig {
    fn default() -> (res: Self)
        ensures
            res.color_optimization == 2,
            res.frame_optimization == FrameOptimization::Balanced,
            !res.lossy_compression,
            res.lossy_quality == 80,
            res.strip_metadata,
            res.max_fps.is_none(),
            res.max_width.is_none(),
    {
        GifOptimizationConfig {
            color_optimization: 2,
            frame_optimization: FrameOptimization::Balanced,
            lossy_compression: false,
            lossy_quality: 80,
            strip_metadata: true,
            max_fps: None,
            max_width: None,
        }
    }
}

/// The settings can be turned into arguments: the colour shift stays below
/// the width of the integer shifted, and a frame-rate limit is not zero.
pub open spec fn args_defined(c: GifOptimizationConfig) -> bool {
    c.color_optimization < 32 && (c.max_fps is Some ==> c.max_fps->0 > 0)
}

/// The `gifsicle` arguments for the settings.
pub open spec fn gifsicle_args(c: GifOptimizationConfig) -> Seq<Seq<char>> {
    seq!["-"@ + level_spec(c.frame_optimization), "--colors="@ + dec((256int / pow2(c.color_optimization as nat)) as nat)]
        + (if c.lossy_compression {
        seq!["--lossy="@ + dec(c.lossy_quality as nat)]
    } else {
        seq![]
    }) + (match c.max_fps {
        Some(fps) => seq!["--delay="@ + dec((100int / (fps as int)) as nat)],
        None => seq![],
    }) + match c.max_width {
        Some(w) => seq!["--resize-width="@ + dec(w as nat)],
        None => seq![],
    }
}

/// `2^n`.
pub open spec fn pow2(n: nat) -> int
    decreases n,
{
    if n == 0 {
        1
    } else {
        2 * pow2((n - 1) as nat)
    }
}

/// `256 >> shift` for a shift below 32.
pub fn colors_for_shift(shift: u8) -> (res: u32)
    requires
        shift < 32,
    ensures
        res == 256int / pow2(shift as nat),
{
    let mut v: u32 = 256;
    let mut i: u8 = 0;
    while i < shift
        invariant
            i <= shift < 32,
            v == 256int / pow2(i as nat),
        decreases shift - i,
    {
        proof {
            assert(pow2((i + 1) as nat) == 2 * pow2(i as nat));
            lemma_pow2_pos(i as nat);
            lemma_div_halves(256, pow2(i as nat));
        }
        v = v / 2;
        i = i + 1;
    }
    v
}

proof fn lemma_pow2_pos(n: nat)
    ensures
        pow2(n) >= 1,
    decreases n,
{
    if n > 0 {
        lemma_pow2_pos((n - 1) as nat);
    }
}

proof fn lemma_div_halves(a: int, b: int)
    requires
        a >= 0,
        b >= 1,
    ensures
        (a / b) / 2 == a / (2 * b),
{
    vstd::arithmetic::div_mod::lemma_div_denominator(a, b, 2);
    assert(b * 2 == 2 * b);
}

/// The GIF optimiser.
pub struct GifOptimizer {
    config: GifOptimizationConfig,
}

impl GifOptimizer {
    pub closed spec fn spec_config(&self) -> GifOptimizationConfig {
        self.config
    }

    /// An optimiser with the given settings.
    pub fn new(config: GifOptimizationConfig) -> (res: Self)
        ensures
            res.spec_config() == config,
    {
        GifOptimizer { config }
    }

    /// An optimiser with the default settings.
    pub fn with_defaults() -> (res: Self)
        ensures
            res.spec_config().color_optimization == 2,
            res.spec_config().frame_optimization == FrameOptimization::Balanced,
            !res.spec_config().lossy_compression,
            res.spec_config().lossy_quality == 80,
            res.spec_config().strip_metadata,
            res.spec_config().max_fps.is_none(),
            res.spec_config().max_width.is_none(),
    {
        Self::new(GifOptimizationConfig::default())
    }

    /// Settings for the web: fewer colours, aggressive frame optimisation,
    /// lossy compression at 80, at most 30 frames per second and 800 pixels wide.
    pub fn for_web() -> (res: Self)
        ensures
            res.spec_config().color_optimization == 3,
            res.spec_config().frame_optimization == FrameOptimization::Aggressive,
            res.spec_config().lossy_compression,
            res.spec_config().lossy_quality == 80,
            res.spec_config().strip_metadata,
            res.spec_config().max_fps == Some(30u8),
            res.spec_config().max_width == Some(800u32),
    {
        Self::new(
            GifOptimizationConfig {
                color_optimization: 3,
                frame_optimization: FrameOptimization::Aggressive,
                lossy_compression: true,
                lossy_quality: 80,
                strip_metadata: true,
                max_fps: Some(30),
                max_width: Some(800),
            },
        )
    }

    /// The settings.
    pub fn config(&self) -> (res: &GifOptimizationConfig)
        ensures
            *res == self.spec_config(),
    {
        &self.config
    }

    /// The `gifsicle` arguments: the optimisation level, the colour count,
    /// then the lossy, delay and width options that are set.
    pub fn build_gifsicle_args(&self) -> (res: Vec<String>)
        requires
            args_defined(self.spec_config()),
        ensures
            views(res@) == gifsicle_args(self.spec_config()),
    {
        let mut args: Vec<String> = Vec::new();
        push_msg(&mut args, concat2("-", self.config.frame_optimization.gifsicle_level()));
        let colors = colors_for_shift(self.config.color_optimization);
        push_msg(&mut args, prefixed_number("--colors=", colors as u64));
        if self.config.lossy_compression {
            push_msg(&mut args, prefixed_number("--lossy=", self.config.lossy_quality as u64));
        }
        match self.config.max_fps {
            Some(fps) => push_msg(&mut args, prefixed_number("--delay=", (100 / fps) as u64)),
            None => {},
        }
        match self.config.max_width {
            Some(w) => push_msg(&mut args, prefixed_number("--resize-width=", w as u64)),
            None => {},
        }
        assert(views(args@) =~= gifsicle_args(self.spec_config()));
        args
    }
}

} // verus!
