//! Multi-pass GIF optimisation with `gifsicle`.
//!
//! The optimiser decides; the caller runs the tools. A run starts with
//! [`GifOptimizer::first_pass`]; for each pass the caller runs `gifsicle`
//! with [`GifOptimizer::pass_args`] and reports the size it produced to
//! [`GifOptimizer::after_pass`], which says whether to keep that output and
//! which pass comes next. Pass 1 (lossless) is always kept; the colour and
//! lossy passes are kept when they save more than half a percent; then up to
//! two careful passes run while each saves more than one percent.

use vstd::prelude::*;
use vstd::string::*;
use crate::preprocessing::digits_value;
use crate::text::{owned, decimal, dec, digit_char, prefixed_number, push_decimal, push_fixed1, push_fixed2, fixed1, fixed2, views, push_msg};

verus! {

/// How far frames are optimised.
#[derive(Debug, Clone, Copy, PartialEq, Eq, Structural)]
pub enum FrameOptimization {
    NoOptimization,
    Basic,
    Balanced,
    Aggressive,
}

/// The `gifsicle` optimisation level of a frame optimisation.
pub open spec fn level_spec(f: FrameOptimization) -> Seq<char> {
    match f {
        FrameOptimization::NoOptimization => "O1"@,
        FrameOptimization::Basic => "O2"@,
        _ => "O3"@,
    }
}

impl FrameOptimization {
    /// `O1`, `O2`, or `O3` for the two strongest levels.
    pub fn gifsicle_level(&self) -> (res: &'static str)
        ensures
            res@ == level_spec(*self),
    {
        match self {
            FrameOptimization::NoOptimization => "O1",
            FrameOptimization::Basic => "O2",
            FrameOptimization::Balanced => "O3",
            FrameOptimization::Aggressive => "O3",
        }
    }
}

/// GIF optimisation settings.
#[derive(Debug, Clone)]
pub struct GifOptimizationConfig {
    /// Colour optimisation level (1-3).
    pub color_optimization: u8,
    pub frame_optimization: FrameOptimization,
    pub lossy_compression: bool,
    /// Lossy quality (0-200).
    pub lossy_quality: u8,
    pub strip_metadata: bool,
    pub max_fps: Option<u8>,
    pub max_width: Option<u32>,
}

impl Default for GifOptimizationConfig {
    fn default() -> (res: Self)
        ensures
            res.color_optimization == 2,
            res.frame_optimization == FrameOptimization::Balanced,
            !res.lossy_compression,
            res.lossy_quality == 80,
            res.strip_metadata,
            res.max_fps.is_none(),
            res.max_width.is_none(),
    {
        GifOptimizationConfig {
            color_optimization: 2,
            frame_optimization: FrameOptimization::Balanced,
            lossy_compression: false,
            lossy_quality: 80,
            strip_metadata: true,
            max_fps: None,
            max_width: None,
        }
    }
}

/// One `gifsicle` pass of a run.
#[derive(Debug, Clone, Copy, PartialEq, Eq, Structural)]
pub enum GifPass {
    /// Pass 1: lossless `-O3` on the input.
    Lossless,
    /// Pass 2: fewer colours.
    Colors,
    /// Pass 3: lossy compression.
    Lossy,
    /// Passes 4 and 5: careful re-optimisation.
    Iterative(u8),
}

/// Where a run stands.
#[derive(Debug, Clone, Copy, PartialEq, Eq, Structural)]
pub struct PassState {
    /// Size of the file before the first pass.
    pub initial_size: u64,
    /// Size of the output kept so far.
    pub current_size: u64,
    /// The pass to run next; `None` when the run is over.
    pub next: Option<GifPass>,
}

/// The pass that follows the colour pass or, without it, the lossless pass.
pub open spec fn after_colors(c: GifOptimizationConfig) -> GifPass {
    if c.lossy_compression {
        GifPass::Lossy
    } else {
        GifPass::Iterative(4)
    }
}

/// The pass that follows the lossless pass.
pub open spec fn after_lossless(c: GifOptimizationConfig) -> GifPass {
    if c.color_optimization > 1 {
        GifPass::Colors
    } else {
        after_colors(c)
    }
}

/// The new output saves more than half a percent of the current size.
pub open spec fn saves_half_percent(current: u64, new: u64) -> bool {
    new < current && 200 * (current - new) > current
}

/// The new output saves more than one percent of the current size.
pub open spec fn saves_one_percent(current: u64, new: u64) -> bool {
    new < current && 100 * (current - new) > current
}

/// Whether the output of `pass` is kept.
pub open spec fn keeps(pass: GifPass, current: u64, new: u64) -> bool {
    match pass {
        GifPass::Lossless => true,
        GifPass::Colors | GifPass::Lossy => saves_half_percent(current, new),
        GifPass::Iterative(_) => saves_one_percent(current, new),
    }
}

/// The pass after `pass`, given whether its output was kept.
pub open spec fn next_pass(c: GifOptimizationConfig, pass: GifPass, kept: bool) -> Option<GifPass> {
    match pass {
        GifPass::Lossless => Some(after_lossless(c)),
        GifPass::Colors => Some(after_colors(c)),
        GifPass::Lossy => Some(GifPass::Iterative(4)),
        GifPass::Iterative(k) => if kept && k < 5 {
            Some(GifPass::Iterative((k + 1) as u8))
        } else {
            None
        },
    }
}

/// How many passes can still run at most.
pub open spec fn remaining_bound(p: Option<GifPass>) -> int {
    match p {
        None => 0,
        Some(GifPass::Iterative(k)) => if k <= 5 { 6 - k } else { 0 },
        Some(GifPass::Lossy) => 3,
        Some(GifPass::Colors) => 4,
        Some(GifPass::Lossless) => 5,
    }
}

/// The arguments of a pass (before the file names).
pub open spec fn pass_args_spec(c: GifOptimizationConfig, pass: GifPass) -> Seq<Seq<char>> {
    match pass {
        GifPass::Lossless => seq!["-O3"@, "--no-comments"@, "--no-names"@],
        GifPass::Colors => seq!["-O3"@, "--colors"@, dec((256int / (c.color_optimization as int)) as nat)],
        GifPass::Lossy => seq!["-O3"@, "--lossy="@ + dec(c.lossy_quality as nat)],
        GifPass::Iterative(_) => seq!["-O3"@, "--careful"@],
    }
}

/// The `ffmpeg` filters of the resize stage.
pub open spec fn resize_filters_spec(c: GifOptimizationConfig) -> Seq<Seq<char>> {
    (match c.max_fps {
        Some(f) => seq!["fps="@ + dec(f as nat)],
        None => seq![],
    }) + match c.max_width {
        Some(w) => seq!["scale='min("@ + dec(w as nat) + ",iw):-1:flags=lanczos'"@],
        None => seq![],
    }
}

/// The GIF optimiser.
pub struct GifOptimizer {
    config: GifOptimizationConfig,
}

impl GifOptimizer {
    pub closed spec fn spec_config(&self) -> GifOptimizationConfig {
        self.config
    }

    /// An optimiser with the given settings.
    pub fn new(config: GifOptimizationConfig) -> (res: Self)
        ensures
            res.spec_config() == config,
    {
        GifOptimizer { config }
    }

    /// An optimiser with the default settings.
    pub fn with_defaults() -> (res: Self)
        ensures
            res.spec_config().color_optimization == 2,
            res.spec_config().frame_optimization == FrameOptimization::Balanced,
            !res.spec_config().lossy_compression,
            res.spec_config().lossy_quality == 80,
            res.spec_config().strip_metadata,
            res.spec_config().max_fps.is_none(),
            res.spec_config().max_width.is_none(),
    {
        Self::new(GifOptimizationConfig::default())
    }

    /// Settings for the web.
    pub fn for_web() -> (res: Self)
        ensures
            res.spec_config().color_optimization == 3,
            res.spec_config().frame_optimization == FrameOptimization::Aggressive,
            res.spec_config().lossy_compression,
            res.spec_config().lossy_quality == 80,
            res.spec_config().strip_metadata,
            res.spec_config().max_fps == Some(30u8),
            res.spec_config().max_width == Some(800u32),
    {
        Self::new(
            GifOptimizationConfig {
                color_optimization: 3,
                frame_optimization: FrameOptimization::Aggressive,
                lossy_compression: true,
                lossy_quality: 80,
                strip_metadata: true,
                max_fps: Some(30),
                max_width: Some(800),
            },
        )
    }

    /// Settings that favour quality: all colours, basic frame optimisation,
    /// no lossy compression, metadata kept.
    pub fn for_quality() -> (res: Self)
        ensures
            res.spec_config().color_optimization == 1,
            res.spec_config().frame_optimization == FrameOptimization::Basic,
            !res.spec_config().lossy_compression,
            res.spec_config().lossy_quality == 100,
            !res.spec_config().strip_metadata,
            res.spec_config().max_fps.is_none(),
            res.spec_config().max_width.is_none(),
    {
        Self::new(
            GifOptimizationConfig {
                color_optimization: 1,
                frame_optimization: FrameOptimization::Basic,
                lossy_compression: false,
                lossy_quality: 100,
                strip_metadata: false,
                max_fps: None,
                max_width: None,
            },
        )
    }

    /// The settings.
    pub fn config(&self) -> (res: &GifOptimizationConfig)
        ensures
            *res == self.spec_config(),
    {
        &self.config
    }

    /// A resize and frame-rate stage runs first when either limit is set.
    pub fn needs_resize(&self) -> (res: bool)
        ensures
            res == (self.spec_config().max_width is Some || self.spec_config().max_fps is Some),
    {
        self.config.max_width.is_some() || self.config.max_fps.is_some()
    }

    /// The `ffmpeg` filters of the resize stage, in order (frame rate, then width).
    pub fn resize_filters(&self) -> (res: Vec<String>)
        ensures
            views(res@) == resize_filters_spec(self.spec_config()),
    {
        let mut v: Vec<String> = Vec::new();
        match self.config.max_fps {
            Some(f) => push_msg(&mut v, prefixed_number("fps=", f as u64)),
            None => {},
        }
        match self.config.max_width {
            Some(w) => {
                let mut m = prefixed_number("scale='min(", w as u64);
                m.append(",iw):-1:flags=lanczos'");
                push_msg(&mut v, m);
            },
            None => {},
        }
        assert(views(v@) =~= resize_filters_spec(self.spec_config()));
        v
    }

    /// The start of a run on a file of `initial_size` bytes: pass 1 comes first.
    pub fn first_pass(&self, initial_size: u64) -> (res: PassState)
        ensures
            res == (PassState { initial_size, current_size: initial_size, next: Some(GifPass::Lossless) }),
    {
        PassState { initial_size, current_size: initial_size, next: Some(GifPass::Lossless) }
    }

    /// The `gifsicle` arguments of a pass. The lossless pass reads the input
    /// file; the others read the output kept so far.
    pub fn pass_args(&self, pass: GifPass) -> (res: Vec<String>)
        requires
            pass is Colors ==> self.spec_config().color_optimization > 1,
        ensures
            views(res@) == pass_args_spec(self.spec_config(), pass),
    {
        let mut v: Vec<String> = Vec::new();
        push_msg(&mut v, owned("-O3"));
        match pass {
            GifPass::Lossless => {
                push_msg(&mut v, owned("--no-comments"));
                push_msg(&mut v, owned("--no-names"));
            },
            GifPass::Colors => {
                push_msg(&mut v, owned("--colors"));
                let colors: u32 = 256u32 / (self.config.color_optimization as u32);
                push_msg(&mut v, decimal(colors as u64));
            },
            GifPass::Lossy => {
                push_msg(&mut v, prefixed_number("--lossy=", self.config.lossy_quality as u64));
            },
            GifPass::Iterative(_) => {
                push_msg(&mut v, owned("--careful"));
            },
        }
        assert(views(v@) =~= pass_args_spec(self.spec_config(), pass));
        v
    }

    /// Records the size produced by `pass`: whether to keep that output,
    /// and the state after it.
    pub fn after_pass(&self, state: PassState, pass: GifPass, pass_size: u64) -> (res: (PassState, bool))
        requires
            state.next == Some(pass),
        ensures
            res.1 == keeps(pass, state.current_size, pass_size),
            res.0.initial_size == state.initial_size,
            res.0.current_size == if res.1 { pass_size } else { state.current_size },
            res.0.next == next_pass(self.spec_config(), pass, res.1),
            !(pass is Lossless) ==> res.0.current_size <= state.current_size,
            remaining_bound(res.0.next) < remaining_bound(Some(pass)) || remaining_bound(Some(pass)) == 0,
    {
        let cur = state.current_size;
        let keep = match pass {
            GifPass::Lossless => true,
            GifPass::Colors | GifPass::Lossy => pass_size < cur && (cur - pass_size) as u128 * 200 > cur as u128,
            GifPass::Iterative(_) => pass_size < cur && (cur - pass_size) as u128 * 100 > cur as u128,
        };
        let next = match pass {
            GifPass::Lossless => if self.config.color_optimization > 1 {
                Some(GifPass::Colors)
            } else if self.config.lossy_compression {
                Some(GifPass::Lossy)
            } else {
                Some(GifPass::Iterative(4))
            },
            GifPass::Colors => if self.config.lossy_compression {
                Some(GifPass::Lossy)
            } else {
                Some(GifPass::Iterative(4))
            },
            GifPass::Lossy => Some(GifPass::Iterative(4)),
            GifPass::Iterative(k) => if keep && k < 5 {
                Some(GifPass::Iterative(k + 1))
            } else {
                None
            },
        };
        let current_size = if keep { pass_size } else { cur };
        (PassState { initial_size: state.initial_size, current_size, next }, keep)
    }
}

/// A file size as people read it: bytes below 1 KiB, KiB with one decimal
/// below 1 MiB, MiB with two decimals above.
pub open spec fn readable_size(size: u64) -> Seq<char> {
    if size < 1024 {
        dec(size as nat) + " B"@
    } else if size < 1048576 {
        fixed1(size as nat, 1024) + " KB"@
    } else {
        fixed2(size as nat, 1048576) + " MB"@
    }
}

/// The readable form of a file size.
pub fn file_size_readable(file_size: u64) -> (res: String)
    ensures
        res@ == readable_size(file_size),
{
    let mut s = String::new();
    if file_size < 1024 {
        push_decimal(&mut s, file_size);
        s.append(" B");
    } else if file_size < 1048576 {
        push_fixed1(&mut s, file_size, 1024);
        s.append(" KB");
    } else {
        push_fixed2(&mut s, file_size, 1048576);
        s.append(" MB");
    }
    assert(s@ =~= readable_size(file_size));
    s
}

/// The sizes of an optimisation run.
#[derive(Debug, Clone)]
pub struct OptimizationResult {
    pub original_size: u64,
    pub optimized_size: u64,
    /// The reduction in percent, as the bit pattern of an `f64`.
    pub reduction_percent_bits: u64,
    pub elapsed_ms: u64,
}

impl OptimizationResult {
    /// The output is smaller than the input.
    pub fn is_improved(&self) -> (res: bool)
        ensures
            res == (self.optimized_size < self.original_size),
    {
        self.optimized_size < self.original_size
    }

    /// The bytes saved, zero when the output is not smaller.
    pub fn bytes_saved(&self) -> (res: u64)
        ensures
            res == if self.optimized_size < self.original_size {
                self.original_size - self.optimized_size
            } else {
                0
            },
    {
        if self.is_improved() {
            self.original_size - self.optimized_size
        } else {
            0
        }
    }
}


/// The decimal rendering of a number reads back as that number.
pub proof fn law_decimal_reads_back(n: nat)
    ensures
        digits_value(dec(n)) == n,
        dec(n).len() >= 1,
    decreases n,
{
    let d = dec(n);
    if n < 10 {
        assert(d.drop_last() =~= Seq::<char>::empty());
        assert((digit_char(n) as u32) == n + 48);
        assert(d.last() == digit_char(n));
        assert(digits_value(d) == digits_value(d.drop_last()) * 10 + ((d.last() as u32) - 48) as nat);
    } else {
        law_decimal_reads_back(n / 10);
        assert(d.drop_last() =~= dec(n / 10));
        assert((digit_char(n % 10) as u32) == n % 10 + 48);
        assert(d.last() == digit_char(n % 10));
        assert(digits_value(d) == digits_value(d.drop_last()) * 10 + ((d.last() as u32) - 48) as nat);
        assert(digits_value(d) == (n / 10) * 10 + n % 10);
    }
}

/// Every pass starts with gifsicle's strongest level, `-O3`.
pub proof fn law_passes_use_level_three(c: GifOptimizationConfig, pass: GifPass)
    ensures
        pass_args_spec(c, pass).len() >= 2,
        pass_args_spec(c, pass)[0] == "-O3"@,
{
}

/// The lossy pass hands gifsicle the configured lossy quality: one of its
/// arguments is `--lossy=` followed by digits that read back as that
/// quality.
pub proof fn law_lossy_pass_carries_quality(c: GifOptimizationConfig)
    ensures
        exists|i: int|
            0 <= i < pass_args_spec(c, GifPass::Lossy).len() && {
                let a = #[trigger] pass_args_spec(c, GifPass::Lossy)[i];
                &&& a.len() > 8
                &&& a.subrange(0, 8) == "--lossy="@
                &&& digits_value(a.subrange(8, a.len() as int)) == c.lossy_quality
            },
{
    reveal_strlit("--lossy=");
    law_decimal_reads_back(c.lossy_quality as nat);
    let a = pass_args_spec(c, GifPass::Lossy)[1];
    assert(a.subrange(0, 8) =~= "--lossy="@);
    assert(a.subrange(8, a.len() as int) =~= dec(c.lossy_quality as nat));
}

/// The colour pass asks gifsicle for 256 divided by the colour level
/// colours: the argument after `--colors` reads back as that number.
pub proof fn law_colors_pass_carries_palette(c: GifOptimizationConfig)
    requires
        c.color_optimization > 1,
    ensures
        pass_args_spec(c, GifPass::Colors)[1] == "--colors"@,
        digits_value(pass_args_spec(c, GifPass::Colors)[2]) == 256int / (c.color_optimization as int),
{
    law_decimal_reads_back((256int / (c.color_optimization as int)) as nat);
}


/// The lossy pass runs only when lossy compression is switched on, and the
/// colour pass only when the colour level asks for fewer colours.
pub proof fn law_optional_passes_follow_settings(c: GifOptimizationConfig, pass: GifPass, kept: bool)
    ensures
        next_pass(c, pass, kept) == Some(GifPass::Lossy) ==> c.lossy_compression,
        next_pass(c, pass, kept) == Some(GifPass::Colors) ==> c.color_optimization > 1,
        c.lossy_compression && (pass is Lossless || pass is Colors) && next_pass(c, pass, kept) != Some(
            GifPass::Colors,
        ) ==> next_pass(c, pass, kept) == Some(GifPass::Lossy),
{
}

} // verus!
